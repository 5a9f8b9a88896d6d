//! Export formats and the platform-ready export presets.
//!
//! A preset bundles everything a hosting platform expects: the container and
//! codec, the bitrate, the channel layout, and the loudness target to normalise
//! to. Only WAV is written natively; the other formats need the ffmpeg encoder.

use vstd::prelude::*;

use crate::dsp::loudness::{is_loudness_target, lemma_catalogue_ids_are_targets};
use crate::text::str_eq;

verus! {

/// Output container/codec for an export.
#[derive(Debug, Clone, Copy, PartialEq, Eq, Structural)]
pub enum ExportFormat {
    /// PCM WAV, written natively.
    Wav,
    /// MP3 (needs the encoder).
    Mp3,
    /// AAC (needs the encoder).
    Aac,
    /// FLAC (needs the encoder).
    Flac,
}

/// The file extension (no dot) of a format.
pub open spec fn extension_of(f: ExportFormat) -> Seq<char> {
    match f {
        ExportFormat::Wav => "wav"@,
        ExportFormat::Mp3 => "mp3"@,
        ExportFormat::Aac => "m4a"@,
        ExportFormat::Flac => "flac"@,
    }
}

/// Whether writing a format needs the encoder (everything but WAV).
pub open spec fn needs_encoder(f: ExportFormat) -> bool {
    f != ExportFormat::Wav
}

impl ExportFormat {
    /// File extension (no dot).
    pub fn extension(self) -> (e: &'static str)
        ensures
            e@ == extension_of(self),
    {
        match self {
            ExportFormat::Wav => "wav",
            ExportFormat::Mp3 => "mp3",
            ExportFormat::Aac => "m4a",
            ExportFormat::Flac => "flac",
        }
    }

    /// Whether this format needs the ffmpeg encoder. Only WAV is native.
    pub fn requires_encoder(self) -> (b: bool)
        ensures
            b == needs_encoder(self),
    {
        match self {
            ExportFormat::Wav => false,
            _ => true,
        }
    }
}

/// A platform-ready export preset, as the preset picker shows it.
#[derive(Debug, Clone, PartialEq)]
pub struct ExportPresetInfo {
    pub id: String,
    pub label: String,
    pub format: ExportFormat,
    /// Encoder bitrate (kbps); `None` for lossless/PCM formats.
    pub bitrate_kbps: Option<u32>,
    /// 1 = mono, 2 = stereo.
    pub channels: u16,
    /// The loudness target id to normalise to.
    pub target_id: String,
    pub description: String,
    /// True when writing this format needs the encoder (not WAV).
    pub requires_encoder: bool,
}

/// One entry of the preset catalogue, as plain values.
pub struct PresetEntry {
    pub id: Seq<char>,
    pub label: Seq<char>,
    pub format: ExportFormat,
    pub bitrate_kbps: Option<u32>,
    pub channels: u16,
    pub target_id: Seq<char>,
    pub description: Seq<char>,
}

/// The export preset catalogue, in picker order.
pub open spec fn preset_catalogue() -> Seq<PresetEntry> {
    seq![
        PresetEntry {
            id: "spotify"@,
            label: "Spotify for Podcasters"@,
            format: ExportFormat::Mp3,
            bitrate_kbps: Some(192u32),
            channels: 2u16,
            target_id: "spotify"@,
            description: "192 kbps MP3, stereo, -14 LUFS. Ready to upload."@,
        },
        PresetEntry {
            id: "apple-podcasts"@,
            label: "Apple Podcasts"@,
            format: ExportFormat::Mp3,
            bitrate_kbps: Some(192u32),
            channels: 2u16,
            target_id: "apple-podcasts"@,
            description: "192 kbps MP3, stereo, -16 LUFS."@,
        },
        PresetEntry {
            id: "youtube"@,
            label: "YouTube (audio)"@,
            format: ExportFormat::Mp3,
            bitrate_kbps: Some(192u32),
            channels: 2u16,
            target_id: "youtube"@,
            description: "192 kbps MP3, stereo, -14 LUFS."@,
        },
        PresetEntry {
            id: "general-podcast"@,
            label: "General podcast host"@,
            format: ExportFormat::Mp3,
            bitrate_kbps: Some(128u32),
            channels: 1u16,
            target_id: "apple-podcasts"@,
            description: "128 kbps mono, -16 LUFS — safe defaults for any host."@,
        },
        PresetEntry {
            id: "wav-archival"@,
            label: "WAV (archival)"@,
            format: ExportFormat::Wav,
            bitrate_kbps: None,
            channels: 2u16,
            target_id: "apple-podcasts"@,
            description: "24-bit WAV, stereo, -16 LUFS. Pristine, for re-editing."@,
        },
    ]
}

/// `info` shows catalogue entry `e`.
pub open spec fn shows_entry(info: ExportPresetInfo, e: PresetEntry) -> bool {
    &&& info.id@ == e.id
    &&& info.label@ == e.label
    &&& info.format == e.format
    &&& info.bitrate_kbps == e.bitrate_kbps
    &&& info.channels == e.channels
    &&& info.target_id@ == e.target_id
    &&& info.description@ == e.description
    &&& info.requires_encoder == needs_encoder(e.format)
}

fn make_info(
    id: &str,
    label: &str,
    format: ExportFormat,
    bitrate_kbps: Option<u32>,
    channels: u16,
    target_id: &str,
    description: &str,
) -> (info: ExportPresetInfo)
    ensures
        info.id@ == id@,
        info.label@ == label@,
        info.format == format,
        info.bitrate_kbps == bitrate_kbps,
        info.channels == channels,
        info.target_id@ == target_id@,
        info.description@ == description@,
        info.requires_encoder == needs_encoder(format),
{
    ExportPresetInfo {
        id: id.to_string(),
        label: label.to_string(),
        format,
        bitrate_kbps,
        channels,
        target_id: target_id.to_string(),
        description: description.to_string(),
        requires_encoder: format.requires_encoder(),
    }
}

/// Catalogue entry `i`.
fn preset_at(i: usize) -> (info: ExportPresetInfo)
    requires
        i < 5,
    ensures
        shows_entry(info, preset_catalogue()[i as int]),
{
    if i == 0 {
        make_info(
            "spotify",
            "Spotify for Podcasters",
            ExportFormat::Mp3,
            Some(192),
            2,
            "spotify",
            "192 kbps MP3, stereo, -14 LUFS. Ready to upload.",
        )
    } else if i == 1 {
        make_info(
            "apple-podcasts",
            "Apple Podcasts",
            ExportFormat::Mp3,
            Some(192),
            2,
            "apple-podcasts",
            "192 kbps MP3, stereo, -16 LUFS.",
        )
    } else if i == 2 {
        make_info(
            "youtube",
            "YouTube (audio)",
            ExportFormat::Mp3,
            Some(192),
            2,
            "youtube",
            "192 kbps MP3, stereo, -14 LUFS.",
        )
    } else if i == 3 {
        make_info(
            "general-podcast",
            "General podcast host",
            ExportFormat::Mp3,
            Some(128),
            1,
            "apple-podcasts",
            "128 kbps mono, -16 LUFS — safe defaults for any host.",
        )
    } else {
        make_info(
            "wav-archival",
            "WAV (archival)",
            ExportFormat::Wav,
            None,
            2,
            "apple-podcasts",
            "24-bit WAV, stereo, -16 LUFS. Pristine, for re-editing.",
        )
    }
}

/// All export presets, in picker order.
pub fn export_presets() -> (v: Vec<ExportPresetInfo>)
    ensures
        v@.len() == preset_catalogue().len(),
        forall|i: int| 0 <= i < v@.len() ==> shows_entry(#[trigger] v@[i], preset_catalogue()[i]),
        forall|i: int| 0 <= i < v@.len() ==> is_loudness_target(#[trigger] v@[i].target_id@),
{
    proof {
        lemma_catalogue_ids_are_targets();
    }
    let mut v: Vec<ExportPresetInfo> = Vec::new();
    let mut i: usize = 0;
    while i < 5
        invariant
            i <= 5,
            v@.len() == i,
            forall|k: int| 0 <= k < i ==> shows_entry(#[trigger] v@[k], preset_catalogue()[k]),
            forall|k: int| 0 <= k < i ==> is_loudness_target(#[trigger] v@[k].target_id@),
            is_loudness_target("spotify"@),
            is_loudness_target("apple-podcasts"@),
            is_loudness_target("youtube"@),
        decreases 5 - i,
    {
        v.push(preset_at(i));
        i = i + 1;
    }
    v
}

/// Look up an export preset by id.
pub fn preset_by_id(id: &str) -> (r: Option<ExportPresetInfo>)
    ensures
        r is None <==> forall|i: int|
            0 <= i < preset_catalogue().len() ==> #[trigger] preset_catalogue()[i].id != id@,
        r matches Some(info) ==> exists|i: int|
            0 <= i < preset_catalogue().len() && preset_catalogue()[i].id == id@ && shows_entry(
                info,
                #[trigger] preset_catalogue()[i],
            ),
{
    let mut i: usize = 0;
    while i < 5
        invariant
            i <= 5,
            forall|k: int| 0 <= k < i ==> #[trigger] preset_catalogue()[k].id != id@,
        decreases 5 - i,
    {
        let info = preset_at(i);
        if str_eq(info.id.as_str(), id) {
            return Some(info);
        }
        i = i + 1;
    }
    None
}

} // verus!

verus! {

/// Export preset ids are unique, so looking a preset up by id (see
/// [`preset_by_id`]) finds exactly the catalogue entry that carries it.
pub proof fn lemma_export_preset_ids_unique(i: int, j: int)
    requires
        0 <= i < preset_catalogue().len(),
        0 <= j < preset_catalogue().len(),
        preset_catalogue()[i].id == preset_catalogue()[j].id,
    ensures
        i == j,
{
    reveal_strlit("spotify");
    reveal_strlit("apple-podcasts");
    reveal_strlit("youtube");
    reveal_strlit("general-podcast");
    reveal_strlit("wav-archival");
    let c = preset_catalogue();
    if i != j {
        assert(c[i].id[0] != c[j].id[0] || c[i].id.len() != c[j].id.len());
    }
}

} // verus!
