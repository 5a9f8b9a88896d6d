//! The bundled mastering presets: each pairs a master chain with the platform
//! loudness target it normalises to.

use vstd::prelude::*;

use crate::dsp::loudness::{is_loudness_target, lemma_catalogue_ids_are_targets};
use crate::text::str_eq;

verus! {

/// A bundled mastering preset.
#[derive(Debug, Clone, Copy, PartialEq, Eq, Structural)]
pub enum MasterPreset {
    /// Light glue and a presence lift, normalised to Spotify (-14 LUFS).
    ConversationPodcast,
    /// Broader dynamics, normalised to Apple Podcasts (-16 LUFS).
    Sermon,
    /// Preserves dynamics, only light limiting, normalised to Spotify.
    MusicHeavy,
    /// Aggressive and bright, loud on purpose.
    LoudAndBright,
}

/// A mastering preset's stable id.
pub open spec fn master_id(p: MasterPreset) -> Seq<char> {
    match p {
        MasterPreset::ConversationPodcast => "conversation-podcast"@,
        MasterPreset::Sermon => "sermon"@,
        MasterPreset::MusicHeavy => "music-heavy"@,
        MasterPreset::LoudAndBright => "loud-and-bright"@,
    }
}

/// A mastering preset's display label.
pub open spec fn master_label(p: MasterPreset) -> Seq<char> {
    match p {
        MasterPreset::ConversationPodcast => "Conversation Podcast"@,
        MasterPreset::Sermon => "Sermon"@,
        MasterPreset::MusicHeavy => "Music-heavy"@,
        MasterPreset::LoudAndBright => "Loud & Bright"@,
    }
}

/// A mastering preset's one-line description.
pub open spec fn master_description(p: MasterPreset) -> Seq<char> {
    match p {
        MasterPreset::ConversationPodcast => "Light glue and a presence lift; even, consistent talk. → Spotify -14 LUFS."@,
        MasterPreset::Sermon => "Keeps the dynamics of a live room; gentle control. → Apple Podcasts -16 LUFS."@,
        MasterPreset::MusicHeavy => "Preserves dynamics, only catches peaks. For music-forward shows. → Spotify -14."@,
        MasterPreset::LoudAndBright => "Aggressive and bright — loud on purpose. Signals amateur; use sparingly. → -14."@,
    }
}

/// The loudness target id a mastering preset normalises to.
pub open spec fn master_target_id(p: MasterPreset) -> Seq<char> {
    match p {
        MasterPreset::Sermon => "apple-podcasts"@,
        _ => "spotify"@,
    }
}

/// The mastering presets in picker order.
pub open spec fn master_order() -> Seq<MasterPreset> {
    seq![
        MasterPreset::ConversationPodcast,
        MasterPreset::Sermon,
        MasterPreset::MusicHeavy,
        MasterPreset::LoudAndBright,
    ]
}

impl MasterPreset {
    /// Every mastering preset, in picker order.
    pub const ALL: [MasterPreset; 4] = [
        MasterPreset::ConversationPodcast,
        MasterPreset::Sermon,
        MasterPreset::MusicHeavy,
        MasterPreset::LoudAndBright,
    ];

    /// The stable id.
    pub fn id(self) -> (s: &'static str)
        ensures
            s@ == master_id(self),
    {
        match self {
            MasterPreset::ConversationPodcast => "conversation-podcast",
            MasterPreset::Sermon => "sermon",
            MasterPreset::MusicHeavy => "music-heavy",
            MasterPreset::LoudAndBright => "loud-and-bright",
        }
    }

    /// The display label.
    pub fn label(self) -> (s: &'static str)
        ensures
            s@ == master_label(self),
    {
        match self {
            MasterPreset::ConversationPodcast => "Conversation Podcast",
            MasterPreset::Sermon => "Sermon",
            MasterPreset::MusicHeavy => "Music-heavy",
            MasterPreset::LoudAndBright => "Loud & Bright",
        }
    }

    /// The one-line description.
    pub fn description(self) -> (s: &'static str)
        ensures
            s@ == master_description(self),
    {
        match self {
            MasterPreset::ConversationPodcast => "Light glue and a presence lift; even, consistent talk. → Spotify -14 LUFS.",
            MasterPreset::Sermon => "Keeps the dynamics of a live room; gentle control. → Apple Podcasts -16 LUFS.",
            MasterPreset::MusicHeavy => "Preserves dynamics, only catches peaks. For music-forward shows. → Spotify -14.",
            MasterPreset::LoudAndBright => "Aggressive and bright — loud on purpose. Signals amateur; use sparingly. → -14.",
        }
    }

    /// The platform loudness target id this preset normalises to.
    pub fn target_id(self) -> (s: &'static str)
        ensures
            s@ == master_target_id(self),
            is_loudness_target(s@),
    {
        proof {
            lemma_catalogue_ids_are_targets();
        }
        match self {
            MasterPreset::Sermon => "apple-podcasts",
            _ => "spotify",
        }
    }

    /// The preset at position `i` of the picker order.
    fn at(i: usize) -> (p: MasterPreset)
        requires
            i < 4,
        ensures
            p == master_order()[i as int],
    {
        if i == 0 {
            MasterPreset::ConversationPodcast
        } else if i == 1 {
            MasterPreset::Sermon
        } else if i == 2 {
            MasterPreset::MusicHeavy
        } else {
            MasterPreset::LoudAndBright
        }
    }

    /// The mastering preset with the given id, if any.
    pub fn from_id(id: &str) -> (r: Option<MasterPreset>)
        ensures
            r matches Some(p) ==> master_id(p) == id@,
            r is None <==> forall|p: MasterPreset| #[trigger] master_id(p) != id@,
    {
        let mut i: usize = 0;
        while i < 4
            invariant
                i <= 4,
                forall|k: int| 0 <= k < i ==> master_id(#[trigger] master_order()[k]) != id@,
            decreases 4 - i,
        {
            let p = MasterPreset::at(i);
            if str_eq(p.id(), id) {
                return Some(p);
            }
            i = i + 1;
        }
        assert forall|p: MasterPreset| #[trigger] master_id(p) != id@ by {
            match p {
                MasterPreset::ConversationPodcast => assert(master_id(master_order()[0]) != id@),
                MasterPreset::Sermon => assert(master_id(master_order()[1]) != id@),
                MasterPreset::MusicHeavy => assert(master_id(master_order()[2]) != id@),
                MasterPreset::LoudAndBright => assert(master_id(master_order()[3]) != id@),
            }
        }
        None
    }
}

/// Mastering-preset metadata for the picker.
#[derive(Debug, Clone, PartialEq)]
pub struct MasterPresetInfo {
    pub id: String,
    pub label: String,
    pub description: String,
    /// The loudness target id this preset normalises to.
    pub target_id: String,
}

/// `info` describes mastering preset `p`.
pub open spec fn describes_master(info: MasterPresetInfo, p: MasterPreset) -> bool {
    &&& info.id@ == master_id(p)
    &&& info.label@ == master_label(p)
    &&& info.description@ == master_description(p)
    &&& info.target_id@ == master_target_id(p)
}

/// All mastering presets, in picker order.
pub fn master_preset_infos() -> (v: Vec<MasterPresetInfo>)
    ensures
        v@.len() == 4,
        forall|i: int| 0 <= i < 4 ==> describes_master(#[trigger] v@[i], master_order()[i]),
        forall|i: int| 0 <= i < 4 ==> is_loudness_target(#[trigger] v@[i].target_id@),
{
    let mut v: Vec<MasterPresetInfo> = Vec::new();
    let mut i: usize = 0;
    while i < 4
        invariant
            i <= 4,
            v@.len() == i,
            forall|k: int| 0 <= k < i ==> describes_master(#[trigger] v@[k], master_order()[k]),
            forall|k: int| 0 <= k < i ==> is_loudness_target(#[trigger] v@[k].target_id@),
        decreases 4 - i,
    {
        let p = MasterPreset::at(i);
        v.push(
            MasterPresetInfo {
                id: p.id().to_string(),
                label: p.label().to_string(),
                description: p.description().to_string(),
                target_id: p.target_id().to_string(),
            },
        );
        i = i + 1;
    }
    v
}

/// Mastering preset ids are unique: looking a preset up by its own id gives
/// it back.
pub proof fn lemma_master_ids_unique(p: MasterPreset, q: MasterPreset)
    requires
        master_id(p) == master_id(q),
    ensures
        p == q,
{
    reveal_strlit("conversation-podcast");
    reveal_strlit("sermon");
    reveal_strlit("music-heavy");
    reveal_strlit("loud-and-bright");
    assert(master_id(MasterPreset::ConversationPodcast).len() == 20);
    assert(master_id(MasterPreset::Sermon).len() == 6);
    assert(master_id(MasterPreset::MusicHeavy).len() == 11);
    assert(master_id(MasterPreset::LoudAndBright).len() == 15);
    assert(master_id(p).len() == master_id(q).len());
}

} // verus!
