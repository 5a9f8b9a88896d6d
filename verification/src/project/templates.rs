//! Quick-start templates: projects that already have the right tracks, colours
//! and input assignments. Mic tracks get a 1-based interface input; music-bed
//! tracks have none.

use vstd::prelude::*;

use crate::error::AppError;
use crate::text::str_eq;

verus! {

/// The track colour palette, cycled across a template's tracks.
pub open spec fn palette() -> Seq<Seq<char>> {
    seq![
        "#D4A73A"@,
        "#3A8DD4"@,
        "#4CB97A"@,
        "#D47A3A"@,
        "#9B6BD4"@,
        "#D44A6B"@,
        "#3AC2C2"@,
        "#B9A24C"@,
    ]
}

/// The colour of a template's `i`-th track.
pub open spec fn color_of(i: int) -> Seq<char> {
    palette()[i % 8]
}

/// The colour of a template's `i`-th track.
pub fn color_for(i: usize) -> (c: String)
    ensures
        c@ == color_of(i as int),
{
    let k = i % 8;
    let s = if k == 0 {
        "#D4A73A"
    } else if k == 1 {
        "#3A8DD4"
    } else if k == 2 {
        "#4CB97A"
    } else if k == 3 {
        "#D47A3A"
    } else if k == 4 {
        "#9B6BD4"
    } else if k == 5 {
        "#D44A6B"
    } else if k == 6 {
        "#3AC2C2"
    } else {
        "#B9A24C"
    };
    s.to_string()
}

/// One track of a template in the gallery.
#[derive(Debug, Clone, PartialEq)]
pub struct TemplateTrackInfo {
    pub name: String,
    pub color: String,
    /// 1-based interface input channel, or `None` for a music/bed track.
    pub input_assignment: Option<i32>,
}

/// A template as the gallery shows it.
#[derive(Debug, Clone, PartialEq)]
pub struct TemplateInfo {
    pub id: String,
    pub label: String,
    pub description: String,
    pub channel_count: i32,
    /// How many of the tracks are mics.
    pub mic_count: i32,
    pub tracks: Vec<TemplateTrackInfo>,
}

/// One template of the catalogue, as plain values.
pub struct TemplateEntry {
    pub id: Seq<char>,
    pub label: Seq<char>,
    pub description: Seq<char>,
    /// Interface input channels the template expects.
    pub channel_count: i32,
    pub track_names: Seq<Seq<char>>,
    pub track_inputs: Seq<Option<i32>>,
}

/// The number of mic tracks (tracks with an input) in `inputs`.
pub open spec fn mic_count_of(inputs: Seq<Option<i32>>) -> int
    decreases inputs.len(),
{
    if inputs.len() == 0 {
        0
    } else {
        mic_count_of(inputs.drop_last()) + if inputs.last() is Some {
            1int
        } else {
            0int
        }
    }
}

/// The input channels of the mic tracks of `inputs`, in track order.
pub open spec fn mic_inputs(inputs: Seq<Option<i32>>) -> Seq<i32>
    decreases inputs.len(),
{
    if inputs.len() == 0 {
        Seq::empty()
    } else {
        match inputs.last() {
            Some(c) => mic_inputs(inputs.drop_last()).push(c),
            None => mic_inputs(inputs.drop_last()),
        }
    }
}

/// The template catalogue, in gallery order.
pub open spec fn gallery() -> Seq<TemplateEntry> {
    seq![
        TemplateEntry {
            id: "solo"@,
            label: "Solo podcast"@,
            description: "One host, a music bed and a jingle slot."@,
            channel_count: 1,
            track_names: seq!["Host"@, "Music bed"@],
            track_inputs: seq![Some(1i32), None],
        },
        TemplateEntry {
            id: "two-person"@,
            label: "Two-person conversation"@,
            description: "Host and guest, music bed, jingle slots."@,
            channel_count: 2,
            track_names: seq!["Host"@, "Guest"@, "Music bed"@],
            track_inputs: seq![Some(1i32), Some(2i32), None],
        },
        TemplateEntry {
            id: "panel"@,
            label: "Panel discussion"@,
            description: "Three to four voices with auto-mute defaults."@,
            channel_count: 4,
            track_names: seq!["Host"@, "Guest 1"@, "Guest 2"@, "Guest 3"@, "Music bed"@],
            track_inputs: seq![Some(1i32), Some(2i32), Some(3i32), Some(4i32), None],
        },
        TemplateEntry {
            id: "roundtable"@,
            label: "Roundtable"@,
            description: "Five to eight voices with smart leveling presets."@,
            channel_count: 6,
            track_names: seq![
                "Mic 1"@,
                "Mic 2"@,
                "Mic 3"@,
                "Mic 4"@,
                "Mic 5"@,
                "Mic 6"@,
                "Music bed"@,
            ],
            track_inputs: seq![
                Some(1i32),
                Some(2i32),
                Some(3i32),
                Some(4i32),
                Some(5i32),
                Some(6i32),
                None,
            ],
        },
        TemplateEntry {
            id: "sermon"@,
            label: "Sermon excerpt"@,
            description: "A single preaching mic with intro/outro music."@,
            channel_count: 1,
            track_names: seq!["Sermon"@, "Intro / outro music"@],
            track_inputs: seq![Some(1i32), None],
        },
        TemplateEntry {
            id: "interview"@,
            label: "Interview"@,
            description: "Host and guest on separate tracks for differentiated processing."@,
            channel_count: 2,
            track_names: seq!["Host"@, "Guest"@, "Music bed"@],
            track_inputs: seq![Some(1i32), Some(2i32), None],
        },
        TemplateEntry {
            id: "worship-recap"@,
            label: "Worship recap"@,
            description: "Music-heavy episode with extra bed tracks."@,
            channel_count: 2,
            track_names: seq!["Host"@, "Co-host"@, "Worship bed"@, "Music bed"@],
            track_inputs: seq![Some(1i32), Some(2i32), None, None],
        },
        TemplateEntry {
            id: "blank"@,
            label: "Blank"@,
            description: "Start from scratch."@,
            channel_count: 2,
            track_names: Seq::empty(),
            track_inputs: Seq::empty(),
        },
    ]
}

/// `t` is the gallery track list of a template with the given names and inputs.
pub open spec fn shows_tracks(
    t: Seq<TemplateTrackInfo>,
    names: Seq<Seq<char>>,
    inputs: Seq<Option<i32>>,
) -> bool {
    &&& t.len() == names.len()
    &&& t.len() == inputs.len()
    &&& forall|k: int|
        0 <= k < t.len() ==> {
            &&& (#[trigger] t[k]).name@ == names[k]
            &&& t[k].color@ == color_of(k)
            &&& t[k].input_assignment == inputs[k]
        }
}

/// `info` shows catalogue entry `e`.
pub open spec fn shows_template(info: TemplateInfo, e: TemplateEntry) -> bool {
    &&& info.id@ == e.id
    &&& info.label@ == e.label
    &&& info.description@ == e.description
    &&& info.channel_count == e.channel_count
    &&& info.mic_count == mic_count_of(e.track_inputs)
    &&& shows_tracks(info.tracks@, e.track_names, e.track_inputs)
}

fn make_tracks(names: &[&str], inputs: &[Option<i32>]) -> (r: (Vec<TemplateTrackInfo>, i32))
    requires
        names@.len() == inputs@.len(),
        names@.len() < 1000,
    ensures
        shows_tracks(r.0@, names@.map_values(|s: &str| s@), inputs@),
        r.1 == mic_count_of(inputs@),
{
    let mut v: Vec<TemplateTrackInfo> = Vec::new();
    let mut mics: i32 = 0;
    let mut i: usize = 0;
    let n = names.len();
    while i < n
        invariant
            n == names@.len(),
            n == inputs@.len(),
            n < 1000,
            i <= n,
            0 <= mics <= i,
            mics == mic_count_of(inputs@.take(i as int)),
            shows_tracks(
                v@,
                names@.map_values(|s: &str| s@).take(i as int),
                inputs@.take(i as int),
            ),
        decreases n - i,
    {
        let input = inputs[i];
        v.push(
            TemplateTrackInfo {
                name: names[i].to_string(),
                color: color_for(i),
                input_assignment: input,
            },
        );
        if input.is_some() {
            mics = mics + 1;
        }
        proof {
            assert(inputs@.take(i + 1).drop_last() =~= inputs@.take(i as int));
        }
        i = i + 1;
    }
    proof {
        assert(inputs@.take(n as int) =~= inputs@);
        assert(names@.map_values(|s: &str| s@).take(n as int) =~= names@.map_values(|s: &str| s@));
    }
    (v, mics)
}

fn make_template(
    id: &str,
    label: &str,
    description: &str,
    channel_count: i32,
    names: &[&str],
    inputs: &[Option<i32>],
) -> (t: TemplateInfo)
    requires
        names@.len() == inputs@.len(),
        names@.len() < 1000,
    ensures
        t.id@ == id@,
        t.label@ == label@,
        t.description@ == description@,
        t.channel_count == channel_count,
        t.mic_count == mic_count_of(inputs@),
        shows_tracks(t.tracks@, names@.map_values(|s: &str| s@), inputs@),
{
    let (tracks, mic_count) = make_tracks(names, inputs);
    TemplateInfo {
        id: id.to_string(),
        label: label.to_string(),
        description: description.to_string(),
        channel_count,
        mic_count,
        tracks,
    }
}

/// Catalogue entry `i`.
fn template_at(i: usize) -> (t: TemplateInfo)
    requires
        i < 8,
    ensures
        shows_template(t, gallery()[i as int]),
{
    let t = if i == 0 {
        make_template(
            "solo",
            "Solo podcast",
            "One host, a music bed and a jingle slot.",
            1,
            &["Host", "Music bed"],
            &[Some(1), None],
        )
    } else if i == 1 {
        make_template(
            "two-person",
            "Two-person conversation",
            "Host and guest, music bed, jingle slots.",
            2,
            &["Host", "Guest", "Music bed"],
            &[Some(1), Some(2), None],
        )
    } else if i == 2 {
        make_template(
            "panel",
            "Panel discussion",
            "Three to four voices with auto-mute defaults.",
            4,
            &["Host", "Guest 1", "Guest 2", "Guest 3", "Music bed"],
            &[Some(1), Some(2), Some(3), Some(4), None],
        )
    } else if i == 3 {
        make_template(
            "roundtable",
            "Roundtable",
            "Five to eight voices with smart leveling presets.",
            6,
            &["Mic 1", "Mic 2", "Mic 3", "Mic 4", "Mic 5", "Mic 6", "Music bed"],
            &[Some(1), Some(2), Some(3), Some(4), Some(5), Some(6), None],
        )
    } else if i == 4 {
        make_template(
            "sermon",
            "Sermon excerpt",
            "A single preaching mic with intro/outro music.",
            1,
            &["Sermon", "Intro / outro music"],
            &[Some(1), None],
        )
    } else if i == 5 {
        make_template(
            "interview",
            "Interview",
            "Host and guest on separate tracks for differentiated processing.",
            2,
            &["Host", "Guest", "Music bed"],
            &[Some(1), Some(2), None],
        )
    } else if i == 6 {
        make_template(
            "worship-recap",
            "Worship recap",
            "Music-heavy episode with extra bed tracks.",
            2,
            &["Host", "Co-host", "Worship bed", "Music bed"],
            &[Some(1), Some(2), None, None],
        )
    } else {
        make_template("blank", "Blank", "Start from scratch.", 2, &[], &[])
    };
    t
}

} // verus!

verus! {

/// All templates, in gallery order.
pub fn all() -> (v: Vec<TemplateInfo>)
    ensures
        v@.len() == gallery().len(),
        forall|i: int| 0 <= i < v@.len() ==> shows_template(#[trigger] v@[i], gallery()[i]),
{
    let mut v: Vec<TemplateInfo> = Vec::new();
    let mut i: usize = 0;
    while i < 8
        invariant
            i <= 8,
            v@.len() == i,
            forall|k: int| 0 <= k < i ==> shows_template(#[trigger] v@[k], gallery()[k]),
        decreases 8 - i,
    {
        v.push(template_at(i));
        i = i + 1;
    }
    v
}

/// The gallery position of the template with id `id`, if any.
fn find(id: &str) -> (r: Option<(usize, TemplateInfo)>)
    ensures
        r is None <==> forall|i: int| 0 <= i < gallery().len() ==> #[trigger] gallery()[i].id != id@,
        r matches Some(p) ==> p.0 < gallery().len() && gallery()[p.0 as int].id == id@
            && shows_template(p.1, gallery()[p.0 as int]),
{
    let mut i: usize = 0;
    while i < 8
        invariant
            i <= 8,
            forall|k: int| 0 <= k < i ==> #[trigger] gallery()[k].id != id@,
        decreases 8 - i,
    {
        let t = template_at(i);
        if str_eq(t.id.as_str(), id) {
            return Some((i, t));
        }
        i = i + 1;
    }
    None
}

/// The interface channel count a template expects, if the id is known.
pub fn channel_count(id: &str) -> (r: Option<i32>)
    ensures
        r is None <==> forall|i: int| 0 <= i < gallery().len() ==> #[trigger] gallery()[i].id != id@,
        r matches Some(c) ==> exists|i: int|
            0 <= i < gallery().len() && #[trigger] gallery()[i].id == id@ && c == gallery()[i].channel_count,
{
    match find(id) {
        Some((_, t)) => Some(t.channel_count),
        None => None,
    }
}

/// The message given for an unknown template id.
pub open spec fn unknown_template_message(id: Seq<char>) -> Seq<char> {
    "unknown template: "@ + id
}

/// The tracks a template materialises into a freshly created project, in
/// order (names, colours, input assignments), or a validation error for an
/// unknown template.
pub fn template_tracks(template_id: &str) -> (r: Result<Vec<TemplateTrackInfo>, AppError>)
    ensures
        r is Err <==> forall|i: int|
            0 <= i < gallery().len() ==> #[trigger] gallery()[i].id != template_id@,
        r matches Err(e) ==> (e matches AppError::Validation(m) && m@ == unknown_template_message(
            template_id@,
        )),
        r matches Ok(v) ==> exists|i: int|
            0 <= i < gallery().len() && #[trigger] gallery()[i].id == template_id@ && shows_tracks(
                v@,
                gallery()[i].track_names,
                gallery()[i].track_inputs,
            ),
{
    match find(template_id) {
        Some((_, t)) => Ok(t.tracks),
        None => {
            let mut m = "unknown template: ".to_string();
            m.append(template_id);
            Err(AppError::Validation(m))
        },
    }
}

/// Template ids are unique: every gallery entry is found again by its own id.
pub proof fn lemma_template_ids_unique(i: int, j: int)
    requires
        0 <= i < gallery().len(),
        0 <= j < gallery().len(),
        gallery()[i].id == gallery()[j].id,
    ensures
        i == j,
{
    reveal_strlit("solo");
    reveal_strlit("two-person");
    reveal_strlit("panel");
    reveal_strlit("roundtable");
    reveal_strlit("sermon");
    reveal_strlit("interview");
    reveal_strlit("worship-recap");
    reveal_strlit("blank");
    let g = gallery();
    if i != j {
        assert(g[i].id.len() != g[j].id.len() || g[i].id[0] != g[j].id[0]);
    }
}

/// Every template routes its mics to a gapless `1..=mic_count` of interface
/// inputs, in track order, never beyond the channel count it declares; and
/// the first track of every non-empty template is a mic on input 1.
pub proof fn lemma_template_inputs_contiguous(i: int)
    requires
        0 <= i < gallery().len(),
    ensures
        mic_inputs(gallery()[i].track_inputs) == Seq::new(
            mic_count_of(gallery()[i].track_inputs) as nat,
            |k: int| (k + 1) as i32,
        ),
        mic_count_of(gallery()[i].track_inputs) <= gallery()[i].channel_count,
        gallery()[i].track_names.len() == gallery()[i].track_inputs.len(),
{
    let g = gallery();
    let e = g[i];
    reveal_with_fuel(mic_inputs, 8);
    reveal_with_fuel(mic_count_of, 8);
    assert(mic_inputs(e.track_inputs) =~= Seq::new(
        mic_count_of(e.track_inputs) as nat,
        |k: int| (k + 1) as i32,
    ));
}

/// The gallery has eight templates, one of them the empty `blank`.
pub proof fn lemma_gallery_has_a_blank()
    ensures
        gallery().len() == 8,
        gallery()[7].id == "blank"@,
        gallery()[7].track_names.len() == 0,
{
}

} // verus!
