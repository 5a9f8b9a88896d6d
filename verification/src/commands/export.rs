//! The export's planning: which tracks bounce and which of them play muted,
//! when there is nothing to export, and how the exported file is named.

use vstd::prelude::*;

use crate::error::AppError;
use crate::text::{lemma_trim_is_slice, chars_of, is_alphanumeric, push_char, trim, trim_spec, unicode_alphanumeric};

verus! {

/// A character kept in a file stem as is: alphanumeric, `-`, `_` or a space;
/// anything else becomes `_`.
pub open spec fn stem_char(c: char) -> char {
    if unicode_alphanumeric(c) || c == '-' || c == '_' || c == ' ' {
        c
    } else {
        '_'
    }
}

/// The file-system-safe stem for a project name: unsafe characters replaced
/// by `_`, surrounding white space trimmed, and `export` when nothing is left.
pub open spec fn safe_stem(name: Seq<char>) -> Seq<char> {
    let t = trim_spec(name.map_values(|c: char| stem_char(c)));
    if t.len() == 0 {
        "export"@
    } else {
        t
    }
}

/// Make a file-system-safe file stem from a project name.
pub fn sanitize_stem(name: &str) -> (s: String)
    ensures
        s@ == safe_stem(name@),
{
    let cs = chars_of(name);
    let mut cleaned = String::new();
    let mut i: usize = 0;
    while i < cs.len()
        invariant
            cs@ == name@,
            i <= cs@.len(),
            cleaned@ == name@.take(i as int).map_values(|c: char| stem_char(c)),
        decreases cs@.len() - i,
    {
        let c = cs[i];
        let keep = is_alphanumeric(c) || c == '-' || c == '_' || c == ' ';
        let out = if keep { c } else { '_' };
        push_char(&mut cleaned, out);
        assert(name@.take(i + 1).map_values(|c: char| stem_char(c)) =~= name@.take(
            i as int,
        ).map_values(|c: char| stem_char(c)).push(out));
        i = i + 1;
    }
    assert(name@.take(cs@.len() as int) =~= name@);
    let trimmed = trim(cleaned.as_str());
    if trimmed.unicode_len() == 0 {
        "export".to_string()
    } else {
        trimmed
    }
}

/// A character a file stem may hold: alphanumeric, `-`, `_` or a space.
pub open spec fn stem_safe(c: char) -> bool {
    unicode_alphanumeric(c) || c == '-' || c == '_' || c == ' '
}

/// An exported file's stem is never empty, and is either the `export`
/// fallback or made only of file-system-safe characters.
pub proof fn lemma_stem_is_file_system_safe(name: Seq<char>)
    ensures
        safe_stem(name).len() > 0,
        safe_stem(name) == "export"@ || forall|k: int|
            0 <= k < safe_stem(name).len() ==> #[trigger] stem_safe(safe_stem(name)[k]),
{
    let mapped = name.map_values(|c: char| stem_char(c));
    let t = trim_spec(mapped);
    if t.len() > 0 {
        lemma_trim_is_slice(mapped);
        let (i, j) = choose|i: int, j: int|
            0 <= i <= j <= mapped.len() && t == mapped.subrange(i, j);
        assert forall|k: int| 0 <= k < t.len() implies #[trigger] stem_safe(t[k]) by {
            assert(t[k] == mapped[i + k]);
            assert(mapped[i + k] == stem_char(name[i + k]));
        }
    } else {
        reveal_strlit("export");
    }
}

/// A track of the open project as the mix planner sees it.
#[derive(Debug, Clone, Copy, PartialEq, Eq)]
pub struct TrackMix {
    pub mute: bool,
    pub solo: bool,
    /// How many clips the track has on the timeline.
    pub clip_count: usize,
}

/// Some track is soloed.
pub open spec fn any_solo(tracks: Seq<TrackMix>) -> bool {
    exists|i: int| 0 <= i < tracks.len() && #[trigger] tracks[i].solo
}

/// A track plays silent when it is muted, or when another track is soloed
/// and it is not.
pub open spec fn silenced(t: TrackMix, soloed: bool) -> bool {
    t.mute || (soloed && !t.solo)
}

/// What the mix does with a track: `None` when it has no clips (it is left
/// out), otherwise whether it plays silent.
pub open spec fn mix_role(tracks: Seq<TrackMix>, i: int) -> Option<bool> {
    if tracks[i].clip_count == 0 {
        None
    } else {
        Some(silenced(tracks[i], any_solo(tracks)))
    }
}

/// Plan the mix of the project's tracks, one entry per track in order: left
/// out when it has no clips, otherwise played or silenced by mute and solo.
pub fn mix_plan(tracks: &Vec<TrackMix>) -> (plan: Vec<Option<bool>>)
    ensures
        plan@.len() == tracks@.len(),
        forall|i: int| 0 <= i < tracks@.len() ==> #[trigger] plan@[i] == mix_role(tracks@, i),
{
    let n = tracks.len();
    let mut soloed = false;
    let mut i: usize = 0;
    while i < n
        invariant
            n == tracks@.len(),
            i <= n,
            soloed <==> exists|k: int| 0 <= k < i && #[trigger] tracks@[k].solo,
        decreases n - i,
    {
        if tracks[i].solo {
            soloed = true;
        }
        i = i + 1;
    }
    let mut plan: Vec<Option<bool>> = Vec::new();
    let mut i: usize = 0;
    while i < n
        invariant
            n == tracks@.len(),
            i <= n,
            soloed == any_solo(tracks@),
            plan@.len() == i,
            forall|k: int| 0 <= k < i ==> #[trigger] plan@[k] == mix_role(tracks@, k),
        decreases n - i,
    {
        let t = tracks[i];
        if t.clip_count == 0 {
            plan.push(None);
        } else {
            plan.push(Some(t.mute || (soloed && !t.solo)));
        }
        i = i + 1;
    }
    plan
}

/// The message when the project has no clips at all.
pub open spec fn nothing_to_export_message() -> Seq<char> {
    "nothing to export yet — import or record audio, then arrange clips on the timeline"@
}

/// Refuse an export of a project with no clips on its timeline.
pub fn check_regions_to_export(region_count: usize) -> (r: Result<(), AppError>)
    ensures
        r is Ok <==> region_count > 0,
        r matches Err(e) ==> (e matches AppError::Validation(m) && m@
            == nothing_to_export_message()),
{
    if region_count == 0 {
        return Err(
            AppError::Validation(
                "nothing to export yet — import or record audio, then arrange clips on the timeline".to_string(),
            ),
        );
    }
    Ok(())
}

/// Some track of the plan bounces and plays.
pub open spec fn some_audible(plan: Seq<Option<bool>>) -> bool {
    exists|i: int| 0 <= i < plan.len() && #[trigger] plan[i] == Some(false)
}

/// The message when every track is muted or empty.
pub open spec fn nothing_audible_message() -> Seq<char> {
    "nothing audible to export — every track is muted or empty"@
}

/// Refuse an export in which no track would be heard.
pub fn check_export_audible(plan: &Vec<Option<bool>>) -> (r: Result<(), AppError>)
    ensures
        r is Ok <==> some_audible(plan@),
        r matches Err(e) ==> (e matches AppError::Validation(m) && m@ == nothing_audible_message()),
{
    let mut i: usize = 0;
    while i < plan.len()
        invariant
            i <= plan@.len(),
            forall|k: int| 0 <= k < i ==> #[trigger] plan@[k] != Some(false),
        decreases plan@.len() - i,
    {
        if plan[i] == Some(false) {
            return Ok(());
        }
        i = i + 1;
    }
    Err(AppError::Validation("nothing audible to export — every track is muted or empty".to_string()))
}

/// Solo isolates: when some track is soloed, exactly the soloed, unmuted
/// tracks with clips are heard.
pub proof fn lemma_solo_isolates(tracks: Seq<TrackMix>, i: int)
    requires
        0 <= i < tracks.len(),
        any_solo(tracks),
        tracks[i].clip_count > 0,
    ensures
        mix_role(tracks, i) == Some(false) <==> (tracks[i].solo && !tracks[i].mute),
{
}

/// With nothing soloed, a track with clips is heard exactly when it is not
/// muted.
pub proof fn lemma_no_solo_plays_the_unmuted(tracks: Seq<TrackMix>, i: int)
    requires
        0 <= i < tracks.len(),
        !any_solo(tracks),
        tracks[i].clip_count > 0,
    ensures
        mix_role(tracks, i) == Some(tracks[i].mute),
{
}

} // verus!
