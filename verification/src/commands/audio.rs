//! The decisions the recording and playback commands make before any device
//! is opened: the checks on the request, which capture channel feeds which
//! track, and which tracks of a finished take get a clip.

use vstd::prelude::*;

use crate::error::AppError;
use crate::text::{decimal, decimal_string, str_eq};

verus! {

/// The message when the project has no clips at all.
pub open spec fn nothing_to_play_message() -> Seq<char> {
    "nothing to play yet — import or record audio, then arrange clips on the timeline"@
}

/// Refuse playback of a project with no clips on its timeline.
pub fn check_regions_to_play(region_count: usize) -> (r: Result<(), AppError>)
    ensures
        r is Ok <==> region_count > 0,
        r matches Err(e) ==> (e matches AppError::Validation(m) && m@ == nothing_to_play_message()),
{
    if region_count == 0 {
        return Err(
            AppError::Validation(
                "nothing to play yet — import or record audio, then arrange clips on the timeline".to_string(),
            ),
        );
    }
    Ok(())
}

/// Some track of the mix plan has clips.
pub open spec fn some_track_plays(plan: Seq<Option<bool>>) -> bool {
    exists|i: int| 0 <= i < plan.len() && #[trigger] plan[i] is Some
}

/// The message when no track has a clip whose audio could be found.
pub open spec fn nothing_audible_to_play_message() -> Seq<char> {
    "nothing audible to play — every track is muted or empty"@
}

/// Refuse playback when no track has clips to play. Silenced tracks still
/// count: they play as silence, so their mute can be lifted live.
pub fn check_tracks_to_play(plan: &Vec<Option<bool>>) -> (r: Result<(), AppError>)
    ensures
        r is Ok <==> some_track_plays(plan@),
        r matches Err(e) ==> (e matches AppError::Validation(m) && m@
            == nothing_audible_to_play_message()),
{
    let mut i: usize = 0;
    while i < plan.len()
        invariant
            i <= plan@.len(),
            forall|k: int| 0 <= k < i ==> !(#[trigger] plan@[k] is Some),
        decreases plan@.len() - i,
    {
        if plan[i].is_some() {
            return Ok(());
        }
        i = i + 1;
    }
    Err(AppError::Validation("nothing audible to play — every track is muted or empty".to_string()))
}

/// Refuse to start a recording while one is running.
pub fn check_not_recording(recording: bool) -> (r: Result<(), AppError>)
    ensures
        r is Ok <==> !recording,
        r matches Err(e) ==> (e matches AppError::Validation(m) && m@
            == "a recording is already in progress — stop it first"@),
{
    if recording {
        return Err(
            AppError::Validation("a recording is already in progress — stop it first".to_string()),
        );
    }
    Ok(())
}

/// The track id written by capture channel `i`: the project's `i`-th track,
/// or `ch<i>` for a channel beyond the last track.
pub open spec fn capture_id(track_ids: Seq<Seq<char>>, i: int) -> Seq<char> {
    if i < track_ids.len() {
        track_ids[i]
    } else {
        "ch"@ + decimal(i as nat)
    }
}

/// The character sequences of a list of strings.
pub open spec fn string_views(v: Seq<String>) -> Seq<Seq<char>> {
    v.map_values(|s: String| s@)
}

/// The tracks a new take records into, one per capture channel: as many
/// channels as asked for (one per project track by default); channel `i`
/// feeds the project's `i`-th track, and channels beyond the last track write
/// a file of their own. A project without tracks cannot record.
pub fn capture_track_ids(track_ids: &Vec<String>, channels: Option<u16>) -> (r: Result<
    Vec<String>,
    AppError,
>)
    ensures
        track_ids@.len() == 0 ==> (r matches Err(AppError::Validation(m)) && m@
            == "add at least one track before recording"@),
        track_ids@.len() > 0 ==> (r matches Ok(v) && v@.len() == (match channels {
            Some(c) => c as int,
            None => track_ids@.len() as int,
        }) && forall|i: int|
            0 <= i < v@.len() ==> #[trigger] v@[i]@ == capture_id(string_views(track_ids@), i)),
{
    if track_ids.len() == 0 {
        return Err(AppError::Validation("add at least one track before recording".to_string()));
    }
    let n: usize = match channels {
        Some(c) => c as usize,
        None => track_ids.len(),
    };
    let mut v: Vec<String> = Vec::new();
    let mut i: usize = 0;
    while i < n
        invariant
            i <= n,
            v@.len() == i,
            forall|k: int|
                0 <= k < i ==> #[trigger] v@[k]@ == capture_id(string_views(track_ids@), k),
        decreases n - i,
    {
        if i < track_ids.len() {
            v.push(track_ids[i].clone());
        } else {
            let mut id = "ch".to_string();
            let d = decimal_string(i as u64);
            id.append(d.as_str());
            v.push(id);
        }
        i = i + 1;
    }
    Ok(v)
}

/// Refuse to place a finished take in a project other than the one it was
/// recorded for (it stays on disk).
pub fn check_same_project(open_id: &str, recorded_id: &str) -> (r: Result<(), AppError>)
    ensures
        r is Ok <==> open_id@ == recorded_id@,
        r matches Err(e) ==> (e matches AppError::Validation(m) && m@
            == "the project changed while recording — the take was saved to disk but not placed"@),
{
    if !str_eq(open_id, recorded_id) {
        return Err(
            AppError::Validation(
                "the project changed while recording — the take was saved to disk but not placed".to_string(),
            ),
        );
    }
    Ok(())
}

/// Which of a finished take's tracks get a clip: those whose writer counted
/// at least one sample (a track with no count received none).
pub fn tracks_with_audio(track_count: usize, counts: &Vec<u64>) -> (v: Vec<bool>)
    ensures
        v@.len() == track_count,
        forall|i: int|
            0 <= i < track_count ==> #[trigger] v@[i] == (i < counts@.len() && counts@[i] > 0),
{
    let mut v: Vec<bool> = Vec::new();
    let mut i: usize = 0;
    while i < track_count
        invariant
            i <= track_count,
            v@.len() == i,
            forall|k: int| 0 <= k < i ==> #[trigger] v@[k] == (k < counts@.len() && counts@[k] > 0),
        decreases track_count - i,
    {
        v.push(i < counts.len() && counts[i] > 0);
        i = i + 1;
    }
    v
}

} // verus!
