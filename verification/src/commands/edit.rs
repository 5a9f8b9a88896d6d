//! Planning an import of existing WAV files onto the timeline: the request's
//! checks and which track each file lands on.

use vstd::prelude::*;

use crate::error::AppError;
use crate::text::{decimal, push_decimal};

verus! {

/// The colours given to tracks an import creates, cycled.
pub open spec fn import_palette() -> Seq<Seq<char>> {
    seq!["#D4A73A"@, "#3A8DD4"@, "#4CB97A"@, "#D47A3A"@, "#9B6BD4"@, "#D44A6B"@]
}

/// Refuse an import of no files.
pub fn check_import_request(file_count: usize) -> (r: Result<(), AppError>)
    ensures
        r is Ok <==> file_count > 0,
        r matches Err(e) ==> (e matches AppError::Validation(m) && m@ == "no files to import"@),
{
    if file_count == 0 {
        return Err(AppError::Validation("no files to import".to_string()));
    }
    Ok(())
}

/// The message for a file whose sample rate is not the project's.
pub open spec fn rate_mismatch_message(file_name: Seq<char>, rate: u32, project_rate: u32) -> Seq<
    char,
> {
    file_name + " is "@ + decimal(rate as nat) + " Hz but the project is "@ + decimal(
        project_rate as nat,
    ) + " Hz — sample-rate conversion lands in a later phase"@
}

/// Refuse a file recorded at another rate than the project's.
pub fn check_import_rate(file_name: &str, rate: u32, project_rate: u32) -> (r: Result<(), AppError>)
    ensures
        r is Ok <==> rate == project_rate,
        r matches Err(e) ==> (e matches AppError::Validation(m) && m@ == rate_mismatch_message(
            file_name@,
            rate,
            project_rate,
        )),
{
    if rate == project_rate {
        return Ok(());
    }
    let mut m = file_name.to_string();
    m.append(" is ");
    push_decimal(&mut m, rate as u64);
    m.append(" Hz but the project is ");
    push_decimal(&mut m, project_rate as u64);
    m.append(" Hz — sample-rate conversion lands in a later phase");
    Err(AppError::Validation(m))
}

/// Where an imported file lands.
#[derive(Debug, Clone, Copy, PartialEq, Eq)]
pub enum ImportTarget {
    /// The project's existing track at this position.
    Existing(usize),
    /// A new track, appended, with this colour.
    New { color: &'static str },
}

/// `t` is where the `i`-th imported file lands.
pub open spec fn lands_at(t: ImportTarget, existing: nat, i: nat) -> bool {
    if i < existing {
        t == ImportTarget::Existing(i as usize)
    } else {
        t matches ImportTarget::New { color } && color@ == import_palette()[(i % 6) as int]
    }
}

fn import_color(i: usize) -> (c: &'static str)
    ensures
        c@ == import_palette()[(i % 6) as int],
{
    let k = i % 6;
    if k == 0 {
        "#D4A73A"
    } else if k == 1 {
        "#3A8DD4"
    } else if k == 2 {
        "#4CB97A"
    } else if k == 3 {
        "#D47A3A"
    } else if k == 4 {
        "#9B6BD4"
    } else {
        "#D44A6B"
    }
}

/// Resolve a target track for each of `file_count` imported files: reuse the
/// project's `existing` tracks in order, then append new ones.
pub fn import_targets(existing: usize, file_count: usize) -> (v: Vec<ImportTarget>)
    ensures
        v@.len() == file_count,
        forall|i: int| 0 <= i < file_count ==> #[trigger] lands_at(v@[i], existing as nat, i as nat),
{
    let mut v: Vec<ImportTarget> = Vec::new();
    let mut i: usize = 0;
    while i < file_count
        invariant
            i <= file_count,
            v@.len() == i,
            forall|k: int| 0 <= k < i ==> #[trigger] lands_at(v@[k], existing as nat, k as nat),
        decreases file_count - i,
    {
        if i < existing {
            v.push(ImportTarget::Existing(i));
        } else {
            v.push(ImportTarget::New { color: import_color(i) });
        }
        i = i + 1;
    }
    v
}

/// The name of a track an import creates: the file's stem, or `Track <n>`
/// (counting files from one) when the file has none.
pub open spec fn import_track_name_of(stem: Option<Seq<char>>, i: nat) -> Seq<char> {
    match stem {
        Some(s) => s,
        None => "Track "@ + decimal(i + 1),
    }
}

/// Name the track created for the `i`-th imported file.
pub fn import_track_name(stem: Option<String>, i: usize) -> (name: String)
    requires
        i < u64::MAX,
    ensures
        name@ == import_track_name_of(
            match stem {
                Some(s) => Some(s@),
                None => None,
            },
            i as nat,
        ),
{
    match stem {
        Some(s) => s,
        None => {
            let mut m = "Track ".to_string();
            push_decimal(&mut m, i as u64 + 1);
            m
        },
    }
}

} // verus!
