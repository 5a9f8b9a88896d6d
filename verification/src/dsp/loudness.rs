//! The platform loudness targets, by id. A target pairs an integrated
//! loudness with a true-peak ceiling; those levels are measured and applied
//! in floating point outside the library. What the library keeps is the
//! catalogue of ids, so that every preset that names a target is held to name
//! one that exists.

use vstd::prelude::*;

verus! {

/// The ids of the platform loudness targets, in catalogue order.
pub open spec fn loudness_target_ids() -> Seq<Seq<char>> {
    seq!["spotify"@, "apple-podcasts"@, "youtube"@, "broadcast-eu"@]
}

/// `id` names one of the platform loudness targets.
pub open spec fn is_loudness_target(id: Seq<char>) -> bool {
    loudness_target_ids().contains(id)
}

/// The ids of the platform loudness targets, in catalogue order.
pub fn target_ids() -> (v: Vec<&'static str>)
    ensures
        v@.len() == loudness_target_ids().len(),
        forall|i: int| 0 <= i < v@.len() ==> #[trigger] v@[i]@ == loudness_target_ids()[i],
{
    let mut v: Vec<&'static str> = Vec::new();
    v.push("spotify");
    v.push("apple-podcasts");
    v.push("youtube");
    v.push("broadcast-eu");
    v
}

/// Each catalogue id names a loudness target.
pub proof fn lemma_catalogue_ids_are_targets()
    ensures
        is_loudness_target("spotify"@),
        is_loudness_target("apple-podcasts"@),
        is_loudness_target("youtube"@),
        is_loudness_target("broadcast-eu"@),
{
    let ids = loudness_target_ids();
    assert(ids[0] == "spotify"@);
    assert(ids[1] == "apple-podcasts"@);
    assert(ids[2] == "youtube"@);
    assert(ids[3] == "broadcast-eu"@);
}

} // verus!
