//! Rules of the `.scast` project folder: its file names, the manifest format
//! version this build reads, project-name validation, the recent-projects
//! list, and which database backups a prune removes.

use vstd::prelude::*;

use crate::error::AppError;
use crate::text::{decimal, parse_u64, parsed_u64, push_decimal, str_eq, trim, trim_spec};

verus! {

/// The project database inside a project folder.
pub const DB_FILE: &'static str = "project.sqlite";

/// The newest manifest format this build reads.
pub const FORMAT_VERSION: u32 = 1;

/// How many recent projects are remembered.
pub const MAX_RECENT: usize = 12;

/// How many database backups are kept.
pub const MAX_BACKUPS: usize = 5;

/// The message given for a manifest newer than this build reads.
pub open spec fn newer_format_message(v: u32) -> Seq<char> {
    "project format "@ + decimal(v as nat) + " is newer than this app supports"@
}

/// Accept a manifest's format version, or refuse one newer than this build
/// supports.
pub fn check_format_version(format_version: u32) -> (r: Result<(), AppError>)
    ensures
        format_version <= FORMAT_VERSION ==> r is Ok,
        format_version > FORMAT_VERSION ==> (r matches Err(AppError::Validation(m)) && m@
            == newer_format_message(format_version)),
{
    if format_version > FORMAT_VERSION {
        let mut m = "project format ".to_string();
        push_decimal(&mut m, format_version as u64);
        m.append(" is newer than this app supports");
        return Err(AppError::Validation(m));
    }
    Ok(())
}

/// A project name, trimmed; a name that is empty once trimmed is refused.
pub fn check_project_name(name: &str) -> (r: Result<String, AppError>)
    ensures
        trim_spec(name@).len() == 0 ==> (r matches Err(AppError::Validation(m)) && m@
            == "project name cannot be empty"@),
        trim_spec(name@).len() > 0 ==> (r matches Ok(s) && s@ == trim_spec(name@)),
{
    let t = trim(name);
    if t.unicode_len() == 0 {
        return Err(AppError::Validation("project name cannot be empty".to_string()));
    }
    Ok(t)
}

/// One entry of the recent-projects list.
#[derive(Debug, Clone, PartialEq)]
pub struct RecentProject {
    pub name: String,
    /// Absolute path to the `.scast` folder; the list holds each path once.
    pub path: String,
    /// Epoch milliseconds of the last open.
    pub last_opened: u64,
}

/// `list` without the entries for `path`, the rest in order.
pub open spec fn without_path(list: Seq<RecentProject>, path: Seq<char>) -> Seq<RecentProject> {
    list.filter(|e: RecentProject| e.path@ != path)
}

/// The recent list after `entry` was opened: it moves to the front, any older
/// entry for the same path goes, and at most `MAX_RECENT` entries stay.
pub open spec fn recent_after(list: Seq<RecentProject>, entry: RecentProject) -> Seq<
    RecentProject,
> {
    let all = seq![entry] + without_path(list, entry.path@);
    if all.len() <= 12 {
        all
    } else {
        all.take(12)
    }
}

fn duplicate_recent(e: &RecentProject) -> (c: RecentProject)
    ensures
        c == *e,
{
    RecentProject { name: e.name.clone(), path: e.path.clone(), last_opened: e.last_opened }
}

/// Record that a project was just opened: move it to the front, drop older
/// entries for the same path, keep the most recent `MAX_RECENT`.
pub fn push_recent_entry(list: &mut Vec<RecentProject>, entry: RecentProject)
    ensures
        final(list)@ == recent_after(old(list)@, entry),
{
    let ghost pred = |e: RecentProject| e.path@ != entry.path@;
    let mut kept: Vec<RecentProject> = Vec::new();
    kept.push(duplicate_recent(&entry));
    let mut i: usize = 0;
    while i < list.len()
        invariant
            i <= list@.len(),
            list@ == old(list)@,
            pred == (|e: RecentProject| e.path@ != entry.path@),
            kept@ == seq![entry] + list@.take(i as int).filter(pred),
        decreases list@.len() - i,
    {
        proof {
            reveal(Seq::filter);
            assert(list@.take(i as int + 1).drop_last() =~= list@.take(i as int));
        }
        if !str_eq(list[i].path.as_str(), entry.path.as_str()) {
            kept.push(duplicate_recent(&list[i]));
        }
        i = i + 1;
    }
    proof {
        assert(list@.take(list@.len() as int) =~= list@);
    }
    kept.truncate(MAX_RECENT);
    *list = kept;
}

/// No two entries of `list` are for the same path.
pub open spec fn distinct_paths(list: Seq<RecentProject>) -> bool {
    forall|i: int, j: int|
        0 <= i < j < list.len() ==> #[trigger] list[i].path@ != #[trigger] list[j].path@
}

/// Dropping a path's entries keeps the other paths distinct, and keeps only
/// entries of the list.
proof fn lemma_without_path_distinct(list: Seq<RecentProject>, path: Seq<char>)
    requires
        distinct_paths(list),
    ensures
        distinct_paths(without_path(list, path)),
        forall|k: int|
            0 <= k < without_path(list, path).len() ==> exists|i: int|
                0 <= i < list.len() && #[trigger] without_path(list, path)[k] == list[i],
    decreases list.len(),
{
    reveal(Seq::filter);
    if list.len() > 0 {
        let init = list.drop_last();
        let x = list.last();
        assert forall|i: int, j: int| 0 <= i < j < init.len() implies #[trigger] init[i].path@
            != #[trigger] init[j].path@ by {
            assert(init[i] == list[i] && init[j] == list[j]);
        }
        lemma_without_path_distinct(init, path);
        let w = without_path(init, path);
        assert(init.push(x) =~= list);
        if x.path@ != path {
            assert(without_path(list, path) == w.push(x));
            assert forall|k: int| 0 <= k < w.len() implies #[trigger] w[k].path@ != x.path@ by {
                let i = choose|i: int| 0 <= i < init.len() && w[k] == init[i];
                assert(init[i] == list[i]);
                assert(list[i].path@ != list[list.len() - 1].path@);
            }
            let f = w.push(x);
            assert forall|k: int|
                0 <= k < f.len() implies exists|i: int| 0 <= i < list.len() && #[trigger] f[k] == list[i] by {
                if k < w.len() {
                    let i = choose|i: int| 0 <= i < init.len() && w[k] == init[i];
                    assert(f[k] == list[i]);
                } else {
                    assert(f[k] == list[list.len() - 1]);
                }
            }
            assert forall|i: int, j: int| 0 <= i < j < f.len() implies #[trigger] f[i].path@
                != #[trigger] f[j].path@ by {
                if j == w.len() {
                    assert(f[i] == w[i]);
                    assert(w[i].path@ != x.path@);
                } else {
                    assert(f[i] == w[i] && f[j] == w[j]);
                }
            }
        } else {
            assert(without_path(list, path) == w);
            assert forall|k: int|
                0 <= k < w.len() implies exists|i: int| 0 <= i < list.len() && #[trigger] w[k] == list[i] by {
                let i = choose|i: int| 0 <= i < init.len() && w[k] == init[i];
                assert(init[i] == list[i]);
            }
        }
    }
}

/// The recent list keeps what it promises: the project just opened comes
/// first, at most `MAX_RECENT` entries stay, and no path is listed twice.
pub proof fn lemma_recent_first_bounded_distinct(list: Seq<RecentProject>, entry: RecentProject)
    requires
        distinct_paths(list),
    ensures
        recent_after(list, entry)[0] == entry,
        recent_after(list, entry).len() <= MAX_RECENT,
        distinct_paths(recent_after(list, entry)),
{
    lemma_without_path_distinct(list, entry.path@);
    let w = without_path(list, entry.path@);
    let all = seq![entry] + w;
    let pred = |e: RecentProject| e.path@ != entry.path@;
    assert forall|k: int| 0 <= k < w.len() implies #[trigger] w[k].path@ != entry.path@ by {
        list.lemma_filter_pred(pred, k);
    }
    assert forall|i: int, j: int| 0 <= i < j < all.len() implies #[trigger] all[i].path@
        != #[trigger] all[j].path@ by {
        assert(all[j] == w[j - 1]);
        if i > 0 {
            assert(all[i] == w[i - 1]);
        }
    }
    let r = recent_after(list, entry);
    assert forall|i: int, j: int| 0 <= i < j < r.len() implies #[trigger] r[i].path@
        != #[trigger] r[j].path@ by {
        assert(r[i] == all[i] && r[j] == all[j]);
    }
}

/// The stem of a backup file name: the name without its `.sqlite` extension,
/// when it has that extension (a name that is only `.sqlite` has none).
pub open spec fn backup_stem_of(name: Seq<char>) -> Option<Seq<char>> {
    if name.len() > 7 && name.subrange(name.len() - 7, name.len() as int) == ".sqlite"@ {
        Some(name.subrange(0, name.len() - 7))
    } else {
        None
    }
}

/// The stem of a backup file's name, or `None` for a file that is no backup.
pub fn backup_stem(file_name: &str) -> (r: Option<String>)
    ensures
        r matches Some(s) ==> backup_stem_of(file_name@) == Some(s@),
        r is None ==> backup_stem_of(file_name@) is None,
{
    let n = file_name.unicode_len();
    if n <= 7 {
        return None;
    }
    let ext = file_name.substring_char(n - 7, n);
    proof {
        reveal_strlit(".sqlite");
    }
    if !str_eq(ext, ".sqlite") {
        return None;
    }
    Some(file_name.substring_char(0, n - 7).to_string())
}

/// The epoch a backup's stem names; a stem that is no number counts as 0, the
/// oldest.
pub open spec fn epoch_of(stem: Seq<char>) -> u64 {
    match parsed_u64(stem) {
        Some(v) => v,
        None => 0,
    }
}

/// The epoch of a backup, read from its file stem.
pub fn backup_epoch(stem: &str) -> (e: u64)
    ensures
        e == epoch_of(stem@),
{
    match parse_u64(stem) {
        Some(v) => v,
        None => 0,
    }
}

/// Backup `j` is newer than backup `i`: a later epoch, or the same epoch and
/// listed later.
pub open spec fn newer(epochs: Seq<u64>, j: int, i: int) -> bool {
    epochs[j] > epochs[i] || (epochs[j] == epochs[i] && j > i)
}

/// How many of the first `upto` backups are newer than backup `i`.
pub open spec fn count_newer(epochs: Seq<u64>, i: int, upto: int) -> nat
    decreases upto,
{
    if upto <= 0 {
        0
    } else {
        count_newer(epochs, i, upto - 1) + if newer(epochs, upto - 1, i) {
            1nat
        } else {
            0nat
        }
    }
}

/// A prune removes backup `i` when at least `keep` backups are newer.
pub open spec fn pruned(epochs: Seq<u64>, keep: nat, i: int) -> bool {
    count_newer(epochs, i, epochs.len() as int) >= keep
}

/// Which backups a prune to the newest `keep` removes, one flag per backup in
/// the order given: the oldest by epoch go first, the later-listed of two
/// equal epochs counting as the newer.
pub fn prune_marks(epochs: &Vec<u64>, keep: usize) -> (marks: Vec<bool>)
    ensures
        marks@.len() == epochs@.len(),
        forall|i: int| 0 <= i < epochs@.len() ==> #[trigger] marks@[i] == pruned(epochs@, keep as nat, i),
{
    let n = epochs.len();
    let mut marks: Vec<bool> = Vec::new();
    let mut i: usize = 0;
    while i < n
        invariant
            n == epochs@.len(),
            i <= n,
            marks@.len() == i,
            forall|k: int| 0 <= k < i ==> #[trigger] marks@[k] == pruned(epochs@, keep as nat, k),
        decreases n - i,
    {
        let mut count: usize = 0;
        let mut j: usize = 0;
        while j < n
            invariant
                n == epochs@.len(),
                i < n,
                j <= n,
                count == count_newer(epochs@, i as int, j as int),
                count <= j,
            decreases n - j,
        {
            if epochs[j] > epochs[i] || (epochs[j] == epochs[i] && j > i) {
                count = count + 1;
            }
            j = j + 1;
        }
        marks.push(count >= keep);
        i = i + 1;
    }
    marks
}

/// Counting newer backups respects the order: when everything newer than `j`
/// is newer than `i`, `i` has at least as many newer backups, and one more for
/// each backup newer than `i` but not than `j`.
proof fn lemma_count_newer_mono(epochs: Seq<u64>, i: int, j: int, upto: int, m: int)
    requires
        0 <= upto <= epochs.len(),
        forall|k: int| 0 <= k < upto && newer(epochs, k, j) ==> #[trigger] newer(epochs, k, i),
    ensures
        count_newer(epochs, j, upto) <= count_newer(epochs, i, upto),
        0 <= m < upto && newer(epochs, m, i) && !newer(epochs, m, j) ==> count_newer(epochs, j, upto)
            + 1 <= count_newer(epochs, i, upto),
    decreases upto,
{
    if upto > 0 {
        lemma_count_newer_mono(epochs, i, j, upto - 1, m);
        assert(newer(epochs, upto - 1, j) ==> newer(epochs, upto - 1, i));
    }
}

/// A prune keeps the newest backups: every backup it keeps is newer than
/// every backup it removes.
pub proof fn lemma_prune_keeps_the_newest(epochs: Seq<u64>, keep: nat, i: int, j: int)
    requires
        0 <= i < epochs.len(),
        0 <= j < epochs.len(),
        !pruned(epochs, keep, i),
        pruned(epochs, keep, j),
    ensures
        newer(epochs, i, j),
{
    if !newer(epochs, i, j) {
        assert(i != j);
        assert(newer(epochs, j, i));
        lemma_count_newer_mono(epochs, i, j, epochs.len() as int, j);
    }
}

/// No backup is newer than itself, so at most `upto - 1` of the first `upto`
/// can be newer than one among them.
proof fn lemma_count_newer_bound(epochs: Seq<u64>, i: int, upto: int)
    requires
        0 <= upto,
    ensures
        count_newer(epochs, i, upto) <= upto,
        0 <= i < upto ==> count_newer(epochs, i, upto) < upto,
    decreases upto,
{
    if upto > 0 {
        lemma_count_newer_bound(epochs, i, upto - 1);
    }
}

/// Two different backups never have equally many newer ones.
proof fn lemma_rank_injective(epochs: Seq<u64>, i: int, j: int)
    requires
        0 <= i < epochs.len(),
        0 <= j < epochs.len(),
        i != j,
    ensures
        count_newer(epochs, i, epochs.len() as int) != count_newer(epochs, j, epochs.len() as int),
{
    if newer(epochs, j, i) {
        lemma_count_newer_mono(epochs, i, j, epochs.len() as int, j);
    } else {
        lemma_count_newer_mono(epochs, j, i, epochs.len() as int, i);
    }
}

/// The backups a prune removes, by position.
pub open spec fn pruned_positions(epochs: Seq<u64>, keep: nat) -> Set<int> {
    Set::new(|i: int| 0 <= i < epochs.len() && pruned(epochs, keep, i))
}

/// A prune keeps exactly `keep` backups, or all of them when there are no
/// more than that: it removes `n - keep` of `n`, and none when `n <= keep`.
pub proof fn lemma_prune_removes_all_but_keep(epochs: Seq<u64>, keep: nat)
    ensures
        pruned_positions(epochs, keep).finite(),
        pruned_positions(epochs, keep).len() == if epochs.len() > keep {
            (epochs.len() - keep) as nat
        } else {
            0nat
        },
{
    let n = epochs.len() as int;
    let rank = |i: int| count_newer(epochs, i, n) as int;
    let all = vstd::set_lib::set_int_range(0, n);
    vstd::set_lib::lemma_int_range(0, n);
    assert(vstd::relations::injective_on(rank, all)) by {
        assert forall|i: int, j: int|
            all.contains(i) && all.contains(j) && #[trigger] rank(i) == #[trigger] rank(j) implies i
            == j by {
            if i != j {
                lemma_rank_injective(epochs, i, j);
            }
        }
    }
    let image = all.map(rank);
    vstd::set_lib::lemma_map_size(all, image, rank);
    assert(image.subset_of(all)) by {
        assert forall|r: int| #[trigger] image.contains(r) implies all.contains(r) by {
            let i = choose|i: int| all.contains(i) && rank(i) == r;
            lemma_count_newer_bound(epochs, i, n);
        }
    }
    vstd::set_lib::lemma_subset_equality(image, all);
    let p = pruned_positions(epochs, keep);
    let lo = if keep < n {
        keep as int
    } else {
        n
    };
    let high = vstd::set_lib::set_int_range(lo, n);
    vstd::set_lib::lemma_int_range(lo, n);
    assert(p.subset_of(all));
    vstd::set_lib::lemma_len_subset(p, all);
    assert(p.map(rank) =~= high) by {
        assert forall|r: int| #[trigger] p.map(rank).contains(r) implies high.contains(r) by {
            let i = choose|i: int| p.contains(i) && rank(i) == r;
            lemma_count_newer_bound(epochs, i, n);
        }
        assert forall|r: int| #[trigger] high.contains(r) implies p.map(rank).contains(r) by {
            assert(all.contains(r));
            assert(image.contains(r));
            let i = choose|i: int| all.contains(i) && rank(i) == r;
            assert(p.contains(i));
        }
    }
    assert(vstd::relations::injective_on(rank, p));
    vstd::set_lib::lemma_map_size(p, high, rank);
}

} // verus!
