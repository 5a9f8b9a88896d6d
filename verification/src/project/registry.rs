//! The app-level index of every known project: the list the registry file
//! holds, newest first, and the operations on it — register, find, rename and
//! remove. Reading and writing the file is the caller's business; these
//! functions take the list as it was read and leave it as it must be written.

use vstd::prelude::*;

use crate::error::AppError;
use crate::text::{str_eq, trim, trim_spec};

verus! {

/// One entry of the project registry.
#[derive(Debug, Clone, PartialEq)]
pub struct ProjectMeta {
    /// Stable registry identifier.
    pub id: String,
    /// Human-readable project name.
    pub name: String,
    /// Absolute path to the `.scast` folder.
    pub path: String,
    /// Epoch milliseconds at which the project was registered.
    pub created_at: u64,
    /// Epoch milliseconds of the entry's last change (rename or save).
    pub updated_at: u64,
}

/// Some entry of `list` has the id `id`.
pub open spec fn has_id(list: Seq<ProjectMeta>, id: Seq<char>) -> bool {
    exists|k: int| 0 <= k < list.len() && #[trigger] list[k].id@ == id
}

/// `k` is the position of the first entry of `list` whose id is `id`.
pub open spec fn is_first_with_id(list: Seq<ProjectMeta>, id: Seq<char>, k: int) -> bool {
    &&& 0 <= k < list.len()
    &&& list[k].id@ == id
    &&& forall|j: int| 0 <= j < k ==> #[trigger] list[j].id@ != id
}

/// The entry a lookup by `id` finds: the first one with that id, if any.
pub open spec fn lookup(list: Seq<ProjectMeta>, id: Seq<char>) -> Option<ProjectMeta> {
    if has_id(list, id) {
        Some(list[choose|k: int| is_first_with_id(list, id, k)])
    } else {
        None
    }
}

/// `list` with every entry whose id is `id` taken out, the rest in order.
pub open spec fn without_id(list: Seq<ProjectMeta>, id: Seq<char>) -> Seq<ProjectMeta> {
    list.filter(|e: ProjectMeta| e.id@ != id)
}

/// The message for a blank project name.
pub open spec fn empty_name_message() -> Seq<char> {
    "project name cannot be empty"@
}

/// `e` is the not-found error for project `id`.
pub open spec fn is_project_not_found(e: AppError, id: Seq<char>) -> bool {
    e matches AppError::NotFound { entity, id: missing } && entity@ == "project"@ && missing@ == id
}

/// Where some entry has an id, a first one exists.
pub proof fn lemma_first_with_id_exists(list: Seq<ProjectMeta>, id: Seq<char>)
    requires
        has_id(list, id),
    ensures
        exists|k: int| is_first_with_id(list, id, k),
    decreases list.len(),
{
    let w = choose|k: int| 0 <= k < list.len() && #[trigger] list[k].id@ == id;
    if list[0].id@ == id {
        assert(is_first_with_id(list, id, 0));
    } else {
        let rest = list.drop_first();
        assert(rest[w - 1].id@ == id);
        lemma_first_with_id_exists(rest, id);
        let k = choose|k: int| is_first_with_id(rest, id, k);
        assert forall|j: int| 0 <= j < k + 1 implies #[trigger] list[j].id@ != id by {
            if j > 0 {
                assert(list[j] == rest[j - 1]);
            }
        }
        assert(is_first_with_id(list, id, k + 1));
    }
}

/// There is only one first entry with a given id.
pub proof fn lemma_first_with_id_unique(list: Seq<ProjectMeta>, id: Seq<char>, k: int, m: int)
    requires
        is_first_with_id(list, id, k),
        is_first_with_id(list, id, m),
    ensures
        k == m,
{
    if k < m {
        assert(list[k].id@ != id);
    } else if m < k {
        assert(list[m].id@ != id);
    }
}

/// What a lookup finds is the entry at the first position with that id.
pub proof fn lemma_lookup_is_first(list: Seq<ProjectMeta>, id: Seq<char>, k: int)
    requires
        is_first_with_id(list, id, k),
    ensures
        lookup(list, id) == Some(list[k]),
{
    lemma_first_with_id_exists(list, id);
    let c = choose|c: int| is_first_with_id(list, id, c);
    lemma_first_with_id_unique(list, id, c, k);
}

/// A copy of an entry, field for field.
fn duplicate(m: &ProjectMeta) -> (c: ProjectMeta)
    ensures
        c == *m,
{
    ProjectMeta {
        id: m.id.clone(),
        name: m.name.clone(),
        path: m.path.clone(),
        created_at: m.created_at,
        updated_at: m.updated_at,
    }
}

/// The position of the first entry with id `id`, if any.
pub fn position_of(list: &Vec<ProjectMeta>, id: &str) -> (r: Option<usize>)
    ensures
        r is None <==> !has_id(list@, id@),
        r matches Some(k) ==> is_first_with_id(list@, id@, k as int),
{
    let mut i: usize = 0;
    while i < list.len()
        invariant
            i <= list@.len(),
            forall|j: int| 0 <= j < i ==> #[trigger] list@[j].id@ != id@,
        decreases list@.len() - i,
    {
        if str_eq(list[i].id.as_str(), id) {
            return Some(i);
        }
        i = i + 1;
    }
    None
}

/// Register a new project under `id`: the name is trimmed, both timestamps
/// are `now_ms`, and the entry goes to the front of the list. A name that is
/// blank once trimmed is refused and the list is left as it was.
pub fn register_entry(
    list: &mut Vec<ProjectMeta>,
    id: String,
    name: &str,
    path: String,
    now_ms: u64,
) -> (r: Result<ProjectMeta, AppError>)
    ensures
        trim_spec(name@).len() == 0 ==> (r matches Err(AppError::Validation(m)) && m@
            == empty_name_message() && final(list)@ == old(list)@),
        trim_spec(name@).len() > 0 ==> (r matches Ok(e) && e.id == id && e.name@ == trim_spec(
            name@,
        ) && e.path == path && e.created_at == now_ms && e.updated_at == now_ms && final(list)@
            == seq![e] + old(list)@),
{
    let name = trim(name);
    if name.unicode_len() == 0 {
        return Err(AppError::Validation("project name cannot be empty".to_string()));
    }
    let entry = ProjectMeta { id, name, path, created_at: now_ms, updated_at: now_ms };
    let stored = duplicate(&entry);
    list.insert(0, stored);
    assert(list@ =~= seq![entry] + old(list)@);
    Ok(entry)
}

/// A lowercase hexadecimal digit.
pub open spec fn lower_hex_digit(c: char) -> bool {
    ('0' <= c && c <= '9') || ('a' <= c && c <= 'f')
}

/// `s` is the hyphenated text of a version-7 UUID: 36 characters, hyphens at
/// positions 8, 13, 18 and 23, lowercase hex digits elsewhere, the version
/// digit `7` at position 14 and an RFC 4122 variant digit (`8`, `9`, `a` or
/// `b`) at position 19.
pub open spec fn v7_id_text(s: Seq<char>) -> bool {
    &&& s.len() == 36
    &&& forall|k: int|
        0 <= k < 36 ==> (if k == 8 || k == 13 || k == 18 || k == 23 {
            s[k] == '-'
        } else {
            lower_hex_digit(#[trigger] s[k])
        })
    &&& s[14] == '7'
    &&& (s[19] == '8' || s[19] == '9' || s[19] == 'a' || s[19] == 'b')
}

/// Calls `uuid::Uuid::now_v7()` and renders the id with `to_string()`. A
/// version-7 id is made of the current time and random bits, so its digits
/// are not claimed; what is claimed is its layout: `now_v7` sets the version
/// nibble to 7 and the variant bits to `10`, and `to_string` writes the
/// hyphenated lowercase form.
#[verifier::external_body]
fn new_registry_id() -> (id: String)
    ensures
        v7_id_text(id@),
{
    uuid::Uuid::now_v7().to_string()
}

/// Register a new project under a fresh time-ordered id: as
/// [`register_entry`], whatever id the generator gave.
pub fn register(
    list: &mut Vec<ProjectMeta>,
    name: &str,
    path: String,
    now_ms: u64,
) -> (r: Result<ProjectMeta, AppError>)
    ensures
        trim_spec(name@).len() == 0 ==> (r matches Err(AppError::Validation(m)) && m@
            == empty_name_message() && final(list)@ == old(list)@),
        trim_spec(name@).len() > 0 ==> (r matches Ok(e) && v7_id_text(e.id@) && e.name@
            == trim_spec(name@) && e.path == path && e.created_at == now_ms && e.updated_at
            == now_ms && final(list)@ == seq![e] + old(list)@),
{
    if trim(name).unicode_len() == 0 {
        return Err(AppError::Validation("project name cannot be empty".to_string()));
    }
    let id = new_registry_id();
    register_entry(list, id, name, path, now_ms)
}

/// Find an entry by id: the first with that id, or a not-found error.
pub fn find(list: &Vec<ProjectMeta>, id: &str) -> (r: Result<ProjectMeta, AppError>)
    ensures
        r is Ok <==> has_id(list@, id@),
        r matches Ok(e) ==> lookup(list@, id@) == Some(e),
        r matches Err(e) ==> is_project_not_found(e, id@),
{
    match position_of(list, id) {
        Some(k) => {
            proof {
                lemma_lookup_is_first(list@, id@, k as int);
            }
            Ok(duplicate(&list[k]))
        },
        None => Err(AppError::NotFound { entity: "project", id: id.to_string() }),
    }
}

/// Rename the first entry with id `id` and stamp it with `now_ms`; every
/// other entry, and the rest of this one, is kept. A blank name is refused
/// first, then an unknown id; either way the list is left as it was.
pub fn update_meta(list: &mut Vec<ProjectMeta>, id: &str, new_name: &str, now_ms: u64) -> (r:
    Result<ProjectMeta, AppError>)
    ensures
        trim_spec(new_name@).len() == 0 ==> (r matches Err(AppError::Validation(m)) && m@
            == empty_name_message()),
        trim_spec(new_name@).len() > 0 && !has_id(old(list)@, id@) ==> (r matches Err(e)
            && is_project_not_found(e, id@)),
        r is Err ==> final(list)@ == old(list)@,
        r is Ok <==> trim_spec(new_name@).len() > 0 && has_id(old(list)@, id@),
        r matches Ok(e) ==> exists|k: int|
            #[trigger] is_first_with_id(old(list)@, id@, k) && e.id == old(list)@[k].id && e.path == old(
                list,
            )@[k].path && e.created_at == old(list)@[k].created_at && e.updated_at == now_ms
                && e.name@ == trim_spec(new_name@) && final(list)@ == old(list)@.update(k, e),
{
    let name = trim(new_name);
    if name.unicode_len() == 0 {
        return Err(AppError::Validation("project name cannot be empty".to_string()));
    }
    match position_of(list, id) {
        None => Err(AppError::NotFound { entity: "project", id: id.to_string() }),
        Some(k) => {
            let old_entry = duplicate(&list[k]);
            let updated = ProjectMeta {
                id: old_entry.id,
                name,
                path: old_entry.path,
                created_at: old_entry.created_at,
                updated_at: now_ms,
            };
            let stored = duplicate(&updated);
            list.set(k, stored);
            assert(is_first_with_id(old(list)@, id@, k as int));
            assert(list@ == old(list)@.update(k as int, updated));
            Ok(updated)
        },
    }
}

/// Remove every entry with id `id`, keeping the others in order; a not-found
/// error (and the list untouched) when there is none.
pub fn remove(list: &mut Vec<ProjectMeta>, id: &str) -> (r: Result<(), AppError>)
    ensures
        r is Ok <==> has_id(old(list)@, id@),
        r matches Err(e) ==> is_project_not_found(e, id@),
        final(list)@ == without_id(old(list)@, id@),
{
    let ghost pred = |e: ProjectMeta| e.id@ != id@;
    let mut kept: Vec<ProjectMeta> = Vec::new();
    let mut found = false;
    let mut i: usize = 0;
    while i < list.len()
        invariant
            i <= list@.len(),
            list@ == old(list)@,
            pred == (|e: ProjectMeta| e.id@ != id@),
            kept@ == list@.take(i as int).filter(pred),
            found <==> exists|j: int| 0 <= j < i && #[trigger] list@[j].id@ == id@,
        decreases list@.len() - i,
    {
        proof {
            reveal(Seq::filter);
            assert(list@.take(i as int + 1).drop_last() =~= list@.take(i as int));
        }
        if str_eq(list[i].id.as_str(), id) {
            found = true;
        } else {
            kept.push(duplicate(&list[i]));
        }
        i = i + 1;
    }
    proof {
        assert(list@.take(list@.len() as int) =~= list@);
    }
    if !found {
        proof {
            lemma_filter_keeps_all(old(list)@, id@);
        }
        return Err(AppError::NotFound { entity: "project", id: id.to_string() });
    }
    *list = kept;
    Ok(())
}

/// Taking out an id no entry has leaves the list as it is.
proof fn lemma_filter_keeps_all(list: Seq<ProjectMeta>, id: Seq<char>)
    requires
        !has_id(list, id),
    ensures
        without_id(list, id) == list,
    decreases list.len(),
{
    reveal(Seq::filter);
    if list.len() > 0 {
        let init = list.drop_last();
        assert forall|k: int| 0 <= k < init.len() implies #[trigger] init[k].id@ != id by {
            assert(list[k].id@ != id);
        }
        lemma_filter_keeps_all(init, id);
        assert(list.last().id@ != id);
        assert(init.push(list.last()) =~= list);
    }
}

/// A lookup on a list grown at the back: the earlier entries win, and the new
/// one is found only when nothing before it has the id.
proof fn lemma_lookup_push(s: Seq<ProjectMeta>, x: ProjectMeta, o: Seq<char>)
    ensures
        lookup(s.push(x), o) == (if has_id(s, o) {
            lookup(s, o)
        } else if x.id@ == o {
            Some(x)
        } else {
            None::<ProjectMeta>
        }),
{
    let t = s.push(x);
    if has_id(s, o) {
        lemma_first_with_id_exists(s, o);
        let k = choose|k: int| is_first_with_id(s, o, k);
        assert forall|j: int| 0 <= j < k implies #[trigger] t[j].id@ != o by {
            assert(t[j] == s[j]);
        }
        assert(is_first_with_id(t, o, k));
        lemma_lookup_is_first(t, o, k);
        lemma_lookup_is_first(s, o, k);
    } else if x.id@ == o {
        assert forall|j: int| 0 <= j < s.len() implies #[trigger] t[j].id@ != o by {
            assert(t[j] == s[j]);
            if s[j].id@ == o {
                assert(has_id(s, o));
            }
        }
        assert(is_first_with_id(t, o, s.len() as int));
        lemma_lookup_is_first(t, o, s.len() as int);
    } else {
        assert forall|j: int| 0 <= j < t.len() implies #[trigger] t[j].id@ != o by {
            if j < s.len() {
                assert(t[j] == s[j]);
                if s[j].id@ == o {
                    assert(has_id(s, o));
                }
            }
        }
    }
}

/// A registered project is found again by its id: registering puts the entry
/// first, so a lookup by its id gives exactly that entry.
pub proof fn lemma_registered_entry_is_found(list: Seq<ProjectMeta>, e: ProjectMeta)
    ensures
        lookup(seq![e] + list, e.id@) == Some(e),
{
    let t = seq![e] + list;
    assert(t[0] == e);
    assert(is_first_with_id(t, e.id@, 0));
    lemma_lookup_is_first(t, e.id@, 0);
}

/// Registering a project changes no lookup of another id.
pub proof fn lemma_register_keeps_other_lookups(
    list: Seq<ProjectMeta>,
    e: ProjectMeta,
    other: Seq<char>,
)
    requires
        e.id@ != other,
    ensures
        lookup(seq![e] + list, other) == lookup(list, other),
{
    let t = seq![e] + list;
    assert forall|j: int| 0 <= j < list.len() implies #[trigger] t[j + 1] == list[j] by {}
    if has_id(list, other) {
        lemma_first_with_id_exists(list, other);
        let k = choose|k: int| is_first_with_id(list, other, k);
        assert forall|j: int| 0 <= j < k + 1 implies #[trigger] t[j].id@ != other by {
            if j > 0 {
                assert(t[(j - 1) + 1] == list[j - 1]);
            }
        }
        assert(t[k + 1] == list[k]);
        assert(is_first_with_id(t, other, k + 1));
        lemma_lookup_is_first(t, other, k + 1);
        lemma_lookup_is_first(list, other, k);
    } else {
        assert forall|j: int| 0 <= j < t.len() implies #[trigger] t[j].id@ != other by {
            if j > 0 {
                assert(t[(j - 1) + 1] == list[j - 1]);
                if list[j - 1].id@ == other {
                    assert(has_id(list, other));
                }
            }
        }
    }
}

/// A removed project is not found any more.
pub proof fn lemma_removed_id_is_not_found(list: Seq<ProjectMeta>, id: Seq<char>)
    ensures
        lookup(without_id(list, id), id) is None,
{
    let pred = |e: ProjectMeta| e.id@ != id;
    let f = list.filter(pred);
    assert forall|k: int| 0 <= k < f.len() implies #[trigger] f[k].id@ != id by {
        list.lemma_filter_pred(pred, k);
    }
}

/// Removing one id changes no lookup of another: every other project is found
/// again exactly as before.
pub proof fn lemma_remove_keeps_other_lookups(
    list: Seq<ProjectMeta>,
    id: Seq<char>,
    other: Seq<char>,
)
    requires
        other != id,
    ensures
        lookup(without_id(list, id), other) == lookup(list, other),
    decreases list.len(),
{
    if list.len() == 0 {
        reveal(Seq::filter);
        assert(without_id(list, id) == list);
    } else {
        let init = list.drop_last();
        let last = list.last();
        assert(init.push(last) =~= list);
        lemma_remove_keeps_other_lookups(init, id, other);
        reveal(Seq::filter);
        let w = without_id(init, id);
        lemma_lookup_push(init, last, other);
        if last.id@ != id {
            assert(without_id(list, id) == w.push(last));
            lemma_lookup_push(w, last, other);
        } else {
            assert(without_id(list, id) == w);
        }
    }
}

/// A renamed project is found again by its id, as the renamed entry.
pub proof fn lemma_renamed_entry_is_found(
    list: Seq<ProjectMeta>,
    id: Seq<char>,
    k: int,
    e: ProjectMeta,
)
    requires
        is_first_with_id(list, id, k),
        e.id == list[k].id,
    ensures
        lookup(list.update(k, e), id) == Some(e),
{
    let t = list.update(k, e);
    assert forall|j: int| 0 <= j < k implies #[trigger] t[j].id@ != id by {
        assert(t[j] == list[j]);
    }
    assert(is_first_with_id(t, id, k));
    lemma_lookup_is_first(t, id, k);
}

/// Renaming one project changes no lookup of another id.
pub proof fn lemma_rename_keeps_other_lookups(
    list: Seq<ProjectMeta>,
    id: Seq<char>,
    k: int,
    e: ProjectMeta,
    other: Seq<char>,
)
    requires
        is_first_with_id(list, id, k),
        e.id == list[k].id,
        other != id,
    ensures
        lookup(list.update(k, e), other) == lookup(list, other),
{
    let t = list.update(k, e);
    assert forall|j: int| 0 <= j < list.len() implies #[trigger] t[j].id@ == list[j].id@ by {}
    if has_id(list, other) {
        lemma_first_with_id_exists(list, other);
        let m = choose|m: int| is_first_with_id(list, other, m);
        assert forall|j: int| 0 <= j < m implies #[trigger] t[j].id@ != other by {
            assert(t[j].id@ == list[j].id@);
        }
        assert(m != k);
        assert(is_first_with_id(t, other, m));
        lemma_lookup_is_first(t, other, m);
        lemma_lookup_is_first(list, other, m);
    } else {
        assert forall|j: int| 0 <= j < t.len() implies #[trigger] t[j].id@ != other by {
            assert(t[j].id@ == list[j].id@);
            if list[j].id@ == other {
                assert(has_id(list, other));
            }
        }
    }
}

} // verus!
