//! The deep-link import receiver's security policy.
//!
//! Another app hands a recording over by launching this one with a
//! `sundaystudio://import?path=…` link. The link is untrusted — any app or a
//! pasted URL can launch us — and its `path` is copied off disk by the import
//! flow, so only a clean absolute path is accepted: a leading `/` or `\`, or a
//! Windows drive (`C:\…`, `C:/…`), and no `..` component on either separator.

use vstd::prelude::*;

use crate::error::AppError;
use crate::text::chars_of;

verus! {

/// The scheme registered for inbound deep links.
pub const SCHEME: &'static str = "sundaystudio";

/// The only action understood today.
pub const ACTION_IMPORT: &'static str = "import";

/// A validated request to import a recording, parsed from a deep link.
#[derive(Debug, Clone, PartialEq)]
pub struct ImportRequest {
    /// Absolute path to the source audio/video file.
    pub path: String,
    /// `"video"` or `"audio"`, when declared.
    pub media_kind: Option<String>,
    /// ISO language code of the recording.
    pub language: Option<String>,
    /// Free-text priming for context-aware processing.
    pub context: Option<String>,
    /// Glossary terms, de-duplicated, order preserved.
    pub glossary: Vec<String>,
    /// Originating service id.
    pub service_id: Option<String>,
    /// Originating tenant id.
    pub church_id: Option<String>,
    /// Scheme of the app that launched us, to hand a result back later.
    pub return_to: Option<String>,
}

/// A path separator on either platform.
pub open spec fn is_sep(c: char) -> bool {
    c == '/' || c == '\\'
}

/// An ASCII letter.
pub open spec fn ascii_alpha(c: char) -> bool {
    ('a' <= c && c <= 'z') || ('A' <= c && c <= 'Z')
}

/// A POSIX-absolute path (`/…`), a rooted Windows path or UNC share (`\…`),
/// or a Windows drive path (`X:\…` or `X:/…`).
pub open spec fn absolute_path(s: Seq<char>) -> bool {
    ||| s.len() > 0 && (s[0] == '/' || s[0] == '\\')
    ||| s.len() >= 3 && ascii_alpha(s[0]) && s[1] == ':' && (s[2] == '\\' || s[2] == '/')
}

/// `s` has a `..` at position `k` that forms a whole component: bounded by a
/// separator or the end of the path on both sides.
pub open spec fn parent_component_at(s: Seq<char>, k: int) -> bool {
    &&& 0 <= k
    &&& k + 1 < s.len()
    &&& s[k] == '.'
    &&& s[k + 1] == '.'
    &&& (k == 0 || is_sep(s[k - 1]))
    &&& (k + 2 == s.len() || is_sep(s[k + 2]))
}

/// Some component of `s`, split on either separator, is `..`.
pub open spec fn has_parent_component(s: Seq<char>) -> bool {
    exists|k: int| #[trigger] parent_component_at(s, k)
}

/// A path safe to copy off disk: absolute, with no `..` component.
pub open spec fn clean_import_path(s: Seq<char>) -> bool {
    absolute_path(s) && !has_parent_component(s)
}

/// How `str`'s `Debug` formatting renders a string (quoted and escaped).
pub uninterp spec fn debug_quoted(s: Seq<char>) -> Seq<char>;

/// Calls `format!("{:?}", s)`, `str`'s `Debug` rendering; the contract names
/// the result `debug_quoted(s)` and claims nothing else about it.
#[verifier::external_body]
fn quoted(s: &str) -> (q: String)
    ensures
        q@ == debug_quoted(s@),
{
    format!("{:?}", s)
}

fn is_ascii_alpha(c: char) -> (b: bool)
    ensures
        b == ascii_alpha(c),
{
    ('a' <= c && c <= 'z') || ('A' <= c && c <= 'Z')
}

/// True for a POSIX-absolute path or a Windows absolute path (drive or UNC).
pub fn is_absolute_path(path: &str) -> (b: bool)
    ensures
        b == absolute_path(path@),
{
    let n = path.unicode_len();
    if n > 0 {
        let c0 = path.get_char(0);
        if c0 == '/' || c0 == '\\' {
            return true;
        }
    }
    if n >= 3 {
        let c0 = path.get_char(0);
        let c1 = path.get_char(1);
        let c2 = path.get_char(2);
        return is_ascii_alpha(c0) && c1 == ':' && (c2 == '\\' || c2 == '/');
    }
    false
}

/// Whether some component of the path, split on either separator, is `..`.
pub fn has_parent_dir_component(path: &str) -> (b: bool)
    ensures
        b == has_parent_component(path@),
{
    let cs = chars_of(path);
    let n = cs.len();
    if n < 2 {
        assert forall|k: int| !parent_component_at(path@, k) by {}
        return false;
    }
    let mut k: usize = 0;
    while k + 1 < n
        invariant
            cs@ == path@,
            n == cs@.len(),
            n >= 2,
            k + 1 <= n,
            forall|j: int| 0 <= j < k ==> !#[trigger] parent_component_at(path@, j),
        decreases n - k,
    {
        let before_ok = k == 0 || cs[k - 1] == '/' || cs[k - 1] == '\\';
        let after_ok = k + 2 == n || cs[k + 2] == '/' || cs[k + 2] == '\\';
        if cs[k] == '.' && cs[k + 1] == '.' && before_ok && after_ok {
            assert(parent_component_at(path@, k as int));
            return true;
        }
        k = k + 1;
    }
    assert forall|j: int| !#[trigger] parent_component_at(path@, j) by {}
    false
}

/// The message for a path that is not absolute.
pub open spec fn not_absolute_message(path: Seq<char>) -> Seq<char> {
    "deep-link import path must be absolute: "@ + debug_quoted(path)
}

/// The message for a path with a `..` component.
pub open spec fn traversal_message(path: Seq<char>) -> Seq<char> {
    "deep-link import path must not contain '..': "@ + debug_quoted(path)
}

/// Accept only a clean absolute import path: refuse a relative path, or one
/// with a `..` component on either separator.
pub fn validate_import_path(path: &str) -> (r: Result<(), AppError>)
    ensures
        r is Ok <==> clean_import_path(path@),
        !absolute_path(path@) ==> (r matches Err(AppError::Validation(m)) && m@
            == not_absolute_message(path@)),
        absolute_path(path@) && has_parent_component(path@) ==> (r matches Err(
            AppError::Validation(m),
        ) && m@ == traversal_message(path@)),
{
    if !is_absolute_path(path) {
        let mut m = "deep-link import path must be absolute: ".to_string();
        let q = quoted(path);
        m.append(q.as_str());
        return Err(AppError::Validation(m));
    }
    if has_parent_dir_component(path) {
        let mut m = "deep-link import path must not contain '..': ".to_string();
        let q = quoted(path);
        m.append(q.as_str());
        return Err(AppError::Validation(m));
    }
    Ok(())
}

/// A path that passes the import policy can never climb out of the directory
/// it names: no component of it is `..`, and it is rooted.
pub proof fn lemma_accepted_path_has_no_traversal(path: Seq<char>, k: int)
    requires
        clean_import_path(path),
    ensures
        !parent_component_at(path, k),
        path.len() > 0,
{
}

} // verus!
