//! Path text handling: joining components, and the parent directory and
//! final component of a path.

use vstd::prelude::*;

verus! {

/// What `Path::join` gives on Unix: an absolute component replaces the
/// base; otherwise a `/` is put between the two unless the base is empty
/// or already ends in `/`.
pub open spec fn joined(base: Seq<char>, component: Seq<char>) -> Seq<char> {
    if component.len() > 0 && component[0] == '/' {
        component
    } else if base.len() > 0 && base.last() != '/' {
        base + seq!['/'] + component
    } else {
        base + component
    }
}

/// The parent directory that `Path::parent` gives for a path, if any.
pub uninterp spec fn parent_of(path: Seq<char>) -> Option<Seq<char>>;

/// The final component that `Path::file_name` gives for a path, if any.
pub uninterp spec fn file_name_of(path: Seq<char>) -> Option<Seq<char>>;

/// Whether `Path`'s `==` holds two paths for the same: it compares their
/// components, so repeated separators, a trailing separator and inner `.`
/// components make no difference.
pub uninterp spec fn same_path(a: Seq<char>, b: Seq<char>) -> bool;

/// `Path`'s `==` on two paths. The contract names the result; beyond that
/// it states only that a path is equal to itself, as `Path`'s `Eq` promises.
#[verifier::external_body]
pub(crate) fn paths_equal(a: &str, b: &str) -> (r: bool)
    ensures
        r == same_path(a@, b@),
        a@ == b@ ==> r,
{
    std::path::Path::new(a) == std::path::Path::new(b)
}

/// Joins `component` onto `base` as `Path::join` does on Unix.
pub fn path_join(base: &str, component: &str) -> (r: String)
    ensures
        r@ == joined(base@, component@),
{
    let clen = component.unicode_len();
    if clen > 0 && component.get_char(0) == '/' {
        return String::from_str(component);
    }
    let blen = base.unicode_len();
    let mut r = String::from_str(base);
    if blen > 0 && base.get_char(blen - 1) != '/' {
        crate::text::push_char(&mut r, '/');
    }
    r.append(component);
    r
}

/// `Path::parent`: the path without its final component. The contract
/// names the result and says nothing more of it: which text counts as a
/// component (repeated separators, `.`, a root) is std's to decide.
#[verifier::external_body]
pub(crate) fn path_parent(path: &str) -> (r: Option<String>)
    ensures
        r.deep_view() == parent_of(path@),
{
    match std::path::Path::new(path).parent() {
        Some(p) => Some(p.to_string_lossy().into_owned()),
        None => None,
    }
}

/// `Path::file_name`: the final component of a path, unless the path ends
/// in `..`, is a root or is empty. The contract names the result and says
/// nothing more of it.
#[verifier::external_body]
pub(crate) fn path_file_name(path: &str) -> (r: Option<String>)
    ensures
        r.deep_view() == file_name_of(path@),
{
    match std::path::Path::new(path).file_name() {
        Some(n) => Some(n.to_string_lossy().into_owned()),
        None => None,
    }
}

} // verus!
