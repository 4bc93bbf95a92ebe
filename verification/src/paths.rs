//! The `std::path` computations the layers need, on path text, and the
//! directory that gates a create or delete.

use vstd::prelude::*;
use crate::text::lit;

verus! {

/// What `Path::parent` gives for a path written as `p`.
pub uninterp spec fn spec_path_parent(p: Seq<char>) -> Option<Seq<char>>;

/// What `Path::file_name` gives for a path written as `p`.
pub uninterp spec fn spec_file_name(p: Seq<char>) -> Option<Seq<char>>;

/// `std::path::Path::parent`: the path without its final component, or
/// `None` when the path ends in a root or is empty. The contract names the
/// result and states the two `None` cases the documentation gives for `/`
/// and the empty path; the component rules are std's and are not stated.
#[verifier::external_body]
pub(crate) fn path_parent(p: &str) -> (r: Option<String>)
    ensures
        r matches Some(s) ==> spec_path_parent(p@) == Some(s@),
        r is None ==> spec_path_parent(p@) is None,
        p@ == "/"@ ==> r is None,
        p@.len() == 0 ==> r is None,
{
    std::path::Path::new(p).parent().map(|q| q.to_string_lossy().into_owned())
}

/// `std::path::Path::file_name`: the final component when it is a normal
/// name, else `None`. The contract names the result and states the `None`
/// the documentation gives for `/`; the component rules are std's and are
/// not stated.
#[verifier::external_body]
pub(crate) fn file_name(p: &str) -> (r: Option<String>)
    ensures
        r matches Some(s) ==> spec_file_name(p@) == Some(s@),
        r is None ==> spec_file_name(p@) is None,
        p@ == "/"@ ==> r is None,
{
    std::path::Path::new(p).file_name().map(|q| q.to_string_lossy().into_owned())
}

/// The directory that gates a create or delete: the path's parent, or `.`
/// when the path has no parent or an empty one.
pub open spec fn parent_of_spec(p: Seq<char>) -> Seq<char> {
    match spec_path_parent(p) {
        Some(q) => if q.len() > 0 {
            q
        } else {
            "."@
        },
        None => "."@,
    }
}

pub fn parent_of(p: &str) -> (r: String)
    ensures
        r@ == parent_of_spec(p@),
{
    match path_parent(p) {
        Some(q) => {
            if q.as_str().is_empty() {
                lit(".")
            } else {
                q
            }
        },
        None => lit("."),
    }
}

} // verus!
