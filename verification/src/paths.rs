//! Paths of the files the front end keeps, and what it reads from the path of a rom.
use vstd::prelude::*;

verus! {

/// The path that `name` names relative to `base`, by the rules of the platform's paths.
pub uninterp spec fn joined_path(base: Seq<char>, name: Seq<char>) -> Seq<char>;

/// Joins `name` onto `base` (`PathBuf::join` of std).
///
/// Trusted: the result is named `joined_path` of the two arguments; it is a function of them
/// alone on a given platform. What it is (a separator between the two, or `name` alone when
/// it is absolute) is not stated.
#[verifier::external_body]
pub(crate) fn join_path(base: &str, name: &str) -> (r: String)
    ensures
        r@ == joined_path(base@, name@),
{
    std::path::PathBuf::from(base).join(name).to_string_lossy().into_owned()
}

} // verus!
