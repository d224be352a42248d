use vstd::prelude::*;

verus! {

/// What `Path::file_name` gives for a path, as text.
pub uninterp spec fn file_name_of(p: Seq<char>) -> Option<Seq<char>>;

/// What `Path::extension` gives for a path, as text.
pub uninterp spec fn extension_of(p: Seq<char>) -> Option<Seq<char>>;

/// What `Path::parent` gives for a path, as text.
pub uninterp spec fn parent_of(p: Seq<char>) -> Option<Seq<char>>;

/// What `Path::join` gives for a base and a further component, as text.
pub uninterp spec fn joined(base: Seq<char>, rest: Seq<char>) -> Seq<char>;

/// Relies on `Path::file_name`: the last component of the path, if it names one.
#[verifier::external_body]
pub(crate) fn file_name(p: &str) -> (r: Option<String>)
    ensures
        r matches Some(s) ==> file_name_of(p@) == Some(s@),
        r is None ==> file_name_of(p@) is None,
{
    std::path::Path::new(p).file_name().map(|s| s.to_string_lossy().into_owned())
}

/// Relies on `Path::extension`: the part of the file name after its last dot.
#[verifier::external_body]
pub(crate) fn extension(p: &str) -> (r: Option<String>)
    ensures
        r matches Some(s) ==> extension_of(p@) == Some(s@),
        r is None ==> extension_of(p@) is None,
{
    std::path::Path::new(p).extension().map(|s| s.to_string_lossy().into_owned())
}

/// Relies on `Path::parent`: the path without its last component.
#[verifier::external_body]
pub(crate) fn parent(p: &str) -> (r: Option<String>)
    ensures
        r matches Some(s) ==> parent_of(p@) == Some(s@),
        r is None ==> parent_of(p@) is None,
{
    std::path::Path::new(p).parent().map(|s| s.to_string_lossy().into_owned())
}

/// Relies on `Path::join`: `rest` appended to `base` as a further component.
#[verifier::external_body]
pub(crate) fn join(base: &str, rest: &str) -> (r: String)
    ensures
        r@ == joined(base@, rest@),
{
    std::path::Path::new(base).join(rest).to_string_lossy().into_owned()
}

} // verus!
