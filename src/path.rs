use vstd::prelude::*;
use vstd::string::StrSliceExecFns;

verus! {

/// The extension that `std::path::Path::extension` finds in `path`.
pub uninterp spec fn path_extension(path: Seq<char>) -> Option<Seq<char>>;

/// The path that `std::path::PathBuf::set_extension` makes of `path` with `ext`.
pub uninterp spec fn path_with_extension(path: Seq<char>, ext: Seq<char>) -> Seq<char>;

/// An extension that `set_extension` accepts and that `extension` reads back whole:
/// not empty, without a separator and without a dot.
pub open spec fn plain_extension(ext: Seq<char>) -> bool {
    &&& ext.len() > 0
    &&& !ext.contains('/')
    &&& !ext.contains('.')
}

/// Relies on `std::path::Path::extension`: the part of the file name after its last
/// dot, if the name has one that is not its first character.
#[verifier::external_body]
pub(crate) fn extension_of(path: &str) -> (r: Option<String>)
    ensures
        match r {
            Some(e) => path_extension(path@) == Some(e@),
            None => path_extension(path@) is None,
        },
{
    std::path::Path::new(path).extension().map(|e| e.to_string_lossy().into_owned())
}

/// Relies on `std::path::PathBuf::set_extension`, which panics on an extension that
/// holds a separator; `/` is the only one on the Unix targets this crate is built for. Where the path has a file name, the extension of the result is
/// the one given; where it has none, the path is left as it is, and it has no
/// extension.
#[verifier::external_body]
pub(crate) fn with_extension(path: &str, ext: &str) -> (r: String)
    requires
        !ext@.contains('/'),
    ensures
        r@ == path_with_extension(path@, ext@),
        plain_extension(ext@) ==> (path_extension(r@) == Some(ext@) || (r@ == path@
            && path_extension(path@) is None)),
{
    let mut buf = std::path::PathBuf::from(path);
    buf.set_extension(ext);
    buf.to_string_lossy().into_owned()
}

/// Whether `c` occurs in `s`.
pub(crate) fn contains_char(s: &str, c: char) -> (r: bool)
    ensures
        r == s@.contains(c),
{
    let n = s.unicode_len();
    let mut i: usize = 0;
    while i < n
        invariant
            n == s@.len(),
            i <= n,
            forall|j: int| 0 <= j < i ==> s@[j] != c,
        decreases n - i,
    {
        if s.get_char(i) == c {
            return true;
        }
        i = i + 1;
    }
    false
}

} // verus!
