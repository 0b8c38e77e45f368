//! File extensions, kept apart from arbitrary strings.
use vstd::prelude::*;

verus! {

/// The extension of the last component of a path, as `std::path::Path` finds it.
pub uninterp spec fn path_extension(path: Seq<char>) -> Option<Seq<char>>;

/// Relies on `std::path::Path::extension`: the text after the final `.` of the
/// file name, so it holds no `.`.
#[verifier::external_body]
fn extension_of_path(path: &str) -> (r: Option<String>)
    ensures
        r matches Some(e) ==> path_extension(path@) == Some(e@) && !e@.contains('.'),
        r is None ==> path_extension(path@) is None,
{
    std::path::Path::new(path).extension().and_then(|e| e.to_str()).map(|e| e.to_string())
}

/// A file extension, without its leading dot. Compared by exact text.
#[derive(Clone, Debug, PartialEq, Eq, Hash)]
pub struct FileExtension(pub String);

impl FileExtension {
    /// The extension named by the given text.
    pub fn from_static(v: &str) -> (r: FileExtension)
        ensures
            r.0@ == v@,
    {
        FileExtension(v.to_string())
    }

    /// The extension of the file that the path names, if it has one.
    pub fn from_path_str(path_str: &str) -> (r: Option<FileExtension>)
        ensures
            r matches Some(e) ==> path_extension(path_str@) == Some(e.0@),
            r is None ==> path_extension(path_str@) is None,
    {
        match extension_of_path(path_str) {
            Some(e) => Some(FileExtension(e)),
            None => None,
        }
    }

    /// A copy of the extension.
    pub fn duplicate(&self) -> (r: FileExtension)
        ensures
            r == *self,
    {
        FileExtension(self.0.clone())
    }

    /// The extension as text.
    pub fn as_str(&self) -> (r: &str)
        ensures
            r@ == self.0@,
    {
        self.0.as_str()
    }
}

} // verus!
