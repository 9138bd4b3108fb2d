use std::path::Path;
use vstd::prelude::*;

verus! {

/// The last component of a path, where it has one.
pub uninterp spec fn path_file_name(p: Seq<char>) -> Option<Seq<char>>;

/// Relies on `Path::file_name`: the final component of the path, or none
/// where the path ends in `..` or is a root or empty.
#[verifier::external_body]
fn file_name_of(path: &str) -> (r: Option<String>)
    ensures
        match r {
            Some(n) => path_file_name(path@) == Some(n@),
            None => path_file_name(path@) is None,
        },
{
    Path::new(path).file_name().and_then(|n| n.to_str()).map(String::from)
}

/// The name shown for a document that has no file name.
pub open spec fn no_name() -> Seq<char> {
    seq!['[', 'N', 'o', ' ', 'N', 'a', 'm', 'e', ']']
}

/// Where a document is stored, if anywhere.
#[derive(Clone, Debug, Default)]
pub struct FileInfo {
    pub path: Option<String>,
}

impl FileInfo {
    /// The name shown for this document: the file name of its path, or
    /// `[No Name]`.
    pub open spec fn shown_name(&self) -> Seq<char> {
        match self.path {
            Some(p) => match path_file_name(p@) {
                Some(n) => n,
                None => no_name(),
            },
            None => no_name(),
        }
    }

    pub fn from(filename: &str) -> (r: FileInfo)
        ensures
            r.path matches Some(p) && p@ == filename@,
    {
        FileInfo { path: Some(String::from_str(filename)) }
    }

    /// The name shown for this document in the status bar and the title.
    pub fn display_name(&self) -> (r: String)
        ensures
            r@ == self.shown_name(),
    {
        let name = match &self.path {
            Some(p) => file_name_of(p.as_str()),
            None => None,
        };
        match name {
            Some(n) => n,
            None => {
                let s = String::from_str("[No Name]");
                proof {
                    reveal_strlit("[No Name]");
                    assert(s@ =~= no_name());
                }
                s
            },
        }
    }
}

} // verus!
