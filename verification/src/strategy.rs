//! How a downloaded file is installed, decided by the extension of its name.

use crate::text::{chars_of, same_text};
use vstd::prelude::*;
use vstd::string::*;

verus! {

/// What is done with a downloaded file.
#[derive(Clone, Copy, Debug, PartialEq, Eq, Structural)]
pub enum Strategy {
    /// The file is a Debian package: the system package installer takes it.
    PackageInstall,
    /// The file is a tar archive: it is unpacked into a directory of its name.
    ArchiveExtraction,
    /// The file is a zip archive, for which no extraction exists.
    ZipExtraction,
    /// The extension is not known: the file stays where it is.
    Unhandled,
    /// The name has no extension: the file is taken for an executable and is
    /// moved to the user's personal executable directory.
    RawBinary,
}

/// The position of the last `.` in `name`, where there is one.
pub open spec fn last_dot(name: Seq<char>) -> Option<int>
    decreases name.len(),
{
    if name.len() == 0 {
        None
    } else if name.last() == '.' {
        Some(name.len() - 1)
    } else {
        last_dot(name.drop_last())
    }
}

/// The extension of `name`: what follows its last `.`, as it is written.
/// A name without a `.` has none.
pub open spec fn extension_of(name: Seq<char>) -> Option<Seq<char>> {
    match last_dot(name) {
        Some(dot) => Some(name.skip(dot + 1)),
        None => None,
    }
}

/// The strategy for an extension.
pub open spec fn strategy_for(extension: Seq<char>) -> Strategy {
    if extension == "deb"@ {
        Strategy::PackageInstall
    } else if extension == "tar"@ || extension == "gz"@ || extension == "tgz"@ {
        Strategy::ArchiveExtraction
    } else if extension == "zip"@ {
        Strategy::ZipExtraction
    } else {
        Strategy::Unhandled
    }
}

/// The strategy for a file name.
pub open spec fn strategy_of(name: Seq<char>) -> Strategy {
    match extension_of(name) {
        Some(extension) => strategy_for(extension),
        None => Strategy::RawBinary,
    }
}

/// Whether the downloaded file is deleted once the strategy has run.
pub open spec fn removes_download(strategy: Strategy) -> bool {
    strategy != Strategy::Unhandled && strategy != Strategy::RawBinary
}

/// `last_dot` finds a `.` exactly when the name holds one, and none follows
/// the one it finds.
pub proof fn lemma_last_dot(name: Seq<char>)
    ensures
        last_dot(name) is None <==> forall|i: int| 0 <= i < name.len() ==> name[i] != '.',
        last_dot(name) matches Some(dot) ==> {
            &&& 0 <= dot < name.len()
            &&& name[dot] == '.'
            &&& forall|i: int| dot < i < name.len() ==> name[i] != '.'
        },
    decreases name.len(),
{
    if name.len() > 0 && name.last() != '.' {
        let head = name.drop_last();
        lemma_last_dot(head);
        assert forall|i: int| 0 <= i < head.len() implies head[i] == name[i] by {}
        if last_dot(head) is None {
            assert forall|i: int| 0 <= i < name.len() implies name[i] != '.' by {
                if i < head.len() {
                    assert(head[i] != '.');
                }
            }
        } else {
            let dot = last_dot(head)->0;
            assert(name[dot] == '.');
            assert forall|i: int| dot < i < name.len() implies name[i] != '.' by {
                if i < head.len() {
                    assert(head[i] != '.');
                }
            }
        }
    }
}

/// A name is its stem, a `.` and its extension; the extension holds no `.`.
pub proof fn lemma_extension_splits(name: Seq<char>)
    ensures
        extension_of(name) matches Some(extension) ==> {
            &&& extension.len() < name.len()
            &&& name == name.take(name.len() - extension.len() - 1) + seq!['.'] + extension
            &&& forall|i: int| 0 <= i < extension.len() ==> extension[i] != '.'
        },
        extension_of(name) is None <==> forall|i: int| 0 <= i < name.len() ==> name[i] != '.',
{
    lemma_last_dot(name);
}

/// The extension of `name`, where it has one.
pub fn extension(name: &str) -> (found: Option<&str>)
    ensures
        match found {
            Some(extension) => extension_of(name@) == Some(extension@),
            None => extension_of(name@) is None,
        },
{
    let chars = chars_of(name);
    let len = chars.len();
    let mut end: usize = len;
    proof {
        assert(name@.take(end as int) == name@);
    }
    while end > 0 && chars[end - 1] != '.'
        invariant
            end <= len,
            len == chars.len(),
            chars@ == name@,
            last_dot(name@) == last_dot(name@.take(end as int)),
        decreases end,
    {
        proof {
            let head = name@.take(end as int);
            assert(head.last() == chars@[end - 1]);
            assert(head.drop_last() == name@.take(end - 1));
        }
        end = end - 1;
    }
    proof {
        let head = name@.take(end as int);
        if end > 0 {
            assert(head.last() == chars@[end - 1]);
        }
    }
    if end == 0 {
        None
    } else {
        proof {
            assert(name@.subrange(end as int, len as int) == name@.skip(end as int));
        }
        Some(name.substring_char(end, len))
    }
}

/// The strategy for a file name.
pub fn classify(name: &str) -> (strategy: Strategy)
    ensures
        strategy == strategy_of(name@),
{
    match extension(name) {
        None => Strategy::RawBinary,
        Some(ext) => {
            if same_text(ext, "deb") {
                Strategy::PackageInstall
            } else if same_text(ext, "tar") || same_text(ext, "gz") || same_text(ext, "tgz") {
                Strategy::ArchiveExtraction
            } else if same_text(ext, "zip") {
                Strategy::ZipExtraction
            } else {
                Strategy::Unhandled
            }
        },
    }
}

impl Strategy {
    /// Whether the downloaded file is deleted once the strategy has run.
    pub fn deletes_download(&self) -> (deletes: bool)
        ensures
            deletes == removes_download(*self),
    {
        match self {
            Strategy::Unhandled | Strategy::RawBinary => false,
            _ => true,
        }
    }
}

} // verus!
