//! The predicate on the kind of an entry: file, directory or symbolic link.

use crate::filter::{Entry, FileKind, Filter, FilterError};
use crate::text::text_eq;
use vstd::prelude::*;
use vstd::string::StringExecFns;

verus! {

/// A kind of entry that can be asked for.
#[derive(Clone, Copy, Debug, PartialEq, Eq, Structural)]
pub enum Filetype {
    File,
    Dir,
    Link,
}

/// The kind that a parameter names: `d`, `dir` or `directory`; `f` or
/// `file`; `l`, `link`, `slink` or `symlink`.
pub open spec fn filetype_of(s: Seq<char>) -> Option<Filetype> {
    if s == "d"@ || s == "dir"@ || s == "directory"@ {
        Some(Filetype::Dir)
    } else if s == "f"@ || s == "file"@ {
        Some(Filetype::File)
    } else if s == "l"@ || s == "link"@ || s == "slink"@ || s == "symlink"@ {
        Some(Filetype::Link)
    } else {
        None
    }
}

/// Whether an entry classified as `kind` is of the type asked for.
pub open spec fn kind_is(kind: FileKind, filetype: Filetype) -> bool {
    match filetype {
        Filetype::File => kind == FileKind::File,
        Filetype::Dir => kind == FileKind::Dir,
        Filetype::Link => kind == FileKind::Link,
    }
}

/// Accepts the entries of one kind.
pub struct FiletypeFilter {
    filetype: Filetype,
}

impl FiletypeFilter {
    pub closed spec fn filetype(&self) -> Filetype {
        self.filetype
    }

    /// Builds the filter of the kind that `ft_string` names.
    pub fn new(ft_string: &str) -> (r: Result<FiletypeFilter, FilterError>)
        ensures
            match r {
                Ok(filter) => filetype_of(ft_string@) == Some(filter.filetype()),
                Err(e) => e.is_invalid_filetype(ft_string@) && filetype_of(ft_string@) is None,
            },
    {
        let filetype = if text_eq(ft_string, "d") || text_eq(ft_string, "dir") || text_eq(
            ft_string,
            "directory",
        ) {
            Filetype::Dir
        } else if text_eq(ft_string, "f") || text_eq(ft_string, "file") {
            Filetype::File
        } else if text_eq(ft_string, "l") || text_eq(ft_string, "link") || text_eq(
            ft_string,
            "slink",
        ) || text_eq(ft_string, "symlink") {
            Filetype::Link
        } else {
            return Err(
                FilterError::InvalidFiletypeError { parameter: String::from_str(ft_string) },
            );
        };
        Ok(FiletypeFilter { filetype })
    }
}

impl Filter for FiletypeFilter {
    open spec fn matches(&self, entry: &Entry) -> bool {
        match entry.metadata {
            Some(metadata) => kind_is(metadata.kind, self.filetype()),
            None => false,
        }
    }

    fn test(&self, entry: &Entry) -> (r: bool) {
        match &entry.metadata {
            Some(metadata) => match self.filetype {
                Filetype::File => matches!(metadata.kind, FileKind::File),
                Filetype::Dir => matches!(metadata.kind, FileKind::Dir),
                Filetype::Link => matches!(metadata.kind, FileKind::Link),
            },
            None => false,
        }
    }
}

/// The three names of a directory are one: filters built from `d`, `dir`
/// and `directory` agree on every entry.
pub proof fn law_directory_aliases(
    short: FiletypeFilter,
    medium: FiletypeFilter,
    long: FiletypeFilter,
    entry: Entry,
)
    requires
        filetype_of("d"@) == Some(short.filetype()),
        filetype_of("dir"@) == Some(medium.filetype()),
        filetype_of("directory"@) == Some(long.filetype()),
    ensures
        short.matches(&entry) == medium.matches(&entry),
        medium.matches(&entry) == long.matches(&entry),
{
}

} // verus!
