//! What kind of file a path names.

use vstd::prelude::*;

verus! {

/// The kind of file that metadata reports.
#[derive(Debug, Clone, Copy, PartialEq, Eq)]
pub enum FileKind {
    File,
    Dir,
    Symlink,
    Other,
}

/// The kind of file a [`FileTypePredicate`] asks for.
#[derive(Debug, Clone, Copy, PartialEq, Eq)]
pub enum FileType {
    File,
    Dir,
    Symlink,
}

impl FileType {
    /// Whether a file of kind `kind` is of this type.
    pub open spec fn accepts(self, kind: FileKind) -> bool {
        match self {
            FileType::File => kind == FileKind::File,
            FileType::Dir => kind == FileKind::Dir,
            FileType::Symlink => kind == FileKind::Symlink,
        }
    }
}

/// A predicate on the kind of file a path names.
#[derive(Debug, Clone, Copy, PartialEq, Eq)]
pub struct FileTypePredicate {
    ft: FileType,
    follow: bool,
}

impl FileTypePredicate {
    /// The kind of file asked for.
    pub closed spec fn file_type(&self) -> FileType {
        self.ft
    }

    /// Whether symbolic links are followed.
    pub closed spec fn follows(&self) -> bool {
        self.follow
    }

    /// Follow symbolic links (`yes`) or look at the link itself. Default: not followed.
    pub fn follow_links(self, yes: bool) -> (r: Self)
        ensures
            r.file_type() == self.file_type(),
            r.follows() == yes,
    {
        FileTypePredicate { follow: yes, ..self }
    }

    /// Whether the metadata to read is that of the link's target.
    pub fn follows_links(&self) -> (r: bool)
        ensures
            r == self.follows(),
    {
        self.follow
    }

    /// The outcome for a path whose metadata reports `kind`, or could not be
    /// read (`None`).
    pub fn eval_kind(&self, kind: Option<FileKind>) -> (r: bool)
        ensures
            r == (kind matches Some(k) && self.file_type().accepts(k)),
    {
        match kind {
            Some(k) => match self.ft {
                FileType::File => matches!(k, FileKind::File),
                FileType::Dir => matches!(k, FileKind::Dir),
                FileType::Symlink => matches!(k, FileKind::Symlink),
            },
            None => false,
        }
    }
}

/// A predicate that holds of paths naming a regular file.
pub fn is_file() -> (r: FileTypePredicate)
    ensures
        r.file_type() == FileType::File,
        !r.follows(),
{
    FileTypePredicate { ft: FileType::File, follow: false }
}

/// A predicate that holds of paths naming a directory.
pub fn is_dir() -> (r: FileTypePredicate)
    ensures
        r.file_type() == FileType::Dir,
        !r.follows(),
{
    FileTypePredicate { ft: FileType::Dir, follow: false }
}

/// A predicate that holds of paths naming a symbolic link.
pub fn is_symlink() -> (r: FileTypePredicate)
    ensures
        r.file_type() == FileType::Symlink,
        !r.follows(),
{
    FileTypePredicate { ft: FileType::Symlink, follow: false }
}

} // verus!
