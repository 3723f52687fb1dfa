//! The filesystem, as far as it takes decisions: what a path is, and what follows from it.
//!
//! The library never touches the filesystem. It is told what stands at a path, as a
//! [`PathKind`], and answers with what to do.

use crate::error::{FileError, FileErrorView};
use crate::path::{absolute, file_name_of, is_absolute, join_path, joined, path_file_name};
use vstd::prelude::*;

verus! {

/// What stands at a path.
#[derive(Clone, Copy, Debug, PartialEq, Eq, Structural)]
pub enum PathKind {
    /// Nothing.
    Missing,
    /// A regular file.
    File,
    /// A directory.
    Directory,
    /// Something else.
    Other,
}

/// The decisions of the filesystem primitives.
#[derive(Debug)]
pub struct FileOp;

/// Where a copy of `file` to `target` is written: under the name of `file` inside `target`
/// where that is a directory, at `target` itself otherwise. `None` where a name is needed
/// and `file` has none.
pub open spec fn copy_destination(file: Seq<char>, target: Seq<char>, target_kind: PathKind) -> Option<
    Seq<char>,
> {
    if target_kind == PathKind::Directory {
        match path_file_name(file) {
            Some(name) => Some(joined(target, name)),
            None => None,
        }
    } else {
        Some(target)
    }
}

impl FileOp {
    /// Whether anything stands at the path.
    pub fn exist(kind: PathKind) -> (r: bool)
        ensures
            r == (kind != PathKind::Missing),
    {
        match kind {
            PathKind::Missing => false,
            _ => true,
        }
    }

    /// Whether a directory stands at the path.
    pub fn is_dir(kind: PathKind) -> (r: bool)
        ensures
            r == (kind == PathKind::Directory),
    {
        match kind {
            PathKind::Directory => true,
            _ => false,
        }
    }

    /// Whether a regular file stands at the path.
    pub fn is_file(kind: PathKind) -> (r: bool)
        ensures
            r == (kind == PathKind::File),
    {
        match kind {
            PathKind::File => true,
            _ => false,
        }
    }

    /// Whether `path` is relative and a regular file stands at it.
    pub fn is_rel_file(path: &str, kind: PathKind) -> (r: bool)
        ensures
            r == (kind == PathKind::File && !is_absolute(path@)),
    {
        Self::is_file(kind) && !absolute(path)
    }

    /// Decides what making the directory `path` takes: `Ok(true)` when it has to be
    /// created, `Ok(false)` when it is there already, and an error when something else
    /// stands in its place.
    pub fn mkdir(path: &str, kind: PathKind) -> (r: Result<bool, FileError>)
        ensures
            match r {
                Ok(create) => (kind == PathKind::Missing || kind == PathKind::Directory) && create
                    == (kind == PathKind::Missing),
                Err(error) => kind != PathKind::Missing && kind != PathKind::Directory && error@
                    == FileErrorView::NotADirectory(path@),
            },
    {
        match kind {
            PathKind::Missing => Ok(true),
            PathKind::Directory => Ok(false),
            _ => Err(FileError::NotADirectory(path.to_owned())),
        }
    }

    /// Decides where a copy of `file` to `target` is written.
    pub fn copy(file: &str, target: &str, target_kind: PathKind) -> (r: Result<String, FileError>)
        ensures
            match r {
                Ok(destination) => copy_destination(file@, target@, target_kind) == Some(
                    destination@,
                ),
                Err(error) => copy_destination(file@, target@, target_kind) is None && error@
                    == FileErrorView::NoFileName(file@),
            },
    {
        if Self::is_dir(target_kind) {
            match file_name_of(file) {
                Some(name) => Ok(join_path(target, name.as_str())),
                None => Err(FileError::NoFileName(file.to_owned())),
            }
        } else {
            Ok(target.to_owned())
        }
    }
}

} // verus!
