//! Error kinds of the navigation core.
//!
//! All of these are local, recoverable conditions: a controller reports them
//! and keeps its loop running. None of them may terminate the process.

use vstd::prelude::*;
use vstd::string::StringExecFns;

verus! {

/// Why a directory could not be listed.
#[derive(Clone, Copy, Debug, PartialEq, Eq, Structural)]
pub enum PathError {
    /// The target path does not exist.
    NotFound,
    /// The target path exists but is not a directory.
    NotADirectory,
}

/// Why a navigation request was rejected.
#[derive(Clone, Copy, Debug, PartialEq, Eq, Structural)]
pub enum NavError {
    /// The target path does not exist.
    NotFound,
    /// The target path exists but is not a directory.
    NotADirectory,
    /// An ascent was requested at the filesystem root.
    AtRoot,
    /// A selection index was outside the entry list.
    IndexOutOfRange,
    /// The external open-with-default-handler collaborator failed.
    OpenError,
}

/// The human-readable description of a navigation error.
pub open spec fn spec_nav_message(e: NavError) -> Seq<char> {
    match e {
        NavError::NotFound => "path not found"@,
        NavError::NotADirectory => "not a directory"@,
        NavError::AtRoot => "already at the filesystem root"@,
        NavError::IndexOutOfRange => "selection index out of range"@,
        NavError::OpenError => "could not open the file"@,
    }
}

impl NavError {
    /// A human-readable description, fit for a status line.
    pub fn message(&self) -> (r: String)
        ensures
            r@ == spec_nav_message(*self),
    {
        match self {
            NavError::NotFound => String::from_str("path not found"),
            NavError::NotADirectory => String::from_str("not a directory"),
            NavError::AtRoot => String::from_str("already at the filesystem root"),
            NavError::IndexOutOfRange => String::from_str("selection index out of range"),
            NavError::OpenError => String::from_str("could not open the file"),
        }
    }
}

/// The navigation error a listing error surfaces as.
pub open spec fn spec_to_nav(e: PathError) -> NavError {
    match e {
        PathError::NotFound => NavError::NotFound,
        PathError::NotADirectory => NavError::NotADirectory,
    }
}

impl PathError {
    /// The same condition as a navigation error.
    pub fn to_nav(self) -> (r: NavError)
        ensures
            r == spec_to_nav(self),
    {
        match self {
            PathError::NotFound => NavError::NotFound,
            PathError::NotADirectory => NavError::NotADirectory,
        }
    }
}

} // verus!
