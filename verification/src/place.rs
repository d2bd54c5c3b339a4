//! Where the environment's files are looked for: the current directory
//! first, then its parent.

use vstd::prelude::*;
use vstd::string::StringExecFns;

verus! {

/// One of the two directories that are searched.
#[derive(Debug, Clone, Copy, PartialEq, Eq, Structural)]
pub enum Place {
    /// The current directory.
    Here,
    /// The parent of the current directory.
    Parent,
}

/// The first place at which something was found, the current directory
/// before its parent.
pub open spec fn first_place(in_current: bool, in_parent: bool) -> Option<Place> {
    if in_current {
        Some(Place::Here)
    } else if in_parent {
        Some(Place::Parent)
    } else {
        None
    }
}

impl Place {
    /// The path of the directory itself.
    pub open spec fn spec_directory(self) -> Seq<char> {
        match self {
            Place::Here => "."@,
            Place::Parent => ".."@,
        }
    }

    /// The path of a file of this name in the directory, as it is written
    /// when the search starts from the bare file name.
    pub open spec fn spec_file(self, name: Seq<char>) -> Seq<char> {
        match self {
            Place::Here => name,
            Place::Parent => "../"@ + name,
        }
    }

    /// The path of something that lies below the directory.
    pub open spec fn spec_below(self, relative: Seq<char>) -> Seq<char> {
        self.spec_directory() + "/"@ + relative
    }

    /// The path of the directory itself: `.` or `..`.
    pub fn directory(self) -> (path: String)
        ensures
            path@ == self.spec_directory(),
    {
        match self {
            Place::Here => String::from_str("."),
            Place::Parent => String::from_str(".."),
        }
    }

    /// The path of the file `name` in the directory: the bare name for the
    /// current directory, `../` and the name for its parent.
    pub fn file(self, name: &str) -> (path: String)
        ensures
            path@ == self.spec_file(name@),
    {
        match self {
            Place::Here => String::from_str(name),
            Place::Parent => String::from_str("../").concat(name),
        }
    }

    /// The path of `relative` below the directory.
    pub fn below(self, relative: &str) -> (path: String)
        ensures
            path@ == self.spec_below(relative@),
    {
        self.directory().concat("/").concat(relative)
    }
}

/// Where the environment file of some name lies, given whether a file of
/// that name exists in the current directory and in its parent: the current
/// directory wins.
pub fn find_env_path(in_current: bool, in_parent: bool) -> (place: Option<Place>)
    ensures
        place == first_place(in_current, in_parent),
{
    if in_current {
        Some(Place::Here)
    } else if in_parent {
        Some(Place::Parent)
    } else {
        None
    }
}

/// The provisioning root, given whether the marker directory `docker`
/// exists in the current directory and in its parent: the current directory
/// wins.
pub fn find_project_root(marker_in_current: bool, marker_in_parent: bool) -> (place: Option<Place>)
    ensures
        place == first_place(marker_in_current, marker_in_parent),
{
    if marker_in_current {
        Some(Place::Here)
    } else if marker_in_parent {
        Some(Place::Parent)
    } else {
        None
    }
}

} // verus!
