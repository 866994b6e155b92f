use crate::names::check_safe_name;
use crate::names::is_random_name;
use crate::names::is_safe_name;
use crate::names::random_file_name;
use vstd::prelude::*;

verus! {

/// What a [`FilePath`] stands for: a directory and the name of a file in it.
pub struct PathModel {
    pub dir: Seq<char>,
    pub name: Seq<char>,
}

/// The location of a file: the directory that holds it and its name there.
///
/// The name is always a safe name (see [`is_safe_name`]), so the file lies
/// directly inside the directory.
#[derive(Debug)]
pub struct FilePath {
    dir: String,
    name: String,
}

impl View for FilePath {
    type V = PathModel;

    closed spec fn view(&self) -> PathModel {
        PathModel { dir: self.dir@, name: self.name@ }
    }
}

impl Clone for FilePath {
    fn clone(&self) -> (copy: FilePath)
        ensures
            copy@ == self@,
    {
        proof {
            use_type_invariant(self);
        }
        FilePath { dir: self.dir.clone(), name: self.name.clone() }
    }
}

impl FilePath {
    #[verifier::type_invariant]
    spec fn well_formed(&self) -> bool {
        is_safe_name(self.name@)
    }

    /// The path of the file called `name` in `dir`, or nothing when `name` is not a
    /// safe name.
    pub fn new(dir: String, name: String) -> (path: Option<FilePath>)
        ensures
            path is Some <==> is_safe_name(name@),
            path matches Some(p) ==> p@ == (PathModel { dir: dir@, name: name@ }),
    {
        if check_safe_name(name.as_str()) {
            Some(FilePath { dir, name })
        } else {
            None
        }
    }

    /// The directory that holds the file.
    pub fn directory(&self) -> (dir: &str)
        ensures
            dir@ == self@.dir,
    {
        self.dir.as_str()
    }

    /// The name of the file inside its directory.
    pub fn file_name(&self) -> (name: &str)
        ensures
            name@ == self@.name,
            is_safe_name(name@),
    {
        proof {
            use_type_invariant(self);
        }
        self.name.as_str()
    }

    /// Where the file lies once it is given `name` in place: same directory, new
    /// name. Nothing when `name` is not a safe name.
    pub fn with_file_name(&self, name: String) -> (target: Option<FilePath>)
        ensures
            target is Some <==> is_safe_name(name@),
            target matches Some(p) ==> p@ == (PathModel { dir: self@.dir, name: name@ }),
    {
        FilePath::new(self.dir.clone(), name)
    }

    /// Whether both values name the same file.
    pub fn same_as(&self, other: &FilePath) -> (same: bool)
        ensures
            same == (self@ == other@),
    {
        self.dir == other.dir && self.name == other.name
    }
}

/// Picks the path for a new file in `dir`: the directory itself with a freshly
/// generated name.
pub fn random_file_path(dir: String) -> (path: FilePath)
    ensures
        path@.dir == dir@,
        is_random_name(path@.name),
{
    let name = random_file_name();
    FilePath { dir, name }
}

} // verus!
