//! The directories a run works in, and paths written as text.
use vstd::prelude::*;

use crate::text::{chars_of, concat, string_of};

verus! {

broadcast use vstd::string::group_string_axioms;

/// The temporary directory made under the current directory when no
/// workspace is given.
pub const WORK_DIR_NAME: &'static str = "revdeprun-work";

/// `base` joined with `child`, as `Path::join` does on Unix: an absolute
/// `child` replaces `base`; otherwise one `/` separates them unless `base`
/// is empty or already ends in `/`.
pub open spec fn joined(base: Seq<char>, child: Seq<char>) -> Seq<char> {
    if child.len() > 0 && child[0] == '/' {
        child
    } else if base.len() == 0 || base.last() == '/' {
        base + child
    } else {
        base + seq!['/'] + child
    }
}

/// Joins two paths written as text.
pub fn join_path(base: &str, child: &str) -> (r: String)
    ensures
        r@ == joined(base@, child@),
{
    let b = chars_of(base);
    let c = chars_of(child);
    if c.len() > 0 && c[0] == '/' {
        return string_of(&c);
    }
    if b.len() == 0 || b[b.len() - 1] == '/' {
        return string_of(&concat(&b, &c));
    }
    let mut sep: Vec<char> = Vec::new();
    sep.push('/');
    string_of(&concat(&concat(&b, &sep), &c))
}

/// Describes the directories managed for a `revdeprun` invocation.
#[derive(Debug)]
pub struct Workspace {
    temp_dir: String,
    clone_root: String,
}

impl Workspace {
    pub closed spec fn temp_dir_spec(&self) -> Seq<char> {
        self.temp_dir@
    }

    pub closed spec fn clone_root_spec(&self) -> Seq<char> {
        self.clone_root@
    }

    /// Directory used for temporary files such as generated R scripts.
    pub fn temp_dir(&self) -> (r: &str)
        ensures
            r@ == self.temp_dir_spec(),
    {
        self.temp_dir.as_str()
    }

    /// Directory where remote repositories are cloned.
    pub fn clone_root(&self) -> (r: &str)
        ensures
            r@ == self.clone_root_spec(),
    {
        self.clone_root.as_str()
    }
}

/// Why no workspace could be laid out.
#[derive(Clone, Copy, PartialEq, Eq, Structural, Debug)]
pub enum WorkspaceError {
    /// No directory was given and the current one is not known.
    NoCurrentDir,
}

/// Lays out the workspace directories. A `custom` directory serves as both
/// clone root and temporary directory; otherwise repositories are cloned
/// into `current_dir` and temporary files go to `revdeprun-work` beneath
/// it. The caller creates `temp_dir` (recursively), which also creates the
/// clone root.
pub fn prepare(custom: Option<String>, current_dir: Option<String>) -> (r: Result<
    Workspace,
    WorkspaceError,
>)
    ensures
        match custom {
            Some(p) => r matches Ok(w) && w.temp_dir_spec() == p@ && w.clone_root_spec() == p@,
            None => match current_dir {
                Some(c) => r matches Ok(w) && w.clone_root_spec() == c@ && w.temp_dir_spec()
                    == joined(c@, WORK_DIR_NAME@),
                None => r == Err::<Workspace, WorkspaceError>(WorkspaceError::NoCurrentDir),
            },
        },
{
    match custom {
        Some(path) => Ok(Workspace { temp_dir: path.clone(), clone_root: path }),
        None => match current_dir {
            Some(clone_root) => {
                let temp_dir = join_path(clone_root.as_str(), WORK_DIR_NAME);
                Ok(Workspace { temp_dir, clone_root })
            },
            None => Err(WorkspaceError::NoCurrentDir),
        },
    }
}

} // verus!
