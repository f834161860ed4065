//! The role that a file plays in a project, by the directory it was found
//! under and by its name.
use vstd::prelude::*;
use crate::text::{chars_of, ends_with, stands_at_end};

verus! {

/// The three directories of a project that are checked.
#[derive(Clone, Copy, Debug, PartialEq, Eq, Structural)]
pub enum Root {
    /// `./src`
    Source,
    /// `./script`
    Script,
    /// `./test`
    Test,
}

/// What a file is to the conventions.
#[derive(Clone, Copy, Debug, PartialEq, Eq, Structural)]
pub enum FileRole {
    /// A contract of the project.
    Source,
    /// A test contract.
    Test,
    /// A script that is run: under the script directory, named `*.s.sol`.
    ScriptExecutable,
    /// Any other file under the script directory.
    ScriptHelper,
}

/// `.s.sol`, the ending of an executable script's name.
pub open spec fn script_ending() -> Seq<char> {
    seq!['.', 's', '.', 's', 'o', 'l']
}

/// `.sol`, the ending of a Solidity file's name.
pub open spec fn solidity_ending() -> Seq<char> {
    seq!['.', 's', 'o', 'l']
}

/// The role of the file at `path`, found under `root`.
pub open spec fn role_of(root: Root, path: Seq<char>) -> FileRole {
    match root {
        Root::Source => FileRole::Source,
        Root::Test => FileRole::Test,
        Root::Script => if ends_with(path, script_ending()) {
            FileRole::ScriptExecutable
        } else {
            FileRole::ScriptHelper
        },
    }
}

/// Whether `path` names a Solidity file: its last component has the
/// extension `sol` behind a stem that is not empty.
pub open spec fn solidity_path(path: Seq<char>) -> bool {
    &&& ends_with(path, solidity_ending())
    &&& path.len() > 4
    &&& path[path.len() - 5] != '/'
}

impl Root {
    /// The roots in the order in which a project is walked.
    pub fn all() -> (roots: [Root; 3])
        ensures
            roots@ == seq![Root::Source, Root::Script, Root::Test],
    {
        let roots = [Root::Source, Root::Script, Root::Test];
        assert(roots@ =~= seq![Root::Source, Root::Script, Root::Test]);
        roots
    }

    /// The directory of the root, from the project's top.
    pub fn directory(self) -> (path: &'static str)
        ensures
            path@ == match self {
                Root::Source => "./src"@,
                Root::Script => "./script"@,
                Root::Test => "./test"@,
            },
    {
        match self {
            Root::Source => "./src",
            Root::Script => "./script",
            Root::Test => "./test",
        }
    }
}

/// Gives the file at `path`, found under `root`, its role.
pub fn classify(root: Root, path: &str) -> (role: FileRole)
    ensures
        role == role_of(root, path@),
{
    match root {
        Root::Source => FileRole::Source,
        Root::Test => FileRole::Test,
        Root::Script => {
            let chars = chars_of(path);
            let ending = vec!['.', 's', '.', 's', 'o', 'l'];
            assert(ending@ =~= script_ending());
            if stands_at_end(&chars, &ending) {
                FileRole::ScriptExecutable
            } else {
                FileRole::ScriptHelper
            }
        },
    }
}

/// Whether `path` names a Solidity file.
pub fn is_solidity_path(path: &str) -> (found: bool)
    ensures
        found == solidity_path(path@),
{
    let chars = chars_of(path);
    let ending = vec!['.', 's', 'o', 'l'];
    assert(ending@ =~= solidity_ending());
    stands_at_end(&chars, &ending) && chars.len() > 4 && chars[chars.len() - 5] != '/'
}

} // verus!
