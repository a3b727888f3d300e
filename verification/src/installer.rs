//! Install-method resolution: classifying a checked-out project tree into
//! exactly one installation strategy, and the errors the engine reports.

use vstd::prelude::*;

use crate::text::{
    gathered, has_install_line, is_sentinel, join_path, joined_all, joined_path, sentinel,
};
use rand::Rng;

verus! {

/// Everything that can go wrong while installing a project. Each variant
/// renders as a one-line human-readable diagnostic via [`InstallError::to_string`].
pub enum InstallError {
    DeniedInstall,
    UnknownPackageManager,
    InstallError,
    CouldNotStartProcess(String),
    FailedToClone,
    CMakeFailed,
    FailedToCreateDirectory,
    FailedToMakeInstall,
    FailedToChangeDirectory,
    BadDirectory(String),
    FailedToWriteToFile,
    UnknownFatal(String),
}

/// The diagnostic line that each error renders as.
pub open spec fn message_spec(e: InstallError) -> Seq<char> {
    match e {
        InstallError::DeniedInstall => "user denied the install of required dependencies."@,
        InstallError::UnknownPackageManager => "this system uses an unknown package manager, please install git, cmake and make manually."@,
        InstallError::InstallError => "failed to execute a critical operation. (this usually means we failed to start a subcommand like git or cmake)"@,
        InstallError::CouldNotStartProcess(process) => "failed to start the program `"@ + process@
            + "`"@,
        InstallError::FailedToClone => "failed to clone the specified repository."@,
        InstallError::CMakeFailed => "cmake failed to generated the projects makefile."@,
        InstallError::FailedToCreateDirectory => "failed to create temporary directory to build the project from."@,
        InstallError::BadDirectory(path) => "we were supplied a bad directory: `"@ + path@ + "`"@,
        InstallError::FailedToMakeInstall => "`make install` failed."@,
        InstallError::FailedToChangeDirectory => "failed to set the environment directory. (this is a bizzare error)"@,
        InstallError::FailedToWriteToFile => "failed to write to a file when installing the package."@,
        InstallError::UnknownFatal(message) => message@,
    }
}

impl InstallError {
    /// Renders the error as its one-line diagnostic.
    pub fn to_string(&self) -> (r: String)
        ensures
            r@ == message_spec(*self),
    {
        match self {
            InstallError::DeniedInstall => String::from_str(
                "user denied the install of required dependencies.",
            ),
            InstallError::UnknownPackageManager => String::from_str(
                "this system uses an unknown package manager, please install git, cmake and make manually.",
            ),
            InstallError::InstallError => String::from_str(
                "failed to execute a critical operation. (this usually means we failed to start a subcommand like git or cmake)",
            ),
            InstallError::CouldNotStartProcess(process) => String::from_str(
                "failed to start the program `",
            ).concat(process.as_str()).concat("`"),
            InstallError::FailedToClone => String::from_str(
                "failed to clone the specified repository.",
            ),
            InstallError::CMakeFailed => String::from_str(
                "cmake failed to generated the projects makefile.",
            ),
            InstallError::FailedToCreateDirectory => String::from_str(
                "failed to create temporary directory to build the project from.",
            ),
            InstallError::BadDirectory(path) => String::from_str(
                "we were supplied a bad directory: `",
            ).concat(path.as_str()).concat("`"),
            InstallError::FailedToMakeInstall => String::from_str("`make install` failed."),
            InstallError::FailedToChangeDirectory => String::from_str(
                "failed to set the environment directory. (this is a bizzare error)",
            ),
            InstallError::FailedToWriteToFile => String::from_str(
                "failed to write to a file when installing the package.",
            ),
            InstallError::UnknownFatal(message) => message.clone(),
        }
    }
}

/// The closed set of installation strategies that resolution can pick.
///
/// `RunCMake` is a pre-step: after the configure tool succeeds, the generic
/// install step runs as it does for `MakeInstall`. `Unknown` is terminal and
/// is never executed.
pub enum InstallMethod {
    RunCMake,
    MakeInstall,
    MoveHeaders(Vec<String>),
    Unknown(String),
}

/// What probing the project root for a build descriptor found: no file, a
/// file whose text could not be read (with the reader's diagnostic), or the
/// file's full text.
pub enum MakefileProbe {
    Absent,
    Unreadable(String),
    Contents(String),
}

/// The top-level contents of a checked-out project, as plain values: its
/// root path, the outcome of probing for a `Makefile`, and whether a CMake
/// project descriptor is present.
pub struct ProjectTree {
    pub root: String,
    pub makefile: MakefileProbe,
    pub has_cmake_lists: bool,
}

/// The diagnostic used when a `Makefile` exposes no `install` target.
pub open spec fn no_install_message() -> Seq<char> {
    "the makefile has no `install` procedure."@
}

/// The diagnostic used when a `Makefile` is present but cannot be read;
/// `e` is the reader's own description of the failure.
pub open spec fn read_failure_message(e: Seq<char>) -> Seq<char> {
    "failed to read makefile. "@ + e
}

/// Decides how a project with a `Makefile` is installed: its text must have
/// a line that is exactly `install:`, else the project is unresolvable.
pub fn resolve_makefile_install_method(contents: &str) -> (r: Result<InstallMethod, InstallError>)
    ensures
        has_install_line(contents@) ==> r == Ok::<InstallMethod, InstallError>(
            InstallMethod::MakeInstall,
        ),
        !has_install_line(contents@) ==> (r matches Err(InstallError::UnknownFatal(m)) && m@
            == no_install_message()),
{
    if crate::text::contains_install_line(contents) {
        Ok(InstallMethod::MakeInstall)
    } else {
        Err(InstallError::UnknownFatal(String::from_str("the makefile has no `install` procedure.")))
    }
}

/// Turns the console lines gathered during the header prompt into the
/// header-relocation strategy: every line before the first sentinel is kept,
/// joined under the project root.
pub fn try_get_install_headers(root: &String, inputs: &Vec<String>) -> (m: InstallMethod)
    ensures
        m matches InstallMethod::MoveHeaders(files) && files.deep_view() == joined_all(
            root@,
            gathered(inputs.deep_view()),
        ),
{
    let ghost dv = inputs.deep_view();
    let n = inputs.len();
    let mut cut: usize = n;
    let mut i: usize = 0;
    while i < n
        invariant
            i <= n,
            n == inputs.len(),
            dv == inputs.deep_view(),
            dv.len() == n,
            cut == n || (cut < i && dv[cut as int] == sentinel()),
            cut == n ==> forall|k: int| 0 <= k < i ==> dv[k] != sentinel(),
            cut < n ==> forall|k: int| 0 <= k < cut ==> dv[k] != sentinel(),
        decreases n - i,
    {
        if cut == n && is_sentinel(inputs[i].as_str()) {
            cut = i;
        }
        i += 1;
    }
    proof {
        crate::text::lemma_gathered_prefix(dv, cut as int);
    }
    let mut files: Vec<String> = Vec::new();
    let mut j: usize = 0;
    while j < cut
        invariant
            j <= cut <= n,
            n == inputs.len(),
            dv == inputs.deep_view(),
            dv.len() == n,
            files.deep_view() == joined_all(root@, dv.take(j as int)),
        decreases cut - j,
    {
        let e = join_path(root.as_str(), inputs[j].as_str());
        proof {
            assert(files.deep_view().len() == files@.len());
            assert(files@.len() == j);
        }
        files.push(e);
        proof {
            assert(files.deep_view()[j as int] == joined_path(root@, dv[j as int]));
            assert forall|k: int| 0 <= k < j implies files.deep_view()[k] == joined_all(
                root@,
                dv.take(j as int),
            )[k] by {
                assert(files.deep_view()[k] == files@[k]@);
            }
            assert(files.deep_view() =~= joined_all(root@, dv.take(j + 1)));
        }
        j += 1;
    }
    proof {
        assert(files.deep_view() =~= joined_all(root@, gathered(dv)));
    }
    InstallMethod::MoveHeaders(files)
}

/// True when resolution will fall through to the header-gathering prompt,
/// so the caller knows to collect console lines before resolving.
pub fn needs_header_prompt(tree: &ProjectTree) -> (b: bool)
    ensures
        b == (tree.makefile is Absent && !tree.has_cmake_lists),
{
    (match tree.makefile {
        MakefileProbe::Absent => true,
        _ => false,
    }) && !tree.has_cmake_lists
}

/// Classifies a project tree into exactly one installation strategy.
///
/// Decision order, first match wins: a `Makefile` with an `install:` line is
/// installed directly; a `Makefile` without one makes the project
/// unresolvable, whatever else is present; otherwise a CMake descriptor
/// selects the configure pre-step; otherwise the gathered header names (the
/// lines before the first sentinel, joined under the root) are relocated,
/// even when the list is empty.
pub fn resolve_install_method(tree: &ProjectTree, header_inputs: &Vec<String>) -> (m: InstallMethod)
    ensures
        (tree.makefile matches MakefileProbe::Contents(c) && has_install_line(c@)) ==> m
            == InstallMethod::MakeInstall,
        (tree.makefile matches MakefileProbe::Contents(c) && !has_install_line(c@)) ==> (m matches
            InstallMethod::Unknown(msg) && msg@ == no_install_message()),
        tree.makefile matches MakefileProbe::Unreadable(e) ==> (m matches InstallMethod::Unknown(msg)
            && msg@ == read_failure_message(e@)),
        (tree.makefile is Absent && tree.has_cmake_lists) ==> m == InstallMethod::RunCMake,
        (tree.makefile is Absent && !tree.has_cmake_lists) ==> (m matches InstallMethod::MoveHeaders(
            files,
        ) && files.deep_view() == joined_all(tree.root@, gathered(header_inputs.deep_view()))),
{
    match &tree.makefile {
        MakefileProbe::Contents(c) => match resolve_makefile_install_method(c.as_str()) {
            Ok(m) => m,
            Err(e) => InstallMethod::Unknown(e.to_string()),
        },
        MakefileProbe::Unreadable(e) => {
            let mut s = String::from_str("failed to read makefile. ");
            s.append(e.as_str());
            InstallMethod::Unknown(s)
        },
        MakefileProbe::Absent => {
            if tree.has_cmake_lists {
                InstallMethod::RunCMake
            } else {
                try_get_install_headers(&tree.root, header_inputs)
            }
        },
    }
}

/// An ASCII letter or digit.
pub open spec fn is_alnum(c: char) -> bool {
    ('a' as u32) <= (c as u32) <= ('z' as u32) || ('A' as u32) <= (c as u32) <= ('Z' as u32) || (
    '0' as u32) <= (c as u32) <= ('9' as u32)
}

/// Relies on rand's `Alphanumeric` distribution: each sample is uniformly an
/// ASCII letter or digit, so the collected string has exactly `len` such
/// characters. Nothing else is assumed of the random choice.
#[verifier::external_body]
fn random_tag(len: usize) -> (r: String)
    ensures
        r@.len() == len as nat,
        forall|k: int| 0 <= k < r@.len() ==> is_alnum(#[trigger] r@[k]),
{
    rand::thread_rng().sample_iter(&rand::distributions::Alphanumeric).take(len).map(
        char::from,
    ).collect()
}

/// A fresh scratch directory name for checking a project out: the fixed
/// prefix followed by a ten-character random alphanumeric tag.
pub fn fresh_temp_path() -> (r: String)
    ensures
        r@.len() == "/tmp/cinstall-"@.len() + 10,
        r@.subrange(0, "/tmp/cinstall-"@.len() as int) == "/tmp/cinstall-"@,
        forall|k: int|
            "/tmp/cinstall-"@.len() <= k < r@.len() ==> is_alnum(#[trigger] r@[k]),
{
    let tag = random_tag(10);
    let mut s = String::from_str("/tmp/cinstall-");
    s.append(tag.as_str());
    proof {
        assert(s@.subrange(0, "/tmp/cinstall-"@.len() as int) =~= "/tmp/cinstall-"@);
    }
    s
}

/// A project checked out into a scratch directory, remembered by its path.
pub struct Installer {
    path: String,
}

impl View for Installer {
    type V = Seq<char>;

    closed spec fn view(&self) -> Seq<char> {
        self.path@
    }
}

impl Installer {
    /// Wraps the scratch directory that a project was checked out into.
    pub fn new(path: String) -> (r: Installer)
        ensures
            r@ == path@,
    {
        Installer { path }
    }

    /// The scratch directory this project was checked out into.
    pub fn temp_path(&self) -> (r: &String)
        ensures
            r@ == self@,
    {
        &self.path
    }
}

} // verus!
