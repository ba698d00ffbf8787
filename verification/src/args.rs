//! What the command line asks for.

use vstd::prelude::*;
use vstd::string::*;

verus! {

/// The command line, taken apart.
#[derive(Debug)]
pub struct Arguments {
    pub command: Commands,
}

/// The commands.
#[derive(Debug)]
pub enum Commands {
    /// Install a package.
    Install { package: String, args: PkgArgs },
    /// Build a package.
    Build { package: String, args: PkgArgs },
    /// Search for a package.
    Search { package: String },
    /// Remove a package.
    Remove { package: String },
    /// Download a manifest.
    Download { package: String },
    /// Manipulate repositories.
    Repo(RepoCommands),
    /// List all installed packages.
    List,
    /// Upgrade all installed packages.
    Upgrade,
    /// Query information about an installed package.
    Info { package: String, key: Option<String> },
    /// Mark upgrade checking of an installed package.
    Mark { package: String, operation: HoldOperation },
    /// Display a tree graph of an installed package's files.
    Tree { package: String },
}

/// Flags only available for building packages.
#[derive(Debug, Clone, Copy, PartialEq, Eq, Structural)]
pub struct PkgArgs {
    /// Enable debug output.
    pub debug: bool,
    /// Disable prompts.
    pub disable_prompts: bool,
    /// Keep the build files after building.
    pub keep: bool,
    /// Skip the `check()` function if present.
    pub nocheck: bool,
    /// Download package entries quietly.
    pub quiet: bool,
}

/// Repository manipulation commands.
#[derive(Debug)]
pub enum RepoCommands {
    /// Add a repository.
    Add { link: String },
    /// Remove a repository.
    Remove { link: String },
}

/// Hold or unhold a package.
#[derive(Debug, Clone, Copy, PartialEq, Eq, PartialOrd, Ord, Structural)]
pub enum HoldOperation {
    /// Hold package.
    Hold,
    /// Unhold package.
    Unhold,
}

/// The line that tells the version: the version of the program, the name
/// of the release, and the branch of the repository in use.
pub open spec fn version_line(release: Seq<char>, name: Seq<char>, branch: Seq<char>) -> Seq<char> {
    release + " "@ + name + " "@ + branch
}

impl Arguments {
    /// The line that tells the version. `branch` is what the repository's
    /// update file holds, and `pacstall master` where there is no such
    /// file.
    pub fn version(release: &str, version: &str, branch: Option<&str>) -> (r: String)
        ensures
            r@ == version_line(
                release@,
                version@,
                match branch {
                    Some(b) => b@,
                    None => "pacstall master"@,
                },
            ),
    {
        let mut out = String::from_str(release);
        out.append(" ");
        out.append(version);
        out.append(" ");
        match branch {
            Some(b) => {
                out.append(b);
            },
            None => {
                out.append("pacstall master");
            },
        }
        out
    }
}

} // verus!
