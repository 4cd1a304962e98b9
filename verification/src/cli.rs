//! Command-line dispatch: which subcommand a process's arguments select.
//!
//! The selection is a pure function of the argument list; running the chosen
//! subcommand (printing, building, touching the filesystem) is the caller's
//! part.

use vstd::prelude::*;

use crate::config::Package;
use crate::config::PackageKind;
use crate::config::Standard;
use crate::text::str_eq;

verus! {

/// What the command line asks for. Arguments are taken to start at index 1,
/// as a process receives them.
#[derive(Clone, Debug)]
pub enum CliCommand {
    /// Build the project of the current directory.
    Build,
    /// Create a new project under the given name; the name argument may be
    /// missing.
    New(Option<String>),
    /// Show version information.
    Version,
    /// Show usage.
    Help,
    /// Something else: the unrecognized argument, to be reported.
    Unknown(String),
}

/// Decide which subcommand the arguments select: `build` and `new <name>`
/// are the two subcommands; `-v`/`--version` and `-h`/`--help` are flags; no
/// argument at all means usage; anything else is unknown.
pub fn select_command(args: &Vec<String>) -> (r: CliCommand)
    ensures
        args@.len() <= 1 ==> r is Help,
        args@.len() >= 2 ==> ({
            let a = args@[1]@;
            if a == "build"@ {
                r is Build
            } else if a == "new"@ {
                if args@.len() >= 3 {
                    r matches CliCommand::New(Some(name)) && name@ == args@[2]@
                } else {
                    r matches CliCommand::New(None)
                }
            } else if a == "-v"@ || a == "--version"@ {
                r is Version
            } else if a == "-h"@ || a == "--help"@ {
                r is Help
            } else {
                r matches CliCommand::Unknown(u) && u@ == a
            }
        }),
{
    if args.len() <= 1 {
        return CliCommand::Help;
    }
    let a = args[1].as_str();
    if str_eq(a, "build") {
        CliCommand::Build
    } else if str_eq(a, "new") {
        if args.len() >= 3 {
            CliCommand::New(Some(args[2].clone()))
        } else {
            CliCommand::New(None)
        }
    } else if str_eq(a, "-v") || str_eq(a, "--version") {
        CliCommand::Version
    } else if str_eq(a, "-h") || str_eq(a, "--help") {
        CliCommand::Help
    } else {
        CliCommand::Unknown(args[1].clone())
    }
}

/// The package a fresh project starts from: an application at version 0.1.0,
/// written against C99.
pub fn default_package(name: &str) -> (r: Package)
    ensures
        r@.name == name@,
        r@.kind == PackageKind::Application,
        r@.version == "0.1.0"@,
        r@.standard == Standard::C99,
{
    Package {
        name: name.to_owned(),
        kind: PackageKind::Application,
        version: "0.1.0".to_owned(),
        standard: Standard::C99,
    }
}

} // verus!

