//! Scaffolding a fresh project: which directories and files the `new`
//! subcommand lays out, and with what content.
//!
//! The plan is a pure function of the parent directory and the project name;
//! writing it to disk is the caller's part.

use vstd::prelude::*;

use crate::cli::default_package;
use crate::config::serialize_spec;
use crate::config::PackageData;
use crate::config::PackageKind;
use crate::config::Standard;
use crate::text::join_path;
use crate::text::spec_join_path;

verus! {

/// The starter C program of a fresh project.
pub fn hello_world_source() -> (r: &'static str)
    ensures
        r@ == "#include <stdio.h>\n\nint main() {\n   printf(\"Hello, World!\\n\");\n   return 0;\n}\n"@,
{
    "#include <stdio.h>\n\nint main() {\n   printf(\"Hello, World!\\n\");\n   return 0;\n}\n"
}

/// Everything the `new` subcommand lays out for a fresh project: the project
/// root and source directory to create, and the manifest and starter source
/// to write.
pub struct ProjectPlan {
    /// `<parent>/<name>`: the project root to create.
    pub root: String,
    /// `<root>/src`: the source directory to create.
    pub source_directory: String,
    /// `<root>/loki.toml`: where the manifest is written.
    pub manifest_path: String,
    /// The manifest text: the default package under the project's name.
    pub manifest_text: String,
    /// `<root>/src/main.c`: where the starter source is written.
    pub main_path: String,
    /// The starter C program.
    pub main_text: String,
}

/// The manifest content of a fresh project named `name`.
pub open spec fn default_manifest_spec(name: Seq<char>) -> Seq<char> {
    serialize_spec(
        PackageData {
            name,
            kind: PackageKind::Application,
            version: "0.1.0"@,
            standard: Standard::C99,
        },
    )
}

/// Plan a fresh project named `name` under `parent`: the root directory, a
/// `src` directory, a manifest describing the default package, and a starter
/// `main.c`.
pub fn new_project_plan(parent: &str, name: &str) -> (r: ProjectPlan)
    ensures
        r.root@ == spec_join_path(parent@, name@),
        r.source_directory@ == spec_join_path(r.root@, "src"@),
        r.manifest_path@ == spec_join_path(r.root@, "loki.toml"@),
        r.manifest_text@ == default_manifest_spec(name@),
        r.main_path@ == spec_join_path(r.source_directory@, "main.c"@),
        r.main_text@
            == "#include <stdio.h>\n\nint main() {\n   printf(\"Hello, World!\\n\");\n   return 0;\n}\n"@,
{
    let root = join_path(parent, name);
    let source_directory = join_path(root.as_str(), "src");
    let manifest_path = join_path(root.as_str(), "loki.toml");
    let package = default_package(name);
    let manifest_text = package.serialize();
    let main_path = join_path(source_directory.as_str(), "main.c");
    let main_text = hello_world_source().to_owned();
    ProjectPlan { root, source_directory, manifest_path, manifest_text, main_path, main_text }
}

} // verus!
