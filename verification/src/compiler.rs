//! Build configuration and the toolchain invocations of the two process
//! tasks: compiling one C source to an object file, and linking objects to a
//! binary.
//!
//! Each task maps to exactly one external process. The command line is
//! constructed here, exactly; launching the process is the caller's side of
//! the contract. A compile task whose object already exists on disk is
//! downgraded to a syntax-only check of the source: no object is rewritten.

use vstd::prelude::*;
use vstd::string::StringExecFns;

use crate::meta::language::standard_arg;
use crate::meta::language::Standard;
use crate::object::object_path_spec;

verus! {

/// An optimization level, each corresponding to one -O flag.
#[derive(Clone, Copy, Debug, PartialEq, Eq, Structural)]
pub enum OptLevel {
    /// No optimization.
    O0,
    /// Basic optimization.
    O1,
    /// Standard optimization.
    O2,
    /// Aggressive optimization.
    O3,
    /// Optimize for size.
    Size,
    /// Optimize for debugging.
    Debug,
    /// Optimize disregarding strict standards compliance.
    Fast,
}

/// The compiler argument selecting an optimization level.
pub open spec fn opt_arg(level: OptLevel) -> Seq<char> {
    match level {
        OptLevel::O0 => "-O0"@,
        OptLevel::O1 => "-O1"@,
        OptLevel::O2 => "-O2"@,
        OptLevel::O3 => "-O3"@,
        OptLevel::Size => "-Os"@,
        OptLevel::Debug => "-Og"@,
        OptLevel::Fast => "-Ofast"@,
    }
}

impl OptLevel {
    /// The -O flag for this level.
    pub fn to_arg(self) -> (r: &'static str)
        ensures
            r@ == opt_arg(self),
    {
        match self {
            OptLevel::O0 => "-O0",
            OptLevel::O1 => "-O1",
            OptLevel::O2 => "-O2",
            OptLevel::O3 => "-O3",
            OptLevel::Size => "-Os",
            OptLevel::Debug => "-Og",
            OptLevel::Fast => "-Ofast",
        }
    }
}

/// A link-time-optimization mode.
#[derive(Clone, Copy, Debug, PartialEq, Eq, Structural)]
pub enum LtoMode {
    /// Whole-program link-time optimization.
    Full,
    /// Scalable, parallel link-time optimization.
    Thin,
}

/// The argument selecting a link-time-optimization mode; it is given both
/// when compiling and when linking.
pub open spec fn lto_arg(mode: LtoMode) -> Seq<char> {
    match mode {
        LtoMode::Full => "-flto"@,
        LtoMode::Thin => "-flto=thin"@,
    }
}

impl LtoMode {
    /// The -flto flag for this mode.
    pub fn to_arg(self) -> (r: &'static str)
        ensures
            r@ == lto_arg(self),
    {
        match self {
            LtoMode::Full => "-flto",
            LtoMode::Thin => "-flto=thin",
        }
    }
}

/// The compiler configuration of one build: the C standard, and the optional
/// optimization and link-time-optimization modes. Parsed or derived once,
/// then immutable for the build's duration.
#[derive(Clone, Copy, Debug)]
pub struct BuildConfig {
    /// The C standard the sources are written in.
    pub standard: Standard,
    /// The optimization level, if any; `None` passes no -O flag.
    pub optimization: Option<OptLevel>,
    /// The link-time-optimization mode, if any; `None` passes no -flto flag.
    pub lto: Option<LtoMode>,
}

/// The optimization arguments of a configuration: one flag, or none.
pub open spec fn opt_args(level: Option<OptLevel>) -> Seq<Seq<char>> {
    match level {
        None => Seq::empty(),
        Some(l) => seq![opt_arg(l)],
    }
}

/// The link-time-optimization arguments of a configuration: one flag, or
/// none.
pub open spec fn lto_args(mode: Option<LtoMode>) -> Seq<Seq<char>> {
    match mode {
        None => Seq::empty(),
        Some(m) => seq![lto_arg(m)],
    }
}

/// The arguments every compile invocation opens with: the standard flag, the
/// baseline warning flags, then the optimization and link-time-optimization
/// flags of the configuration.
pub open spec fn config_args(c: BuildConfig) -> Seq<Seq<char>> {
    seq![standard_arg(c.standard), "-Wall"@, "-Wextra"@, "-Wpedantic"@] + opt_args(c.optimization)
        + lto_args(c.lto)
}

/// A single external process invocation: a program and its arguments.
#[derive(Clone, Debug)]
pub struct Invocation {
    /// The program to launch.
    pub program: String,
    /// Its arguments, in order.
    pub args: Vec<String>,
}

/// The mathematical content of an invocation.
pub struct InvocationData {
    pub program: Seq<char>,
    pub args: Seq<Seq<char>>,
}

impl View for Invocation {
    type V = InvocationData;

    open spec fn view(&self) -> InvocationData {
        InvocationData { program: self.program@, args: self.args.deep_view() }
    }
}

/// The full argument list of a compile invocation. With `cached` false the
/// source is compiled and the object written to `object`; with `cached` true
/// only diagnostics are requested and no object is named.
pub open spec fn compile_args_spec(
    source: Seq<char>,
    object: Seq<char>,
    c: BuildConfig,
    cached: bool,
) -> Seq<Seq<char>> {
    config_args(c) + (if cached {
        seq!["-fsyntax-only"@]
    } else {
        seq!["-fwrapv"@, "-c"@, "-o"@, object]
    }) + seq![source]
}

/// The full argument list of a link invocation: the configuration's
/// link-time-optimization flags, explicit linker selection, the output name,
/// then every object, in order.
pub open spec fn link_args_spec(
    objects: Seq<Seq<char>>,
    output: Seq<char>,
    c: BuildConfig,
) -> Seq<Seq<char>> {
    lto_args(c.lto) + seq!["-fuse-ld=lld"@, "-o"@, output] + objects
}

/// The name of the compiler and linker driver.
pub open spec fn toolchain_program() -> Seq<char> {
    "clang"@
}

fn config_args_vec(c: &BuildConfig) -> (r: Vec<String>)
    ensures
        r.deep_view() == config_args(*c),
{
    let mut args: Vec<String> = Vec::new();
    args.push(c.standard.to_arg().to_owned());
    args.push("-Wall".to_owned());
    args.push("-Wextra".to_owned());
    args.push("-Wpedantic".to_owned());
    match c.optimization {
        None => {},
        Some(level) => {
            args.push(level.to_arg().to_owned());
        },
    }
    match c.lto {
        None => {},
        Some(mode) => {
            args.push(mode.to_arg().to_owned());
        },
    }
    proof {
        assert(args.deep_view() =~= config_args(*c));
    }
    args
}

/// The compile task: one C source, the directory its object belongs under,
/// and the compiler configuration. Executing it is one compiler invocation.
#[derive(Clone, Debug)]
pub struct CSourceToObject {
    /// The path of the source file.
    pub input: String,
    /// The directory object files are written to.
    pub object_directory: String,
    /// The compiler configuration in force.
    pub config: BuildConfig,
}

impl CSourceToObject {
    /// The compiler invocation that performs this work, from the resolved
    /// object path and whether that object already exists on disk. An
    /// existing object means the identical content was compiled before: the
    /// invocation only checks the source and writes nothing.
    pub fn invocation(&self, object_path: &str, object_exists: bool) -> (r: Invocation)
        ensures
            r@.program == toolchain_program(),
            r@.args == compile_args_spec(self.input@, object_path@, self.config, object_exists),
    {
        let mut args = config_args_vec(&self.config);
        if object_exists {
            args.push("-fsyntax-only".to_owned());
        } else {
            args.push("-fwrapv".to_owned());
            args.push("-c".to_owned());
            args.push("-o".to_owned());
            args.push(object_path.to_owned());
        }
        args.push(self.input.as_str().to_owned());
        proof {
            assert(args.deep_view() =~= compile_args_spec(
                self.input@,
                object_path@,
                self.config,
                object_exists,
            ));
        }
        Invocation { program: "clang".to_owned(), args }
    }
}

/// The link task: the source files whose objects are linked, the path of the
/// binary, and the configuration. Executing it is one linker invocation.
#[derive(Clone, Debug)]
pub struct LinkObjectsToBinary {
    /// The paths of the sources whose objects are linked, in discovery
    /// order.
    pub inputs: Vec<String>,
    /// The path of the binary to produce.
    pub output: String,
    /// The compiler configuration in force.
    pub config: BuildConfig,
}

impl LinkObjectsToBinary {
    /// The linker invocation that performs this work, from the resolved
    /// object paths of all its inputs.
    pub fn invocation(&self, objects: &Vec<String>) -> (r: Invocation)
        ensures
            r@.program == toolchain_program(),
            r@.args == link_args_spec(objects.deep_view(), self.output@, self.config),
    {
        let mut args: Vec<String> = Vec::new();
        match self.config.lto {
            None => {},
            Some(mode) => {
                args.push(mode.to_arg().to_owned());
            },
        }
        args.push("-fuse-ld=lld".to_owned());
        args.push("-o".to_owned());
        args.push(self.output.as_str().to_owned());
        let mut i: usize = 0;
        while i < objects.len()
            invariant
                i <= objects.len(),
                args.deep_view() =~= (lto_args(self.config.lto) + seq![
                    "-fuse-ld=lld"@,
                    "-o"@,
                    self.output@,
                ] + objects.deep_view().take(i as int)),
            decreases objects.len() - i,
        {
            let ghost pre = args.deep_view();
            args.push(objects[i].as_str().to_owned());
            proof {
                assert(args.deep_view() =~= pre.push(objects@[i as int]@));
                assert(objects.deep_view().take(i + 1 as int) =~= objects.deep_view().take(
                    i as int,
                ).push(objects@[i as int]@));
            }
            i += 1;
        }
        proof {
            assert(objects.deep_view().take(objects@.len() as int) =~= objects.deep_view());
            assert(args.deep_view() =~= link_args_spec(
                objects.deep_view(),
                self.output@,
                self.config,
            ));
        }
        Invocation { program: "clang".to_owned(), args }
    }
}

/// One line of text showing an invocation: the program and each argument,
/// separated by single spaces.
pub open spec fn render_args_spec(args: Seq<Seq<char>>) -> Seq<char>
    decreases args.len(),
{
    if args.len() == 0 {
        Seq::empty()
    } else {
        render_args_spec(args.drop_last()) + " "@ + args.last()
    }
}

/// Render an invocation as the command line it stands for, for display.
pub fn render_invocation(inv: &Invocation) -> (r: String)
    ensures
        r@ == inv@.program + render_args_spec(inv@.args),
{
    let mut out = inv.program.as_str().to_owned();
    let mut i: usize = 0;
    while i < inv.args.len()
        invariant
            i <= inv.args.len(),
            out@ == inv@.program + render_args_spec(inv@.args.take(i as int)),
        decreases inv.args.len() - i,
    {
        out.append(" ");
        out.append(inv.args[i].as_str());
        proof {
            let pre = inv@.args.take(i as int);
            let cur = inv@.args.take(i + 1 as int);
            assert(cur.drop_last() =~= pre);
            assert(cur.last() == inv@.args[i as int]);
        }
        i += 1;
    }
    proof {
        assert(inv@.args.take(inv@.args.len() as int) =~= inv@.args);
    }
    out
}

/// A rebuild over unchanged content hits the cache: the path a rebuild
/// consults is exactly the path the first build's full compile wrote to (the
/// argument after `-o`), so the object exists, and the rebuild's invocation
/// is the syntax-only check, which names no output object. Persistence of
/// the written file between the two builds is the filesystem's part.
pub proof fn lemma_rebuild_hits_cache(
    content: Seq<u8>,
    dir: Seq<char>,
    source: Seq<char>,
    c: BuildConfig,
)
    ensures
        ({
            let object = object_path_spec(content, dir);
            let first = compile_args_spec(source, object, c, false);
            let again = compile_args_spec(source, object, c, true);
            let k = config_args(c).len();
            &&& first.len() == k + 5
            &&& first[k as int + 1] == "-c"@
            &&& first[k as int + 2] == "-o"@
            &&& first[k as int + 3] == object
            &&& again =~= config_args(c) + seq!["-fsyntax-only"@, source]
            &&& again.len() == k + 2
        }),
{
}

} // verus!
