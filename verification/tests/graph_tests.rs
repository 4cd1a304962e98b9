use std::collections::HashMap;
use std::collections::HashSet;

use loki::builder::build_graph;
use loki::builder::plan_build;
use loki::compiler::render_invocation;
use loki::compiler::BuildConfig;
use loki::executable::BuildError;
use loki::executable::Executable;
use loki::executor::execute_graph;
use loki::executor::execute_node;
use loki::executor::judge_outcome;
use loki::executor::ExecState;
use loki::executor::NodeStatus;
use loki::meta::language::Standard;
use loki::node::Task;
use loki::object::objects_for;
use loki::object::resolve_object;

/// A stand-in toolchain: it keeps an in-memory picture of the disk, resolves
/// and "compiles" like the real invoker, and can be told to fail one source.
struct ScriptedRunner {
    /// The content of each source path.
    files: HashMap<String, Vec<u8>>,
    /// The object files "on disk".
    disk: HashSet<String>,
    /// Rendered command lines, in execution order.
    log: Vec<String>,
    /// How many full compiles happened.
    full_compiles: usize,
    /// How many cache hits (syntax-only checks) happened.
    check_compiles: usize,
    /// A source whose compile exits nonzero, if any.
    fail_source: Option<String>,
}

impl ScriptedRunner {
    fn new(files: &[(&str, &[u8])]) -> ScriptedRunner {
        ScriptedRunner {
            files: files.iter().map(|(p, c)| (p.to_string(), c.to_vec())).collect(),
            disk: HashSet::new(),
            log: Vec::new(),
            full_compiles: 0,
            check_compiles: 0,
            fail_source: None,
        }
    }
}

impl Executable for ScriptedRunner {
    fn execute(&mut self, task: &Task) -> Result<i32, String> {
        match task {
            Task::CreateDirectory(d) => {
                self.log.push(format!("mkdir {}", d.directory));
                Ok(0)
            }
            Task::CompileToObject(c) => {
                let content = self.files.get(&c.input).cloned().unwrap_or_default();
                let object = resolve_object(&content, &c.object_directory);
                let exists = self.disk.contains(&object);
                let invocation = c.invocation(&object, exists);
                self.log.push(render_invocation(&invocation));
                if self.fail_source.as_deref() == Some(c.input.as_str()) {
                    return Ok(1);
                }
                if exists {
                    self.check_compiles += 1;
                } else {
                    self.full_compiles += 1;
                    self.disk.insert(object);
                }
                Ok(0)
            }
            Task::LinkToBinary(l) => {
                let contents: Vec<Vec<u8>> = l
                    .inputs
                    .iter()
                    .map(|p| self.files.get(p).cloned().unwrap_or_default())
                    .collect();
                let objects = objects_for(&contents, "target/obj");
                let invocation = l.invocation(&objects);
                self.log.push(render_invocation(&invocation));
                Ok(0)
            }
        }
    }
}

fn plain_config() -> BuildConfig {
    BuildConfig { standard: Standard::C11, optimization: None, lto: None }
}

#[test]
fn test_graph_shape() {
    let sources = vec!["src/a.c".to_string(), "src/b.c".to_string(), "src/c.c".to_string()];
    let g = build_graph(&sources, &plain_config(), "target", "target/obj", "target/app");
    assert_eq!(g.nodes.len(), sources.len() + 3);
    let compiles =
        g.nodes.iter().filter(|n| matches!(n.task, Task::CompileToObject(_))).count();
    let directories =
        g.nodes.iter().filter(|n| matches!(n.task, Task::CreateDirectory(_))).count();
    let links = g.nodes.iter().filter(|n| matches!(n.task, Task::LinkToBinary(_))).count();
    assert_eq!(compiles, sources.len());
    assert_eq!(directories, 2);
    assert_eq!(links, 1);
    let link = g.nodes.last().unwrap();
    assert!(matches!(link.task, Task::LinkToBinary(_)));
    assert_eq!(link.children.len(), sources.len() + 2);
}

#[test]
fn test_execution_order_and_dedup() {
    let sources = vec!["src/a.c".to_string(), "src/b.c".to_string()];
    let g = build_graph(&sources, &plain_config(), "target", "target/obj", "target/app");
    let mut runner = ScriptedRunner::new(&[("src/a.c", b"aa"), ("src/b.c", b"bb")]);
    let (state, result) = execute_graph(&g, &mut runner);
    assert!(result.is_ok());
    // The shared directory nodes ran exactly once each, before any compile;
    // the link ran last.
    assert_eq!(runner.log.len(), 5);
    assert_eq!(runner.log[0], "mkdir target");
    assert_eq!(runner.log[1], "mkdir target/obj");
    assert!(runner.log[2].contains("src/a.c"));
    assert!(runner.log[3].contains("src/b.c"));
    assert!(runner.log[4].contains("-fuse-ld=lld"));
    for status in &state.status {
        assert_eq!(*status, NodeStatus::Succeeded);
    }
}

#[test]
fn test_failure_blocks_link() {
    let sources = vec!["src/good.c".to_string(), "src/bad.c".to_string()];
    let g = build_graph(&sources, &plain_config(), "target", "target/obj", "target/app");
    let mut runner = ScriptedRunner::new(&[("src/good.c", b"g"), ("src/bad.c", b"b")]);
    runner.fail_source = Some("src/bad.c".to_string());
    let (state, result) = execute_graph(&g, &mut runner);
    match result {
        Err(BuildError::TaskFailed { node, code }) => {
            assert_eq!(node, 3); // slot 2 compiles good.c, slot 3 compiles bad.c
            assert_eq!(code, 1);
        }
        other => panic!("expected a task failure, got {:?}", other.err()),
    }
    // The link node never executed: not in the log, still pending.
    assert!(!runner.log.iter().any(|line| line.contains("-fuse-ld=lld")));
    assert_eq!(state.status[g.nodes.len() - 1], NodeStatus::Pending);
    assert_eq!(state.status[3], NodeStatus::Failed);
}

#[test]
fn test_empty_source_directory_builds() {
    let sources: Vec<String> = Vec::new();
    let g = build_graph(&sources, &plain_config(), "target", "target/obj", "target/app");
    assert_eq!(g.nodes.len(), 3);
    let mut runner = ScriptedRunner::new(&[]);
    let (_, result) = execute_graph(&g, &mut runner);
    assert!(result.is_ok());
    // The link invocation has zero object inputs.
    assert_eq!(runner.log[2], "clang -fuse-ld=lld -o target/app");
    assert_eq!(runner.full_compiles, 0);
}

#[test]
fn test_second_build_hits_cache() {
    let sources = vec!["src/a.c".to_string(), "src/b.c".to_string()];
    let files: &[(&str, &[u8])] = &[("src/a.c", b"first"), ("src/b.c", b"second")];
    let g = build_graph(&sources, &plain_config(), "target", "target/obj", "target/app");
    let mut runner = ScriptedRunner::new(files);
    let (_, first) = execute_graph(&g, &mut runner);
    assert!(first.is_ok());
    assert_eq!(runner.full_compiles, 2);
    assert_eq!(runner.check_compiles, 0);
    // Second build, unchanged sources, same "disk": zero full compiles, and
    // the link still succeeds.
    runner.log.clear();
    runner.full_compiles = 0;
    let g2 = build_graph(&sources, &plain_config(), "target", "target/obj", "target/app");
    let (_, second) = execute_graph(&g2, &mut runner);
    assert!(second.is_ok());
    assert_eq!(runner.full_compiles, 0);
    assert_eq!(runner.check_compiles, 2);
    assert!(runner.log.iter().any(|line| line.contains("-fsyntax-only")));
    assert!(runner.log.iter().any(|line| line.contains("-fuse-ld=lld")));
}

#[test]
fn test_one_changed_source_recompiles_once() {
    let sources = vec!["src/a.c".to_string(), "src/b.c".to_string()];
    let g = build_graph(&sources, &plain_config(), "target", "target/obj", "target/app");
    let mut runner = ScriptedRunner::new(&[("src/a.c", b"stable"), ("src/b.c", b"before")]);
    let (_, first) = execute_graph(&g, &mut runner);
    assert!(first.is_ok());
    let old_object = resolve_object(b"before", "target/obj");
    assert!(runner.disk.contains(&old_object));
    // Change one byte of one source: exactly one new compile happens, and
    // the previous object file is left on the "disk" untouched.
    runner.files.insert("src/b.c".to_string(), b"after!".to_vec());
    runner.full_compiles = 0;
    runner.check_compiles = 0;
    let g2 = build_graph(&sources, &plain_config(), "target", "target/obj", "target/app");
    let (_, second) = execute_graph(&g2, &mut runner);
    assert!(second.is_ok());
    assert_eq!(runner.full_compiles, 1);
    assert_eq!(runner.check_compiles, 1);
    assert!(runner.disk.contains(&old_object));
    assert!(runner.disk.contains(&resolve_object(b"after!", "target/obj")));
}

#[test]
fn test_identical_sources_share_one_object() {
    let sources = vec!["src/one.c".to_string(), "src/two.c".to_string()];
    let same: &[u8] = b"int shared(void) { return 0; }\n";
    let g = build_graph(&sources, &plain_config(), "target", "target/obj", "target/app");
    let mut runner = ScriptedRunner::new(&[("src/one.c", same), ("src/two.c", same)]);
    let (_, result) = execute_graph(&g, &mut runner);
    assert!(result.is_ok());
    // Both sources resolve to the same object path; only one physical
    // compile occurred, the other node saw the object already present.
    assert_eq!(
        resolve_object(same, "target/obj"),
        resolve_object(same, "target/obj")
    );
    assert_eq!(runner.full_compiles, 1);
    assert_eq!(runner.check_compiles, 1);
    assert_eq!(runner.disk.len(), 1);
}

#[test]
fn test_plan_build_filters_and_names() {
    let manifest = "[package]\nname = \"app\"\ntype = \"application\"\nversion = \"0.1.0\"\nstandard = \"c11\"\n";
    let discovered = vec![
        "proj/src".to_string(),
        "proj/src/main.c".to_string(),
        "proj/src/notes.txt".to_string(),
        "proj/src/util.c".to_string(),
    ];
    let plan = plan_build("proj", manifest, &discovered).unwrap();
    assert_eq!(plan.package.name, "app");
    assert_eq!(plan.target_directory, "proj/target");
    assert_eq!(plan.object_directory, "proj/target/obj");
    assert_eq!(plan.output, "proj/target/app");
    assert_eq!(plan.graph.nodes.len(), 2 + 3);
    match &plan.graph.nodes[2].task {
        Task::CompileToObject(c) => assert_eq!(c.input, "proj/src/main.c"),
        other => panic!("slot 2 should compile, holds {:?}", other),
    }
    match &plan.graph.nodes[3].task {
        Task::CompileToObject(c) => assert_eq!(c.input, "proj/src/util.c"),
        other => panic!("slot 3 should compile, holds {:?}", other),
    }
}

#[test]
fn test_plan_build_rejects_bad_manifest() {
    let discovered: Vec<String> = Vec::new();
    assert!(plan_build("proj", "[package]\n", &discovered).is_err());
}

#[test]
fn test_judge_outcome() {
    assert!(judge_outcome(4, Ok(0)).is_ok());
    match judge_outcome(4, Ok(2)) {
        Err(BuildError::TaskFailed { node, code }) => {
            assert_eq!(node, 4);
            assert_eq!(code, 2);
        }
        other => panic!("a nonzero exit must fail the node, got {:?}", other.err()),
    }
    match judge_outcome(7, Err("no such program".to_string())) {
        Err(BuildError::LaunchFailed { node, message }) => {
            assert_eq!(node, 7);
            assert_eq!(message, "no such program");
        }
        other => panic!("a launch failure must fail the node, got {:?}", other.err()),
    }
}

#[test]
fn test_finished_node_not_rerun() {
    let sources = vec!["src/a.c".to_string()];
    let g = build_graph(&sources, &plain_config(), "target", "target/obj", "target/app");
    let mut runner = ScriptedRunner::new(&[("src/a.c", b"aa")]);
    let mut state = ExecState::new(&g);
    let root = g.nodes.len() - 1;
    assert!(execute_node(&g, &mut runner, &mut state, root).is_ok());
    let ran_once = runner.log.len();
    // A second call on the already-succeeded root performs no task at all
    // and leaves every status as it was.
    let statuses_before: Vec<NodeStatus> = state.status.clone();
    assert!(execute_node(&g, &mut runner, &mut state, root).is_ok());
    assert_eq!(runner.log.len(), ran_once);
    assert_eq!(state.status, statuses_before);
}
