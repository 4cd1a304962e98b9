//! The graph builder: from a project's discovered files and its manifest to
//! the build graph and the paths of one build invocation.
//!
//! The graph always has the same two-tier shape: one node for the target
//! directory, one for the object directory, one compile node per source
//! (each depending on both directory nodes), and one terminal link node
//! depending on every compile node and, since linking writes into the target
//! directory too, on both directory nodes as well.

use vstd::prelude::*;
use vstd::seq_lib::group_seq_properties;

use crate::compiler::BuildConfig;
use crate::compiler::CSourceToObject;
use crate::compiler::LinkObjectsToBinary;
use crate::config::Package;
use crate::config::ParseError;
use crate::config::package_of_doc;
use crate::config::standard_str;
use crate::config::toml_doc_of;
use crate::directory::CreateDirectory;
use crate::meta::language::standard_arg;
use crate::meta::language::Standard;
use crate::node::Graph;
use crate::node::Node;
use crate::node::Task;
use crate::text::join_path;
use crate::text::spec_join_path;

verus! {

/// Whether a path names a C compilation unit: its file name has the
/// extension `c` — it ends in `.c`, and the dot is neither the whole file
/// name's first character nor preceded by a path separator.
pub open spec fn is_c_source_spec(s: Seq<char>) -> bool {
    &&& s.len() >= 3
    &&& s[s.len() - 2] == '.'
    &&& s[s.len() - 1] == 'c'
    &&& s[s.len() - 3] != '/'
}

/// Whether a path names a C compilation unit.
pub fn is_c_source(path: &str) -> (r: bool)
    ensures
        r == is_c_source_spec(path@),
{
    let n = path.unicode_len();
    if n < 3 {
        return false;
    }
    let dot = path.get_char(n - 2);
    let suffix = path.get_char(n - 1);
    let before = path.get_char(n - 3);
    dot == '.' && suffix == 'c' && before != '/'
}

/// Keep the paths that name C compilation units, in their given order.
pub fn filter_sources(paths: &Vec<String>) -> (r: Vec<String>)
    ensures
        r.deep_view() == paths.deep_view().filter(|p: Seq<char>| is_c_source_spec(p)),
{
    broadcast use group_seq_properties;

    let pred = Ghost(|p: Seq<char>| is_c_source_spec(p));
    let mut r: Vec<String> = Vec::new();
    let mut i: usize = 0;
    proof {
        assert(paths.deep_view().take(0) =~= Seq::<Seq<char>>::empty());
        assert(Seq::<Seq<char>>::empty().filter(pred@) =~= Seq::<Seq<char>>::empty());
    }
    while i < paths.len()
        invariant
            i <= paths@.len(),
            pred@ == (|p: Seq<char>| is_c_source_spec(p)),
            r.deep_view() == paths.deep_view().take(i as int).filter(pred@),
        decreases paths@.len() - i,
    {
        let ghost pre = r.deep_view();
        let ghost taken = paths.deep_view().take(i as int);
        if is_c_source(paths[i].as_str()) {
            r.push(paths[i].clone());
            proof {
                assert(r.deep_view() =~= pre.push(paths@[i as int]@));
            }
        }
        proof {
            reveal(Seq::filter);
            let next = paths.deep_view().take(i + 1 as int);
            assert(next.drop_last() =~= taken);
            assert(next.last() == paths@[i as int]@);
            assert(next.filter(pred@) == if pred@(paths@[i as int]@) {
                taken.filter(pred@).push(paths@[i as int]@)
            } else {
                taken.filter(pred@)
            });
        }
        i += 1;
    }
    proof {
        assert(paths.deep_view().take(paths@.len() as int) =~= paths.deep_view());
    }
    r
}

proof fn lemma_filter_all<A>(s: Seq<A>, pred: spec_fn(A) -> bool)
    requires
        forall|i: int| 0 <= i < s.len() ==> #[trigger] pred(s[i]),
    ensures
        s.filter(pred) == s,
    decreases s.len(),
{
    reveal(Seq::filter);
    if s.len() == 0 {
        assert(s.filter(pred) =~= s);
    } else {
        assert(forall|i: int|
            0 <= i < s.drop_last().len() ==> #[trigger] pred(s.drop_last()[i]));
        lemma_filter_all(s.drop_last(), pred);
        assert(pred(s.last()));
        assert(s.filter(pred) =~= s);
    }
}

proof fn lemma_filter_none<A>(s: Seq<A>, pred: spec_fn(A) -> bool)
    requires
        forall|i: int| 0 <= i < s.len() ==> !#[trigger] pred(s[i]),
    ensures
        s.filter(pred).len() == 0,
    decreases s.len(),
{
    reveal(Seq::filter);
    if s.len() > 0 {
        assert(forall|i: int|
            0 <= i < s.drop_last().len() ==> !#[trigger] pred(s.drop_last()[i]));
        lemma_filter_none(s.drop_last(), pred);
        assert(!pred(s.last()));
    }
}

/// Construct the build graph for the discovered sources: slots 0 and 1
/// create the target and object directories, slot `2 + k` compiles source
/// `k`, and the last slot links. For `n` sources the graph has exactly `n`
/// compile nodes, 2 directory nodes and 1 link node, and the link node's
/// dependency list has `n + 2` entries: every compile node, then both
/// directory nodes.
#[verifier::rlimit(60)]
pub fn build_graph(
    sources: &Vec<String>,
    config: &BuildConfig,
    target_directory: &str,
    object_directory: &str,
    output: &str,
) -> (g: Graph)
    requires
        sources@.len() + 3 <= usize::MAX,
    ensures
        g.wf(),
        g.nodes@.len() == sources@.len() + 3,
        g.nodes@[0].task matches Task::CreateDirectory(d) && d@ == target_directory@,
        g.nodes@[0].children@.len() == 0,
        g.nodes@[1].task matches Task::CreateDirectory(d) && d@ == object_directory@,
        g.nodes@[1].children@.len() == 0,
        forall|k: int|
            0 <= k < sources@.len() ==> {
                &&& (#[trigger] g.nodes@[2 + k]).task matches Task::CompileToObject(t)
                    && t.input@ == sources@[k]@ && t.object_directory@ == object_directory@
                    && t.config == *config
                &&& g.nodes@[2 + k].children@ =~= seq![0usize, 1usize]
            },
        ({
            let n = sources@.len() as int;
            &&& g.nodes@[n + 2].task matches Task::LinkToBinary(t) && t.inputs.deep_view()
                == sources.deep_view() && t.output@ == output@ && t.config == *config
            &&& g.nodes@[n + 2].children@.len() == n + 2
            &&& forall|k: int| 0 <= k < n ==> #[trigger] g.nodes@[n + 2].children@[k] == 2 + k
            &&& g.nodes@[n + 2].children@[n] == 0
            &&& g.nodes@[n + 2].children@[n + 1] == 1
        }),
{
    let mut nodes: Vec<Node> = Vec::new();
    nodes.push(
        Node {
            task: Task::CreateDirectory(
                CreateDirectory { directory: target_directory.to_owned() },
            ),
            children: Vec::new(),
        },
    );
    nodes.push(
        Node {
            task: Task::CreateDirectory(
                CreateDirectory { directory: object_directory.to_owned() },
            ),
            children: Vec::new(),
        },
    );
    let mut inputs: Vec<String> = Vec::new();
    let mut i: usize = 0;
    while i < sources.len()
        invariant
            i <= sources@.len(),
            sources@.len() + 3 <= usize::MAX,
            nodes@.len() == i + 2,
            inputs@.len() == i,
            nodes@[0].task matches Task::CreateDirectory(d) && d@ == target_directory@,
            nodes@[0].children@.len() == 0,
            nodes@[1].task matches Task::CreateDirectory(d) && d@ == object_directory@,
            nodes@[1].children@.len() == 0,
            forall|k: int| 0 <= k < i ==> #[trigger] inputs@[k] == sources@[k],
            forall|k: int|
                0 <= k < i ==> {
                    &&& (#[trigger] nodes@[2 + k]).task matches Task::CompileToObject(t)
                        && t.input@ == sources@[k]@ && t.object_directory@ == object_directory@
                        && t.config == *config
                    &&& nodes@[2 + k].children@ =~= seq![0usize, 1usize]
                },
        decreases sources@.len() - i,
    {
        let mut children: Vec<usize> = Vec::new();
        children.push(0);
        children.push(1);
        nodes.push(
            Node {
                task: Task::CompileToObject(
                    CSourceToObject {
                        input: sources[i].clone(),
                        object_directory: object_directory.to_owned(),
                        config: *config,
                    },
                ),
                children,
            },
        );
        inputs.push(sources[i].clone());
        i += 1;
    }
    let mut link_children: Vec<usize> = Vec::new();
    let mut k: usize = 0;
    while k < sources.len()
        invariant
            k <= sources@.len(),
            sources@.len() + 3 <= usize::MAX,
            link_children@.len() == k,
            forall|j: int| 0 <= j < k ==> #[trigger] link_children@[j] == 2 + j,
        decreases sources@.len() - k,
    {
        link_children.push(k + 2);
        k += 1;
    }
    link_children.push(0);
    link_children.push(1);
    proof {
        assert(inputs@ =~= sources@);
    }
    nodes.push(
        Node {
            task: Task::LinkToBinary(
                LinkObjectsToBinary { inputs, output: output.to_owned(), config: *config },
            ),
            children: link_children,
        },
    );
    let g = Graph { nodes };
    proof {
        let n = sources@.len() as int;
        assert forall|i2: int, j2: int|
            0 <= i2 < g.nodes@.len() && 0 <= j2 < g.nodes@[i2].children@.len() implies #[trigger] g
            .nodes@[i2].children@[j2] < i2 by {
            if i2 == n + 2 {
                if j2 < n {
                    assert(g.nodes@[i2].children@[j2] == 2 + j2);
                }
            } else if 2 <= i2 {
                assert(g.nodes@[2 + (i2 - 2)].children@ =~= seq![0usize, 1usize]);
            }
        }
    }
    g
}

/// The shape of a graph the builder produces: for `n` sources, exactly `n`
/// compile nodes, exactly 2 directory nodes, and exactly 1 link node.
pub proof fn lemma_graph_shape(g: &Graph, n: int)
    requires
        n >= 0,
        g.nodes@.len() == n + 3,
        g.nodes@[0].task is CreateDirectory,
        g.nodes@[1].task is CreateDirectory,
        forall|k: int| 0 <= k < n ==> (#[trigger] g.nodes@[2 + k]).task is CompileToObject,
        g.nodes@[n + 2].task is LinkToBinary,
    ensures
        g.compile_count() == n,
        g.directory_count() == 2,
        g.link_count() == 1,
{
    let compile = |nd: Node| nd.task is CompileToObject;
    let dir = |nd: Node| nd.task is CreateDirectory;
    let link = |nd: Node| nd.task is LinkToBinary;
    let front = g.nodes@.subrange(0, 2);
    let mid = g.nodes@.subrange(2, n + 2);
    let back = g.nodes@.subrange(n + 2, n + 3);
    assert(g.nodes@ =~= front + mid + back);
    assert forall|t: int| 0 <= t < mid.len() implies #[trigger] compile(mid[t]) && !dir(mid[t])
        && !link(mid[t]) by {
        assert(g.nodes@[2 + t].task is CompileToObject);
        assert(mid[t] == g.nodes@[2 + t]);
    }
    assert(front[0] == g.nodes@[0]);
    assert(front[1] == g.nodes@[1]);
    assert(back[0] == g.nodes@[n + 2]);
    Seq::filter_distributes_over_add(front + mid, back, compile);
    Seq::filter_distributes_over_add(front, mid, compile);
    Seq::filter_distributes_over_add(front + mid, back, dir);
    Seq::filter_distributes_over_add(front, mid, dir);
    Seq::filter_distributes_over_add(front + mid, back, link);
    Seq::filter_distributes_over_add(front, mid, link);
    lemma_filter_none(front, compile);
    lemma_filter_all(mid, compile);
    lemma_filter_none(back, compile);
    lemma_filter_all(front, dir);
    lemma_filter_none(mid, dir);
    lemma_filter_none(back, dir);
    lemma_filter_none(front, link);
    lemma_filter_none(mid, link);
    lemma_filter_all(back, link);
}

/// The fixed paths of one build under a project directory: the manifest, the
/// source root, the target directory and the object directory.
pub struct ProjectPaths {
    /// `<project>/loki.toml`.
    pub manifest: String,
    /// `<project>/src`.
    pub source_directory: String,
    /// `<project>/target`.
    pub target_directory: String,
    /// `<project>/target/obj`.
    pub object_directory: String,
}

/// Derive the conventional paths of a project from its root directory.
pub fn project_paths(project_directory: &str) -> (r: ProjectPaths)
    ensures
        r.manifest@ == spec_join_path(project_directory@, "loki.toml"@),
        r.source_directory@ == spec_join_path(project_directory@, "src"@),
        r.target_directory@ == spec_join_path(project_directory@, "target"@),
        r.object_directory@ == spec_join_path(project_directory@, "target/obj"@),
{
    ProjectPaths {
        manifest: join_path(project_directory, "loki.toml"),
        source_directory: join_path(project_directory, "src"),
        target_directory: join_path(project_directory, "target"),
        object_directory: join_path(project_directory, "target/obj"),
    }
}

/// Everything one build invocation needs: the parsed package, the derived
/// paths, and the graph over the discovered sources.
pub struct BuildPlan {
    /// The package the manifest describes.
    pub package: Package,
    /// The directory the binary is placed in.
    pub target_directory: String,
    /// The directory object files are placed in.
    pub object_directory: String,
    /// The path of the binary: the target directory joined with the package
    /// name.
    pub output: String,
    /// The build graph over the discovered C sources.
    pub graph: Graph,
}

/// Plan a build from the manifest text and the files discovered under the
/// source directory: parse the package, keep the C sources in discovery
/// order, derive the output paths, and construct the graph. A manifest that
/// does not parse fails the whole plan with its exact parse error, before
/// any graph exists.
pub fn plan_build(project_directory: &str, manifest_text: &str, discovered: &Vec<String>) -> (r:
    Result<BuildPlan, ParseError>)
    requires
        discovered@.len() + 3 <= usize::MAX,
    ensures
        toml_doc_of(manifest_text@) is None ==> r is Err && r->Err_0 is Syntax,
        toml_doc_of(manifest_text@) matches Some(doc) ==> match package_of_doc(doc) {
            Err(e) => r == Err::<BuildPlan, ParseError>(e),
            Ok(p) => r matches Ok(plan) && {
                let sources = discovered.deep_view().filter(|q: Seq<char>| is_c_source_spec(q));
                let target = spec_join_path(project_directory@, "target"@);
                &&& plan.package@ == p
                &&& plan.target_directory@ == target
                &&& plan.object_directory@ == spec_join_path(project_directory@, "target/obj"@)
                &&& plan.output@ == spec_join_path(target, p.name)
                &&& plan.graph.wf()
                &&& plan.graph.nodes@.len() == sources.len() + 3
                &&& (plan.graph.nodes@[0].task matches Task::CreateDirectory(d) && d@ == target)
                &&& plan.graph.nodes@[0].children@.len() == 0
                &&& (plan.graph.nodes@[1].task matches Task::CreateDirectory(d) && d@
                    == plan.object_directory@)
                &&& plan.graph.nodes@[1].children@.len() == 0
                &&& ({
                    let n = sources.len() as int;
                    &&& (plan.graph.nodes@[n + 2].task matches Task::LinkToBinary(t)
                        && t.inputs.deep_view() == sources && t.output@ == plan.output@
                        && t.config.optimization is None && t.config.lto is None
                        && standard_arg(t.config.standard) == "-std="@ + standard_str(p.standard))
                    &&& plan.graph.nodes@[n + 2].children@.len() == n + 2
                    &&& forall|k: int|
                        0 <= k < n ==> #[trigger] plan.graph.nodes@[n + 2].children@[k] == 2 + k
                    &&& plan.graph.nodes@[n + 2].children@[n] == 0
                    &&& plan.graph.nodes@[n + 2].children@[n + 1] == 1
                })
                &&& forall|k: int|
                    0 <= k < sources.len() ==> ((#[trigger] plan.graph.nodes@[2 + k]).task
                        matches Task::CompileToObject(t) && t.input@ == sources[k]
                        && t.object_directory@ == plan.object_directory@
                        && t.config.optimization is None && t.config.lto is None
                        && standard_arg(t.config.standard) == "-std="@ + standard_str(p.standard))
                &&& forall|k: int|
                    0 <= k < sources.len() ==> #[trigger] plan.graph.nodes@[2 + k].children@
                        =~= seq![0usize, 1usize]
            },
        },
{
    let package = match Package::parse(manifest_text) {
        Err(e) => {
            return Err(e);
        },
        Ok(p) => p,
    };
    let paths = project_paths(project_directory);
    let sources = filter_sources(discovered);
    proof {
        Seq::lemma_filter_len(discovered.deep_view(), |q: Seq<char>| is_c_source_spec(q));
        assert(sources@.len() == sources.deep_view().len());
        assert(discovered@.len() == discovered.deep_view().len());
    }
    let config = BuildConfig {
        standard: Standard::from_config(package.standard),
        optimization: None,
        lto: None,
    };
    let output = join_path(paths.target_directory.as_str(), package.name.as_str());
    let graph = build_graph(
        &sources,
        &config,
        paths.target_directory.as_str(),
        paths.object_directory.as_str(),
        output.as_str(),
    );
    proof {
        assert(sources.deep_view() =~= discovered.deep_view().filter(
            |q: Seq<char>| is_c_source_spec(q),
        ));
    }
    Ok(
        BuildPlan {
            package,
            target_directory: paths.target_directory,
            object_directory: paths.object_directory,
            output,
            graph,
        },
    )
}

} // verus!
