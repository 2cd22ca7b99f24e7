//! The hosts of a project and the order in which they are deployed.
//!
//! A host may be reached only through another one (its jump dependency); such
//! a host is deployed after the one it depends on.

use vstd::prelude::*;
use vstd::string::*;
use crate::text::{join, joined, text_views};

verus! {

/// The architecture of a host's CPU.
#[derive(Debug, Clone, Copy, PartialEq, Eq)]
pub enum Architecture {
    Aarch64,
    X86_64,
}

/// What the project says of one host besides its name.
#[derive(Debug, Clone, PartialEq, Eq)]
pub struct RosAssistantConfig {
    /// The architecture of the host's CPU.
    pub arch: Architecture,
    /// Which variable will produce the disk image.
    pub image_output: String,
    /// Which device the installer ISO should write the disk image to.
    pub target_device: Option<String>,
    /// Override the ssh destination used to access this host.
    pub ssh_destination: Option<String>,
    /// The host that relays this host's ssh connection, which must therefore
    /// be deployed before this one.
    pub jump_dependency: Option<String>,
}

/// One host of a project.
#[derive(Debug, Clone, PartialEq, Eq)]
pub struct HostConfig {
    pub hostname: String,
    pub ros_assistant: RosAssistantConfig,
}

/// Why no deployment order could be determined.
#[derive(Debug, Clone, PartialEq, Eq)]
pub enum OrderError {
    /// `hostname` depends on `depends_on`, which is no host of the project.
    UnknownDependency { hostname: String, depends_on: String },
    /// Hosts depend on each other in a circle. Each entry of `cycles` holds
    /// the indices of the hosts of one circle.
    CyclicReference { cycles: Vec<Vec<usize>> },
}

/// An order error as a mathematical value.
pub enum OrderErrorView {
    UnknownDependency { hostname: Seq<char>, depends_on: Seq<char> },
    CyclicReference { cycles: Seq<Seq<usize>> },
}

/// The edge lists of a graph, each as a sequence.
pub open spec fn edge_lists(lists: Seq<Vec<usize>>) -> Seq<Seq<usize>> {
    lists.map_values(|list: Vec<usize>| list@)
}

impl View for OrderError {
    type V = OrderErrorView;

    open spec fn view(&self) -> OrderErrorView {
        match self {
            OrderError::UnknownDependency { hostname, depends_on } => {
                OrderErrorView::UnknownDependency { hostname: hostname@, depends_on: depends_on@ }
            },
            OrderError::CyclicReference { cycles } => OrderErrorView::CyclicReference {
                cycles: edge_lists(cycles@),
            },
        }
    }
}

/// The name of the system that Nix builds for `arch`.
pub open spec fn nix_system(arch: Architecture) -> Seq<char> {
    match arch {
        Architecture::Aarch64 => "aarch64-linux"@,
        Architecture::X86_64 => "x86_64-linux"@,
    }
}

impl Architecture {
    /// The name of the system that Nix builds for this architecture.
    pub fn as_nix_system_str(&self) -> (system: &'static str)
        ensures
            system@ == nix_system(*self),
    {
        match self {
            Architecture::Aarch64 => "aarch64-linux",
            Architecture::X86_64 => "x86_64-linux",
        }
    }
}

/// The name of the host that `host` depends on, if it depends on one.
pub open spec fn dependency_of(host: HostConfig) -> Option<Seq<char>> {
    match host.ros_assistant.jump_dependency {
        Some(name) => Some(name@),
        None => None,
    }
}

/// The index under which `name` is found among `hosts`: that of the last
/// host of that name.
pub open spec fn index_of_host(hosts: Seq<HostConfig>, name: Seq<char>) -> Option<int>
    decreases hosts.len(),
{
    if hosts.len() == 0 {
        None
    } else if hosts.last().hostname@ == name {
        Some(hosts.len() - 1)
    } else {
        index_of_host(hosts.drop_last(), name)
    }
}

/// Whether host `i` depends on a host that is not among `hosts`.
pub open spec fn depends_on_stranger(hosts: Seq<HostConfig>, i: int) -> bool {
    match dependency_of(hosts[i]) {
        Some(name) => index_of_host(hosts, name) is None,
        None => false,
    }
}

/// The edges that leave host `i` in the graph of dependencies: one to the
/// host it depends on, if it depends on one.
pub open spec fn edges_of(hosts: Seq<HostConfig>, i: int) -> Seq<usize> {
    match dependency_of(hosts[i]) {
        Some(name) => match index_of_host(hosts, name) {
            Some(index) => seq![index as usize],
            None => Seq::empty(),
        },
        None => Seq::empty(),
    }
}

/// The graph of dependencies: for every host the edges that leave it.
pub open spec fn dependency_graph(hosts: Seq<HostConfig>) -> Seq<Seq<usize>> {
    Seq::new(hosts.len(), |i: int| edges_of(hosts, i))
}

/// Whether every edge of `graph` leads to a vertex of `graph`.
pub open spec fn edges_in_range(graph: Seq<Seq<usize>>) -> bool {
    forall|i: int, j: int|
        0 <= i < graph.len() && 0 <= j < graph[i].len() ==> (#[trigger] graph[i][j]) < graph.len()
}

/// Whether `walk` follows edges of `graph` from vertex to vertex.
pub open spec fn is_walk(graph: Seq<Seq<usize>>, walk: Seq<usize>) -> bool {
    &&& walk.len() >= 2
    &&& forall|i: int| 0 <= i < walk.len() ==> (#[trigger] walk[i]) < graph.len()
    &&& forall|i: int|
        0 <= i < walk.len() - 1 ==> graph[walk[i] as int].contains(#[trigger] walk[i + 1])
}

/// Whether `graph` has a walk that ends where it began.
pub open spec fn has_cycle(graph: Seq<Seq<usize>>) -> bool {
    exists|walk: Seq<usize>| is_walk(graph, walk) && walk.first() == walk.last()
}

/// Whether `order` names every vertex of `graph` once and every edge of
/// `graph` leads from an earlier place of `order` to a later one.
pub open spec fn is_topological_order(graph: Seq<Seq<usize>>, order: Seq<usize>) -> bool {
    &&& order.len() == graph.len()
    &&& order.no_duplicates()
    &&& forall|i: int| 0 <= i < order.len() ==> (#[trigger] order[i]) < graph.len()
    &&& forall|a: int, b: int|
        0 <= a < order.len() && 0 <= b < order.len() && graph[order[a] as int].contains(
            order[b],
        ) ==> a < b
}

/// What `toposort_scc::IndexGraph::toposort_or_scc` returns for the graph
/// that `IndexGraph::from_adjacency_list` builds from `graph`: a topological
/// order, or the strongly connected components in which it found the cycles.
pub uninterp spec fn toposort_outcome(graph: Seq<Seq<usize>>) -> Result<Seq<usize>, Seq<Seq<usize>>>;

/// What is known of [`toposort_outcome`]: it is an order exactly if the graph
/// has no cycle, and such an order is a topological one.
pub open spec fn sorts_or_finds_cycles(
    graph: Seq<Seq<usize>>,
    outcome: Result<Seq<usize>, Seq<Seq<usize>>>,
) -> bool {
    &&& outcome is Ok <==> !has_cycle(graph)
    &&& outcome matches Ok(order) ==> is_topological_order(graph, order)
}

/// The outcome of a sort as a mathematical value.
pub open spec fn outcome_view(outcome: Result<Vec<usize>, Vec<Vec<usize>>>) -> Result<
    Seq<usize>,
    Seq<Seq<usize>>,
> {
    match outcome {
        Ok(order) => Ok(order@),
        Err(cycles) => Err(edge_lists(cycles@)),
    }
}

/// `toposort_scc::IndexGraph::from_adjacency_list` followed by
/// `IndexGraph::toposort_or_scc`: Kahn's algorithm on the graph with the
/// given edges. The result is an order of all vertices in which every edge
/// leads forward, if the graph has no cycle, and else the components that
/// hold its cycles. Building the graph panics on an edge to a vertex that
/// does not exist, so such graphs are left out.
#[verifier::external_body]
fn toposort_or_scc(graph: &Vec<Vec<usize>>) -> (outcome: Result<Vec<usize>, Vec<Vec<usize>>>)
    requires
        edges_in_range(edge_lists(graph@)),
    ensures
        outcome_view(outcome) == toposort_outcome(edge_lists(graph@)),
        sorts_or_finds_cycles(edge_lists(graph@), outcome_view(outcome)),
{
    toposort_scc::IndexGraph::from_adjacency_list(graph).toposort_or_scc()
}

/// The deployment order that `outcome` stands for: a topological order of
/// the dependencies backwards, so that a host comes after the host it
/// depends on; the cycles as the error.
pub open spec fn order_of(outcome: Result<Seq<usize>, Seq<Seq<usize>>>) -> Result<
    Seq<usize>,
    OrderErrorView,
> {
    match outcome {
        Ok(order) => Ok(order.reverse()),
        Err(cycles) => Err(OrderErrorView::CyclicReference { cycles }),
    }
}

/// Whether `order` names every host once, by its index, and names every host
/// after the host it depends on.
pub open spec fn respects_dependencies(hosts: Seq<HostConfig>, order: Seq<usize>) -> bool {
    &&& order.len() == hosts.len()
    &&& order.no_duplicates()
    &&& forall|i: int| 0 <= i < order.len() ==> (#[trigger] order[i]) < hosts.len()
    &&& forall|a: int, b: int|
        #![trigger order[a], order[b]]
        0 <= a < order.len() && 0 <= b < order.len() && edges_of(hosts, order[a] as int).contains(
            order[b],
        ) ==> b < a
}

/// Whether one of `hosts` depends on a host that is not among them.
pub open spec fn has_stranger(hosts: Seq<HostConfig>) -> bool {
    exists|i: int| 0 <= i < hosts.len() && depends_on_stranger(hosts, i)
}

/// The order in which `hosts` are deployed, or why there is none. The first
/// host that depends on a stranger is the error; without one, the order is
/// what the sort of the graph of dependencies gives.
pub open spec fn deployment_order(hosts: Seq<HostConfig>) -> Result<Seq<usize>, OrderErrorView> {
    if has_stranger(hosts) {
        let first = choose|i: int|
            0 <= i < hosts.len() && depends_on_stranger(hosts, i) && forall|j: int|
                0 <= j < i ==> !depends_on_stranger(hosts, j);
        Err(
            OrderErrorView::UnknownDependency {
                hostname: hosts[first].hostname@,
                depends_on: dependency_of(hosts[first])->0,
            },
        )
    } else {
        order_of(toposort_outcome(dependency_graph(hosts)))
    }
}

/// The view of a deployment order or of the error in its place.
pub open spec fn order_view(order: Result<Vec<usize>, OrderError>) -> Result<
    Seq<usize>,
    OrderErrorView,
> {
    match order {
        Ok(order) => Ok(order@),
        Err(error) => Err(error@),
    }
}

/// Turns the outcome of the sort into the deployment order.
pub fn finish_order(outcome: Result<Vec<usize>, Vec<Vec<usize>>>) -> (order: Result<
    Vec<usize>,
    OrderError,
>)
    ensures
        order_view(order) == order_of(outcome_view(outcome)),
{
    match outcome {
        Ok(sorted) => {
            let mut reversed: Vec<usize> = Vec::new();
            let mut i: usize = sorted.len();
            while i > 0
                invariant
                    i <= sorted.len(),
                    reversed@.len() == sorted.len() - i,
                    forall|k: int|
                        0 <= k < reversed@.len() ==> reversed@[k] == sorted@[sorted.len() - 1 - k],
                decreases i,
            {
                i = i - 1;
                reversed.push(sorted[i]);
            }
            assert(reversed@ =~= sorted@.reverse());
            Ok(reversed)
        },
        Err(cycles) => Err(OrderError::CyclicReference { cycles }),
    }
}

/// Finds `name` among `list`: the index of the last host of that name.
pub fn find_host(list: &[HostConfig], name: &String) -> (index: Option<usize>)
    ensures
        match index_of_host(list@, name@) {
            Some(found) => index == Some(found as usize) && 0 <= found < list@.len(),
            None => index is None,
        },
{
    let mut i: usize = list.len();
    assert(list@.subrange(0, i as int) =~= list@);
    while i > 0
        invariant
            i <= list.len(),
            index_of_host(list@, name@) == index_of_host(list@.subrange(0, i as int), name@),
        decreases i,
    {
        let ghost prefix = list@.subrange(0, i as int);
        assert(prefix.last() == list@[i - 1]);
        assert(prefix.drop_last() =~= list@.subrange(0, i - 1));
        i = i - 1;
        if list[i].hostname == *name {
            return Some(i);
        }
    }
    None
}

impl HostConfig {
    /// Whether this host goes by the name of the file that describes it.
    pub fn is_named_after(&self, file_name: &str) -> (named: bool)
        ensures
            named == (self.hostname@ == file_name@),
    {
        let name = file_name.to_owned();
        self.hostname == name
    }

    /// The order in which the hosts of `list` are deployed, as indices into
    /// `list`: every host once, and every host after the host it depends on.
    /// There is such an order unless a host depends on one that is not in the
    /// list, or hosts depend on each other in a circle.
    pub fn determine_deployment_order(list: &[HostConfig]) -> (order: Result<Vec<usize>, OrderError>)
        ensures
            order_view(order) == deployment_order(list@),
            order is Ok <==> !has_stranger(list@) && !has_cycle(dependency_graph(list@)),
            order matches Ok(found) ==> respects_dependencies(list@, found@),
    {
        let mut graph: Vec<Vec<usize>> = Vec::new();
        let mut i: usize = 0;
        while i < list.len()
            invariant
                i <= list.len(),
                graph@.len() == i,
                forall|k: int| 0 <= k < i ==> !depends_on_stranger(list@, k),
                forall|k: int| 0 <= k < i ==> (#[trigger] graph@[k])@ == edges_of(list@, k),
            decreases list.len() - i,
        {
            let mut edges: Vec<usize> = Vec::new();
            match &list[i].ros_assistant.jump_dependency {
                Some(depends_on) => match find_host(list, depends_on) {
                    Some(index) => {
                        edges.push(index);
                        assert(edges@ =~= edges_of(list@, i as int));
                    },
                    None => {
                        assert(depends_on_stranger(list@, i as int));
                        return Err(
                            OrderError::UnknownDependency {
                                hostname: list[i].hostname.clone(),
                                depends_on: depends_on.clone(),
                            },
                        );
                    },
                },
                None => {},
            }
            graph.push(edges);
            i = i + 1;
        }
        proof {
            assert(edge_lists(graph@) =~= dependency_graph(list@));
            assert(edges_in_range(dependency_graph(list@))) by {
                assert forall|a: int, b: int|
                    0 <= a < dependency_graph(list@).len() && 0 <= b < dependency_graph(
                        list@,
                    )[a].len() implies (#[trigger] dependency_graph(list@)[a][b])
                    < dependency_graph(list@).len() by {
                    lemma_found_in_range(list@, dependency_of(list@[a])->0);
                }
            }
        }
        let outcome = toposort_or_scc(&graph);
        proof {
            if outcome is Ok {
                lemma_dependencies_come_first(list@, outcome->Ok_0@);
            }
        }
        finish_order(outcome)
    }
}

/// The Nix expression that evaluates the host description in the file at
/// `path` to its host name and its settings.
pub open spec fn evaluation_of(path: Seq<char>) -> Seq<char> {
    "with import "@ + path
        + " { config = {}; pkgs=<nixpkgs>; lib={}; }; { hostname = config.networking.hostName; ros_assistant = options.ros_assistant; }"@
}

/// The arguments of `nix-instantiate` that evaluate the host description in
/// the file at `path` and print it as JSON.
pub open spec fn instantiate_arguments_of(path: Seq<char>) -> Seq<Seq<char>> {
    seq!["--eval"@, "--strict"@, "--expr"@, "--json"@, evaluation_of(path)]
}

/// The names of the hosts of `cycle`, in order; an index that names no host
/// is passed over.
pub open spec fn cycle_names(hosts: Seq<HostConfig>, cycle: Seq<usize>) -> Seq<Seq<char>>
    decreases cycle.len(),
{
    if cycle.len() == 0 {
        Seq::empty()
    } else if cycle.last() < hosts.len() {
        cycle_names(hosts, cycle.drop_last()).push(hosts[cycle.last() as int].hostname@)
    } else {
        cycle_names(hosts, cycle.drop_last())
    }
}

/// The line that names the hosts of one circle: their names with a comma
/// between each two, or nothing where there is no name.
pub open spec fn cycle_line(names: Seq<Seq<char>>) -> Seq<char> {
    if names.len() == 0 {
        Seq::empty()
    } else {
        joined(names, ", "@) + "\n"@
    }
}

/// The lines that name the hosts of `cycles`, one line for each circle.
pub open spec fn cycle_lines(hosts: Seq<HostConfig>, cycles: Seq<Seq<usize>>) -> Seq<char>
    decreases cycles.len(),
{
    if cycles.len() == 0 {
        Seq::empty()
    } else {
        cycle_lines(hosts, cycles.drop_last()) + cycle_line(cycle_names(hosts, cycles.last()))
    }
}

/// What the user is told about `error`, which arose from `hosts`.
pub open spec fn order_error_text(hosts: Seq<HostConfig>, error: OrderErrorView) -> Seq<char> {
    match error {
        OrderErrorView::UnknownDependency { hostname, depends_on } => hostname
            + " depends on host "@ + depends_on
            + ", which is not specified in the hosts directory."@,
        OrderErrorView::CyclicReference { cycles } => {
            "Failed to determine deployment order due to cyclic reference: "@ + cycle_lines(
                hosts,
                cycles,
            )
        },
    }
}

impl OrderError {
    /// What the user is told about this error, which arose from `list`.
    pub fn describe(&self, list: &[HostConfig]) -> (text: String)
        ensures
            text@ == order_error_text(list@, self@),
    {
        match self {
            OrderError::UnknownDependency { hostname, depends_on } => {
                let mut text = hostname.clone();
                text.append(" depends on host ");
                text.append(depends_on.as_str());
                text.append(", which is not specified in the hosts directory.");
                text
            },
            OrderError::CyclicReference { cycles } => {
                let mut text =
                    "Failed to determine deployment order due to cyclic reference: ".to_owned();
                let ghost head = text@;
                let ghost all = edge_lists(cycles@);
                let mut i: usize = 0;
                assert(all.take(0) =~= Seq::<Seq<usize>>::empty());
                assert(head + cycle_lines(list@, all.take(0)) =~= head);
                while i < cycles.len()
                    invariant
                        i <= cycles.len(),
                        all == edge_lists(cycles@),
                        text@ == head + cycle_lines(list@, all.take(i as int)),
                    decreases cycles.len() - i,
                {
                    proof {
                        assert(all.take(i + 1).drop_last() =~= all.take(i as int));
                        assert(all.take(i + 1).last() == cycles@[i as int]@);
                    }
                    let names = names_of_cycle(list, &cycles[i]);
                    let ghost before = text@;
                    if names.len() > 0 {
                        let line = join(names.as_slice(), ", ");
                        text.append(line.as_str());
                        text.append("\n");
                        assert(text@ =~= before + cycle_line(text_views(names@)));
                    } else {
                        assert(text@ =~= before + cycle_line(text_views(names@)));
                    }
                    i = i + 1;
                    assert(text@ =~= head + cycle_lines(list@, all.take(i as int)));
                }
                assert(all.take(i as int) =~= all);
                text
            },
        }
    }
}

/// The names of the hosts of `cycle`, in order.
fn names_of_cycle(list: &[HostConfig], cycle: &Vec<usize>) -> (names: Vec<String>)
    ensures
        text_views(names@) == cycle_names(list@, cycle@),
{
    let mut names: Vec<String> = Vec::new();
    let mut i: usize = 0;
    assert(cycle@.take(0) =~= Seq::<usize>::empty());
    while i < cycle.len()
        invariant
            i <= cycle.len(),
            text_views(names@) == cycle_names(list@, cycle@.take(i as int)),
        decreases cycle.len() - i,
    {
        let ghost before = text_views(names@);
        proof {
            assert(cycle@.take(i + 1).drop_last() =~= cycle@.take(i as int));
            assert(cycle@.take(i + 1).last() == cycle@[i as int]);
        }
        if cycle[i] < list.len() {
            names.push(list[cycle[i]].hostname.clone());
            assert(text_views(names@) =~= before.push(list@[cycle@[i as int] as int].hostname@));
        }
        i = i + 1;
    }
    assert(cycle@.take(i as int) =~= cycle@);
    names
}

/// The Nix expression that evaluates the host description in the file at
/// `path`.
pub fn evaluation(path: &str) -> (expression: String)
    ensures
        expression@ == evaluation_of(path@),
{
    let mut expression = "with import ".to_owned();
    expression.append(path);
    expression.append(
        " { config = {}; pkgs=<nixpkgs>; lib={}; }; { hostname = config.networking.hostName; ros_assistant = options.ros_assistant; }",
    );
    expression
}

/// The arguments of `nix-instantiate` that evaluate the host description in
/// the file at `path` and print it as JSON.
pub fn instantiate_arguments(path: &str) -> (arguments: Vec<String>)
    ensures
        text_views(arguments@) == instantiate_arguments_of(path@),
{
    let arguments = vec![
        "--eval".to_owned(),
        "--strict".to_owned(),
        "--expr".to_owned(),
        "--json".to_owned(),
        evaluation(path),
    ];
    assert(text_views(arguments@) =~= instantiate_arguments_of(path@));
    arguments
}

/// A host is found at an index of the list, under its own name.
pub proof fn lemma_found_in_range(hosts: Seq<HostConfig>, name: Seq<char>)
    ensures
        index_of_host(hosts, name) matches Some(index) ==> 0 <= index < hosts.len()
            && hosts[index].hostname@ == name,
    decreases hosts.len(),
{
    if hosts.len() > 0 && hosts.last().hostname@ != name {
        lemma_found_in_range(hosts.drop_last(), name);
    }
}

/// A topological order of the dependencies, read backwards, respects them.
pub proof fn lemma_dependencies_come_first(hosts: Seq<HostConfig>, sorted: Seq<usize>)
    requires
        is_topological_order(dependency_graph(hosts), sorted),
    ensures
        respects_dependencies(hosts, sorted.reverse()),
{
    let graph = dependency_graph(hosts);
    let order = sorted.reverse();
    assert forall|a: int, b: int|
        #![trigger order[a], order[b]]
        0 <= a < order.len() && 0 <= b < order.len() && edges_of(hosts, order[a] as int).contains(
            order[b],
        ) implies b < a by {
        let from = sorted.len() - 1 - a;
        let to = sorted.len() - 1 - b;
        assert(sorted[from] == order[a]);
        assert(sorted[to] == order[b]);
        assert(graph[sorted[from] as int] == edges_of(hosts, sorted[from] as int));
        assert(graph[sorted[from] as int].contains(sorted[to]));
    }
    assert(order.no_duplicates()) by {
        assert forall|i: int, j: int|
            0 <= i < order.len() && 0 <= j < order.len() && i != j implies order[i] != order[j] by {
            assert(sorted[sorted.len() - 1 - i] == order[i]);
            assert(sorted[sorted.len() - 1 - j] == order[j]);
        }
    }
    assert forall|i: int| 0 <= i < order.len() implies (#[trigger] order[i]) < hosts.len() by {
        assert(sorted[sorted.len() - 1 - i] == order[i]);
    }
}

} // verus!
