//! Dependency resolution: packages are the nodes of a directed graph, an
//! edge `from -> to` says that `from` comes before `to`, and resolving is a
//! topological sort of that graph.
use crate::pm::config::Package;
use petgraph::algo::Cycle;
use petgraph::graph::{DiGraph, Graph, NodeIndex};
use petgraph::Directed;
use vstd::prelude::*;

verus! {

#[verifier::external_type_specification]
#[verifier::external_body]
#[verifier::reject_recursive_types(N)]
#[verifier::reject_recursive_types(E)]
#[verifier::reject_recursive_types(Ty)]
#[verifier::reject_recursive_types(Ix)]
pub struct ExGraph<N, E, Ty, Ix>(Graph<N, E, Ty, Ix>);

#[verifier::external_type_specification]
#[verifier::external_body]
pub struct ExDirected(Directed);

#[verifier::external_type_specification]
#[verifier::external_body]
#[verifier::reject_recursive_types(Ix)]
pub struct ExNodeIndex<Ix>(NodeIndex<Ix>);

#[verifier::external_type_specification]
#[verifier::external_body]
#[verifier::reject_recursive_types(N)]
pub struct ExCycle<N>(Cycle<N>);

/// The node weights of a graph, in index order.
pub uninterp spec fn graph_nodes(g: DiGraph<String, ()>) -> Seq<Seq<char>>;

/// The edges of a graph, as pairs of node indices, in insertion order.
pub uninterp spec fn graph_edges(g: DiGraph<String, ()>) -> Seq<(int, int)>;

/// `order` lists each of the nodes `0..n` once, and for every edge its source
/// comes before its target (so a self-loop admits no order).
pub open spec fn is_topo_order(n: nat, edges: Seq<(int, int)>, order: Seq<usize>) -> bool {
    &&& order.len() == n
    &&& forall|i: int| 0 <= i < n ==> #[trigger] order[i] < n
    &&& forall|i: int, j: int| 0 <= i < j < n ==> order[i] != order[j]
    &&& forall|k: int, i: int, j: int|
        #![trigger edges[k], order[i], order[j]]
        0 <= k < edges.len() && 0 <= i < n && 0 <= j < n && order[i] == edges[k].0 && order[j]
            == edges[k].1 ==> i < j
}

/// Some order of the nodes respects every edge.
pub open spec fn acyclic(n: nat, edges: Seq<(int, int)>) -> bool {
    exists|order: Seq<usize>| is_topo_order(n, edges, order)
}

/// `names` are the node names in some order that respects every edge.
pub open spec fn resolves_to(nodes: Seq<Seq<char>>, edges: Seq<(int, int)>, names: Seq<Seq<char>>) -> bool {
    exists|order: Seq<usize>|
        is_topo_order(nodes.len(), edges, order) && names == order.map_values(
            |i: usize| nodes[i as int],
        )
}

/// `DiGraph::new`: a graph with no node and no edge.
#[verifier::external_body]
fn graph_new() -> (g: DiGraph<String, ()>)
    ensures
        graph_nodes(g) == Seq::<Seq<char>>::empty(),
        graph_edges(g) == Seq::<(int, int)>::empty(),
{
    DiGraph::new()
}

/// `Graph::add_node`: appends a node and returns its index. The graph panics
/// once it holds `u32::MAX` nodes, which `requires` rules out.
#[verifier::external_body]
fn graph_add_node(g: &mut DiGraph<String, ()>, weight: String) -> (r: usize)
    requires
        graph_nodes(*old(g)).len() < u32::MAX,
    ensures
        r == graph_nodes(*old(g)).len(),
        graph_nodes(*final(g)) == graph_nodes(*old(g)).push(weight@),
        graph_edges(*final(g)) == graph_edges(*old(g)),
{
    g.add_node(weight).index()
}

/// `Graph::add_edge`: appends an edge between two existing nodes. It panics
/// on a node that does not exist and once the graph holds `u32::MAX` edges.
#[verifier::external_body]
fn graph_add_edge(g: &mut DiGraph<String, ()>, from: usize, to: usize)
    requires
        from < graph_nodes(*old(g)).len(),
        to < graph_nodes(*old(g)).len(),
        graph_edges(*old(g)).len() < u32::MAX,
    ensures
        graph_nodes(*final(g)) == graph_nodes(*old(g)),
        graph_edges(*final(g)) == graph_edges(*old(g)).push((from as int, to as int)),
{
    g.add_edge(NodeIndex::new(from), NodeIndex::new(to), ());
}

/// `Graph`'s indexing by node: the weight of node `i`, cloned.
#[verifier::external_body]
fn graph_node_weight(g: &DiGraph<String, ()>, i: usize) -> (r: String)
    requires
        i < graph_nodes(*g).len(),
    ensures
        r@ == graph_nodes(*g)[i as int],
{
    g[NodeIndex::new(i)].clone()
}

/// `petgraph::algo::toposort`: on a graph with a cycle (self-loops count) a
/// `Cycle` error; otherwise every node once, each before its successors.
/// Which of several such orders comes back is left unsaid, as in the
/// crate's documentation.
#[verifier::external_body]
fn graph_toposort(g: &DiGraph<String, ()>) -> (r: Result<Vec<usize>, Cycle<NodeIndex>>)
    ensures
        r is Ok <==> acyclic(graph_nodes(*g).len(), graph_edges(*g)),
        r matches Ok(order) ==> is_topo_order(graph_nodes(*g).len(), graph_edges(*g), order@),
{
    match petgraph::algo::toposort(g, None) {
        Ok(order) => Ok(order.iter().map(|n| n.index()).collect()),
        Err(e) => Err(e),
    }
}

/// Why resolution failed.
#[derive(Debug, Clone, Copy, PartialEq, Eq, Structural)]
pub enum ResolveError {
    /// The dependencies form a cycle.
    CircularDependency,
}

impl ResolveError {
    /// The error's message.
    pub fn message(&self) -> (r: &'static str)
        ensures
            r@ == "Circular dependency detected"@,
    {
        let r = "Circular dependency detected";
        proof {
            reveal_strlit("Circular dependency detected");
        }
        r
    }
}

/// Packages and the order constraints between them.
pub struct DependencyResolver {
    graph: DiGraph<String, ()>,
}

impl DependencyResolver {
    /// Names of the packages added so far, by index.
    pub closed spec fn packages(&self) -> Seq<Seq<char>> {
        graph_nodes(self.graph)
    }

    /// The constraints added so far, as pairs of package indices.
    pub closed spec fn dependencies(&self) -> Seq<(int, int)> {
        graph_edges(self.graph)
    }

    /// A resolver with no package.
    pub fn new() -> (r: Self)
        ensures
            r.packages() == Seq::<Seq<char>>::empty(),
            r.dependencies() == Seq::<(int, int)>::empty(),
    {
        DependencyResolver { graph: graph_new() }
    }

    /// Adds a package and returns its index.
    pub fn add_package(&mut self, package: &Package) -> (r: usize)
        requires
            old(self).packages().len() < u32::MAX,
        ensures
            r == old(self).packages().len(),
            final(self).packages() == old(self).packages().push(package.name@),
            final(self).dependencies() == old(self).dependencies(),
    {
        graph_add_node(&mut self.graph, package.name.clone())
    }

    /// Records that package `from` comes before package `to`.
    pub fn add_dependency(&mut self, from: usize, to: usize)
        requires
            from < old(self).packages().len(),
            to < old(self).packages().len(),
            old(self).dependencies().len() < u32::MAX,
        ensures
            final(self).packages() == old(self).packages(),
            final(self).dependencies() == old(self).dependencies().push((from as int, to as int)),
    {
        graph_add_edge(&mut self.graph, from, to);
    }

    /// The package names in an order that respects every constraint, or
    /// `CircularDependency` when no such order exists.
    pub fn resolve(&self) -> (r: Result<Vec<String>, ResolveError>)
        ensures
            r is Err <==> !acyclic(self.packages().len(), self.dependencies()),
            r matches Ok(names) ==> resolves_to(
                self.packages(),
                self.dependencies(),
                names@.map_values(|s: String| s@),
            ),
    {
        match graph_toposort(&self.graph) {
            Err(_) => Err(ResolveError::CircularDependency),
            Ok(order) => {
                let ghost n = self.packages().len();
                let mut names: Vec<String> = Vec::new();
                let mut k: usize = 0;
                while k < order.len()
                    invariant
                        is_topo_order(n, self.dependencies(), order@),
                        n == graph_nodes(self.graph).len(),
                        k <= order.len(),
                        names.len() == k,
                        forall|j: int|
                            0 <= j < k ==> #[trigger] names@[j]@ == graph_nodes(
                                self.graph,
                            )[order@[j] as int],
                    decreases order.len() - k,
                {
                    let idx = order[k];
                    assert(idx < n);
                    let name = graph_node_weight(&self.graph, idx);
                    names.push(name);
                    k = k + 1;
                }
                assert(names@.map_values(|s: String| s@) =~= order@.map_values(
                    |i: usize| graph_nodes(self.graph)[i as int],
                ));
                Ok(names)
            },
        }
    }
}

} // verus!
