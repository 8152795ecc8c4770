//! The network graph: buses, and the branches that join them.

use crate::bus::BusType;
use crate::error::CoreError;
use crate::graph::{
    graph_add_edge, graph_add_node, graph_clone, graph_edge_count, graph_edge_endpoints,
    graph_edges, graph_new, graph_node_count, graph_nodes,
};
use crate::quantity::Quantity;
use petgraph::graph::Graph;
use petgraph::Directed;
use vstd::prelude::*;

verus! {

/// Handle of a bus: its position among the buses of one topology.
#[derive(Debug, Clone, Copy, PartialEq, Eq, Hash, Structural)]
pub struct BusId(pub usize);

/// Handle of a branch: its position among the branches of one topology.
#[derive(Debug, Clone, Copy, PartialEq, Eq, Hash, Structural)]
pub struct BranchId(pub usize);

/// What a graph node carries.
#[derive(Debug, Clone)]
pub struct TopologyNode {
    pub bus_id: BusId,
}

/// What a graph edge carries.
#[derive(Debug, Clone)]
pub struct TopologyEdge {
    pub branch_id: BranchId,
}

/// One branch as the solver sees it: its two end buses and its series
/// reactance.
#[derive(Debug, Clone, Copy)]
pub struct BranchData {
    pub from: usize,
    pub to: usize,
    pub reactance: Quantity,
}

/// Most buses one topology can hold.
pub const MAX_BUSES: usize = 0xFFFF_FFFF;

/// Most branches one topology can hold: each takes two directed edges.
pub const MAX_BRANCHES: usize = 0x7FFF_FFFF;

/// An undirected multigraph of buses and branches.
///
/// Each branch is stored as a pair of directed edges, one per direction, so
/// that it is seen from either end. Parallel branches are kept apart.
#[derive(Debug)]
pub struct Topology {
    graph: Graph<TopologyNode, TopologyEdge, Directed, u32>,
    bus_types: Vec<BusType>,
    reactances: Vec<Quantity>,
}

/// A branch joins two distinct buses among the first `n`.
pub open spec fn branch_in_range(b: BranchData, n: int) -> bool {
    b.from < n && b.to < n && b.from != b.to
}

/// Edges `2k` and `2k + 1` are the two directions of branch `k`.
spec fn edge_pair(edges: Seq<(usize, usize, usize)>, k: int) -> bool {
    let fwd = edges[2 * k];
    let rev = edges[2 * k + 1];
    fwd.2 == k && rev.2 == k && rev.0 == fwd.1 && rev.1 == fwd.0
}

/// What one bus sees of the branches: for each branch that ends at `bus`, in
/// the order the branches were added, the bus at the other end and the
/// branch's handle.
pub open spec fn incident(branches: Seq<BranchData>, bus: usize) -> Seq<(BusId, BranchId)>
    decreases branches.len(),
{
    if branches.len() == 0 {
        Seq::empty()
    } else {
        let k = (branches.len() - 1) as usize;
        let rest = incident(branches.drop_last(), bus);
        let b = branches.last();
        if b.from == bus {
            rest.push((BusId(b.to), BranchId(k)))
        } else if b.to == bus {
            rest.push((BusId(b.from), BranchId(k)))
        } else {
            rest
        }
    }
}

/// Bus `i` lies within `steps` branches of bus `root`.
pub open spec fn reaches(branches: Seq<BranchData>, root: int, i: int, steps: nat) -> bool
    decreases steps,
{
    if steps == 0 {
        i == root
    } else {
        ||| reaches(branches, root, i, (steps - 1) as nat)
        ||| exists|k: int|
            #![trigger branches[k]]
            0 <= k < branches.len() && {
                ||| branches[k].from == i && reaches(
                    branches,
                    root,
                    branches[k].to as int,
                    (steps - 1) as nat,
                )
                ||| branches[k].to == i && reaches(
                    branches,
                    root,
                    branches[k].from as int,
                    (steps - 1) as nat,
                )
            }
    }
}

/// Some path of branches leads from bus `root` to bus `i`.
pub open spec fn connected_to(branches: Seq<BranchData>, root: int, i: int) -> bool {
    exists|steps: nat| reaches(branches, root, i, steps)
}

/// The two ends of every branch carry the same mark.
spec fn closed_under(branches: Seq<BranchData>, seen: Seq<bool>) -> bool {
    forall|k: int|
        0 <= k < branches.len() ==> seen[(#[trigger] branches[k]).from as int]
            == seen[branches[k].to as int]
}

/// Number of marks that are set.
spec fn count_true(seen: Seq<bool>) -> nat
    decreases seen.len(),
{
    if seen.len() == 0 {
        0
    } else {
        count_true(seen.drop_last()) + if seen.last() {
            1nat
        } else {
            0nat
        }
    }
}

proof fn count_true_bounded(seen: Seq<bool>)
    ensures
        count_true(seen) <= seen.len(),
    decreases seen.len(),
{
    if seen.len() > 0 {
        count_true_bounded(seen.drop_last());
    }
}

proof fn count_true_set(seen: Seq<bool>, i: int)
    requires
        0 <= i < seen.len(),
        !seen[i],
    ensures
        count_true(seen.update(i, true)) == count_true(seen) + 1,
    decreases seen.len(),
{
    let after = seen.update(i, true);
    if i == seen.len() - 1 {
        assert(after.drop_last() =~= seen.drop_last());
    } else {
        count_true_set(seen.drop_last(), i);
        assert(after.drop_last() =~= seen.drop_last().update(i, true));
    }
}

/// Marks that hold at the root and agree across every branch hold at every
/// bus that the root reaches.
proof fn closed_marks_cover(
    branches: Seq<BranchData>,
    seen: Seq<bool>,
    root: int,
    i: int,
    steps: nat,
)
    requires
        0 <= root < seen.len(),
        seen[root],
        closed_under(branches, seen),
        forall|k: int|
            0 <= k < branches.len() ==> branch_in_range(#[trigger] branches[k], seen.len() as int),
        reaches(branches, root, i, steps),
    ensures
        0 <= i < seen.len(),
        seen[i],
    decreases steps,
{
    if steps > 0 {
        let prev = (steps - 1) as nat;
        if reaches(branches, root, i, prev) {
            closed_marks_cover(branches, seen, root, i, prev);
        } else {
            let k = choose|k: int|
                #![trigger branches[k]]
                0 <= k < branches.len() && {
                    ||| branches[k].from == i && reaches(branches, root, branches[k].to as int, prev)
                    ||| branches[k].to == i && reaches(branches, root, branches[k].from as int, prev)
                };
            assert(branch_in_range(branches[k], seen.len() as int));
            if branches[k].from == i && reaches(branches, root, branches[k].to as int, prev) {
                closed_marks_cover(branches, seen, root, branches[k].to as int, prev);
            } else {
                closed_marks_cover(branches, seen, root, branches[k].from as int, prev);
            }
        }
    }
}

/// One more branch extends a path.
proof fn path_extends(branches: Seq<BranchData>, root: int, k: int, near: int, far: int)
    requires
        0 <= k < branches.len(),
        (branches[k].from == near && branches[k].to == far) || (branches[k].to == near
            && branches[k].from == far),
        connected_to(branches, root, near),
    ensures
        connected_to(branches, root, far),
{
    let steps = choose|steps: nat| reaches(branches, root, near, steps);
    let b = branches[k];
    assert(reaches(branches, root, far, steps + 1)) by {
        assert((steps + 1 - 1) as nat == steps);
        assert(b.from == far && reaches(branches, root, b.to as int, steps) || b.to == far
            && reaches(branches, root, b.from as int, steps));
    }
}

impl Topology {
    /// The type of each bus, by bus index.
    pub closed spec fn bus_types(&self) -> Seq<BusType> {
        self.bus_types@
    }

    /// The branches, by branch index.
    pub closed spec fn branches(&self) -> Seq<BranchData> {
        Seq::new(
            self.reactances@.len(),
            |k: int|
                BranchData {
                    from: graph_edges(self.graph)[2 * k].0,
                    to: graph_edges(self.graph)[2 * k].1,
                    reactance: self.reactances@[k],
                },
        )
    }

    /// The graph holds exactly what `bus_types` and `branches` describe.
    pub closed spec fn stored(&self) -> bool {
        let nodes = graph_nodes(self.graph);
        let edges = graph_edges(self.graph);
        &&& nodes.len() == self.bus_types@.len()
        &&& forall|i: int| 0 <= i < nodes.len() ==> #[trigger] nodes[i] == i
        &&& edges.len() == 2 * self.reactances@.len()
        &&& forall|k: int| 0 <= k < self.reactances@.len() ==> #[trigger] edge_pair(edges, k)
    }

    /// Validity: bus indices are dense, every branch joins two distinct
    /// existing buses, and the counts are within the graph's limits.
    pub open spec fn wf(&self) -> bool {
        &&& self.stored()
        &&& self.bus_types().len() <= MAX_BUSES
        &&& self.branches().len() <= MAX_BRANCHES
        &&& forall|k: int|
            0 <= k < self.branches().len() ==> branch_in_range(
                #[trigger] self.branches()[k],
                self.bus_types().len() as int,
            )
    }

    /// An empty topology.
    pub fn new() -> (t: Topology)
        ensures
            t.wf(),
            t.bus_types() == Seq::<BusType>::empty(),
            t.branches() == Seq::<BranchData>::empty(),
    {
        let t = Topology { graph: graph_new(), bus_types: Vec::new(), reactances: Vec::new() };
        assert(t.branches() =~= Seq::<BranchData>::empty());
        t
    }

    /// Appends a bus of type `PQ` and returns its handle.
    pub fn add_bus(&mut self) -> (id: BusId)
        requires
            old(self).wf(),
            old(self).bus_types().len() < MAX_BUSES,
        ensures
            final(self).wf(),
            final(self).bus_types() == old(self).bus_types().push(BusType::PQ),
            final(self).branches() == old(self).branches(),
            id.0 == old(self).bus_types().len(),
    {
        let n = self.bus_types.len();
        let ix = graph_add_node(&mut self.graph, BusId(n));
        self.bus_types.push(BusType::PQ);
        proof {
            assert(self.branches() =~= old(self).branches());
            assert forall|k: int| 0 <= k < self.branches().len() implies branch_in_range(
                #[trigger] self.branches()[k],
                self.bus_types().len() as int,
            ) by {
                assert(branch_in_range(old(self).branches()[k], old(self).bus_types().len() as int));
            }
        }
        BusId(ix)
    }

    /// Sets the type of a bus. Fails with `InvalidBusId` exactly when the
    /// handle names no bus.
    pub fn set_bus_type(&mut self, bus: BusId, bus_type: BusType) -> (r: Result<(), CoreError>)
        requires
            old(self).wf(),
        ensures
            final(self).wf(),
            final(self).branches() == old(self).branches(),
            bus.0 < old(self).bus_types().len() ==> r.is_ok() && final(self).bus_types()
                == old(self).bus_types().update(bus.0 as int, bus_type),
            bus.0 >= old(self).bus_types().len() ==> r == Err::<(), CoreError>(
                CoreError::InvalidBusId(bus.0),
            ) && final(self).bus_types() == old(self).bus_types(),
    {
        if bus.0 >= self.bus_types.len() {
            return Err(CoreError::InvalidBusId(bus.0));
        }
        self.bus_types.set(bus.0, bus_type);
        proof {
            assert(self.branches() =~= old(self).branches());
            assert forall|k: int| 0 <= k < self.branches().len() implies branch_in_range(
                #[trigger] self.branches()[k],
                self.bus_types().len() as int,
            ) by {
                assert(branch_in_range(old(self).branches()[k], old(self).bus_types().len() as int));
            }
        }
        Ok(())
    }

    /// The type of a bus, or `InvalidBusId` exactly when the handle names no
    /// bus.
    pub fn bus_type(&self, bus: BusId) -> (r: Result<BusType, CoreError>)
        requires
            self.wf(),
        ensures
            bus.0 < self.bus_types().len() ==> r == Ok::<BusType, CoreError>(
                self.bus_types()[bus.0 as int],
            ),
            bus.0 >= self.bus_types().len() ==> r == Err::<BusType, CoreError>(
                CoreError::InvalidBusId(bus.0),
            ),
    {
        if bus.0 >= self.bus_types.len() {
            return Err(CoreError::InvalidBusId(bus.0));
        }
        Ok(self.bus_types[bus.0])
    }

    /// Adds a branch between two buses and returns its handle.
    ///
    /// Fails with `InvalidBusId` if `from` names no bus, else if `to` names
    /// none; fails with `TopologyError` if both name the same bus. A failed
    /// call changes nothing.
    pub fn add_branch(&mut self, from: BusId, to: BusId, reactance: Quantity) -> (r: Result<
        BranchId,
        CoreError,
    >)
        requires
            old(self).wf(),
            old(self).branches().len() < MAX_BRANCHES,
        ensures
            final(self).wf(),
            final(self).bus_types() == old(self).bus_types(),
            match r {
                Ok(id) => {
                    &&& from.0 < old(self).bus_types().len()
                    &&& to.0 < old(self).bus_types().len()
                    &&& from.0 != to.0
                    &&& id.0 == old(self).branches().len()
                    &&& final(self).branches() == old(self).branches().push(
                        BranchData { from: from.0, to: to.0, reactance },
                    )
                },
                Err(e) => {
                    &&& final(self).branches() == old(self).branches()
                    &&& if from.0 >= old(self).bus_types().len() {
                        e == CoreError::InvalidBusId(from.0)
                    } else if to.0 >= old(self).bus_types().len() {
                        e == CoreError::InvalidBusId(to.0)
                    } else {
                        from.0 == to.0 && e is TopologyError
                    }
                },
            },
    {
        let n = self.bus_types.len();
        if from.0 >= n {
            return Err(CoreError::InvalidBusId(from.0));
        }
        if to.0 >= n {
            return Err(CoreError::InvalidBusId(to.0));
        }
        if from.0 == to.0 {
            return Err(CoreError::TopologyError("branch joins a bus to itself".to_owned()));
        }
        let k = self.reactances.len();
        let id = BranchId(k);
        let ghost edges0 = graph_edges(self.graph);
        graph_add_edge(&mut self.graph, from.0, to.0, id);
        graph_add_edge(&mut self.graph, to.0, from.0, id);
        self.reactances.push(reactance);
        proof {
            let edges = graph_edges(self.graph);
            assert(edges == edges0.push((from.0, to.0, k)).push((to.0, from.0, k)));
            assert forall|j: int| 0 <= j < self.reactances@.len() implies #[trigger] edge_pair(
                edges,
                j,
            ) by {
                if j < k {
                    assert(edge_pair(edges0, j));
                }
            }
            let added = BranchData { from: from.0, to: to.0, reactance };
            assert(self.branches() =~= old(self).branches().push(added));
            assert forall|j: int| 0 <= j < self.branches().len() implies branch_in_range(
                #[trigger] self.branches()[j],
                self.bus_types().len() as int,
            ) by {
                if j < k {
                    assert(branch_in_range(old(self).branches()[j], old(self).bus_types().len() as int));
                }
            }
        }
        Ok(id)
    }

    /// Number of buses.
    pub fn bus_count(&self) -> (n: usize)
        requires
            self.wf(),
        ensures
            n == self.bus_types().len(),
    {
        graph_node_count(&self.graph)
    }

    /// Number of branches: half the number of directed edges.
    pub fn branch_count(&self) -> (n: usize)
        requires
            self.wf(),
        ensures
            n == self.branches().len(),
    {
        graph_edge_count(&self.graph) / 2
    }

    /// End buses and reactance of a branch, or `InvalidBranchId` exactly
    /// when the handle names no branch.
    pub fn branch(&self, id: BranchId) -> (r: Result<BranchData, CoreError>)
        requires
            self.wf(),
        ensures
            id.0 < self.branches().len() ==> r == Ok::<BranchData, CoreError>(
                self.branches()[id.0 as int],
            ),
            id.0 >= self.branches().len() ==> r == Err::<BranchData, CoreError>(
                CoreError::InvalidBranchId(id.0),
            ),
    {
        if id.0 >= self.reactances.len() {
            return Err(CoreError::InvalidBranchId(id.0));
        }
        proof {
            assert(edge_pair(graph_edges(self.graph), id.0 as int));
        }
        let ends = graph_edge_endpoints(&self.graph, 2 * id.0);
        match ends {
            Some((a, b)) => Ok(BranchData { from: a, to: b, reactance: self.reactances[id.0] }),
            None => Err(CoreError::InvalidBranchId(id.0)),
        }
    }

    /// The branches that end at `bus`, each with the bus at its other end,
    /// in the order in which the branches were added.
    pub fn branches_of(&self, bus: BusId) -> (out: Vec<(BusId, BranchId)>)
        requires
            self.wf(),
        ensures
            out@ == incident(self.branches(), bus.0),
    {
        let m = self.reactances.len();
        let mut out: Vec<(BusId, BranchId)> = Vec::new();
        let mut k: usize = 0;
        assert(self.branches().take(0) =~= Seq::<BranchData>::empty());
        while k < m
            invariant
                self.wf(),
                m == self.branches().len(),
                k <= m,
                out@ == incident(self.branches().take(k as int), bus.0),
            decreases m - k,
        {
            proof {
                assert(edge_pair(graph_edges(self.graph), k as int));
                assert(self.branches().take(k + 1).drop_last() =~= self.branches().take(k as int));
                assert(self.branches().take(k + 1).last() == self.branches()[k as int]);
            }
            let ends = graph_edge_endpoints(&self.graph, 2 * k);
            if let Some((a, b)) = ends {
                if a == bus.0 {
                    out.push((BusId(b), BranchId(k)));
                } else if b == bus.0 {
                    out.push((BusId(a), BranchId(k)));
                }
            }
            k = k + 1;
        }
        assert(self.branches().take(m as int) =~= self.branches());
        out
    }

    /// Marks the buses that some path of branches joins to `root`. Fails with
    /// `InvalidBusId` exactly when `root` names no bus.
    pub fn reachable_from(&self, root: BusId) -> (r: Result<Vec<bool>, CoreError>)
        requires
            self.wf(),
        ensures
            match r {
                Ok(seen) => {
                    &&& root.0 < self.bus_types().len()
                    &&& seen@.len() == self.bus_types().len()
                    &&& forall|i: int|
                        0 <= i < seen@.len() ==> (#[trigger] seen@[i] <==> connected_to(
                            self.branches(),
                            root.0 as int,
                            i,
                        ))
                },
                Err(e) => root.0 >= self.bus_types().len() && e == CoreError::InvalidBusId(root.0),
            },
    {
        let n = self.bus_count();
        if root.0 >= n {
            return Err(CoreError::InvalidBusId(root.0));
        }
        let m = self.branch_count();
        let ghost branches = self.branches();
        let mut seen: Vec<bool> = Vec::new();
        let mut i: usize = 0;
        while i < n
            invariant
                i <= n,
                seen@.len() == i,
                count_true(seen@) == 0,
                forall|j: int| 0 <= j < i ==> !seen@[j],
            decreases n - i,
        {
            assert(seen@.push(false).drop_last() =~= seen@);
            seen.push(false);
            i = i + 1;
        }
        proof {
            count_true_set(seen@, root.0 as int);
            assert(reaches(branches, root.0 as int, root.0 as int, 0));
        }
        seen.set(root.0, true);
        let mut count: usize = 1;
        let mut changed = true;
        while changed
            invariant
                self.wf(),
                branches == self.branches(),
                n == self.bus_types().len(),
                m == branches.len(),
                root.0 < n,
                seen@.len() == n,
                seen@[root.0 as int],
                count == count_true(seen@),
                forall|j: int|
                    0 <= j < n && #[trigger] seen@[j] ==> connected_to(branches, root.0 as int, j),
                !changed ==> closed_under(branches, seen@),
            decreases n - count, if changed { 1int } else { 0int },
        {
            proof {
                count_true_bounded(seen@);
            }
            let ghost count_before = count;
            changed = false;
            let mut k: usize = 0;
            while k < m
                invariant
                    self.wf(),
                    branches == self.branches(),
                    n == self.bus_types().len(),
                    m == branches.len(),
                    root.0 < n,
                    k <= m,
                    seen@.len() == n,
                    seen@[root.0 as int],
                    count == count_true(seen@),
                    count <= n,
                    forall|j: int|
                        0 <= j < n && #[trigger] seen@[j] ==> connected_to(
                            branches,
                            root.0 as int,
                            j,
                        ),
                    changed ==> count > count_before,
                    !changed ==> count == count_before,
                    !changed ==> forall|j: int|
                        0 <= j < k ==> seen@[(#[trigger] branches[j]).from as int]
                            == seen@[branches[j].to as int],
                decreases m - k,
            {
                let b = match self.branch(BranchId(k)) {
                    Ok(b) => b,
                    Err(e) => {
                        return Err(e);
                    },
                };
                assert(b == branches[k as int]);
                assert(branch_in_range(branches[k as int], n as int));
                let at_from = seen[b.from];
                let at_to = seen[b.to];
                if at_from != at_to {
                    let far = if at_from {
                        b.to
                    } else {
                        b.from
                    };
                    let ghost near = if at_from {
                        b.from
                    } else {
                        b.to
                    };
                    proof {
                        count_true_set(seen@, far as int);
                        count_true_bounded(seen@.update(far as int, true));
                        path_extends(branches, root.0 as int, k as int, near as int, far as int);
                    }
                    seen.set(far, true);
                    count = count + 1;
                    changed = true;
                }
                k = k + 1;
            }
        }
        proof {
            assert forall|i: int| 0 <= i < seen@.len() implies (#[trigger] seen@[i]
                <==> connected_to(branches, root.0 as int, i)) by {
                if connected_to(branches, root.0 as int, i) {
                    let steps = choose|steps: nat| reaches(branches, root.0 as int, i, steps);
                    closed_marks_cover(branches, seen@, root.0 as int, i, steps);
                }
            }
        }
        Ok(seen)
    }
}

impl Default for Topology {
    /// The empty topology.
    fn default() -> (t: Topology)
        ensures
            t.wf(),
            t.bus_types() == Seq::<BusType>::empty(),
            t.branches() == Seq::<BranchData>::empty(),
    {
        Topology::new()
    }
}

impl Clone for Topology {
    /// A copy with the same buses and branches under the same handles.
    fn clone(&self) -> (copy: Topology)
        ensures
            copy.bus_types() == self.bus_types(),
            copy.branches() == self.branches(),
            self.wf() ==> copy.wf(),
    {
        let copy = Topology {
            graph: graph_clone(&self.graph),
            bus_types: self.bus_types.clone(),
            reactances: self.reactances.clone(),
        };
        proof {
            assert(copy.bus_types@ =~= self.bus_types@);
            assert(copy.reactances@ =~= self.reactances@);
            assert(copy.branches() =~= self.branches());
        }
        copy
    }
}

} // verus!
