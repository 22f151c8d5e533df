//! The monitor's aggregate.
//!
//! A spider task per watched node fetches that node's channel snapshot
//! about once a second and hands it here; the HTTP surface asks for the
//! whole aggregate, a map from node name to its latest snapshot.

use vstd::prelude::*;

use crate::dict::Dict;

verus! {

/// The per-channel subscriber counts of one node, as its snapshot reported
/// them.
pub type NodeSnapshot = Vec<(String, usize)>;

/// The values of one snapshot.
pub open spec fn counts_view(s: Seq<(String, usize)>) -> Seq<(Seq<char>, usize)> {
    Seq::new(s.len(), |i: int| (s[i].0@, s[i].1))
}

/// The monitor: the latest snapshot of every node heard from.
#[derive(Debug)]
pub struct Monitor {
    pub state: Dict<NodeSnapshot>,
}

/// Copy of a snapshot.
fn clone_counts(v: &NodeSnapshot) -> (r: NodeSnapshot)
    ensures
        counts_view(r@) == counts_view(v@),
        r@.len() == v@.len(),
{
    let mut r: NodeSnapshot = Vec::new();
    let mut i: usize = 0;
    while i < v.len()
        invariant
            i <= v@.len(),
            r@.len() == i,
            forall|j: int|
                0 <= j < i ==> (#[trigger] r@[j]).0@ == v@[j].0@ && r@[j].1 == v@[j].1,
        decreases v@.len() - i,
    {
        r.push((v[i].0.clone(), v[i].1));
        i = i + 1;
    }
    assert(counts_view(r@) =~= counts_view(v@));
    r
}

impl Monitor {
    pub open spec fn wf(&self) -> bool {
        self.state.wf()
    }

    /// A monitor that has heard from no node.
    pub fn new() -> (r: Self)
        ensures
            r.wf(),
            r@ == Map::<Seq<char>, NodeSnapshot>::empty(),
    {
        Monitor { state: Dict::new() }
    }

    pub closed spec fn view(&self) -> Map<Seq<char>, NodeSnapshot> {
        self.state@
    }

    /// Take one node's fresh snapshot, replacing what it reported before.
    pub fn handle_task_msg(&mut self, name: String, snapshot: NodeSnapshot)
        requires
            old(self).wf(),
        ensures
            final(self).wf(),
            final(self)@ == old(self)@.insert(name@, snapshot),
    {
        self.state.insert(name, snapshot);
    }

    /// The whole aggregate, one entry per node, in the order first heard
    /// from.
    pub fn info(&self) -> (r: Vec<(String, NodeSnapshot)>)
        requires
            self.wf(),
        ensures
            r@.len() == self@.len(),
            r@.len() == self.state.pairs_view().len(),
            forall|i: int|
                0 <= i < r@.len() ==> {
                    &&& self@.contains_key((#[trigger] r@[i]).0@)
                    &&& counts_view(r@[i].1@) == counts_view(self@[r@[i].0@]@)
                    &&& r@[i].0@ == self.state.pairs_view()[i].0@
                },
    {
        let n = self.state.len();
        let mut r: Vec<(String, NodeSnapshot)> = Vec::new();
        let mut i: usize = 0;
        while i < n
            invariant
                self.wf(),
                i <= n,
                n == self.state.pairs_view().len(),
                n == self@.len(),
                r@.len() == i,
                forall|j: int|
                    0 <= j < i ==> {
                        &&& self@.contains_key((#[trigger] r@[j]).0@)
                        &&& counts_view(r@[j].1@) == counts_view(self@[r@[j].0@]@)
                        &&& r@[j].0@ == self.state.pairs_view()[j].0@
                    },
            decreases n - i,
        {
            let p = self.state.index(i);
            r.push((p.0.clone(), clone_counts(&p.1)));
            i = i + 1;
        }
        r
    }
}

} // verus!
