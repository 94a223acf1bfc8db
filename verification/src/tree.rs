//! The hierarchical status tree: the executable node type, its mathematical
//! model, and a deep clone proved to preserve the model.

use vstd::prelude::*;

use crate::status::StatusColor;

verus! {

broadcast use vstd::std_specs::vec::axiom_vec_index_decreases;

/// Mathematical model of one node of the health tree: what the executable
/// [`ServiceStatus`] denotes.
#[verifier::ext_equal]
pub struct StatusTree {
    pub name: Seq<char>,
    pub status: StatusColor,
    pub description: Option<Seq<char>>,
    pub children: Seq<StatusTree>,
}

impl StatusTree {
    /// A well-formed node has a non-empty name, and so does every node
    /// below it.
    pub open spec fn wf(self) -> bool
        decreases self,
    {
        self.name.len() > 0 && (forall|i: int|
            0 <= i < self.children.len() ==> (#[trigger] self.children[i]).wf())
    }

    /// The statuses of a sequence of nodes, in order.
    pub open spec fn statuses(children: Seq<StatusTree>) -> Seq<StatusColor> {
        children.map_values(|c: StatusTree| c.status)
    }
}

/// One node of the health tree as held at run time. A node with children
/// carries a status derived from them by the aggregation rule; a leaf
/// carries the status its probe reported.
#[derive(Debug, PartialEq, Eq)]
pub struct ServiceStatus {
    pub name: String,
    pub status: StatusColor,
    pub description: Option<String>,
    pub subservices: Vec<ServiceStatus>,
}

/// The models of the nodes of `v` from position `i` on, in order.
pub open spec fn forest_of(v: Vec<ServiceStatus>, i: int) -> Seq<StatusTree>
    decreases v, v.len() - i,
{
    if i < 0 || i >= v.len() {
        Seq::empty()
    } else {
        seq![tree_of(v[i])] + forest_of(v, i + 1)
    }
}

/// The model of an executable node.
pub open spec fn tree_of(t: ServiceStatus) -> StatusTree
    decreases t, 0int,
{
    StatusTree {
        name: t.name@,
        status: t.status,
        description: match t.description {
            Some(d) => Some(d@),
            None => None,
        },
        children: forest_of(t.subservices, 0),
    }
}

impl View for ServiceStatus {
    type V = StatusTree;

    open spec fn view(&self) -> StatusTree {
        tree_of(*self)
    }
}

/// `forest_of(v, i)` holds exactly the models of the elements of `v` from
/// position `i` on.
pub proof fn lemma_forest_of(v: Vec<ServiceStatus>, i: int)
    requires
        0 <= i <= v.len(),
    ensures
        forest_of(v, i).len() == v.len() - i,
        forall|j: int| i <= j < v.len() ==> forest_of(v, i)[j - i] == tree_of(v[j]),
    decreases v.len() - i,
{
    if i < v.len() {
        lemma_forest_of(v, i + 1);
    }
}

/// `forest_of(v, 0)` is the pointwise model of `v`.
pub proof fn lemma_forest_full(v: Vec<ServiceStatus>)
    ensures
        forest_of(v, 0).len() == v.len(),
        forall|j: int| 0 <= j < v.len() ==> forest_of(v, 0)[j] == tree_of(v[j]),
{
    lemma_forest_of(v, 0);
    assert forall|j: int| 0 <= j < v.len() implies forest_of(v, 0)[j] == tree_of(v[j]) by {
        assert(forest_of(v, 0)[j - 0] == tree_of(v[j]));
    }
}

impl ServiceStatus {
    /// Builds a node; absent subservices mean no children.
    pub fn new(
        name: String,
        status: StatusColor,
        description: Option<String>,
        subservices: Option<Vec<ServiceStatus>>,
    ) -> (s: Self)
        ensures
            s@.name == name@,
            s@.status == status,
            s@.description == (match description {
                Some(d) => Some(d@),
                None => None::<Seq<char>>,
            }),
            (match subservices {
                Some(v) => s@.children.len() == v.len() && (forall|j: int|
                    0 <= j < v.len() ==> s@.children[j] == #[trigger] tree_of(v[j])),
                None => s@.children.len() == 0,
            }),
    {
        let subservices = match subservices {
            Some(v) => v,
            None => Vec::new(),
        };
        let s = ServiceStatus { name, status, description, subservices };
        proof {
            lemma_forest_of(s.subservices, 0);
        }
        s
    }
}

impl Clone for ServiceStatus {
    /// A deep copy that denotes the same tree.
    fn clone(&self) -> (r: Self)
        ensures
            r@ == self@,
        decreases *self,
    {
        let mut subs: Vec<ServiceStatus> = Vec::new();
        let n = self.subservices.len();
        let mut i: usize = 0;
        while i < n
            invariant
                n == self.subservices.len(),
                i <= n,
                subs.len() == i,
                forall|j: int|
                    0 <= j < i ==> tree_of(#[trigger] subs[j]) == tree_of(self.subservices[j]),
            decreases n - i,
        {
            proof {
                assert(decreases_to!(*self => self.subservices));
            }
            subs.push(self.subservices[i].clone());
            i += 1;
        }
        let r = ServiceStatus {
            name: self.name.clone(),
            status: self.status,
            description: match &self.description {
                Some(d) => Some(d.clone()),
                None => None,
            },
            subservices: subs,
        };
        proof {
            lemma_forest_full(r.subservices);
            lemma_forest_full(self.subservices);
            assert(forest_of(r.subservices, 0) =~= forest_of(self.subservices, 0));
            assert(r@ =~= self@);
        }
        r
    }
}

} // verus!
