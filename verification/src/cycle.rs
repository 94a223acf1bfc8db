//! One poll cycle's decisions: screening raw probe reports, substituting a
//! Red leaf for a failed probe, and building the published tree.

use vstd::prelude::*;
use vstd::string::StringExecFns;

use crate::combine::{aggregate, aggregate_spec, statuses_of};
use crate::status::StatusColor;
use crate::tree::{forest_of, lemma_forest_full, tree_of, ServiceStatus, StatusTree};

verus! {

/// What one probe contributed to a cycle: the probe's configured name and
/// either the tree it reported or a message naming its failure.
#[derive(Debug, PartialEq, Eq)]
pub struct ProbeOutcome {
    pub name: String,
    pub result: Result<ServiceStatus, String>,
}

/// The description carried by a synthetic failure leaf: the failure message,
/// or a fixed text when the message is empty.
pub open spec fn failure_description(msg: Seq<char>) -> Seq<char> {
    if msg.len() > 0 {
        msg
    } else {
        "probe failed"@
    }
}

/// A failure leaf's description is never empty.
pub proof fn lemma_failure_description_nonempty(msg: Seq<char>)
    ensures
        failure_description(msg).len() > 0,
{
    reveal_strlit("probe failed");
}

/// The leaf standing in for a failed probe: Red, childless, described.
pub open spec fn failure_leaf_spec(name: Seq<char>, msg: Seq<char>) -> StatusTree {
    StatusTree {
        name: name,
        status: StatusColor::Red,
        description: Some(failure_description(msg)),
        children: Seq::empty(),
    }
}

/// The child a probe outcome contributes to the cycle's tree.
pub open spec fn child_of(o: ProbeOutcome) -> StatusTree {
    match o.result {
        Ok(s) => tree_of(s),
        Err(m) => failure_leaf_spec(o.name@, m@),
    }
}

/// The children a cycle's outcomes contribute, in configuration order.
pub open spec fn children_of(outcomes: Seq<ProbeOutcome>) -> Seq<StatusTree> {
    outcomes.map_values(|o: ProbeOutcome| child_of(o))
}

/// An outcome fit to enter the tree: a named probe, and any reported tree
/// well formed.
pub open spec fn outcome_wf(o: ProbeOutcome) -> bool {
    o.name@.len() > 0 && (o.result matches Ok(s) ==> tree_of(s).wf())
}

/// Builds the synthetic leaf for a probe that failed.
pub fn failure_leaf(name: String, message: String) -> (leaf: ServiceStatus)
    ensures
        leaf@ == failure_leaf_spec(name@, message@),
{
    let description = if message.as_str().is_empty() {
        String::from_str("probe failed")
    } else {
        message
    };
    let leaf = ServiceStatus {
        name,
        status: StatusColor::Red,
        description: Some(description),
        subservices: Vec::new(),
    };
    proof {
        assert(leaf@ =~= failure_leaf_spec(leaf.name@, message@));
    }
    leaf
}

/// Checks well-formedness of a tree: a non-empty name on every node.
pub fn is_wf(t: &ServiceStatus) -> (b: bool)
    ensures
        b == t@.wf(),
    decreases *t,
{
    proof {
        lemma_forest_full(t.subservices);
    }
    if t.name.as_str().is_empty() {
        return false;
    }
    let n = t.subservices.len();
    let mut ok = true;
    let mut i: usize = 0;
    while i < n
        invariant
            n == t.subservices.len(),
            i <= n,
            forall|j: int|
                0 <= j < t.subservices.len() ==> forest_of(t.subservices, 0)[j] == tree_of(
                    #[trigger] t.subservices[j],
                ),
            ok <==> (forall|j: int| 0 <= j < i ==> (#[trigger] t@.children[j]).wf()),
        decreases n - i,
    {
        proof {
            assert(decreases_to!(*t => t.subservices));
        }
        if !is_wf(&t.subservices[i]) {
            ok = false;
        }
        i += 1;
    }
    ok
}

/// Applies the malformed-result rule: a report whose tree is not well
/// formed cannot enter the health tree, and counts as a failed probe.
pub fn screen_report(name: String, report: Result<ServiceStatus, String>) -> (o: ProbeOutcome)
    requires
        name@.len() > 0,
    ensures
        o.name == name,
        outcome_wf(o),
        (match report {
            Ok(s) => if tree_of(s).wf() {
                o.result == Ok::<ServiceStatus, String>(s)
            } else {
                o.result matches Err(m) && m@ == "malformed status report"@
            },
            Err(e) => o.result == Err::<ServiceStatus, String>(e),
        }),
{
    let result = match report {
        Ok(s) => if is_wf(&s) {
            Ok(s)
        } else {
            Err(String::from_str("malformed status report"))
        },
        Err(e) => Err(e),
    };
    proof {
        reveal_strlit("malformed status report");
    }
    ProbeOutcome { name, result }
}

/// The child for one screened outcome: the probe's reported tree, or the
/// synthetic Red leaf for a failure.
pub fn substitute(outcome: &ProbeOutcome) -> (child: ServiceStatus)
    ensures
        child@ == child_of(*outcome),
{
    match &outcome.result {
        Ok(s) => s.clone(),
        Err(m) => failure_leaf(outcome.name.clone(), m.clone()),
    }
}

/// Assembles the published root for one completed cycle: every outcome in
/// configuration order as a child (failures substituted), the root status
/// derived from the children by the aggregation rule, no root description.
pub fn run_cycle(root_name: String, outcomes: &Vec<ProbeOutcome>) -> (root: ServiceStatus)
    requires
        root_name@.len() > 0,
        forall|j: int| 0 <= j < outcomes@.len() ==> outcome_wf(#[trigger] outcomes@[j]),
    ensures
        root@.name == root_name@,
        root@.description is None,
        root@.children == children_of(outcomes@),
        root@.status == aggregate_spec(StatusTree::statuses(children_of(outcomes@))),
        root@.wf(),
{
    let ghost want = children_of(outcomes@);
    let mut children: Vec<ServiceStatus> = Vec::new();
    let n = outcomes.len();
    let mut i: usize = 0;
    while i < n
        invariant
            n == outcomes@.len(),
            i <= n,
            want == children_of(outcomes@),
            children@.len() == i,
            forall|j: int| 0 <= j < i ==> tree_of(#[trigger] children@[j]) == want[j],
        decreases n - i,
    {
        let child = substitute(&outcomes[i]);
        proof {
            assert(want[i as int] == child_of(outcomes@[i as int]));
        }
        children.push(child);
        i += 1;
    }
    let status = aggregate(&children);
    let root = ServiceStatus { name: root_name, status, description: None, subservices: children };
    proof {
        lemma_forest_full(root.subservices);
        assert(root@.children =~= want);
        assert(statuses_of(root.subservices@) =~= StatusTree::statuses(want));
        assert forall|j: int| 0 <= j < want.len() implies (#[trigger] root@.children[j]).wf() by {
            assert(outcome_wf(outcomes@[j]));
            assert(want[j] == child_of(outcomes@[j]));
        }
    }
    root
}

/// A probe that failed during a cycle contributes a Red, childless leaf
/// with a non-empty description to the cycle's tree, whatever the other
/// outcomes are; building the tree itself has no failure mode.
pub proof fn lemma_failed_probe_yields_red_leaf(outcomes: Seq<ProbeOutcome>, j: int)
    requires
        0 <= j < outcomes.len(),
        outcomes[j].result is Err,
    ensures
        children_of(outcomes)[j].status is Red,
        children_of(outcomes)[j].description matches Some(d) && d.len() > 0,
        children_of(outcomes)[j].children.len() == 0,
        children_of(outcomes)[j].name == outcomes[j].name@,
{
    lemma_failure_description_nonempty(outcomes[j].result->Err_0@);
    assert(children_of(outcomes)[j] == child_of(outcomes[j]));
}

/// The tree published before the first cycle completes: an Orange,
/// childless placeholder announcing warm-up.
pub fn startup_placeholder(root_name: String) -> (t: ServiceStatus)
    ensures
        t@.name == root_name@,
        t@.status is Orange,
        t@.description == Some("warming up"@),
        t@.description->Some_0.len() > 0,
        t@.children.len() == 0,
        root_name@.len() > 0 ==> t@.wf(),
{
    proof {
        reveal_strlit("warming up");
    }
    ServiceStatus {
        name: root_name,
        status: StatusColor::Orange,
        description: Some(String::from_str("warming up")),
        subservices: Vec::new(),
    }
}

} // verus!
