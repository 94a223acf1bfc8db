//! The aggregation rule: how the statuses of a node's children combine
//! into the status of the node itself.

use vstd::prelude::*;

use crate::status::StatusColor;
use crate::tree::ServiceStatus;

verus! {

/// The status a sequence of child statuses combines to, severity-first:
/// unanimous Green is Green; otherwise a single Red suffices for Red;
/// anything else is Orange. An empty sequence is explicitly Green:
/// nothing to report is taken as healthy.
pub open spec fn aggregate_spec(cs: Seq<StatusColor>) -> StatusColor {
    if forall|i: int| 0 <= i < cs.len() ==> (#[trigger] cs[i]) is Green {
        StatusColor::Green
    } else if exists|i: int| 0 <= i < cs.len() && (#[trigger] cs[i]) is Red {
        StatusColor::Red
    } else {
        StatusColor::Orange
    }
}

/// The statuses of a sequence of executable nodes, in order.
pub open spec fn statuses_of(children: Seq<ServiceStatus>) -> Seq<StatusColor> {
    children.map_values(|s: ServiceStatus| s.status)
}

/// Combines the children's statuses under the aggregation rule.
pub fn aggregate(children: &Vec<ServiceStatus>) -> (c: StatusColor)
    ensures
        c == aggregate_spec(statuses_of(children@)),
{
    let ghost cs = statuses_of(children@);
    let mut all_green = true;
    let mut any_red = false;
    let n = children.len();
    let mut i: usize = 0;
    while i < n
        invariant
            n == children@.len(),
            i <= n,
            cs == statuses_of(children@),
            all_green <==> (forall|j: int| 0 <= j < i ==> (#[trigger] cs[j]) is Green),
            any_red <==> (exists|j: int| 0 <= j < i && (#[trigger] cs[j]) is Red),
        decreases n - i,
    {
        let st = children[i].status;
        proof {
            assert(cs[i as int] == st);
        }
        if !matches!(st, StatusColor::Green) {
            all_green = false;
        }
        if matches!(st, StatusColor::Red) {
            any_red = true;
        }
        i += 1;
    }
    if all_green {
        StatusColor::Green
    } else if any_red {
        StatusColor::Red
    } else {
        StatusColor::Orange
    }
}

/// A non-empty sequence aggregates to Green exactly when every element
/// is Green.
pub proof fn lemma_aggregate_green_iff_all_green(cs: Seq<StatusColor>)
    requires
        cs.len() > 0,
    ensures
        aggregate_spec(cs) is Green <==> (forall|i: int|
            0 <= i < cs.len() ==> (#[trigger] cs[i]) is Green),
{
}

/// A sequence with a Red element aggregates to Red, whatever the other
/// elements are.
pub proof fn lemma_aggregate_red_dominates(cs: Seq<StatusColor>, w: int)
    requires
        0 <= w < cs.len(),
        cs[w] is Red,
    ensures
        aggregate_spec(cs) is Red,
{
    assert(!(cs[w] is Green));
}

/// A sequence with no Red and at least one Orange element aggregates
/// to Orange.
pub proof fn lemma_aggregate_orange(cs: Seq<StatusColor>, w: int)
    requires
        0 <= w < cs.len(),
        cs[w] is Orange,
        forall|i: int| 0 <= i < cs.len() ==> !((#[trigger] cs[i]) is Red),
    ensures
        aggregate_spec(cs) is Orange,
{
    assert(!(cs[w] is Green));
}

/// No element is worse than what the sequence aggregates to: a broken
/// child degrades the combined status, never the other way round.
pub proof fn lemma_aggregate_dominates(cs: Seq<StatusColor>, i: int)
    requires
        0 <= i < cs.len(),
    ensures
        cs[i].severity() <= aggregate_spec(cs).severity(),
{
}

/// The empty sequence aggregates to the documented default, Green.
pub proof fn lemma_aggregate_empty_green()
    ensures
        aggregate_spec(Seq::<StatusColor>::empty()) is Green,
{
}

} // verus!
