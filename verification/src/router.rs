//! The command router: every command goes to the queue of every live
//! worker, and to no other.

use crate::channel::{offer, Delivery};
use crate::worker::{is_live, WorkerState};
use async_channel::Sender;
use vstd::prelude::*;

verus! {

/// `report` is what routing one command to workers in the given states
/// leaves behind: one entry for each worker, in order, which is `Skipped`
/// for the workers that are not live and for no others.
pub open spec fn routed(states: Seq<WorkerState>, report: Seq<Delivery>) -> bool {
    &&& report.len() == states.len()
    &&& forall|i: int|
        0 <= i < states.len() ==> ((#[trigger] report[i]) is Skipped <==> !is_live(states[i]))
}

/// No worker in `states` is live.
pub open spec fn none_live(states: Seq<WorkerState>) -> bool {
    forall|i: int| 0 <= i < states.len() ==> !is_live(#[trigger] states[i])
}

/// Offers a copy of `item` to the queue of every live worker, in the order
/// of the workers, and reports what became of each offer. The queues of
/// workers that are not live are left alone. The queue of a worker is the
/// one at the worker's place in `queues`; a worker for which there is none
/// is skipped as well.
pub fn fan_out<T: Clone>(queues: &Vec<Sender<T>>, states: &Vec<WorkerState>, item: &T) -> (report:
    Vec<Delivery>)
    ensures
        report.len() == states.len(),
        forall|i: int|
            0 <= i < states.len() ==> ((#[trigger] report[i]) is Skipped <==> !(is_live(states[i])
                && i < queues.len())),
        queues.len() >= states.len() ==> routed(states@, report@),
{
    let mut report: Vec<Delivery> = Vec::new();
    let mut i: usize = 0;
    while i < states.len()
        invariant
            i <= states.len(),
            report.len() == i,
            forall|k: int|
                0 <= k < i ==> ((#[trigger] report[k]) is Skipped <==> !(is_live(states[k]) && k
                    < queues.len())),
        decreases states.len() - i,
    {
        if states[i].live() && i < queues.len() {
            let delivery = offer(&queues[i], item.clone());
            report.push(delivery);
        } else {
            report.push(Delivery::Skipped);
        }
        i = i + 1;
    }
    report
}

/// While no worker is live, a command reaches no queue at all.
pub proof fn law_no_live_worker_no_delivery(states: Seq<WorkerState>, report: Seq<Delivery>)
    requires
        none_live(states),
        routed(states, report),
    ensures
        report == Seq::new(states.len(), |i: int| Delivery::Skipped),
{
    assert(report =~= Seq::new(states.len(), |i: int| Delivery::Skipped));
}

} // verus!
