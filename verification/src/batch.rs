//! Batches of redraw calls: each call is dispatched in its turn, and the sink is told
//! once what to repaint.

use crate::coerce::DispatchError;
use crate::dispatch::{dispatch, dispatched};
use crate::events::RedrawEvents;
use crate::repaint::{fold_spec, RepaintOutcome};
use crate::value::{Value, ValueView};
use vstd::prelude::*;

verus! {

/// One call of a batch: a method name and its arguments.
#[derive(Debug, PartialEq, Eq)]
pub struct Call {
    pub method: String,
    pub args: Vec<Value>,
}

/// Mathematical model of a `Call`.
pub struct CallView {
    pub method: Seq<char>,
    pub args: Seq<ValueView>,
}

impl DeepView for Call {
    type V = CallView;

    open spec fn deep_view(&self) -> CallView {
        CallView { method: self.method@, args: self.args.deep_view() }
    }
}

impl View for Call {
    type V = CallView;

    open spec fn view(&self) -> CallView {
        self.deep_view()
    }
}

/// The one repaint that a batch asks for: the fold of the repaints of its calls.
pub type BatchInstruction = RepaintOutcome;

/// What became of a batch.
#[derive(Debug, PartialEq, Eq)]
pub struct BatchReport {
    /// What the sink was told to repaint.
    pub instruction: BatchInstruction,
    /// The calls that failed: the position of each in the batch, and its error.
    pub failures: Vec<(usize, DispatchError)>,
}

/// The outcome of each call of a batch.
pub type Outcomes = Seq<Result<RepaintOutcome, DispatchError>>;

/// The calls dispatched one after the other take the sink through the given states,
/// from the first of them to the last, with the given outcomes.
pub open spec fn ran<S: RedrawEvents>(states: Seq<S>, calls: Seq<CallView>, outcomes: Outcomes) -> bool {
    &&& states.len() == calls.len() + 1
    &&& outcomes.len() == calls.len()
    &&& forall|i: int|
        0 <= i < calls.len() ==> #[trigger] dispatched(
            states[i],
            calls[i].method,
            calls[i].args,
            outcomes[i],
            states[i + 1],
        )
}

/// The repaints of the calls that succeeded, in the order of the calls.
pub open spec fn repaints(outcomes: Outcomes) -> Seq<RepaintOutcome>
    decreases outcomes.len(),
{
    if outcomes.len() == 0 {
        Seq::empty()
    } else {
        match outcomes.last() {
            Ok(repaint) => repaints(outcomes.drop_last()).push(repaint),
            Err(_) => repaints(outcomes.drop_last()),
        }
    }
}

/// The calls that failed: the position and the error of each, in the order of the
/// calls.
pub open spec fn failures(outcomes: Outcomes) -> Seq<(usize, DispatchError)>
    decreases outcomes.len(),
{
    if outcomes.len() == 0 {
        Seq::empty()
    } else {
        match outcomes.last() {
            Ok(_) => failures(outcomes.drop_last()),
            Err(e) => failures(outcomes.drop_last()).push(((outcomes.len() - 1) as usize, e)),
        }
    }
}

/// Dispatches the calls of a batch in their order, goes on after a call that fails,
/// and then tells the sink once what to repaint: the fold of the repaints of the calls
/// that succeeded.
pub fn redraw_batch<S: RedrawEvents>(ui: &mut S, calls: &Vec<Call>) -> (report: BatchReport)
    ensures
        exists|states: Seq<S>, outcomes: Outcomes| #[trigger]
            ran(states, calls.deep_view(), outcomes) && states.first() == *old(ui)
                && report.instruction == fold_spec(repaints(outcomes)) && report.failures@
                == failures(outcomes) && S::redrawn(states.last(), report.instruction, *final(ui)),
{
    let ghost all = calls.deep_view();
    let ghost mut states: Seq<S> = seq![*ui];
    let ghost mut outcomes: Outcomes = Seq::empty();
    let mut instruction = RepaintOutcome::Nothing;
    let mut failed: Vec<(usize, DispatchError)> = Vec::new();
    let mut i: usize = 0;
    while i < calls.len()
        invariant
            i <= calls.len(),
            all == calls.deep_view(),
            ran(states, all.take(i as int), outcomes),
            states.first() == *old(ui),
            states.last() == *ui,
            instruction == fold_spec(repaints(outcomes)),
            failed@ == failures(outcomes),
        decreases calls.len() - i,
    {
        let ghost before = outcomes;
        let ghost passed = states;
        let outcome = dispatch(ui, calls[i].method.as_str(), &calls[i].args);
        proof {
            outcomes = before.push(outcome);
            states = passed.push(*ui);
            let done = all.take(i + 1);
            assert(done[i as int] == calls@[i as int].deep_view());
            assert(outcomes.drop_last() =~= before);
            assert forall|k: int| 0 <= k < done.len() implies #[trigger] dispatched(
                states[k],
                done[k].method,
                done[k].args,
                outcomes[k],
                states[k + 1],
            ) by {
                if k < i {
                    assert(dispatched(
                        passed[k],
                        all.take(i as int)[k].method,
                        all.take(i as int)[k].args,
                        before[k],
                        passed[k + 1],
                    ));
                }
            }
        }
        match outcome {
            Ok(repaint) => {
                proof {
                    assert(repaints(outcomes).drop_last() =~= repaints(before));
                }
                instruction = instruction.join(repaint);
            },
            Err(e) => {
                failed.push((i, e));
            },
        }
        i += 1;
    }
    proof {
        assert(all.take(i as int) =~= all);
    }
    ui.on_redraw(&instruction);
    let report = BatchReport { instruction, failures: failed };
    assert(ran(states, calls.deep_view(), outcomes) && states.first() == *old(ui)
        && report.instruction == fold_spec(repaints(outcomes)) && report.failures@ == failures(
        outcomes,
    ) && S::redrawn(states.last(), report.instruction, *ui));
    report
}

} // verus!
