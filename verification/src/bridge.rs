//! The event bridge: draining a batch of pending window-system events.
//!
//! Once per cooperative-loop iteration the shell drains the protocol
//! queue's pending events and hands them to [`Controller::pump`], which
//! dispatches them in order and reports whether the loop driver must stop.
//! The spec function [`run`] is the mathematical model of a drained batch;
//! counting functions over events and commands let the laws about whole
//! batches be stated and proved.

use vstd::prelude::*;

use crate::controller::{Command, Controller, Event, emitted, next_state};

verus! {

/// The state and the concatenated command output after dispatching a
/// sequence of events in order, all at clock reading `now_nanos`.
pub open spec fn run(c: Controller, evs: Seq<Event>, now_nanos: u64) -> (Controller, Seq<Command>)
    decreases evs.len(),
{
    if evs.len() == 0 {
        (c, Seq::empty())
    } else {
        let rest = run(next_state(c, evs[0]), evs.drop_first(), now_nanos);
        (rest.0, emitted(c, evs[0], now_nanos) + rest.1)
    }
}

/// Whether every event of a sequence is well formed.
pub open spec fn events_wf(evs: Seq<Event>) -> bool {
    forall|i: int| 0 <= i < evs.len() ==> (#[trigger] evs[i]).wf()
}

/// Dispatching a batch one event longer first dispatches the prefix, then
/// the added event from the state the prefix reached.
pub proof fn lemma_run_snoc(c: Controller, evs: Seq<Event>, ev: Event, now_nanos: u64)
    ensures
        run(c, evs.push(ev), now_nanos).0 == next_state(run(c, evs, now_nanos).0, ev),
        run(c, evs.push(ev), now_nanos).1 == run(c, evs, now_nanos).1 + emitted(
            run(c, evs, now_nanos).0,
            ev,
            now_nanos,
        ),
    decreases evs.len(),
{
    if evs.len() == 0 {
        assert(evs.push(ev)[0] == ev);
        assert(evs.push(ev).drop_first() =~= Seq::<Event>::empty());
        assert(run(next_state(c, ev), Seq::<Event>::empty(), now_nanos).0 == next_state(c, ev));
        assert(run(next_state(c, ev), Seq::<Event>::empty(), now_nanos).1
            =~= Seq::<Command>::empty());
        assert(run(c, evs.push(ev), now_nanos).1 =~= run(c, evs, now_nanos).1 + emitted(
            run(c, evs, now_nanos).0,
            ev,
            now_nanos,
        ));
    } else {
        assert(evs.push(ev)[0] == evs[0]);
        assert(evs.push(ev).drop_first() =~= evs.drop_first().push(ev));
        lemma_run_snoc(next_state(c, evs[0]), evs.drop_first(), ev, now_nanos);
        assert(run(c, evs.push(ev), now_nanos).1 =~= run(c, evs, now_nanos).1 + emitted(
            run(c, evs, now_nanos).0,
            ev,
            now_nanos,
        ));
    }
}

/// Every state a run reaches keeps the loop-start clock reading.
pub proof fn lemma_run_keeps_start(c: Controller, evs: Seq<Event>, now_nanos: u64)
    ensures
        run(c, evs, now_nanos).0.start_nanos == c.start_nanos,
    decreases evs.len(),
{
    if evs.len() > 0 {
        lemma_run_keeps_start(next_state(c, evs[0]), evs.drop_first(), now_nanos);
    }
}

/// Every state a run reaches from a well-formed controller on well-formed
/// events is well formed.
pub proof fn lemma_run_keeps_wf(c: Controller, evs: Seq<Event>, now_nanos: u64)
    requires
        c.wf(),
        events_wf(evs),
    ensures
        run(c, evs, now_nanos).0.wf(),
    decreases evs.len(),
{
    if evs.len() > 0 {
        assert(evs[0].wf());
        assert(events_wf(evs.drop_first())) by {
            assert(forall|i: int|
                0 <= i < evs.drop_first().len() ==> #[trigger] evs.drop_first()[i] == evs[i + 1]);
        }
        lemma_run_keeps_wf(next_state(c, evs[0]), evs.drop_first(), now_nanos);
    }
}

impl Controller {
    /// Dispatches a drained batch of pending events in order and returns
    /// the concatenated commands together with the stop signal: true
    /// exactly when a close request has been observed, in this batch or
    /// earlier, so the loop driver must stop before the next iteration.
    pub fn pump(&mut self, events: &Vec<Event>, now_nanos: u64) -> (r: (Vec<Command>, bool))
        requires
            old(self).wf(),
            events_wf(events@),
            now_nanos >= old(self).start_nanos,
        ensures
            *final(self) == run(*old(self), events@, now_nanos).0,
            r.0@ == run(*old(self), events@, now_nanos).1,
            r.1 == !final(self).running,
            final(self).wf(),
    {
        let ghost c0: Controller = *self;
        let mut cur: Controller = *self;
        let mut cmds: Vec<Command> = Vec::new();
        let mut i: usize = 0;
        while i < events.len()
            invariant
                0 <= i <= events@.len(),
                events_wf(events@),
                now_nanos >= c0.start_nanos,
                cur == run(c0, events@.take(i as int), now_nanos).0,
                cmds@ == run(c0, events@.take(i as int), now_nanos).1,
                cur.wf(),
                cur.start_nanos == c0.start_nanos,
            decreases events@.len() - i,
        {
            proof {
                assert(events@[i as int].wf());
                lemma_run_snoc(c0, events@.take(i as int), events@[i as int], now_nanos);
                assert(events@.take(i as int + 1) =~= events@.take(i as int).push(
                    events@[i as int],
                ));
            }
            let ev = events[i];
            let mut step_cmds = cur.dispatch(ev, now_nanos);
            cmds.append(&mut step_cmds);
            i += 1;
        }
        proof {
            assert(events@.take(events@.len() as int) =~= events@);
        }
        *self = cur;
        let stop = !self.running;
        (cmds, stop)
    }
}

} // verus!
