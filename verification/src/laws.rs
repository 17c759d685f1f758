//! Laws of the render-loop controller, stated over the state-machine model
//! and proved once and for all.

use vstd::prelude::*;

use crate::DEFAULT_SIZE;
use crate::bridge::{lemma_run_keeps_start, run};
use crate::controller::{
    Command, Controller, Event, effective_dim, elapsed_at, emitted, next_state,
};

verus! {

/// The elapsed time a render command carries; zero for any other command.
pub open spec fn render_elapsed(cmd: Command) -> u64 {
    match cmd {
        Command::RenderFrame { elapsed_nanos, .. } => elapsed_nanos,
        _ => 0,
    }
}

/// How many render passes a command sequence performs.
pub open spec fn count_renders(cmds: Seq<Command>) -> nat
    decreases cmds.len(),
{
    if cmds.len() == 0 {
        0
    } else {
        count_renders(cmds.drop_first()) + (if cmds[0] is RenderFrame {
            1nat
        } else {
            0nat
        })
    }
}

/// How many frame-callback registrations a command sequence issues.
pub open spec fn count_rearms(cmds: Seq<Command>) -> nat
    decreases cmds.len(),
{
    if cmds.len() == 0 {
        0
    } else {
        count_rearms(cmds.drop_first()) + (if cmds[0] is RearmFrameCallback {
            1nat
        } else {
            0nat
        })
    }
}

/// How many surface reconfigurations a command sequence performs. Each one
/// atomically replaces the previous swap resources, so this is also the
/// resource-allocation count of the sequence.
pub open spec fn count_surface_configures(cmds: Seq<Command>) -> nat
    decreases cmds.len(),
{
    if cmds.len() == 0 {
        0
    } else {
        count_surface_configures(cmds.drop_first()) + (if cmds[0] is ConfigureSurface {
            1nat
        } else {
            0nat
        })
    }
}

/// How many frame-ready callbacks an event sequence delivers.
pub open spec fn count_frame_ready(evs: Seq<Event>) -> nat
    decreases evs.len(),
{
    if evs.len() == 0 {
        0
    } else {
        count_frame_ready(evs.drop_first()) + (if evs[0] is FrameReady {
            1nat
        } else {
            0nat
        })
    }
}

/// How many configure events an event sequence delivers.
pub open spec fn count_configures(evs: Seq<Event>) -> nat
    decreases evs.len(),
{
    if evs.len() == 0 {
        0
    } else {
        count_configures(evs.drop_first()) + (if evs[0] is Configure {
            1nat
        } else {
            0nat
        })
    }
}

/// Render counting distributes over concatenation.
pub proof fn lemma_count_renders_concat(a: Seq<Command>, b: Seq<Command>)
    ensures
        count_renders(a + b) == count_renders(a) + count_renders(b),
    decreases a.len(),
{
    if a.len() == 0 {
        assert(a + b =~= b);
    } else {
        assert((a + b).drop_first() =~= a.drop_first() + b);
        assert((a + b)[0] == a[0]);
        lemma_count_renders_concat(a.drop_first(), b);
    }
}

/// Re-arm counting distributes over concatenation.
pub proof fn lemma_count_rearms_concat(a: Seq<Command>, b: Seq<Command>)
    ensures
        count_rearms(a + b) == count_rearms(a) + count_rearms(b),
    decreases a.len(),
{
    if a.len() == 0 {
        assert(a + b =~= b);
    } else {
        assert((a + b).drop_first() =~= a.drop_first() + b);
        assert((a + b)[0] == a[0]);
        lemma_count_rearms_concat(a.drop_first(), b);
    }
}

/// Reconfiguration counting distributes over concatenation.
pub proof fn lemma_count_surface_configures_concat(a: Seq<Command>, b: Seq<Command>)
    ensures
        count_surface_configures(a + b) == count_surface_configures(a)
            + count_surface_configures(b),
    decreases a.len(),
{
    if a.len() == 0 {
        assert(a + b =~= b);
    } else {
        assert((a + b).drop_first() =~= a.drop_first() + b);
        assert((a + b)[0] == a[0]);
        lemma_count_surface_configures_concat(a.drop_first(), b);
    }
}

/// What one event contributes to the command counts: one render per
/// configure event and per frame-ready callback on a configured, running
/// controller; one frame-callback registration per such frame-ready
/// callback; one surface reconfiguration per such configure event; and
/// nothing else.
pub proof fn lemma_emitted_counts(c: Controller, ev: Event, now_nanos: u64)
    ensures
        count_renders(emitted(c, ev, now_nanos)) == (if c.running && (ev is Configure || (
        ev is FrameReady && c.configured)) {
            1nat
        } else {
            0nat
        }),
        count_rearms(emitted(c, ev, now_nanos)) == (if c.running && ev is FrameReady
            && c.configured {
            1nat
        } else {
            0nat
        }),
        count_surface_configures(emitted(c, ev, now_nanos)) == (if c.running && ev is Configure {
            1nat
        } else {
            0nat
        }),
{
    reveal_with_fuel(count_renders, 4);
    reveal_with_fuel(count_rearms, 4);
    reveal_with_fuel(count_surface_configures, 4);
    let out = emitted(c, ev, now_nanos);
    if out.len() == 2 {
        assert(out.drop_first() =~= seq![out[1]]);
        assert(seq![out[1]].drop_first() =~= Seq::<Command>::empty());
    }
    if out.len() == 3 {
        assert(out.drop_first() =~= seq![out[1], out[2]]);
        assert(seq![out[1], out[2]].drop_first() =~= seq![out[2]]);
        assert(seq![out[2]].drop_first() =~= Seq::<Command>::empty());
    }
}

/// Idempotent reconfiguration: dispatching the same configure event twice
/// in a row reaches the same state as dispatching it once, emits the same
/// commands both times, and each time allocates exactly one replacement
/// set of swap resources (one surface reconfiguration) and renders exactly
/// once.
pub proof fn lemma_reconfigure_idempotent(
    c: Controller,
    width: Option<u32>,
    height: Option<u32>,
    now_nanos: u64,
)
    requires
        c.running,
    ensures
        next_state(next_state(c, (Event::Configure { width, height })), (Event::Configure {
            width,
            height,
        })) == next_state(c, (Event::Configure { width, height })),
        emitted(next_state(c, (Event::Configure { width, height })), (Event::Configure {
            width,
            height,
        }), now_nanos) == emitted(c, (Event::Configure { width, height }), now_nanos),
        count_surface_configures(emitted(c, (Event::Configure { width, height }), now_nanos)) == 1,
        count_renders(emitted(c, (Event::Configure { width, height }), now_nanos)) == 1,
{
    let ev = Event::Configure { width, height };
    let c1 = next_state(c, ev);
    assert(emitted(c1, ev, now_nanos) =~= emitted(c, ev, now_nanos));
    lemma_emitted_counts(c, ev, now_nanos);
}

/// Exact elapsed time: every render a batch emits at clock reading
/// `now_nanos` carries exactly the nanoseconds from loop start to that
/// reading.
pub proof fn lemma_run_elapsed_exact(c: Controller, evs: Seq<Event>, now_nanos: u64)
    requires
        now_nanos >= c.start_nanos,
    ensures
        forall|i: int|
            0 <= i < run(c, evs, now_nanos).1.len() && (#[trigger] run(c, evs, now_nanos).1[i])
                is RenderFrame ==> render_elapsed(run(c, evs, now_nanos).1[i]) == now_nanos
                - c.start_nanos,
    decreases evs.len(),
{
    if evs.len() > 0 {
        let c1 = next_state(c, evs[0]);
        assert(c1.start_nanos == c.start_nanos);
        lemma_run_elapsed_exact(c1, evs.drop_first(), now_nanos);
        assert(forall|i: int|
            0 <= i < run(c, evs, now_nanos).1.len() ==> #[trigger] run(c, evs, now_nanos).1[i]
                == if i < emitted(c, evs[0], now_nanos).len() {
                emitted(c, evs[0], now_nanos)[i]
            } else {
                run(c1, evs.drop_first(), now_nanos).1[i - emitted(c, evs[0], now_nanos).len()]
            });
    }
}

/// Monotonic time: renders of an earlier batch never carry a larger
/// elapsed time than renders of a later batch of the same run.
pub proof fn lemma_monotonic_time(
    c: Controller,
    evs1: Seq<Event>,
    t1: u64,
    evs2: Seq<Event>,
    t2: u64,
)
    requires
        c.start_nanos <= t1,
        t1 <= t2,
    ensures
        forall|i: int, j: int|
            0 <= i < run(c, evs1, t1).1.len() && 0 <= j < run(run(c, evs1, t1).0, evs2, t2).1.len()
                && (#[trigger] run(c, evs1, t1).1[i]) is RenderFrame && (#[trigger] run(
                run(c, evs1, t1).0,
                evs2,
                t2,
            ).1[j]) is RenderFrame ==> render_elapsed(run(c, evs1, t1).1[i]) <= render_elapsed(
                run(run(c, evs1, t1).0, evs2, t2).1[j],
            ),
{
    lemma_run_elapsed_exact(c, evs1, t1);
    lemma_run_keeps_start(c, evs1, t1);
    lemma_run_elapsed_exact(run(c, evs1, t1).0, evs2, t2);
}

/// Resize correctness: a configure event with explicit size (w, h) makes
/// the controller reconfigure the surface to exactly (w, h) and then, only
/// after that, render one frame whose resolution is exactly (w, h).
pub proof fn lemma_resize_correct(c: Controller, w: u32, h: u32, now_nanos: u64)
    requires
        c.running,
        w > 0,
        h > 0,
    ensures
        next_state(c, (Event::Configure { width: Some(w), height: Some(h) })).width == w,
        next_state(c, (Event::Configure { width: Some(w), height: Some(h) })).height == h,
        emitted(c, (Event::Configure { width: Some(w), height: Some(h) }), now_nanos) == seq![
            (Command::ConfigureSurface { width: w, height: h }),
            (Command::RenderFrame { width: w, height: h, elapsed_nanos: elapsed_at(c, now_nanos) }),
        ],
{
    assert(emitted(c, (Event::Configure { width: Some(w), height: Some(h) }), now_nanos) =~= seq![
        (Command::ConfigureSurface { width: w, height: h }),
        (Command::RenderFrame { width: w, height: h, elapsed_nanos: elapsed_at(c, now_nanos) }),
    ]);
}

/// Default-size fallback: a configure event carrying no explicit size
/// yields the default width and height, and the surface is reconfigured to
/// exactly that size.
pub proof fn lemma_default_size_fallback(c: Controller, now_nanos: u64)
    requires
        c.running,
    ensures
        next_state(c, (Event::Configure { width: None, height: None })).width == DEFAULT_SIZE,
        next_state(c, (Event::Configure { width: None, height: None })).height == DEFAULT_SIZE,
        emitted(c, (Event::Configure { width: None, height: None }), now_nanos)[0] == (
        Command::ConfigureSurface { width: DEFAULT_SIZE, height: DEFAULT_SIZE }),
{
    assert(effective_dim(None) == DEFAULT_SIZE);
}

/// Frame re-arming: on a running, configured controller that sees no close
/// request, a batch with N frame-ready callbacks emits exactly N
/// frame-callback registrations, exactly one render per frame-ready
/// callback or configure event, and exactly one surface reconfiguration
/// per configure event: no drift and no double registration.
pub proof fn lemma_frame_rearming(c: Controller, evs: Seq<Event>, now_nanos: u64)
    requires
        c.running,
        c.configured,
        forall|i: int| 0 <= i < evs.len() ==> !((#[trigger] evs[i]) is CloseRequested),
    ensures
        count_rearms(run(c, evs, now_nanos).1) == count_frame_ready(evs),
        count_renders(run(c, evs, now_nanos).1) == count_frame_ready(evs) + count_configures(evs),
        count_surface_configures(run(c, evs, now_nanos).1) == count_configures(evs),
    decreases evs.len(),
{
    if evs.len() > 0 {
        let ev = evs[0];
        let c1 = next_state(c, ev);
        assert(c1.running && c1.configured);
        assert(forall|i: int|
            0 <= i < evs.drop_first().len() ==> !((#[trigger] evs.drop_first()[i])
                is CloseRequested)) by {
            assert(forall|i: int|
                0 <= i < evs.drop_first().len() ==> #[trigger] evs.drop_first()[i] == evs[i + 1]);
        }
        lemma_frame_rearming(c1, evs.drop_first(), now_nanos);
        lemma_emitted_counts(c, ev, now_nanos);
        let head = emitted(c, ev, now_nanos);
        let rest = run(c1, evs.drop_first(), now_nanos).1;
        lemma_count_renders_concat(head, rest);
        lemma_count_rearms_concat(head, rest);
        lemma_count_surface_configures_concat(head, rest);
    }
}

/// A stopped controller stays stopped and emits nothing, whatever events
/// arrive.
pub proof fn lemma_halted_run(c: Controller, evs: Seq<Event>, now_nanos: u64)
    requires
        !c.running,
    ensures
        run(c, evs, now_nanos).0 == c,
        run(c, evs, now_nanos).1 == Seq::<Command>::empty(),
    decreases evs.len(),
{
    if evs.len() == 0 {
    } else {
        lemma_halted_run(c, evs.drop_first(), now_nanos);
        assert(run(c, evs, now_nanos).1 =~= Seq::<Command>::empty());
    }
}

/// Close terminates cleanly: a close request stops the controller without
/// emitting a command, and afterwards no event whatever can cause another
/// render or change the state again.
pub proof fn lemma_close_terminates(c: Controller, evs: Seq<Event>, now_nanos: u64)
    ensures
        !next_state(c, Event::CloseRequested).running,
        emitted(c, Event::CloseRequested, now_nanos) == Seq::<Command>::empty(),
        run(next_state(c, Event::CloseRequested), evs, now_nanos).0 == next_state(
            c,
            Event::CloseRequested,
        ),
        run(next_state(c, Event::CloseRequested), evs, now_nanos).1 == Seq::<Command>::empty(),
{
    lemma_halted_run(next_state(c, Event::CloseRequested), evs, now_nanos);
}

} // verus!
