//! What holds of every run of the lifecycle, whatever the inputs.
use vstd::prelude::*;

use crate::frame::WindowSize;
use crate::lifecycle::{next, run, Action, Input, Lifecycle, Stage};

verus! {

/// No frame work: no UI frame, idle, draw, render pass, submit or post-draw.
pub open spec fn draws_nothing(t: Seq<Action>) -> bool {
    forall|k: int|
        0 <= k < t.len() ==> !{
            ||| t[k] is PrepareUi
            ||| t[k] is CallIdle
            ||| t[k] is CallDraw
            ||| t[k] is RecordPass
            ||| t[k] is SubmitPresent
            ||| t[k] is CallPostDraw
        }
}

/// Every render pass in `t` uses attachments of the given size.
pub open spec fn passes_sized(t: Seq<Action>, size: WindowSize) -> bool {
    forall|k: int| 0 <= k < t.len() ==> (#[trigger] t[k] matches Action::RecordPass(p) ==> p.extent == size)
}

/// Neither the exiting callback nor the release occurs in `t`.
pub open spec fn never_exits(t: Seq<Action>) -> bool {
    forall|k: int| 0 <= k < t.len() ==> !(t[k] is NotifyExiting) && !(t[k] is Release)
}

/// `t` tells the host of a resize exactly once, with the given size.
pub open spec fn one_resize_notice(t: Seq<Action>, size: WindowSize) -> bool {
    exists|k: int|
        0 <= k < t.len() && t[k] == Action::NotifyResized(size) && forall|j: int|
            0 <= j < t.len() && j != k ==> !(t[j] is NotifyResized)
}

pub open spec fn no_resize_notice(t: Seq<Action>) -> bool {
    forall|k: int| 0 <= k < t.len() ==> !(t[k] is NotifyResized)
}

pub open spec fn has_resize(ins: Seq<Input>) -> bool {
    exists|k: int| 0 <= k < ins.len() && ins[k] is Resized
}

pub open spec fn has_shutdown(ins: Seq<Input>) -> bool {
    exists|k: int| 0 <= k < ins.len() && ins[k] is LoopDestroyed
}

/// Every transition keeps the lifecycle well formed.
pub proof fn lemma_next_wf(s: Lifecycle, i: Input)
    requires
        s.wf(),
    ensures
        next(s, i).0.wf(),
{
}

/// Once released, nothing happens any more.
pub proof fn lemma_run_released(s: Lifecycle, ins: Seq<Input>)
    requires
        s.app is None,
    ensures
        run(s, ins) == (s, Seq::<Action>::empty()),
    decreases ins.len(),
{
    if ins.len() > 0 {
        lemma_run_released(s, ins.drop_first());
        assert(seq![] + Seq::<Action>::empty() =~= Seq::<Action>::empty());
    }
}

/// After termination was requested, no frame is worked on any more, and the
/// lifecycle stays terminating until it is released.
pub proof fn lemma_run_terminating(s: Lifecycle, ins: Seq<Input>)
    requires
        s.wf(),
        s.stage == Stage::Terminating || s.stage == Stage::Released,
    ensures
        draws_nothing(run(s, ins).1),
        run(s, ins).0.stage == Stage::Terminating || run(s, ins).0.stage == Stage::Released,
    decreases ins.len(),
{
    if ins.len() > 0 {
        let (s1, a) = next(s, ins[0]);
        lemma_next_wf(s, ins[0]);
        lemma_run_terminating(s1, ins.drop_first());
        let b = run(s1, ins.drop_first()).1;
        assert(draws_nothing(a));
        assert forall|k: int| 0 <= k < (a + b).len() implies !{
            ||| (a + b)[k] is PrepareUi
            ||| (a + b)[k] is CallIdle
            ||| (a + b)[k] is CallDraw
            ||| (a + b)[k] is RecordPass
            ||| (a + b)[k] is SubmitPresent
            ||| (a + b)[k] is CallPostDraw
        } by {
            if k >= a.len() {
                assert((a + b)[k] == b[k - a.len()]);
            }
        }
    }
}

/// While no resize comes in, every render pass uses the size that the render
/// targets have now.
pub proof fn lemma_run_keeps_size(s: Lifecycle, ins: Seq<Input>, size: WindowSize)
    requires
        s.wf(),
        s.app matches Some(a) ==> a.targets == size,
        !has_resize(ins),
    ensures
        passes_sized(run(s, ins).1, size),
        run(s, ins).0.wf(),
        run(s, ins).0.app matches Some(a) ==> a.targets == size,
    decreases ins.len(),
{
    if ins.len() > 0 {
        let (s1, a) = next(s, ins[0]);
        lemma_next_wf(s, ins[0]);
        assert(!(ins[0] is Resized));
        let tail = ins.drop_first();
        assert(!has_resize(tail)) by {
            if has_resize(tail) {
                let k = choose|k: int| 0 <= k < tail.len() && tail[k] is Resized;
                assert(ins[k + 1] is Resized);
            }
        }
        lemma_run_keeps_size(s1, tail, size);
        let b = run(s1, tail).1;
        assert(passes_sized(a, size));
        assert forall|k: int| 0 <= k < (a + b).len() implies (#[trigger] (a + b)[k] matches Action::RecordPass(
            p,
        ) ==> p.extent == size) by {
            if k >= a.len() {
                assert((a + b)[k] == b[k - a.len()]);
            }
        }
    }
}

/// Whether the lifecycle still takes platform events: the instance exists and
/// no termination was requested.
pub open spec fn takes_events(s: Lifecycle) -> bool {
    s.app is Some && s.stage != Stage::Terminating && s.stage != Stage::Released
}

/// A resize that the loop takes reconfigures the surface, then makes the
/// render targets anew, then tells the host, all at the new size. Whatever the
/// stage, every frame recorded after a resize, up to the next resize, uses
/// its size.
pub proof fn resize_applies_before_next_frame(s: Lifecycle, size: WindowSize, rest: Seq<Input>)
    requires
        s.wf(),
        !has_resize(rest),
    ensures
        takes_events(s) ==> {
            let (s1, acts) = next(s, Input::Resized(size));
            &&& s1.stage == s.stage
            &&& s1.app matches Some(a) && a.surface.extent() == size && a.targets == size
                && a.surface.msaa_samples == s.app->0.surface.msaa_samples
            &&& acts == seq![
                Action::ConfigureSurface(s1.app->0.surface),
                Action::RecreateTargets(size),
                Action::NotifyResized(size),
                Action::ForwardToUi,
            ]
        },
        passes_sized(run(next(s, Input::Resized(size)).0, rest).1, size),
{
    let s1 = next(s, Input::Resized(size)).0;
    lemma_next_wf(s, Input::Resized(size));
    if takes_events(s) {
        lemma_run_keeps_size(s1, rest, size);
    } else {
        lemma_run_terminating(s1, rest);
        let t = run(s1, rest).1;
        assert forall|k: int| 0 <= k < t.len() implies (#[trigger] t[k] matches Action::RecordPass(
            p,
        ) ==> p.extent == size) by {
            assert(!(t[k] is RecordPass));
        }
    }
}

/// The host hears of a resize exactly once for each resize that the loop
/// takes, with its size, and at no other time.
pub proof fn resize_notified_once(s: Lifecycle, i: Input)
    requires
        s.wf(),
    ensures
        takes_events(s) ==> (i matches Input::Resized(size) ==> one_resize_notice(
            next(s, i).1,
            size,
        )),
        !(takes_events(s) && i is Resized) ==> no_resize_notice(next(s, i).1),
{
    if takes_events(s) {
        if let Input::Resized(size) = i {
            let t = next(s, i).1;
            assert(t[2] == Action::NotifyResized(size));
        }
    }
}

/// The sizes that the host is told of, in order.
pub open spec fn resize_notices(t: Seq<Action>) -> Seq<WindowSize>
    decreases t.len(),
{
    if t.len() == 0 {
        seq![]
    } else {
        let first = match t[0] {
            Action::NotifyResized(size) => seq![size],
            _ => seq![],
        };
        first + resize_notices(t.drop_first())
    }
}

/// The sizes of the resizes that the loop takes, in order of delivery.
pub open spec fn resizes_taken(s: Lifecycle, ins: Seq<Input>) -> Seq<WindowSize>
    decreases ins.len(),
{
    if ins.len() == 0 {
        seq![]
    } else {
        let first = match ins[0] {
            Input::Resized(size) => if takes_events(s) {
                seq![size]
            } else {
                seq![]
            },
            _ => seq![],
        };
        first + resizes_taken(next(s, ins[0]).0, ins.drop_first())
    }
}

pub proof fn lemma_resize_notices_append(a: Seq<Action>, b: Seq<Action>)
    ensures
        resize_notices(a + b) == resize_notices(a) + resize_notices(b),
    decreases a.len(),
{
    if a.len() == 0 {
        assert(a + b =~= b);
        assert(seq![] + resize_notices(b) =~= resize_notices(b));
    } else {
        lemma_resize_notices_append(a.drop_first(), b);
        assert((a + b).drop_first() =~= a.drop_first() + b);
        assert((a + b)[0] == a[0]);
        let first = match a[0] {
            Action::NotifyResized(size) => seq![size],
            _ => seq![],
        };
        assert(first + (resize_notices(a.drop_first()) + resize_notices(b)) =~= (first
            + resize_notices(a.drop_first())) + resize_notices(b));
    }
}

/// The notices of one transition: the size of the resize, if it was taken.
pub proof fn lemma_resize_notices_next(s: Lifecycle, i: Input)
    requires
        s.wf(),
    ensures
        resize_notices(next(s, i).1) == (match i {
            Input::Resized(size) => if takes_events(s) {
                seq![size]
            } else {
                seq![]
            },
            _ => seq![],
        }),
{
    let t = next(s, i).1;
    reveal_with_fuel(resize_notices, 6);
    assert(t.len() <= 5);
    if t.len() > 0 {
        assert(t.drop_first().len() == t.len() - 1);
    }
    resize_notified_once(s, i);
    if takes_events(s) && i is Resized {
        assert(resize_notices(t) =~= seq![i->Resized_0]);
    } else {
        assert(resize_notices(t) =~= seq![]);
    }
}

/// Over a whole run, the host is told of exactly the resizes that the loop
/// takes, one notice each, in the order they came, with their sizes.
pub proof fn resize_notices_follow_resizes(s: Lifecycle, ins: Seq<Input>)
    requires
        s.wf(),
    ensures
        resize_notices(run(s, ins).1) == resizes_taken(s, ins),
    decreases ins.len(),
{
    if ins.len() == 0 {
        reveal_with_fuel(resize_notices, 1);
    } else {
        let (s1, a) = next(s, ins[0]);
        lemma_next_wf(s, ins[0]);
        lemma_resize_notices_next(s, ins[0]);
        resize_notices_follow_resizes(s1, ins.drop_first());
        lemma_resize_notices_append(a, run(s1, ins.drop_first()).1);
    }
}

/// An idle callback that asks to stop ends the tick with no draw, render pass,
/// submit or present, and moves the loop to termination; no frame is worked on
/// afterwards, whatever comes in.
pub proof fn idle_stop_skips_frame(s: Lifecycle, rest: Seq<Input>)
    requires
        s.wf(),
        s.stage == Stage::AwaitingIdle,
    ensures
        next(s, Input::IdleAnswered(false)).0.stage == Stage::Terminating,
        draws_nothing(next(s, Input::IdleAnswered(false)).1),
        draws_nothing(run(next(s, Input::IdleAnswered(false)).0, rest).1),
{
    lemma_next_wf(s, Input::IdleAnswered(false));
    lemma_run_terminating(next(s, Input::IdleAnswered(false)).0, rest);
}

/// A failed surface acquisition ends the tick without drawing, and leaves the
/// lifecycle in just the state that a presented frame would have left: all
/// that follows goes as it would have gone.
pub proof fn failed_acquire_skips_tick(s: Lifecycle, rest: Seq<Input>)
    requires
        s.wf(),
        s.stage == Stage::AwaitingFrame,
    ensures
        next(s, Input::FrameAcquired(false)).0.stage == Stage::Running,
        next(s, Input::FrameAcquired(false)).0 == next(s, Input::FrameAcquired(true)).0,
        draws_nothing(next(s, Input::FrameAcquired(false)).1),
        run(next(s, Input::FrameAcquired(false)).0, rest) == run(
            next(s, Input::FrameAcquired(true)).0,
            rest,
        ),
{
}

/// From a live instance: if the loop shuts down, the run ends with the exiting
/// callback followed by the release, each exactly once and after everything
/// else, and the instance is gone; otherwise neither occurs and it stays.
pub proof fn exiting_comes_once_and_last(s: Lifecycle, ins: Seq<Input>)
    requires
        s.wf(),
        s.app is Some,
    ensures
        has_shutdown(ins) ==> {
            let t = run(s, ins).1;
            &&& run(s, ins).0.app is None
            &&& t.len() >= 2
            &&& t[t.len() - 2] == Action::NotifyExiting
            &&& t[t.len() - 1] == Action::Release
            &&& never_exits(t.take(t.len() - 2))
        },
        !has_shutdown(ins) ==> run(s, ins).0.app is Some && never_exits(run(s, ins).1),
    decreases ins.len(),
{
    if ins.len() > 0 {
        let (s1, a) = next(s, ins[0]);
        let tail = ins.drop_first();
        lemma_next_wf(s, ins[0]);
        if ins[0] is LoopDestroyed {
            lemma_run_released(s1, tail);
            assert(run(s, ins).1 =~= a);
            assert(a.take(0) =~= Seq::<Action>::empty());
        } else {
            assert(has_shutdown(ins) == has_shutdown(tail)) by {
                if has_shutdown(ins) {
                    let k = choose|k: int| 0 <= k < ins.len() && ins[k] is LoopDestroyed;
                    assert(tail[k - 1] is LoopDestroyed);
                }
                if has_shutdown(tail) {
                    let k = choose|k: int| 0 <= k < tail.len() && tail[k] is LoopDestroyed;
                    assert(ins[k + 1] is LoopDestroyed);
                }
            }
            exiting_comes_once_and_last(s1, tail);
            let b = run(s1, tail).1;
            let t = a + b;
            assert(never_exits(a));
            if has_shutdown(tail) {
                assert(t[t.len() - 2] == b[b.len() - 2]);
                assert(t[t.len() - 1] == b[b.len() - 1]);
                assert(t.take(t.len() - 2) =~= a + b.take(b.len() - 2));
                let bt = b.take(b.len() - 2);
                assert forall|k: int| 0 <= k < (a + bt).len() implies !((a + bt)[k] is NotifyExiting)
                    && !((a + bt)[k] is Release) by {
                    if k >= a.len() {
                        assert((a + bt)[k] == bt[k - a.len()]);
                    }
                }
            } else {
                assert forall|k: int| 0 <= k < t.len() implies !(t[k] is NotifyExiting) && !(
                t[k] is Release) by {
                    if k >= a.len() {
                        assert(t[k] == b[k - a.len()]);
                    }
                }
            }
        }
    }
}

} // verus!
