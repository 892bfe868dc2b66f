use graphics::frame::{frame_delta, pass_target};
use graphics::{Action, Backend, FrameDelta, Input, Lifecycle, PassTarget, Stage, SurfaceConfig, WindowSize};

fn size(width: u32, height: u32) -> WindowSize {
    WindowSize { width, height }
}

fn launched(w: u32, h: u32, msaa: u32) -> Lifecycle {
    Lifecycle::launch(size(w, h), msaa, Backend::Vulkan, true).0
}

/// Drives one redraw tick with the given idle answer and acquisition outcome.
fn tick(lc: &mut Lifecycle, now: u64, go: bool, acquired: bool) -> Vec<Action> {
    let mut all = lc.step(Input::RedrawRequested(now));
    all.extend(lc.step(Input::IdleAnswered(go)));
    if go {
        all.extend(lc.step(Input::FrameAcquired(acquired)));
    }
    all
}

fn count(acts: &[Action], pred: impl Fn(&Action) -> bool) -> usize {
    acts.iter().filter(|a| pred(a)).count()
}

#[test]
fn launch_reports_initial_size_once() {
    let (lc, acts) = Lifecycle::launch(size(1280, 720), 4, Backend::Metal, false);
    assert_eq!(acts, vec![Action::NotifyLaunched, Action::NotifyResized(size(1280, 720))]);
    assert_eq!(lc.stage, Stage::Running);
    assert_eq!(lc.get_window_size(), size(1280, 720));
    assert_eq!(lc.get_backend(), Backend::Metal);
    assert!(!lc.get_dxt_compression_supported());
    assert_eq!(lc.get_backend_string(), "Metal");
}

#[test]
fn scenario_launch_resize_close() {
    let (mut lc, mut log) = Lifecycle::launch(size(1280, 720), 4, Backend::Vulkan, true);
    let first_draw = log.iter().position(|a| *a == Action::CallDraw);
    assert_eq!(first_draw, None);
    assert_eq!(count(&log, |a| *a == Action::NotifyResized(size(1280, 720))), 1);

    log.extend(tick(&mut lc, 1_000, true, true));
    let resize = lc.step(Input::Resized(size(640, 480)));
    assert_eq!(
        resize,
        vec![
            Action::ConfigureSurface(SurfaceConfig { width: 640, height: 480, msaa_samples: 4 }),
            Action::RecreateTargets(size(640, 480)),
            Action::NotifyResized(size(640, 480)),
            Action::ForwardToUi,
        ]
    );
    assert_eq!(lc.get_window_size(), size(640, 480));
    let app = lc.app.unwrap();
    assert_eq!(app.targets, size(640, 480));

    let frame = tick(&mut lc, 2_000, true, true);
    assert_eq!(
        frame,
        vec![
            Action::PrepareUi(FrameDelta::Elapsed(1_000)),
            Action::CallIdle(FrameDelta::Elapsed(1_000)),
            Action::AcquireFrame,
            Action::CallDraw,
            Action::RecordPass(PassTarget { resolve_from_offscreen: true, extent: size(640, 480) }),
            Action::SubmitPresent,
            Action::CallPostDraw,
            Action::ForwardToUi,
        ]
    );

    assert_eq!(lc.step(Input::CloseRequested), vec![Action::StopLoop, Action::ForwardToUi]);
    let mut after = Vec::new();
    after.extend(lc.step(Input::EventsCleared));
    after.extend(tick(&mut lc, 3_000, true, true));
    after.extend(lc.step(Input::Resized(size(10, 10))));
    assert!(after.is_empty());
    assert_eq!(lc.step(Input::LoopDestroyed), vec![Action::NotifyExiting, Action::Release]);
    assert_eq!(lc.stage, Stage::Released);
    assert!(!lc.is_live());
}

#[test]
fn first_tick_uses_default_delta() {
    let mut lc = launched(800, 600, 1);
    let acts = lc.step(Input::RedrawRequested(5_000));
    assert_eq!(acts, vec![Action::PrepareUi(FrameDelta::Default), Action::CallIdle(FrameDelta::Default)]);
    assert_eq!(lc.stage, Stage::AwaitingIdle);
    assert_eq!(lc.app.unwrap().last_frame, Some(5_000));
}

#[test]
fn idle_stop_skips_frame_and_terminates() {
    let mut lc = launched(800, 600, 1);
    let acts = tick(&mut lc, 10, false, true);
    assert_eq!(
        acts,
        vec![
            Action::PrepareUi(FrameDelta::Default),
            Action::CallIdle(FrameDelta::Default),
            Action::StopLoop,
            Action::ForwardToUi,
        ]
    );
    assert_eq!(lc.stage, Stage::Terminating);
    assert!(tick(&mut lc, 20, true, true).is_empty());
    assert!(lc.is_live());
}

#[test]
fn failed_acquire_skips_draw_and_recovers() {
    let mut failed = launched(800, 600, 1);
    let mut presented = failed;
    let acts = tick(&mut failed, 100, true, false);
    assert_eq!(count(&acts, |a| *a == Action::CallDraw), 0);
    assert_eq!(acts[acts.len() - 2], Action::WarnAcquireFailed);
    tick(&mut presented, 100, true, true);
    assert_eq!(failed, presented);
    assert_eq!(failed.stage, Stage::Running);
    let next = tick(&mut failed, 250, true, true);
    assert_eq!(next[0], Action::PrepareUi(FrameDelta::Elapsed(150)));
    assert_eq!(
        next[4],
        Action::RecordPass(PassTarget { resolve_from_offscreen: false, extent: size(800, 600) })
    );
    assert_eq!(count(&next, |a| *a == Action::CallDraw), 1);
}

#[test]
fn exiting_comes_once_after_last_post_draw() {
    let mut lc = launched(320, 200, 1);
    let mut log = tick(&mut lc, 1, true, true);
    log.extend(lc.step(Input::LoopDestroyed));
    log.extend(lc.step(Input::LoopDestroyed));
    log.extend(tick(&mut lc, 2, true, true));
    assert_eq!(count(&log, |a| *a == Action::NotifyExiting), 1);
    let n = log.len();
    assert_eq!(log[n - 2], Action::NotifyExiting);
    assert_eq!(log[n - 1], Action::Release);
    assert_eq!(log[n - 4], Action::CallPostDraw);
    assert!(!lc.is_live());
    assert_eq!(lc.app, None);
}

#[test]
fn shutdown_while_waiting_for_idle_still_exits() {
    let mut lc = launched(320, 200, 1);
    lc.step(Input::RedrawRequested(1));
    assert_eq!(lc.step(Input::LoopDestroyed), vec![Action::NotifyExiting, Action::Release]);
    assert_eq!(lc.app, None);
}

#[test]
fn secondary_quit_stops_without_forwarding() {
    let mut lc = launched(320, 200, 1);
    assert_eq!(lc.step(Input::SecondaryQuit), vec![Action::StopLoop]);
    assert_eq!(lc.stage, Stage::Terminating);
    assert!(lc.step(Input::Moved(1, 2)).is_empty());
}

#[test]
fn plain_events_between_ticks() {
    let mut lc = launched(320, 200, 1);
    let before = lc;
    assert_eq!(lc.step(Input::Moved(-5, 7)), vec![Action::NotifyMoved(-5, 7), Action::ForwardToUi]);
    assert_eq!(lc.step(Input::EventsCleared), vec![Action::RequestRedraw, Action::ForwardToUi]);
    assert_eq!(lc.step(Input::Other), vec![Action::ForwardToUi]);
    assert!(lc.step(Input::IdleAnswered(true)).is_empty());
    assert!(lc.step(Input::FrameAcquired(true)).is_empty());
    assert_eq!(lc, before);
}

#[test]
fn events_during_a_tick_wait_for_its_answer() {
    let mut lc = launched(320, 200, 1);
    lc.step(Input::RedrawRequested(1));
    let waiting = lc;
    assert!(lc.step(Input::Moved(3, 4)).is_empty());
    assert!(lc.step(Input::FrameAcquired(true)).is_empty());
    assert!(lc.step(Input::EventsCleared).is_empty());
    assert_eq!(lc, waiting);
}

#[test]
fn resize_during_a_tick_sizes_its_frame() {
    let mut lc = launched(320, 200, 4);
    lc.step(Input::RedrawRequested(1));
    let resize = lc.step(Input::Resized(size(100, 80)));
    assert_eq!(resize[2], Action::NotifyResized(size(100, 80)));
    assert_eq!(lc.stage, Stage::AwaitingIdle);
    lc.step(Input::IdleAnswered(true));
    lc.step(Input::Resized(size(90, 70)));
    assert_eq!(lc.stage, Stage::AwaitingFrame);
    let frame = lc.step(Input::FrameAcquired(true));
    assert_eq!(
        frame[1],
        Action::RecordPass(PassTarget { resolve_from_offscreen: true, extent: size(90, 70) })
    );
    assert_eq!(lc.get_window_size(), size(90, 70));
}

#[test]
fn resizes_after_termination_are_not_reported() {
    let mut lc = launched(320, 200, 1);
    let mut log = lc.step(Input::Resized(size(10, 20)));
    log.extend(lc.step(Input::CloseRequested));
    log.extend(lc.step(Input::Resized(size(30, 40))));
    let notices: Vec<Action> = log.into_iter().filter(|a| matches!(a, Action::NotifyResized(_))).collect();
    assert_eq!(notices, vec![Action::NotifyResized(size(10, 20))]);
    assert_eq!(lc.get_window_size(), size(10, 20));
}

#[test]
fn resize_notice_once_per_resize() {
    let mut lc = launched(320, 200, 2);
    let mut log = Vec::new();
    for w in [100u32, 200, 300] {
        log.extend(lc.step(Input::Resized(size(w, 50))));
        log.extend(tick(&mut lc, w as u64, true, true));
    }
    assert_eq!(count(&log, |a| matches!(a, Action::NotifyResized(_))), 3);
    assert_eq!(
        log.last().copied(),
        Some(Action::ForwardToUi)
    );
    assert!(log.contains(&Action::RecordPass(PassTarget { resolve_from_offscreen: true, extent: size(300, 50) })));
}

#[test]
fn backend_names() {
    assert_eq!(Backend::Vulkan.name(), "Vulkan");
    assert_eq!(Backend::Metal.name(), "Metal");
    assert_eq!(Backend::D3D12.name(), "D3D12");
    assert_eq!(Backend::D3D11.name(), "D3D11");
    assert_eq!(Backend::OpenGL.name(), "OpenGL ES");
    assert_eq!(Backend::WebGPU.name(), "WebGPU");
    assert_eq!(Backend::Invalid.name(), "Invalid");
}

#[test]
fn frame_delta_cases() {
    assert_eq!(frame_delta(None, 42), FrameDelta::Default);
    assert_eq!(frame_delta(Some(10), 42), FrameDelta::Elapsed(32));
    assert_eq!(frame_delta(Some(50), 42), FrameDelta::Elapsed(0));
    assert_eq!(frame_delta(Some(0), u64::MAX), FrameDelta::Elapsed(u64::MAX));
}

#[test]
fn pass_target_by_sample_count() {
    let single = SurfaceConfig { width: 8, height: 6, msaa_samples: 1 };
    let multi = SurfaceConfig { width: 8, height: 6, msaa_samples: 4 };
    assert_eq!(
        pass_target(&single, size(8, 6)),
        PassTarget { resolve_from_offscreen: false, extent: size(8, 6) }
    );
    assert_eq!(
        pass_target(&multi, size(8, 6)),
        PassTarget { resolve_from_offscreen: true, extent: size(8, 6) }
    );
    assert_eq!(single.resized(size(3, 2)), SurfaceConfig { width: 3, height: 2, msaa_samples: 1 });
}
