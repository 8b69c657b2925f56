use render_harness::frame::{
    FramePhase, FrameProtocol, LoadOp, LoopAction, LoopEvent, PassKind, RecoveryAction,
    dispatch_event, plan_frame_passes,
};
use render_harness::overlay::{OverlayStep, plan_overlay_pass};
use render_harness::surface::SurfaceDims;

#[test]
fn frame_phases_in_order() {
    let mut p = FrameProtocol::new();
    assert_eq!(p.phase, FramePhase::Idle);
    p.acquire_ok();
    assert_eq!(p.phase, FramePhase::Acquired);
    p.begin_encoding();
    assert_eq!(p.phase, FramePhase::Encoding);
    p.submit();
    assert_eq!(p.phase, FramePhase::Submitted);
    p.present();
    assert_eq!(p.phase, FramePhase::Presented);
    p.finish_frame();
    assert_eq!(p.phase, FramePhase::Idle);
}

#[test]
fn present_only_after_submit_call_order() {
    // Mock queue/surface: record the order of the submit and present
    // calls while driving the protocol, then check that the submission
    // came first.
    let mut p = FrameProtocol::new();
    let mut calls: Vec<&str> = Vec::new();
    p.acquire_ok();
    calls.push("acquire");
    p.begin_encoding();
    calls.push("encode");
    p.submit();
    calls.push("submit");
    p.present();
    calls.push("present");
    let submit_at = calls.iter().position(|c| *c == "submit").unwrap();
    let present_at = calls.iter().position(|c| *c == "present").unwrap();
    assert!(submit_at < present_at);
    assert_eq!(calls, vec!["acquire", "encode", "submit", "present"]);
}

#[test]
fn two_frames_back_to_back() {
    let mut p = FrameProtocol::new();
    for _ in 0..2 {
        p.acquire_ok();
        p.begin_encoding();
        p.submit();
        p.present();
        p.finish_frame();
        assert_eq!(p.phase, FramePhase::Idle);
    }
}

#[test]
fn acquire_failure_retries_once_then_skips() {
    let mut p = FrameProtocol::new();
    let first = p.acquire_err();
    assert_eq!(first, RecoveryAction::ReconfigureAndRetry);
    assert_eq!(p.phase, FramePhase::Idle);
    let second = p.acquire_err();
    assert_eq!(second, RecoveryAction::SkipFrame);
    assert_eq!(p.acquire_failures, 0);
}

#[test]
fn acquire_success_clears_failure_budget() {
    let mut p = FrameProtocol::new();
    let _ = p.acquire_err();
    p.acquire_ok();
    assert_eq!(p.phase, FramePhase::Acquired);
    assert_eq!(p.acquire_failures, 0);
}

#[test]
fn dropped_frame_returns_to_idle() {
    let mut p = FrameProtocol::new();
    p.acquire_ok();
    p.begin_encoding();
    p.drop_frame();
    assert_eq!(p.phase, FramePhase::Idle);
}

#[test]
fn overlay_only_frame_loads_attachment() {
    let passes = plan_frame_passes(false, false);
    assert_eq!(passes.len(), 1);
    assert_eq!(passes[0].kind, PassKind::OverlayPass);
    assert_eq!(passes[0].color_load, LoadOp::Load);
}

#[test]
fn full_frame_passes_clear_then_load() {
    let passes = plan_frame_passes(true, true);
    assert_eq!(passes.len(), 3);
    assert_eq!(passes[0].kind, PassKind::ClearPass);
    assert_eq!(passes[0].color_load, LoadOp::Clear);
    assert_eq!(passes[1].kind, PassKind::GeometryPass);
    assert_eq!(passes[1].color_load, LoadOp::Load);
    assert_eq!(passes[2].kind, PassKind::OverlayPass);
    assert_eq!(passes[2].color_load, LoadOp::Load);
}

#[test]
fn geometry_without_clear_pass_clears_first() {
    let passes = plan_frame_passes(false, true);
    assert_eq!(passes.len(), 2);
    assert_eq!(passes[0].kind, PassKind::GeometryPass);
    assert_eq!(passes[0].color_load, LoadOp::Clear);
    assert_eq!(passes[1].color_load, LoadOp::Load);
}

#[test]
fn dispatch_close_and_resize_respect_ui_consumption() {
    let d = SurfaceDims { width: 640, height: 480 };
    assert_eq!(dispatch_event(&LoopEvent::CloseRequested, false), LoopAction::Exit);
    assert_eq!(dispatch_event(&LoopEvent::CloseRequested, true), LoopAction::Ignore);
    assert_eq!(dispatch_event(&LoopEvent::Resized(d), false), LoopAction::ResizeSurface(d));
    assert_eq!(dispatch_event(&LoopEvent::Resized(d), true), LoopAction::Ignore);
}

#[test]
fn dispatch_drives_redraw_cycle() {
    assert_eq!(dispatch_event(&LoopEvent::MainEventsCleared, false), LoopAction::RequestRedraw);
    assert_eq!(dispatch_event(&LoopEvent::RedrawRequested, false), LoopAction::RenderFrame);
    assert_eq!(dispatch_event(&LoopEvent::Other, false), LoopAction::Ignore);
}

#[test]
fn overlay_plan_orders_uploads_draws_and_frees() {
    let set = vec![11u64, 12u64];
    let free = vec![7u64];
    let prims = vec![100u64, 101u64, 102u64];
    let steps = plan_overlay_pass(&set, &free, &prims);
    assert_eq!(
        steps,
        vec![
            OverlayStep::UploadTexture(11),
            OverlayStep::UploadTexture(12),
            OverlayStep::UploadBuffers,
            OverlayStep::BeginPass(LoadOp::Load),
            OverlayStep::DrawPrimitive(100),
            OverlayStep::DrawPrimitive(101),
            OverlayStep::DrawPrimitive(102),
            OverlayStep::EndPass,
            OverlayStep::FreeTexture(7),
        ]
    );
}

#[test]
fn overlay_plan_empty_frame() {
    let steps = plan_overlay_pass(&vec![], &vec![], &vec![]);
    assert_eq!(
        steps,
        vec![OverlayStep::UploadBuffers, OverlayStep::BeginPass(LoadOp::Load), OverlayStep::EndPass]
    );
}
