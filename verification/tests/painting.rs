use rsnip::editor::session::copied_notice;
use rsnip::overlay::paint::{
    PaintStep, WindowStep, WM_CLOSE, WM_DESTROY, WM_LBUTTONUP, WM_NCCREATE, WM_NCDESTROY, WM_PAINT,
    WM_TIMER,
};
use rsnip::overlay::recording::{
    paint_recording_overlay, recording_overlay_window_proc, update_recording_overlay_clock,
    RecordingOverlayStatus, CLOCK_TIMER_ID, COMMAND_TIMER_ID,
};
use rsnip::overlay::toast::{
    paint_toast, show_simple_toast_async, toast_window_proc, ActiveToast, ToastKind, TOAST_TIMER_ID,
};
use rsnip::screen::capture::CaptureRegion;
use rsnip::screen::monitor::EdgeRect;
use rsnip::time::Elapsed;

fn area(left: i32, top: i32, right: i32, bottom: i32) -> EdgeRect {
    EdgeRect { left, top, right, bottom }
}

#[test]
fn a_notice_is_painted_on_its_ground() {
    let toast = show_simple_toast_async("RSnip", "Hola".to_owned(), ToastKind::Error);
    assert_eq!(
        paint_toast(&toast),
        vec![
            PaintStep::Fill { area: area(0, 0, 360, 86), color: 0x0020_2060 },
            PaintStep::Text {
                area: area(16, 12, 344, 34),
                text: "RSnip".to_owned(),
                color: 0x00ff_ffff,
                wrapped: false,
            },
            PaintStep::Text {
                area: area(16, 40, 344, 74),
                text: "Hola".to_owned(),
                color: 0x00e0_e0e0,
                wrapped: true,
            },
        ]
    );
}

#[test]
fn a_frame_is_painted_around_the_region() {
    let region = CaptureRegion { x: 50, y: 60, width: 200, height: 100 };
    let status = RecordingOverlayStatus { elapsed: Elapsed::from_millis(65_000), fps: 30 };
    let dark = |area: EdgeRect| PaintStep::Fill { area, color: 0x0030_2020 };
    let steps = paint_recording_overlay(region, status);
    assert_eq!(steps.len(), 7);
    assert_eq!(steps[0], dark(area(0, 0, 200, 28)));
    assert_eq!(steps[1], dark(area(0, 0, 200, 2)));
    assert_eq!(steps[2], dark(area(0, 98, 200, 100)));
    assert_eq!(steps[3], dark(area(0, 0, 2, 100)));
    assert_eq!(steps[4], dark(area(198, 0, 200, 100)));
    assert_eq!(
        steps[5],
        PaintStep::Dots { area: area(1, 1, 199, 99), thickness: 2, color: 0x0000_00ff }
    );
    match &steps[6] {
        PaintStep::Text { area: place, text, color, wrapped } => {
            assert_eq!(*place, area(10, 5, 190, 28));
            assert_eq!(*color, 0x00ff_ffff);
            assert!(!wrapped);
            assert!(text.contains("01:05"));
            assert!(text.ends_with("30 FPS"));
        }
        _ => panic!("expected a text"),
    }
}

#[test]
fn a_notice_answers_its_messages() {
    assert_eq!(toast_window_proc(WM_NCCREATE, 0), WindowStep::Attach);
    assert_eq!(toast_window_proc(WM_PAINT, 0), WindowStep::Paint);
    assert_eq!(toast_window_proc(WM_TIMER, TOAST_TIMER_ID), WindowStep::Tick);
    assert_eq!(toast_window_proc(WM_TIMER, 9), WindowStep::Default);
    assert_eq!(toast_window_proc(WM_LBUTTONUP, 0), WindowStep::Click);
    assert_eq!(toast_window_proc(WM_CLOSE, 0), WindowStep::Destroy);
    assert_eq!(toast_window_proc(WM_DESTROY, 0), WindowStep::Quit);
    assert_eq!(toast_window_proc(WM_NCDESTROY, 0), WindowStep::Release);
    assert_eq!(toast_window_proc(0, 0), WindowStep::Default);
}

#[test]
fn a_frame_answers_its_messages() {
    assert_eq!(recording_overlay_window_proc(WM_NCCREATE, 0), WindowStep::Attach);
    assert_eq!(recording_overlay_window_proc(WM_PAINT, 0), WindowStep::Paint);
    assert_eq!(recording_overlay_window_proc(WM_TIMER, COMMAND_TIMER_ID), WindowStep::Poll);
    assert_eq!(recording_overlay_window_proc(WM_TIMER, CLOCK_TIMER_ID), WindowStep::Tick);
    assert_eq!(recording_overlay_window_proc(WM_TIMER, 9), WindowStep::Ignore);
    assert_eq!(recording_overlay_window_proc(WM_LBUTTONUP, 0), WindowStep::Default);
    assert_eq!(recording_overlay_window_proc(WM_CLOSE, 0), WindowStep::Destroy);
    assert_eq!(recording_overlay_window_proc(WM_DESTROY, 0), WindowStep::Quit);
    assert_eq!(recording_overlay_window_proc(WM_NCDESTROY, 0), WindowStep::Release);
}

#[test]
fn the_clock_of_a_frame_moves_on() {
    let mut status = RecordingOverlayStatus { elapsed: Elapsed::from_millis(0), fps: 24 };
    update_recording_overlay_clock(&mut status, Elapsed::from_millis(250));
    assert_eq!(status, RecordingOverlayStatus { elapsed: Elapsed::from_millis(250), fps: 24 });
}

#[test]
fn one_notice_is_shown_at_a_time() {
    let mut active = ActiveToast::new();
    assert_eq!(active.close_active_toast(), None);
    active.set_active_toast(4);
    assert_eq!(active.close_active_toast(), Some(4));
    active.set_active_toast(5);
    active.clear_active_toast(4);
    assert_eq!(active.window, Some(5));
    active.clear_active_toast(5);
    assert_eq!(active.window, None);
}

#[test]
fn copying_in_the_editor_is_announced() {
    let toast = copied_notice();
    assert_eq!(toast.title, "RSnip");
    assert_eq!(toast.message.0, "✔  Editado y copiado al portapapeles");
    assert_eq!(toast.kind, ToastKind::Info);
}
