use rsnip::overlay::draw::{
    bgra_to_overlay_pixels, draw_filled_rect, draw_hover_region, draw_mode_chip,
    draw_selection_region, draw_text_5x7, text_5x7_width,
};
use rsnip::overlay::selection::{
    clamp_virtual_point, normalize_drag_region, offers_windows, outcome_from_drag,
    scale_dimension_for_dpi, selection_point_from_window_position, selection_window_title,
    MouseDragState, Selection, SelectionCancelReason, SelectionFlags, SelectionMode,
    SelectionOutcome, SelectionPoint, SelectionRequest, DEFAULT_SELECTION_THRESHOLD_PX,
};
use rsnip::overlay::shell::{
    is_reported, prepare_overlay_frame, surface_size, SelectionAction, SelectionEvent,
    SelectionOverlay,
};
use rsnip::screen::capture::{CaptureMetrics, CaptureRegion, CapturedImage, ScreenCapture};
use rsnip::screen::monitor::VirtualScreen;
use rsnip::screen::windows::{SelectableWindow, SelectableWindowHandle, SelectableWindowKind};
use rsnip::time::Elapsed;

fn desktop() -> VirtualScreen {
    VirtualScreen { x: -100, y: 50, width: 400, height: 300 }
}

fn window() -> SelectableWindow {
    SelectableWindow {
        handle: SelectableWindowHandle(7),
        title: "notes".to_owned(),
        bounds: CaptureRegion::new(0, 60, 100, 100).unwrap(),
        kind: SelectableWindowKind::Window,
    }
}

#[test]
fn normalizes_drag_in_any_direction() {
    let region = normalize_drag_region(
        SelectionPoint::new(100, 80),
        SelectionPoint::new(10, 20),
        DEFAULT_SELECTION_THRESHOLD_PX,
    )
    .unwrap()
    .unwrap();

    assert_eq!(region.x, 10);
    assert_eq!(region.y, 20);
    assert_eq!(region.width, 90);
    assert_eq!(region.height, 60);
}

#[test]
fn supports_negative_virtual_coordinates() {
    let region = normalize_drag_region(
        SelectionPoint::new(-200, -100),
        SelectionPoint::new(-50, 25),
        DEFAULT_SELECTION_THRESHOLD_PX,
    )
    .unwrap()
    .unwrap();

    assert_eq!(region.x, -200);
    assert_eq!(region.y, -100);
    assert_eq!(region.width, 150);
    assert_eq!(region.height, 125);
}

#[test]
fn rejects_drags_below_threshold() {
    let region = normalize_drag_region(
        SelectionPoint::new(10, 10),
        SelectionPoint::new(12, 100),
        DEFAULT_SELECTION_THRESHOLD_PX,
    )
    .unwrap();

    assert_eq!(region, None);
}

#[test]
fn mouse_drag_state_tracks_active_selection() {
    let request = SelectionRequest::with_threshold(SelectionMode::Snip, 3);
    let mut drag = MouseDragState::default();

    drag.begin(SelectionPoint::new(10, 10));
    drag.update(SelectionPoint::new(50, 40));

    let selection = drag
        .active_selection(request, SelectionFlags::new(true))
        .unwrap()
        .unwrap();
    assert_eq!(
        selection.region,
        CaptureRegion::new(10, 10, 40, 30).unwrap()
    );
    assert!(selection.flags.shift_pressed);
    assert_eq!(
        drag.finish(SelectionPoint::new(50, 40)),
        Some((SelectionPoint::new(10, 10), SelectionPoint::new(50, 40)))
    );
    assert_eq!(
        drag.active_selection(request, SelectionFlags::new(false))
            .unwrap(),
        None
    );
}

#[test]
fn draws_selection_region_with_clear_interior_and_border() {
    let virtual_screen = VirtualScreen {
        x: 10,
        y: 20,
        width: 8,
        height: 8,
    };
    let mut buffer = vec![0x0001_0101; 64];
    let clear_pixels = vec![0x0002_0202; 64];

    draw_selection_region(
        &mut buffer,
        8,
        8,
        8,
        &clear_pixels,
        CaptureRegion::new(11, 21, 6, 6).unwrap(),
        virtual_screen,
    );

    assert_eq!(buffer[9], 0x0000_0000);
    assert_eq!(buffer[18], 0x00ff_ffff);
    assert_eq!(buffer[27], 0x0002_0202);
}

#[test]
fn clamps_virtual_points_to_virtual_screen() {
    let virtual_screen = VirtualScreen {
        x: -100,
        y: 50,
        width: 400,
        height: 300,
    };

    assert_eq!(
        clamp_virtual_point(-200, 999, virtual_screen),
        SelectionPoint::new(-100, 350)
    );
}

#[test]
fn converts_window_position_to_virtual_point_with_clamp() {
    let virtual_screen = VirtualScreen {
        x: -100,
        y: 50,
        width: 400,
        height: 300,
    };
    let at = |x: f64, y: f64| {
        selection_point_from_window_position(x.round() as i64, y.round() as i64, virtual_screen)
    };

    assert_eq!(at(25.4, 10.5), SelectionPoint::new(-75, 61));
    assert_eq!(at(999.0, -5.0), SelectionPoint::new(300, 50));
}

#[test]
fn outcome_preserves_mode_region_and_shift_flag() {
    let outcome = outcome_from_drag(
        SelectionRequest::new(SelectionMode::Ocr),
        SelectionPoint::new(10, 10),
        SelectionPoint::new(30, 40),
        SelectionFlags::new(true),
    );

    assert_eq!(
        outcome,
        SelectionOutcome::Selected(Selection {
            mode: SelectionMode::Ocr,
            region: CaptureRegion::new(10, 10, 20, 30).unwrap(),
            flags: SelectionFlags {
                shift_pressed: true,
            },
            window_handle: None,
        })
    );
}

#[test]
fn a_tiny_drag_is_cancelled() {
    let outcome = outcome_from_drag(
        SelectionRequest::new(SelectionMode::Snip),
        SelectionPoint::new(10, 10),
        SelectionPoint::new(11, 11),
        SelectionFlags::new(false),
    );
    assert_eq!(
        outcome,
        SelectionOutcome::Cancelled(SelectionCancelReason::BelowThreshold)
    );
}

#[test]
fn a_drag_across_all_coordinates_overflows() {
    let result = normalize_drag_region(
        SelectionPoint::new(i32::MIN, 0),
        SelectionPoint::new(i32::MAX, 10),
        3,
    );
    assert_eq!(result.unwrap_err().to_string(), "selection width overflow");
    let result = normalize_drag_region(
        SelectionPoint::new(0, i32::MIN),
        SelectionPoint::new(10, i32::MAX),
        3,
    );
    assert_eq!(result.unwrap_err().to_string(), "selection height overflow");
}

#[test]
fn windows_are_offered_for_images_and_text() {
    assert!(offers_windows(SelectionMode::Snip));
    assert!(offers_windows(SelectionMode::Ocr));
    assert!(!offers_windows(SelectionMode::Record));
    assert_ne!(
        selection_window_title(SelectionMode::Snip),
        selection_window_title(SelectionMode::Record)
    );
}

#[test]
fn sizes_follow_the_scale_of_the_screen() {
    assert_eq!(scale_dimension_for_dpi(100, 144, 96), 150);
    assert_eq!(scale_dimension_for_dpi(100, 96, 96), 100);
}

fn point(x: i32, y: i32) -> Option<SelectionPoint> {
    Some(SelectionPoint::new(x, y))
}

#[test]
fn press_move_and_release_pick_a_region() {
    let mut overlay =
        SelectionOverlay::new(SelectionRequest::new(SelectionMode::Snip), desktop(), vec![]);
    overlay.window_event(SelectionEvent::ModifiersChanged { shift: true });
    overlay.window_event(SelectionEvent::LeftPressed { known: point(0, 100) });
    overlay.window_event(SelectionEvent::CursorMoved { x: 120, y: 80 });
    let action = overlay.window_event(SelectionEvent::LeftReleased { known: point(50, 150) });
    assert_eq!(action, SelectionAction::Finish);
    assert_eq!(
        overlay.outcome,
        SelectionOutcome::Selected(Selection {
            mode: SelectionMode::Snip,
            region: CaptureRegion::new(0, 100, 50, 50).unwrap(),
            flags: SelectionFlags::new(true),
            window_handle: None,
        })
    );
}

#[test]
fn a_click_picks_the_window_under_the_pointer() {
    let mut overlay = SelectionOverlay::new(
        SelectionRequest::new(SelectionMode::Snip),
        desktop(),
        vec![window()],
    );
    overlay.window_event(SelectionEvent::CursorMoved { x: 150, y: 50 });
    assert_eq!(
        overlay.hovered_window.as_ref().map(|window| window.handle),
        Some(SelectableWindowHandle(7))
    );
    overlay.window_event(SelectionEvent::LeftPressed { known: point(50, 100) });
    overlay.window_event(SelectionEvent::LeftReleased { known: point(50, 100) });
    assert_eq!(
        overlay.outcome,
        SelectionOutcome::Selected(Selection {
            mode: SelectionMode::Snip,
            region: window().bounds,
            flags: SelectionFlags::new(false),
            window_handle: Some(SelectableWindowHandle(7)),
        })
    );
}

#[test]
fn escape_and_close_cancel() {
    let mut overlay =
        SelectionOverlay::new(SelectionRequest::new(SelectionMode::Ocr), desktop(), vec![]);
    assert_eq!(
        overlay.window_event(SelectionEvent::EscapePressed),
        SelectionAction::Finish
    );
    assert_eq!(
        overlay.outcome,
        SelectionOutcome::Cancelled(SelectionCancelReason::Escape)
    );
    let mut overlay =
        SelectionOverlay::new(SelectionRequest::new(SelectionMode::Ocr), desktop(), vec![]);
    overlay.window_event(SelectionEvent::CloseRequested);
    assert_eq!(
        overlay.outcome,
        SelectionOutcome::Cancelled(SelectionCancelReason::WindowClosed)
    );
}

#[test]
fn frames_are_dimmed() {
    let (dimmed, clear) = bgra_to_overlay_pixels(&[0x30, 0x20, 0x10, 0xff]);
    assert_eq!(clear, vec![0x0010_2030]);
    assert_eq!(dimmed.len(), 1);
    assert_ne!(dimmed, clear);
    let image = CapturedImage::new(0, 0, 2, 1, vec![9; 8]).unwrap();
    let capture = ScreenCapture {
        image,
        metrics: CaptureMetrics { elapsed: Elapsed::from_millis(3) },
    };
    let frame = prepare_overlay_frame(&capture, Elapsed::from_millis(4));
    assert_eq!((frame.width, frame.height), (2, 1));
    assert_eq!(frame.clear_pixels, vec![0x0009_0909; 2]);
    assert_eq!(frame.capture_elapsed, Elapsed::from_millis(3));
    assert_eq!(frame.prepare_elapsed, Elapsed::from_millis(1));
    assert_eq!(surface_size(5, 5, &frame), (2, 1));
}

#[test]
fn a_rendered_frame_shows_the_desktop() {
    let image = CapturedImage::new(0, 0, 200, 100, vec![100; 200 * 100 * 4]).unwrap();
    let capture = ScreenCapture { image, metrics: CaptureMetrics { elapsed: Elapsed::zero() } };
    let frame = prepare_overlay_frame(&capture, Elapsed::zero());
    let screen = VirtualScreen { x: 0, y: 0, width: 200, height: 100 };
    let overlay = SelectionOverlay::new(SelectionRequest::new(SelectionMode::Snip), screen, vec![]);
    let selected = Selection {
        mode: SelectionMode::Snip,
        region: CaptureRegion::new(120, 50, 40, 40).unwrap(),
        flags: SelectionFlags::new(false),
        window_handle: None,
    };
    let mut buffer = vec![0u32; 200 * 100];
    overlay.render_frame(&mut buffer, 200, 100, &frame, Some(selected));
    assert_eq!(buffer[70 * 200 + 140], 0x0064_6464);
    assert_eq!(buffer[99 * 200 + 199], frame.dimmed_pixels[0]);
}

#[test]
fn a_hovered_region_gets_a_border() {
    let screen = VirtualScreen { x: 0, y: 0, width: 10, height: 10 };
    let mut buffer = vec![0x0001_0101; 100];
    draw_hover_region(&mut buffer, 10, 10, CaptureRegion::new(2, 2, 6, 6).unwrap(), screen);
    assert_ne!(buffer[22], 0x0001_0101);
    assert_eq!(buffer[0], 0x0001_0101);
    assert_eq!(text_5x7_width("AB", 1), 11);
}

#[test]
fn every_so_many_counts_are_reported() {
    let reported: Vec<u32> = (1..13).filter(|count| is_reported(*count, 4)).collect();
    assert_eq!(reported, vec![1, 2, 3, 4, 5, 8, 12]);
}

#[test]
fn a_rectangle_is_cut_off_where_the_surface_ends() {
    let mut buffer = vec![0u32; 12];
    draw_filled_rect(&mut buffer, 4, 3, -1, 1, 3, 9, 5);
    assert_eq!(buffer, vec![0, 0, 0, 0, 5, 5, 0, 0, 5, 5, 0, 0]);
    draw_filled_rect(&mut buffer, 4, 3, 9, 0, 3, 3, 7);
    assert_eq!(buffer, vec![0, 0, 0, 0, 5, 5, 0, 0, 5, 5, 0, 0]);
}

#[test]
fn letters_are_drawn_cell_by_cell() {
    let mut buffer = vec![0u32; 12 * 7];
    draw_text_5x7(&mut buffer, 12, 7, 0, 0, "i?C", 1, 1);
    let row = |y: usize| buffer[12 * y..12 * y + 12].to_vec();
    assert_eq!(row(0), vec![1, 1, 1, 1, 1, 0, 0, 0, 0, 0, 0, 0]);
    assert_eq!(row(1), vec![0, 0, 1, 0, 0, 0, 0, 0, 0, 0, 0, 0]);
    assert_eq!(row(6), vec![1, 1, 1, 1, 1, 0, 0, 0, 0, 0, 0, 0]);
}

#[test]
fn the_chip_stands_beside_the_pointer() {
    let draw = |cursor: Option<(i32, i32)>| {
        let mut buffer = vec![0u32; 200 * 100];
        draw_mode_chip(&mut buffer, 200, 100, SelectionMode::Ocr, cursor);
        buffer
    };
    let at = |buffer: &Vec<u32>, x: usize, y: usize| buffer[200 * y + x];
    let free = draw(Some((10, 20)));
    assert_eq!(at(&free, 27, 38), 0);
    assert_eq!(at(&free, 28, 38), 0x00ff_ffff);
    assert_eq!(at(&free, 29, 39), 0x0033_cc33);
    assert_eq!(at(&free, 40, 40), 0x0020_2020);
    assert_eq!(at(&free, 28 + 14 + 3, 38 + 5), 0x00ff_ffff);
    assert_eq!(free, draw(Some((10, 20))));
    assert_eq!(draw(None), draw(Some((0, 0))));
    let corner = draw(Some((500, 500)));
    assert_eq!(at(&corner, 199, 99), 0x00ff_ffff);
    assert_eq!(draw(Some((-900, -900)))[0], 0x00ff_ffff);
}
