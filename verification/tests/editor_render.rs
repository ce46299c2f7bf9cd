use rsnip::editor::compose::{
    annotation_of_drag, compose_editor_image, constrain_point_if_shift, ArrowHead, EditorDrag,
};
use rsnip::editor::render::{
    canvas_layout, draw_editor_shell, initial_window_size, rgba_to_softbuffer_color,
    softbuffer_color_to_rgba, EditorCanvasLayout,
};
use rsnip::editor::session::{
    after_copy, EditorAction, EditorEvent, EditorKey, EditorSession, PointerPosition,
};
use rsnip::editor::tools::{EditorColor, EditorTool};
use rsnip::editor::{
    EditorAnnotation, EditorImageSize, EditorPoint, EditorRect, EditorSessionImage,
};

fn no_head() -> ArrowHead {
    ArrowHead { left: EditorPoint::new(0, 0), right: EditorPoint::new(0, 0) }
}

fn black(width: u32, height: u32) -> EditorSessionImage {
    let mut rgba = Vec::new();
    for _ in 0..width * height {
        rgba.extend_from_slice(&[0, 0, 0, 255]);
    }
    EditorSessionImage { width, height, rgba }
}

fn pointer(x: i32, y: i32) -> PointerPosition {
    PointerPosition { x, y, floor_x: x as i64, ceil_y: y as i64 }
}

#[test]
fn canvas_layout_maps_window_points_to_image_points() {
    let layout = EditorCanvasLayout {
        x: 72,
        y: 52,
        width: 320,
        height: 200,
        image_width: 320,
        image_height: 200,
    };
    let at = |x: f64, y: f64| {
        layout.image_point_from_window_position(x.round() as i32, y.round() as i32)
    };

    assert_eq!(at(80.0, 60.0), Some(EditorPoint::new(8, 8)));
    assert_eq!(at(10.0, 10.0), None);
}

#[test]
fn canvas_layout_reserves_toolbar_and_padding() {
    let layout = canvas_layout(800, 600, 640, 480);
    assert_eq!(layout.x, 88);
    assert_eq!(layout.y, 52);
    assert_eq!(layout.width, 640);
    assert_eq!(layout.height, 480);
}

#[test]
fn compose_editor_image_includes_pen_annotation() {
    let image = EditorSessionImage {
        width: 3,
        height: 1,
        rgba: vec![0, 0, 0, 255, 0, 0, 0, 255, 0, 0, 0, 255],
    };
    let annotations = [EditorAnnotation::Pen {
        points: vec![EditorPoint::new(0, 0), EditorPoint::new(2, 0)],
        color: EditorColor::Red,
    }];

    let composed = compose_editor_image(
        &image,
        &annotations,
        &[no_head()],
        &None,
        None,
        no_head(),
        EditorColor::Red,
        false,
    )
    .unwrap();

    assert_eq!(
        composed.bgra,
        vec![
            0x33, 0x33, 0xff, 0xff, 0x33, 0x33, 0xff, 0xff, 0x33, 0x33, 0xff, 0xff
        ]
    );
}

#[test]
fn an_image_without_annotations_is_kept() {
    let image = EditorSessionImage { width: 2, height: 1, rgba: vec![1, 2, 3, 4, 5, 6, 7, 8] };
    let composed =
        compose_editor_image(&image, &[], &[], &None, None, no_head(), EditorColor::Red, false)
            .unwrap();
    assert_eq!(composed.bgra, vec![3, 2, 1, 4, 7, 6, 5, 8]);
}

#[test]
fn a_redaction_hides_what_was_there() {
    let image = EditorSessionImage { width: 2, height: 2, rgba: vec![9; 16] };
    let redaction = EditorAnnotation::Redact {
        rect: EditorRect { x: 1, y: 0, width: 1, height: 2 },
    };
    let composed = compose_editor_image(
        &image,
        &[redaction],
        &[no_head()],
        &None,
        None,
        no_head(),
        EditorColor::Red,
        false,
    )
    .unwrap();
    assert_eq!(&composed.bgra[0..4], &[9, 9, 9, 9]);
    assert_eq!(&composed.bgra[4..8], &[0, 0, 0, 255]);
    assert_eq!(&composed.bgra[12..16], &[0, 0, 0, 255]);
}

#[test]
fn a_drag_with_shift_has_eight_directions() {
    let start = EditorPoint::new(10, 10);
    assert_eq!(
        constrain_point_if_shift(start, EditorPoint::new(30, 12), true),
        EditorPoint::new(30, 10)
    );
    assert_eq!(
        constrain_point_if_shift(start, EditorPoint::new(12, 30), true),
        EditorPoint::new(10, 30)
    );
    let diagonal = constrain_point_if_shift(start, EditorPoint::new(30, 28), true);
    assert_eq!((diagonal.x - 10).abs(), (diagonal.y - 10).abs());
    assert_eq!(
        constrain_point_if_shift(start, EditorPoint::new(30, 12), false),
        EditorPoint::new(30, 12)
    );
}

#[test]
fn a_drag_becomes_what_its_tool_draws() {
    let drag = EditorDrag {
        tool: EditorTool::Rectangle,
        start: EditorPoint::new(8, 9),
        end: EditorPoint::new(2, 3),
    };
    assert_eq!(
        annotation_of_drag(drag, EditorColor::Blue, false),
        Some(EditorAnnotation::Rectangle {
            rect: EditorRect { x: 2, y: 3, width: 6, height: 6 },
            color: EditorColor::Blue,
        })
    );
    let pen = EditorDrag { tool: EditorTool::Pen, ..drag };
    assert_eq!(annotation_of_drag(pen, EditorColor::Blue, false), None);
}

#[test]
fn windows_are_as_large_as_their_image_within_limits() {
    assert_eq!(initial_window_size(10, 10), (360, 240));
    assert_eq!(initial_window_size(5_000, 5_000), (1_200, 900));
}

#[test]
fn packed_colors_keep_their_parts() {
    assert_eq!(rgba_to_softbuffer_color([0x12, 0x34, 0x56, 0xff]), 0x0012_3456);
    assert_eq!(softbuffer_color_to_rgba(0x0012_3456), [0x12, 0x34, 0x56, 0xff]);
}

#[test]
fn the_shell_shows_the_image() {
    let image = EditorSessionImage { width: 4, height: 4, rgba: vec![200; 64] };
    let (width, height) = (360, 400);
    let layout = canvas_layout(width, height, 4, 4);
    let mut buffer = vec![0u32; (width * height) as usize];
    draw_editor_shell(
        &mut buffer,
        width,
        height,
        &image,
        EditorTool::Pen,
        EditorColor::Red,
        &[],
        &[],
        &None,
        None,
        no_head(),
        false,
    );
    assert_eq!(buffer[(layout.y * width + layout.x) as usize], 0x00c8_c8c8);
}

fn press(session: &mut EditorSession, key: &str) -> EditorAction {
    session.window_event(
        Some(EditorImageSize::new(360, 240)),
        EditorEvent::KeyPressed(EditorKey::Character(key.to_owned())),
    )
}

#[test]
fn keys_pick_tools_and_colors() {
    let mut session = EditorSession::new(black(100, 100));
    press(&mut session, "5");
    press(&mut session, "w");
    assert_eq!(session.active_tool, EditorTool::Redact);
    assert_eq!(session.active_color, EditorColor::Blue);
    assert_eq!(session.document.active_tool(), EditorTool::Redact);
    assert_eq!(session.document.active_color(), EditorColor::Blue);
}

#[test]
fn drawing_and_undo_with_the_pointer() {
    let window = Some(EditorImageSize::new(360, 240));
    let mut session = EditorSession::new(black(100, 100));
    let layout = canvas_layout(360, 240, 100, 100);
    let (x, y) = (layout.x as i32, layout.y as i32);
    press(&mut session, "3");
    session.window_event(window, EditorEvent::CursorMoved(pointer(x + 10, y + 10)));
    session.window_event(window, EditorEvent::LeftPressed);
    session.window_event(window, EditorEvent::CursorMoved(pointer(x + 30, y + 20)));
    session.window_event(window, EditorEvent::LeftReleased);
    assert_eq!(
        session.document.annotations().to_vec(),
        vec![EditorAnnotation::Line {
            start: EditorPoint::new(10, 10),
            end: EditorPoint::new(30, 20),
            color: EditorColor::Red,
        }]
    );
    session.window_event(window, EditorEvent::ModifiersChanged { control: true, shift: false });
    press(&mut session, "z");
    assert!(session.document.annotations().is_empty());
}

#[test]
fn copying_with_the_keyboard_closes_the_editor() {
    let window = Some(EditorImageSize::new(360, 240));
    let mut session = EditorSession::new(black(10, 10));
    session.window_event(window, EditorEvent::ModifiersChanged { control: true, shift: false });
    assert_eq!(press(&mut session, "c"), EditorAction::CopyAndFinish);
    assert_eq!(after_copy(EditorAction::CopyAndFinish, true), EditorAction::Finish);
    assert_ne!(after_copy(EditorAction::CopyAndFinish, false), EditorAction::Finish);
    assert_ne!(after_copy(EditorAction::Copy, true), EditorAction::Finish);
    assert_eq!(
        session.window_event(window, EditorEvent::KeyPressed(EditorKey::Escape)),
        EditorAction::Finish
    );
}
