use rsnip::editor::tools::{EditorColor, EditorTool};
use rsnip::editor::{
    EditorAnnotation, EditorDocument, EditorImageSize, EditorPoint, EditorRect, EditorSessionImage,
};

#[test]
fn document_defaults_to_pen_and_red() {
    let document = EditorDocument::new(EditorImageSize::new(320, 240));
    assert_eq!(document.image_size(), EditorImageSize::new(320, 240));
    assert_eq!(document.active_tool(), EditorTool::Pen);
    assert_eq!(document.active_color(), EditorColor::Red);
    assert_eq!(document.next_step_number(), 1);
    assert!(document.annotations().is_empty());
}

#[test]
fn rect_normalizes_points() {
    let rect = EditorRect::from_points(EditorPoint::new(10, 30), EditorPoint::new(-5, 12));
    assert_eq!(rect.x, -5);
    assert_eq!(rect.y, 12);
    assert_eq!(rect.width, 15);
    assert_eq!(rect.height, 18);
}

#[test]
fn undo_restores_annotations() {
    let mut document = EditorDocument::new(EditorImageSize::new(100, 100));
    document.push_annotation(EditorAnnotation::Line {
        start: EditorPoint::new(0, 0),
        end: EditorPoint::new(10, 10),
        color: EditorColor::Blue,
    });
    assert_eq!(document.annotations().len(), 1);
    assert!(document.can_undo());

    assert!(document.undo());
    assert!(document.annotations().is_empty());
    assert!(!document.can_undo());
    assert!(!document.undo());
}

#[test]
fn undo_restores_step_counter() {
    let mut document = EditorDocument::new(EditorImageSize::new(100, 100));
    document.push_next_step(EditorPoint::new(10, 10));
    document.push_next_step(EditorPoint::new(20, 20));

    assert_eq!(document.next_step_number(), 3);
    assert_eq!(document.annotations().len(), 2);

    assert!(document.undo());
    assert_eq!(document.next_step_number(), 2);
    assert_eq!(document.annotations().len(), 1);

    assert!(document.undo());
    assert_eq!(document.next_step_number(), 1);
    assert!(document.annotations().is_empty());
}

#[test]
fn resolves_tool_shortcuts() {
    assert_eq!(EditorTool::from_shortcut('1'), Some(EditorTool::Pen));
    assert_eq!(EditorTool::from_shortcut('6'), Some(EditorTool::Step));
    assert_eq!(EditorTool::from_shortcut('x'), None);
}

#[test]
fn resolves_color_shortcuts() {
    assert_eq!(EditorColor::from_shortcut('q'), Some(EditorColor::Red));
    assert_eq!(EditorColor::from_shortcut('W'), Some(EditorColor::Blue));
    assert_eq!(EditorColor::from_shortcut('x'), None);
}

#[test]
fn every_shortcut_has_its_tool_and_its_color() {
    let tools = [
        EditorTool::Pen,
        EditorTool::Arrow,
        EditorTool::Line,
        EditorTool::Rectangle,
        EditorTool::Redact,
        EditorTool::Step,
    ];
    for (shortcut, tool) in "123456".chars().zip(tools) {
        assert_eq!(EditorTool::from_shortcut(shortcut), Some(tool));
    }
    assert_eq!(EditorColor::Red.rgba(), [0xff, 0x33, 0x33, 0xff]);
    assert_eq!(EditorColor::Blue.rgba(), [0x33, 0x88, 0xff, 0xff]);
    assert_eq!(EditorColor::Green.rgba(), [0x33, 0xcc, 0x33, 0xff]);
    assert_eq!(EditorColor::Yellow.rgba(), [0xff, 0xcc, 0x00, 0xff]);
    assert_eq!(EditorColor::from_shortcut('e'), Some(EditorColor::Green));
    assert_eq!(EditorColor::from_shortcut('R'), Some(EditorColor::Yellow));
}

#[test]
fn steps_carry_their_numbers_in_order() {
    let mut document = EditorDocument::new(EditorImageSize::new(50, 50));
    document.set_active_color(EditorColor::Green);
    for i in 0..4 {
        document.push_next_step(EditorPoint::new(i, i));
    }
    for (i, annotation) in document.annotations().iter().enumerate() {
        assert_eq!(
            *annotation,
            EditorAnnotation::Step {
                center: EditorPoint::new(i as i32, i as i32),
                number: i as u32 + 1,
                color: EditorColor::Green,
            }
        );
    }
}

#[test]
fn undo_leaves_tool_and_color_alone() {
    let mut document = EditorDocument::new(EditorImageSize::new(50, 50));
    document.set_active_tool(EditorTool::Redact);
    document.push_annotation(EditorAnnotation::Redact {
        rect: EditorRect::from_points(EditorPoint::new(0, 0), EditorPoint::new(9, 9)),
    });
    document.set_active_color(EditorColor::Yellow);
    assert!(document.undo());
    assert_eq!(document.active_tool(), EditorTool::Redact);
    assert_eq!(document.active_color(), EditorColor::Yellow);
}

#[test]
fn a_rectangle_of_points_does_not_depend_on_their_order() {
    let a = EditorPoint::new(7, -3);
    let b = EditorPoint::new(-1, 4);
    assert_eq!(EditorRect::from_points(a, b), EditorRect::from_points(b, a));
}

#[test]
fn a_session_image_is_handed_out_blue_first() {
    let image = EditorSessionImage { width: 1, height: 1, rgba: vec![1, 2, 3, 4] };
    assert_eq!(image.image_size(), EditorImageSize::new(1, 1));
    assert_eq!(image.to_captured_image().unwrap().bgra, vec![3, 2, 1, 4]);
    let broken = EditorSessionImage { width: 2, height: 1, rgba: vec![1, 2, 3, 4] };
    assert!(broken.to_captured_image().is_err());
}
