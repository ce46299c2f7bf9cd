//! What the window of the editor does on each of its events.
use crate::editor::compose::{
    annotation_of_drag, constrain_point_if_shift, constrained, drag_annotation,
    law_unfinished_drag_shows_its_annotation, spans, EditorDrag,
};
use crate::editor::render::{
    canvas_layout, close_left, copy_left, image_point, layout_of, title_bar, DrawStep,
    CLOSE_BUTTON_WIDTH, COPY_BUTTON_WIDTH, TITLE_BAR_HEIGHT,
};
use crate::editor::tools::{color_of_shortcut, tool_of_shortcut, EditorColor, EditorTool};
use crate::editor::{
    undone, with_annotation, with_next_step, AnnotationModel, DocumentModel, EditorAnnotation,
    EditorDocument, EditorImageSize, EditorPoint, EditorSessionImage,
};
use crate::overlay::toast::{
    show_simple_toast_async, Toast, ToastActionModel, ToastKind, ToastModel,
};
use crate::text::{ascii_lower, chars_of, to_ascii_lower};
use vstd::prelude::*;

verus! {

/// Where the pointer is in the window: the nearest whole position, and the whole columns and rows
/// by which it is held against the edges of the buttons.
#[derive(Debug, Clone, Copy, PartialEq, Eq, Structural)]
pub struct PointerPosition {
    /// The column, rounded.
    pub x: i32,
    /// The row, rounded.
    pub y: i32,
    /// The column, rounded down.
    pub floor_x: i64,
    /// The row, rounded up.
    pub ceil_y: i64,
}

/// A key that was pressed.
#[derive(Debug, Clone, PartialEq, Eq)]
pub enum EditorKey {
    Escape,
    Character(String),
    Other,
}

/// An event of the window.
#[derive(Debug, Clone, PartialEq, Eq)]
pub enum EditorEvent {
    CloseRequested,
    CursorMoved(PointerPosition),
    LeftPressed,
    LeftReleased,
    KeyPressed(EditorKey),
    ModifiersChanged { control: bool, shift: bool },
    RedrawRequested,
    Resized,
    Other,
}

/// What is to be done outside after an event.
#[derive(Debug, Clone, Copy, PartialEq, Eq, Structural)]
pub enum EditorAction {
    /// Nothing.
    Wait,
    /// Hide the window and leave.
    Finish,
    /// Ask for the window to be drawn.
    Redraw,
    /// Draw the window.
    Render,
    /// Copy the edited image.
    Copy,
    /// Copy the edited image and, if that succeeds, leave.
    CopyAndFinish,
    /// Let the pointer move the window.
    DragWindow,
}

/// The state of the window.
#[derive(Debug, Clone, PartialEq, Eq)]
pub struct EditorSession {
    pub image: EditorSessionImage,
    pub cursor: Option<PointerPosition>,
    pub control_pressed: bool,
    pub shift_pressed: bool,
    pub document: EditorDocument,
    pub active_tool: EditorTool,
    pub active_color: EditorColor,
    pub current_stroke: Option<Vec<EditorPoint>>,
    pub current_drag: Option<EditorDrag>,
}

/// The state of the window as a mathematical value.
pub struct SessionModel {
    pub image_size: EditorImageSize,
    pub cursor: Option<PointerPosition>,
    pub control_pressed: bool,
    pub shift_pressed: bool,
    pub document: DocumentModel,
    pub active_tool: EditorTool,
    pub active_color: EditorColor,
    pub current_stroke: Option<Seq<EditorPoint>>,
    pub current_drag: Option<EditorDrag>,
}

impl View for EditorSession {
    type V = SessionModel;

    open spec fn view(&self) -> SessionModel {
        SessionModel {
            image_size: EditorImageSize { width: self.image.width, height: self.image.height },
            cursor: self.cursor,
            control_pressed: self.control_pressed,
            shift_pressed: self.shift_pressed,
            document: self.document@,
            active_tool: self.active_tool,
            active_color: self.active_color,
            current_stroke: match self.current_stroke {
                Some(points) => Some(points@),
                None => None,
            },
            current_drag: self.current_drag,
        }
    }
}

// ---------------------------------------------------------------------------------------------
// The model
// ---------------------------------------------------------------------------------------------

/// The point of the image under the pointer.
pub open spec fn pointed(session: SessionModel, window: EditorImageSize, at: PointerPosition) -> Option<
    EditorPoint,
> {
    image_point(
        layout_of(
            window.width,
            window.height,
            session.image_size.width,
            session.image_size.height,
        ),
        at.x as int,
        at.y as int,
    )
}

/// The left button goes down: in the title bar it works a button or moves the window, on the image
/// it starts what the tool draws.
pub open spec fn left_pressed(session: SessionModel, window: Option<EditorImageSize>) -> (
    SessionModel,
    EditorAction,
) {
    match (session.cursor, window) {
        (Some(at), Some(size)) => if at.ceil_y <= TITLE_BAR_HEIGHT {
            if at.floor_x >= close_left(size.width) {
                (session, EditorAction::Finish)
            } else if at.floor_x >= copy_left(size.width) {
                (session, EditorAction::Copy)
            } else {
                (session, EditorAction::DragWindow)
            }
        } else {
            match pointed(session, size, at) {
                Some(point) => match session.active_tool {
                    EditorTool::Pen => (
                        SessionModel { current_stroke: Some(seq![point]), ..session },
                        EditorAction::Wait,
                    ),
                    EditorTool::Step => (
                        SessionModel {
                            document: with_next_step(session.document, point),
                            ..session
                        },
                        EditorAction::Redraw,
                    ),
                    tool => (
                        SessionModel {
                            current_drag: Some(EditorDrag { tool, start: point, end: point }),
                            ..session
                        },
                        EditorAction::Wait,
                    ),
                },
                None => (session, EditorAction::Wait),
            }
        },
        _ => (session, EditorAction::Wait),
    }
}

/// The document after the left button came up: a stroke of more than one point and a drag that went
/// somewhere leave an annotation behind.
pub open spec fn released_document(session: SessionModel) -> DocumentModel {
    let stroked = match session.current_stroke {
        Some(points) => if points.len() > 1 {
            with_annotation(
                session.document,
                AnnotationModel::Pen { points, color: session.active_color },
            )
        } else {
            session.document
        },
        None => session.document,
    };
    match session.current_drag {
        Some(drag) => if drag.start != constrained(
            drag.start,
            drag.end,
            session.shift_pressed,
        ) {
            match drag_annotation(drag, session.active_color, session.shift_pressed) {
                Some(annotation) => with_annotation(stroked, annotation),
                None => stroked,
            }
        } else {
            stroked
        },
        None => stroked,
    }
}

/// The left button comes up.
pub open spec fn left_released(session: SessionModel) -> SessionModel {
    SessionModel {
        document: released_document(session),
        current_stroke: None,
        current_drag: None,
        ..session
    }
}

/// The pointer moves: a stroke grows and a drag follows it.
pub open spec fn cursor_moved(
    session: SessionModel,
    window: Option<EditorImageSize>,
    at: PointerPosition,
) -> (SessionModel, EditorAction) {
    let moved = SessionModel { cursor: Some(at), ..session };
    match window {
        Some(size) => match pointed(session, size, at) {
            Some(point) => {
                let grows = session.current_stroke matches Some(points) && !(points.len() > 0
                    && points.last() == point);
                let follows = session.current_drag matches Some(drag) && drag.end != point;
                (
                    SessionModel {
                        current_stroke: if grows {
                            Some(session.current_stroke->0.push(point))
                        } else {
                            session.current_stroke
                        },
                        current_drag: if follows {
                            Some(EditorDrag { end: point, ..session.current_drag->0 })
                        } else {
                            session.current_drag
                        },
                        ..moved
                    },
                    if grows || follows {
                        EditorAction::Redraw
                    } else {
                        EditorAction::Wait
                    },
                )
            },
            None => (moved, EditorAction::Wait),
        },
        None => (moved, EditorAction::Wait),
    }
}

/// Whether a key is a single letter, in either case.
pub open spec fn is_letter(key: Seq<char>, letter: char) -> bool {
    key.len() == 1 && ascii_lower(key[0]) == letter
}

/// The action that asks for the window to be drawn, if there is one.
pub open spec fn redraw(window: Option<EditorImageSize>) -> EditorAction {
    if window is Some {
        EditorAction::Redraw
    } else {
        EditorAction::Wait
    }
}

/// A key goes down: escape leaves, control and C copies, control and Z undoes, and other keys pick
/// a tool or a colour.
pub open spec fn key_pressed(
    session: SessionModel,
    window: Option<EditorImageSize>,
    key: EditorKey,
) -> (SessionModel, EditorAction) {
    match key {
        EditorKey::Escape => (session, EditorAction::Finish),
        EditorKey::Character(text) => if session.control_pressed && is_letter(text@, 'c') {
            (session, EditorAction::CopyAndFinish)
        } else if session.control_pressed && is_letter(text@, 'z') {
            (
                SessionModel { document: undone(session.document), ..session },
                if session.document.history.len() > 0 {
                    redraw(window)
                } else {
                    EditorAction::Wait
                },
            )
        } else if text@.len() == 0 {
            (session, EditorAction::Wait)
        } else {
            match (tool_of_shortcut(text@[0]), color_of_shortcut(text@[0])) {
                (Some(tool), _) => (
                    SessionModel {
                        active_tool: tool,
                        document: DocumentModel { active_tool: tool, ..session.document },
                        ..session
                    },
                    redraw(window),
                ),
                (None, Some(color)) => (
                    SessionModel {
                        active_color: color,
                        document: DocumentModel { active_color: color, ..session.document },
                        ..session
                    },
                    redraw(window),
                ),
                (None, None) => (session, EditorAction::Wait),
            }
        },
        EditorKey::Other => (session, EditorAction::Wait),
    }
}

/// The state after an event, and what is to be done outside.
pub open spec fn session_step(
    session: SessionModel,
    window: Option<EditorImageSize>,
    event: EditorEvent,
) -> (SessionModel, EditorAction) {
    match event {
        EditorEvent::CloseRequested => (session, EditorAction::Finish),
        EditorEvent::CursorMoved(at) => cursor_moved(session, window, at),
        EditorEvent::LeftPressed => left_pressed(session, window),
        EditorEvent::LeftReleased => (left_released(session), redraw(window)),
        EditorEvent::KeyPressed(key) => key_pressed(session, window, key),
        EditorEvent::ModifiersChanged { control, shift } => (
            SessionModel { control_pressed: control, shift_pressed: shift, ..session },
            EditorAction::Wait,
        ),
        EditorEvent::RedrawRequested => (session, EditorAction::Render),
        EditorEvent::Resized => (session, redraw(window)),
        EditorEvent::Other => (session, EditorAction::Wait),
    }
}

/// Whether the tool and the colour of the window are those of the document.
pub open spec fn in_step(session: SessionModel) -> bool {
    &&& session.active_tool == session.document.active_tool
    &&& session.active_color == session.document.active_color
}

/// The window and the document never disagree on the tool and the colour in use.
pub proof fn law_tool_and_color_stay_in_step(
    session: SessionModel,
    window: Option<EditorImageSize>,
    event: EditorEvent,
)
    requires
        in_step(session),
    ensures
        in_step(session_step(session, window, event).0),
{
}

/// No event but a release, a press with the step tool and an undo changes the annotations.
pub proof fn law_only_edits_change_annotations(
    session: SessionModel,
    window: Option<EditorImageSize>,
    event: EditorEvent,
)
    requires
        !(event is LeftReleased),
        !(event is LeftPressed && session.active_tool is Step),
        !(event matches EditorEvent::KeyPressed(EditorKey::Character(text))
            && session.control_pressed && is_letter(text@, 'z')),
    ensures
        session_step(session, window, event).0.document.annotations
            == session.document.annotations,
{
}

/// The events of a drag across the canvas: the pointer comes to one position, the button is
/// pressed, the pointer moves to another position, and the button is released.
pub open spec fn dragged(
    session: SessionModel,
    window: EditorImageSize,
    from: PointerPosition,
    to: PointerPosition,
) -> SessionModel {
    let shown = Some(window);
    let come = session_step(session, shown, EditorEvent::CursorMoved(from)).0;
    let pressed = session_step(come, shown, EditorEvent::LeftPressed).0;
    let moved = session_step(pressed, shown, EditorEvent::CursorMoved(to)).0;
    session_step(moved, shown, EditorEvent::LeftReleased).0
}

/// A drag with one of the tools that drag adds one annotation, in the active colour, from the point
/// of the image under the pointer at its start to the one under it at its end, or with shift held to
/// where the constrained drag ends. A drag that ends where it began adds none.
pub proof fn law_drag_adds_its_annotation(
    session: SessionModel,
    window: EditorImageSize,
    from: PointerPosition,
    to: PointerPosition,
    start: EditorPoint,
    end: EditorPoint,
)
    requires
        session.current_stroke is None,
        session.current_drag is None,
        from.ceil_y > TITLE_BAR_HEIGHT,
        pointed(session, window, from) == Some(start),
        pointed(session, window, to) == Some(end),
    ensures
        ({
            let after = dragged(session, window, from, to);
            let before = session.document.annotations;
            let drawn = after.document.annotations;
            let last = constrained(start, end, session.shift_pressed);
            let color = session.active_color;
            &&& after.current_stroke is None && after.current_drag is None
            &&& session.active_tool is Arrow && start != last ==> drawn == before.push(
                AnnotationModel::Arrow { start, end: last, color },
            )
            &&& session.active_tool is Line && start != last ==> drawn == before.push(
                AnnotationModel::Line { start, end: last, color },
            )
            &&& session.active_tool is Rectangle && start != last ==> {
                &&& drawn.len() == before.len() + 1 && drawn.drop_last() == before
                &&& drawn.last() matches AnnotationModel::Rectangle { rect, color: c }
                &&& c == color && spans(rect, start, last)
            }
            &&& session.active_tool is Redact && start != last ==> {
                &&& drawn.len() == before.len() + 1 && drawn.drop_last() == before
                &&& drawn.last() matches AnnotationModel::Redact { rect }
                &&& spans(rect, start, last)
            }
            &&& !(session.active_tool is Pen) && !(session.active_tool is Step) && start == last
                ==> drawn == before
            &&& session.active_tool is Pen && start != end ==> drawn == before.push(
                AnnotationModel::Pen { points: seq![start, end], color },
            )
            &&& session.active_tool is Pen && start == end ==> drawn == before
            &&& session.active_tool is Step ==> drawn == before.push(
                AnnotationModel::Step {
                    center: start,
                    number: session.document.next_step_number,
                    color: session.document.active_color,
                },
            )
        }),
{
    let after = dragged(session, window, from, to);
    let before = session.document.annotations;
    law_unfinished_drag_shows_its_annotation(
        EditorDrag { tool: session.active_tool, start, end },
        session.active_color,
        session.shift_pressed,
    );
    assert(seq![start].push(end) =~= seq![start, end]);
    if after.document.annotations.len() > before.len() {
        assert(after.document.annotations.drop_last() =~= before);
    }
}

/// While the button is down, every move of the pointer over the image is followed: a stroke gains
/// the point under the pointer, unless it ends there already, and a drag ends at it. Moves outside
/// the image, and moves while nothing is being drawn, draw nothing.
pub proof fn law_moves_are_followed(
    session: SessionModel,
    window: EditorImageSize,
    at: PointerPosition,
)
    ensures
        ({
            let (after, action) = session_step(
                session,
                Some(window),
                EditorEvent::CursorMoved(at),
            );
            let point = pointed(session, window, at);
            &&& after.cursor == Some(at)
            &&& after.document == session.document
            &&& point is None ==> after.current_stroke == session.current_stroke
                && after.current_drag == session.current_drag && action is Wait
            &&& session.current_stroke matches Some(points) ==> (point matches Some(p) ==> {
                let same = points.len() > 0 && points.last() == p;
                &&& after.current_stroke matches Some(grown)
                &&& same ==> grown == points
                &&& !same ==> grown.len() == points.len() + 1 && grown.last() == p
                    && grown.drop_last() == points && action is Redraw
            })
            &&& session.current_drag matches Some(drag) ==> (point matches Some(p) ==> {
                &&& after.current_drag matches Some(moved)
                &&& moved.start == drag.start && moved.tool == drag.tool && moved.end == p
                &&& drag.end != p ==> action is Redraw
            })
            &&& session.current_stroke is None ==> after.current_stroke is None
            &&& session.current_drag is None ==> after.current_drag is None
        }),
{
    if let Some(points) = session.current_stroke {
        if let Some(p) = pointed(session, window, at) {
            assert(points.push(p).drop_last() =~= points);
        }
    }
}

/// With control held, z takes the last drag back: the annotations are those from before it.
pub proof fn law_undo_key_takes_a_drag_back(
    session: SessionModel,
    window: EditorImageSize,
    from: PointerPosition,
    to: PointerPosition,
    start: EditorPoint,
    end: EditorPoint,
    key: String,
)
    requires
        session.current_stroke is None,
        session.current_drag is None,
        session.control_pressed,
        from.ceil_y > TITLE_BAR_HEIGHT,
        pointed(session, window, from) == Some(start),
        pointed(session, window, to) == Some(end),
        start != end,
        !session.shift_pressed,
        key@ == seq!['z'] || key@ == seq!['Z'],
    ensures
        session_step(
            dragged(session, window, from, to),
            Some(window),
            EditorEvent::KeyPressed(EditorKey::Character(key)),
        ).0.document == session.document,
{
    let after = dragged(session, window, from, to);
    law_unfinished_drag_shows_its_annotation(
        EditorDrag { tool: session.active_tool, start, end },
        session.active_color,
        false,
    );
    assert(after.document.history.drop_last() =~= session.document.history);
    assert(after.document.history.len() > 0);
}

/// A press on the title bar does what the window shows there: on the button at the right it ends
/// the editing, on the one beside it it copies, and elsewhere it moves the window. It edits nothing.
pub proof fn law_title_bar_buttons_do_what_they_show(
    session: SessionModel,
    window: EditorImageSize,
    at: PointerPosition,
)
    requires
        session.cursor == Some(at),
        at.ceil_y <= TITLE_BAR_HEIGHT,
        0 <= at.floor_x < window.width,
    ensures
        ({
            let (after, action) = session_step(session, Some(window), EditorEvent::LeftPressed);
            let steps = title_bar(window.width, window.height);
            &&& after == session
            &&& steps[1] matches DrawStep::Rect { x: copy_x, width: copy_width, .. }
            &&& steps[2] matches DrawStep::Rect { x: close_x, width: close_width, .. }
            &&& close_x <= at.floor_x < close_x + close_width ==> action is Finish
            &&& copy_x <= at.floor_x < copy_x + copy_width && at.floor_x < close_x ==> action is Copy
            &&& at.floor_x < copy_x ==> action is DragWindow
            &&& window.width >= 136 ==> close_x + close_width == window.width && copy_x + copy_width
                == close_x && close_width == 44 && copy_width == 92
        }),
{
}

/// Escape ends the editing, and with control held c copies and ends it; neither edits anything.
pub proof fn law_keys_end_the_editing(
    session: SessionModel,
    window: Option<EditorImageSize>,
    key: String,
)
    ensures
        session_step(session, window, EditorEvent::KeyPressed(EditorKey::Escape)) == (
            session,
            EditorAction::Finish,
        ),
        session.control_pressed && (key@ == seq!['c'] || key@ == seq!['C']) ==> session_step(
            session,
            window,
            EditorEvent::KeyPressed(EditorKey::Character(key)),
        ) == (session, EditorAction::CopyAndFinish),
{
}

// ---------------------------------------------------------------------------------------------
// The window
// ---------------------------------------------------------------------------------------------

impl EditorSession {
    /// The state of a window that shows an image.
    pub fn new(image: EditorSessionImage) -> (r: Self)
        ensures
            r.image == image,
            r@ == (SessionModel {
                image_size: EditorImageSize { width: image.width, height: image.height },
                cursor: None,
                control_pressed: false,
                shift_pressed: false,
                document: DocumentModel {
                    image_size: EditorImageSize { width: image.width, height: image.height },
                    annotations: Seq::empty(),
                    active_tool: EditorTool::Pen,
                    active_color: EditorColor::Red,
                    next_step_number: 1,
                    history: Seq::empty(),
                },
                active_tool: EditorTool::Pen,
                active_color: EditorColor::Red,
                current_stroke: None,
                current_drag: None,
            }),
            in_step(r@),
    {
        let document = EditorDocument::new(image.image_size());
        EditorSession {
            image,
            cursor: None,
            control_pressed: false,
            shift_pressed: false,
            document,
            active_tool: EditorTool::default(),
            active_color: EditorColor::default(),
            current_stroke: None,
            current_drag: None,
        }
    }

    /// Takes an event in and tells what is to be done outside. `window` is the size of the window,
    /// if there is one.
    pub fn window_event(&mut self, window: Option<EditorImageSize>, event: EditorEvent) -> (r:
        EditorAction)
        ensures
            (final(self)@, r) == session_step(old(self)@, window, event),
            final(self).image == old(self).image,
    {
        match event {
            EditorEvent::CloseRequested => EditorAction::Finish,
            EditorEvent::CursorMoved(at) => {
                self.cursor = Some(at);
                self.update_current_drag(window, at)
            },
            EditorEvent::LeftPressed => self.handle_left_press(window),
            EditorEvent::LeftReleased => {
                self.handle_left_release();
                Self::redraw_action(window)
            },
            EditorEvent::KeyPressed(key) => self.handle_key(window, key),
            EditorEvent::ModifiersChanged { control, shift } => {
                self.control_pressed = control;
                self.shift_pressed = shift;
                EditorAction::Wait
            },
            EditorEvent::RedrawRequested => EditorAction::Render,
            EditorEvent::Resized => Self::redraw_action(window),
            EditorEvent::Other => EditorAction::Wait,
        }
    }

    fn redraw_action(window: Option<EditorImageSize>) -> (r: EditorAction)
        ensures
            r == redraw(window),
    {
        match window {
            Some(_) => EditorAction::Redraw,
            None => EditorAction::Wait,
        }
    }

    fn handle_left_press(&mut self, window: Option<EditorImageSize>) -> (r: EditorAction)
        ensures
            (final(self)@, r) == left_pressed(old(self)@, window),
            final(self).image == old(self).image,
    {
        let at = match self.cursor {
            Some(at) => at,
            None => {
                return EditorAction::Wait;
            },
        };
        let size = match window {
            Some(size) => size,
            None => {
                return EditorAction::Wait;
            },
        };
        if at.ceil_y <= TITLE_BAR_HEIGHT as i64 {
            let close_at = size.width.saturating_sub(CLOSE_BUTTON_WIDTH);
            let copy_at = close_at.saturating_sub(COPY_BUTTON_WIDTH);
            if at.floor_x >= close_at as i64 {
                return EditorAction::Finish;
            }
            if at.floor_x >= copy_at as i64 {
                return EditorAction::Copy;
            }
            return EditorAction::DragWindow;
        }
        let layout = canvas_layout(size.width, size.height, self.image.width, self.image.height);
        match layout.image_point_from_window_position(at.x, at.y) {
            Some(point) => {
                match self.active_tool {
                    EditorTool::Pen => {
                        let mut points: Vec<EditorPoint> = Vec::new();
                        points.push(point);
                        assert(points@ =~= seq![point]);
                        self.current_stroke = Some(points);
                        EditorAction::Wait
                    },
                    EditorTool::Step => {
                        self.document.push_next_step(point);
                        EditorAction::Redraw
                    },
                    tool => {
                        self.current_drag = Some(EditorDrag { tool, start: point, end: point });
                        EditorAction::Wait
                    },
                }
            },
            None => EditorAction::Wait,
        }
    }

    fn handle_left_release(&mut self)
        ensures
            final(self)@ == left_released(old(self)@),
            final(self).image == old(self).image,
    {
        let color = self.active_color;
        if let Some(points) = self.current_stroke.take() {
            if points.len() > 1 {
                self.document.push_annotation(EditorAnnotation::Pen { points, color });
            }
        }
        if let Some(drag) = self.current_drag.take() {
            let end = constrain_point_if_shift(drag.start, drag.end, self.shift_pressed);
            if drag.start != end {
                if let Some(annotation) = annotation_of_drag(drag, color, self.shift_pressed) {
                    self.document.push_annotation(annotation);
                }
            }
        }
    }

    fn update_current_drag(&mut self, window: Option<EditorImageSize>, at: PointerPosition) -> (r:
        EditorAction)
        requires
            old(self).cursor == Some(at),
        ensures
            (final(self)@, r) == cursor_moved(old(self)@, window, at),
            final(self).image == old(self).image,
    {
        let size = match window {
            Some(size) => size,
            None => {
                return EditorAction::Wait;
            },
        };
        let layout = canvas_layout(size.width, size.height, self.image.width, self.image.height);
        let point = match layout.image_point_from_window_position(at.x, at.y) {
            Some(point) => point,
            None => {
                return EditorAction::Wait;
            },
        };
        let mut action = EditorAction::Wait;
        if let Some(stroke) = self.current_stroke.take() {
            let mut points = stroke;
            let count = points.len();
            if count == 0 || points[count - 1] != point {
                points.push(point);
                action = EditorAction::Redraw;
            }
            self.current_stroke = Some(points);
        }
        if let Some(drag) = self.current_drag {
            if drag.end != point {
                self.current_drag = Some(
                    EditorDrag { tool: drag.tool, start: drag.start, end: point },
                );
                action = EditorAction::Redraw;
            }
        }
        action
    }

    fn handle_key(&mut self, window: Option<EditorImageSize>, key: EditorKey) -> (r: EditorAction)
        ensures
            (final(self)@, r) == key_pressed(old(self)@, window, key),
            final(self).image == old(self).image,
    {
        let text = match key {
            EditorKey::Escape => {
                return EditorAction::Finish;
            },
            EditorKey::Other => {
                return EditorAction::Wait;
            },
            EditorKey::Character(text) => text,
        };
        let characters = chars_of(text.as_str());
        if characters.len() == 0 {
            return EditorAction::Wait;
        }
        let first = characters[0];
        let single = characters.len() == 1;
        if self.control_pressed && single && to_ascii_lower(first) == 'c' {
            return EditorAction::CopyAndFinish;
        }
        if self.control_pressed && single && to_ascii_lower(first) == 'z' {
            if self.document.undo() {
                return Self::redraw_action(window);
            }
            return EditorAction::Wait;
        }
        if let Some(tool) = EditorTool::from_shortcut(first) {
            self.active_tool = tool;
            self.document.set_active_tool(tool);
            return Self::redraw_action(window);
        }
        if let Some(color) = EditorColor::from_shortcut(first) {
            self.active_color = color;
            self.document.set_active_color(color);
            return Self::redraw_action(window);
        }
        EditorAction::Wait
    }
}

/// The notice that the edited image was copied.
pub fn copied_notice() -> (r: Toast)
    ensures
        r@ == (ToastModel {
            title: "RSnip"@,
            message: "✔  Editado y copiado al portapapeles"@,
            kind: ToastKind::Info,
            action: ToastActionModel::Nothing,
        }),
{
    show_simple_toast_async(
        "RSnip",
        "✔  Editado y copiado al portapapeles".to_owned(),
        ToastKind::Info,
    )
}

/// What is left to do once the edited image was copied or not.
pub fn after_copy(action: EditorAction, copied: bool) -> (r: EditorAction)
    ensures
        r == if action is CopyAndFinish && copied {
            EditorAction::Finish
        } else {
            EditorAction::Wait
        },
{
    match action {
        EditorAction::CopyAndFinish => if copied {
            EditorAction::Finish
        } else {
            EditorAction::Wait
        },
        _ => EditorAction::Wait,
    }
}

} // verus!
