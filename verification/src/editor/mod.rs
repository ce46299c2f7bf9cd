//! The annotation editor: its document, its tools and how it is drawn.
pub mod compose;
pub mod history;
pub mod render;
pub mod session;
pub mod surface;
pub mod tools;

use crate::editor::history::{EditHistory, SnapshotModel};
use crate::editor::tools::{EditorColor, EditorTool};
use crate::errors::{is_message, RsnipError};
use crate::images::{
    decoded, largest_image, names_no_format, names_png, png_decoding, png_file, png_of_image,
    png_signature, read_image, unknown_format_text, yields_bytes, DecodedModel, PngPurpose,
};
use crate::math::{max_int, min_int, sat_u32};
use crate::pixels::{swap_channels, swapped_channels};
use crate::screen::capture::{dimension_error, CapturedImage};
use crate::text::{append_u64, decimal};
use vstd::prelude::*;

verus! {

/// The size of an image.
#[derive(Debug, Clone, Copy, PartialEq, Eq, Structural)]
pub struct EditorImageSize {
    pub width: u32,
    pub height: u32,
}

impl EditorImageSize {
    /// A size.
    pub fn new(width: u32, height: u32) -> (r: Self)
        ensures
            r == (EditorImageSize { width, height }),
    {
        EditorImageSize { width, height }
    }
}

/// A point of the image.
#[derive(Debug, Clone, Copy, PartialEq, Eq, Structural)]
pub struct EditorPoint {
    pub x: i32,
    pub y: i32,
}

impl EditorPoint {
    /// A point.
    pub fn new(x: i32, y: i32) -> (r: Self)
        ensures
            r == (EditorPoint { x, y }),
    {
        EditorPoint { x, y }
    }
}

/// A rectangle of the image.
#[derive(Debug, Clone, Copy, PartialEq, Eq, Structural)]
pub struct EditorRect {
    pub x: i32,
    pub y: i32,
    pub width: u32,
    pub height: u32,
}

/// The rectangle between two points.
pub open spec fn rect_of_points(start: EditorPoint, end: EditorPoint) -> EditorRect {
    EditorRect {
        x: min_int(start.x as int, end.x as int) as i32,
        y: min_int(start.y as int, end.y as int) as i32,
        width: (max_int(start.x as int, end.x as int) - min_int(
            start.x as int,
            end.x as int,
        )) as u32,
        height: (max_int(start.y as int, end.y as int) - min_int(
            start.y as int,
            end.y as int,
        )) as u32,
    }
}

/// It does not matter from which corner a rectangle is drawn.
pub proof fn law_rect_of_points_is_symmetric(start: EditorPoint, end: EditorPoint)
    ensures
        rect_of_points(start, end) == rect_of_points(end, start),
{
}

impl EditorRect {
    /// The rectangle between two points, whichever comes first.
    pub fn from_points(start: EditorPoint, end: EditorPoint) -> (r: Self)
        ensures
            r == rect_of_points(start, end),
            r.x <= start.x && r.x <= end.x && r.y <= start.y && r.y <= end.y,
            r.x + r.width == max_int(start.x as int, end.x as int),
            r.y + r.height == max_int(start.y as int, end.y as int),
    {
        let left = start.x.min(end.x);
        let top = start.y.min(end.y);
        let right = start.x.max(end.x);
        let bottom = start.y.max(end.y);
        EditorRect {
            x: left,
            y: top,
            width: (right as i64 - left as i64) as u32,
            height: (bottom as i64 - top as i64) as u32,
        }
    }
}

/// Something drawn on the image.
#[derive(Debug, Clone, PartialEq, Eq)]
pub enum EditorAnnotation {
    Pen { points: Vec<EditorPoint>, color: EditorColor },
    Arrow { start: EditorPoint, end: EditorPoint, color: EditorColor },
    Line { start: EditorPoint, end: EditorPoint, color: EditorColor },
    Rectangle { rect: EditorRect, color: EditorColor },
    Redact { rect: EditorRect },
    Step { center: EditorPoint, number: u32, color: EditorColor },
}

/// Something drawn on the image, as a mathematical value.
pub enum AnnotationModel {
    Pen { points: Seq<EditorPoint>, color: EditorColor },
    Arrow { start: EditorPoint, end: EditorPoint, color: EditorColor },
    Line { start: EditorPoint, end: EditorPoint, color: EditorColor },
    Rectangle { rect: EditorRect, color: EditorColor },
    Redact { rect: EditorRect },
    Step { center: EditorPoint, number: u32, color: EditorColor },
}

impl View for EditorAnnotation {
    type V = AnnotationModel;

    open spec fn view(&self) -> AnnotationModel {
        match *self {
            EditorAnnotation::Pen { points, color } => AnnotationModel::Pen {
                points: points@,
                color,
            },
            EditorAnnotation::Arrow { start, end, color } => AnnotationModel::Arrow {
                start,
                end,
                color,
            },
            EditorAnnotation::Line { start, end, color } => AnnotationModel::Line {
                start,
                end,
                color,
            },
            EditorAnnotation::Rectangle { rect, color } => AnnotationModel::Rectangle {
                rect,
                color,
            },
            EditorAnnotation::Redact { rect } => AnnotationModel::Redact { rect },
            EditorAnnotation::Step { center, number, color } => AnnotationModel::Step {
                center,
                number,
                color,
            },
        }
    }
}

/// The models of a list of annotations.
pub open spec fn annotation_models(annotations: Seq<EditorAnnotation>) -> Seq<AnnotationModel> {
    Seq::new(annotations.len(), |i: int| annotations[i]@)
}

/// Copies the points of a stroke.
fn copy_points(points: &Vec<EditorPoint>) -> (r: Vec<EditorPoint>)
    ensures
        r@ == points@,
{
    let mut copy: Vec<EditorPoint> = Vec::new();
    let mut i: usize = 0;
    while i < points.len()
        invariant
            i <= points@.len(),
            copy@ == points@.take(i as int),
        decreases points@.len() - i,
    {
        copy.push(points[i]);
        i += 1;
        assert(copy@ =~= points@.take(i as int));
    }
    assert(points@.take(i as int) =~= points@);
    copy
}

/// Copies an annotation.
pub fn copy_annotation(annotation: &EditorAnnotation) -> (r: EditorAnnotation)
    ensures
        r@ == annotation@,
{
    match annotation {
        EditorAnnotation::Pen { points, color } => EditorAnnotation::Pen {
            points: copy_points(points),
            color: *color,
        },
        EditorAnnotation::Arrow { start, end, color } => EditorAnnotation::Arrow {
            start: *start,
            end: *end,
            color: *color,
        },
        EditorAnnotation::Line { start, end, color } => EditorAnnotation::Line {
            start: *start,
            end: *end,
            color: *color,
        },
        EditorAnnotation::Rectangle { rect, color } => EditorAnnotation::Rectangle {
            rect: *rect,
            color: *color,
        },
        EditorAnnotation::Redact { rect } => EditorAnnotation::Redact { rect: *rect },
        EditorAnnotation::Step { center, number, color } => EditorAnnotation::Step {
            center: *center,
            number: *number,
            color: *color,
        },
    }
}

/// Copies a list of annotations.
pub fn copy_annotations(annotations: &[EditorAnnotation]) -> (r: Vec<EditorAnnotation>)
    ensures
        annotation_models(r@) == annotation_models(annotations@),
{
    let mut copy: Vec<EditorAnnotation> = Vec::new();
    let mut i: usize = 0;
    while i < annotations.len()
        invariant
            i <= annotations@.len(),
            copy@.len() == i,
            forall|k: int| 0 <= k < i ==> #[trigger] copy@[k]@ == annotations@[k]@,
        decreases annotations@.len() - i,
    {
        copy.push(copy_annotation(&annotations[i]));
        i += 1;
    }
    assert(annotation_models(copy@) =~= annotation_models(annotations@));
    copy
}

/// What is edited: the annotations on an image, the tool and the colour in use, the number of the
/// next step mark, and the states to go back to.
#[derive(Debug, Clone, PartialEq, Eq)]
pub struct EditorDocument {
    image_size: EditorImageSize,
    annotations: Vec<EditorAnnotation>,
    active_tool: EditorTool,
    active_color: EditorColor,
    next_step_number: u32,
    history: EditHistory,
}

/// A document as a mathematical value.
pub struct DocumentModel {
    pub image_size: EditorImageSize,
    pub annotations: Seq<AnnotationModel>,
    pub active_tool: EditorTool,
    pub active_color: EditorColor,
    pub next_step_number: u32,
    pub history: Seq<SnapshotModel>,
}

impl View for EditorDocument {
    type V = DocumentModel;

    closed spec fn view(&self) -> DocumentModel {
        DocumentModel {
            image_size: self.image_size,
            annotations: annotation_models(self.annotations@),
            active_tool: self.active_tool,
            active_color: self.active_color,
            next_step_number: self.next_step_number,
            history: self.history@,
        }
    }
}

/// A document to which an annotation has been added: the state before can be gone back to, and a
/// step mark moves the count beyond its number.
pub open spec fn with_annotation(document: DocumentModel, annotation: AnnotationModel) -> DocumentModel {
    DocumentModel {
        annotations: document.annotations.push(annotation),
        next_step_number: match annotation {
            AnnotationModel::Step { number, .. } => max_int(
                document.next_step_number as int,
                sat_u32(number + 1),
            ) as u32,
            _ => document.next_step_number,
        },
        history: document.history.push(
            SnapshotModel {
                annotations: document.annotations,
                next_step_number: document.next_step_number,
            },
        ),
        ..document
    }
}

/// A document to which the next step mark has been added.
pub open spec fn with_next_step(document: DocumentModel, center: EditorPoint) -> DocumentModel {
    with_annotation(
        document,
        AnnotationModel::Step {
            center,
            number: document.next_step_number,
            color: document.active_color,
        },
    )
}

/// A document whose last edit has been undone; without a state to go back to it stays as it is.
pub open spec fn undone(document: DocumentModel) -> DocumentModel {
    if document.history.len() > 0 {
        DocumentModel {
            annotations: document.history.last().annotations,
            next_step_number: document.history.last().next_step_number,
            history: document.history.drop_last(),
            ..document
        }
    } else {
        document
    }
}

/// An annotation is added behind the others, which stay as they are; the number for the next step
/// never goes back, and is beyond that of every step that was added, as long as the count does not
/// reach its end.
pub proof fn law_annotations_are_added_behind(document: DocumentModel, annotation: AnnotationModel)
    ensures
        with_annotation(document, annotation).annotations.drop_last() == document.annotations,
        with_annotation(document, annotation).annotations.last() == annotation,
        with_annotation(document, annotation).next_step_number >= document.next_step_number,
        annotation matches AnnotationModel::Step { number, .. } ==> (number < u32::MAX
            ==> with_annotation(document, annotation).next_step_number > number),
        !(annotation is Step) ==> with_annotation(document, annotation).next_step_number
            == document.next_step_number,
        with_annotation(document, annotation).active_tool == document.active_tool,
        with_annotation(document, annotation).active_color == document.active_color,
        with_annotation(document, annotation).image_size == document.image_size,
{
    assert(with_annotation(document, annotation).annotations.drop_last() =~= document.annotations);
}

/// Undoing right after adding an annotation gives back the document as it was.
pub proof fn law_undo_reverts_annotation(document: DocumentModel, annotation: AnnotationModel)
    ensures
        undone(with_annotation(document, annotation)) == document,
{
    assert(with_annotation(document, annotation).history.drop_last() =~= document.history);
}

/// Where there is nothing to undo, an undo changes nothing; and no undo changes the tool, the colour
/// or the size of the image.
pub proof fn law_undo_changes_annotations_only(document: DocumentModel)
    ensures
        document.history.len() == 0 ==> undone(document) == document,
        document.history.len() > 0 ==> undone(document).history.len() == document.history.len() - 1,
        undone(document).active_tool == document.active_tool,
        undone(document).active_color == document.active_color,
        undone(document).image_size == document.image_size,
{
}

/// A document to which a list of annotations has been added, one after the other.
pub open spec fn with_annotations(document: DocumentModel, added: Seq<AnnotationModel>) -> DocumentModel
    decreases added.len(),
{
    if added.len() == 0 {
        document
    } else {
        with_annotation(with_annotations(document, added.drop_last()), added.last())
    }
}

/// A document after `count` undos.
pub open spec fn undone_times(document: DocumentModel, count: nat) -> DocumentModel
    decreases count,
{
    if count == 0 {
        document
    } else {
        undone_times(undone(document), (count - 1) as nat)
    }
}

/// As many undos as annotations were added give back the document as it was.
pub proof fn law_undos_revert_annotations(document: DocumentModel, added: Seq<AnnotationModel>)
    ensures
        undone_times(with_annotations(document, added), added.len()) == document,
    decreases added.len(),
{
    if added.len() > 0 {
        law_undo_reverts_annotation(with_annotations(document, added.drop_last()), added.last());
        law_undos_revert_annotations(document, added.drop_last());
    }
}

/// Step marks that are added one after the other are numbered one after the other, as long as the
/// count does not reach its end.
pub proof fn law_steps_are_numbered_in_order(document: DocumentModel, center: EditorPoint)
    requires
        document.next_step_number < u32::MAX,
    ensures
        with_next_step(document, center).next_step_number == document.next_step_number + 1,
        with_next_step(document, center).annotations.last() == (AnnotationModel::Step {
            center,
            number: document.next_step_number,
            color: document.active_color,
        }),
{
}

impl EditorDocument {
    /// A document without annotations.
    pub fn new(image_size: EditorImageSize) -> (r: Self)
        ensures
            r@ == (DocumentModel {
                image_size,
                annotations: Seq::empty(),
                active_tool: EditorTool::Pen,
                active_color: EditorColor::Red,
                next_step_number: 1,
                history: Seq::empty(),
            }),
    {
        let document = EditorDocument {
            image_size,
            annotations: Vec::new(),
            active_tool: EditorTool::default(),
            active_color: EditorColor::default(),
            next_step_number: 1,
            history: EditHistory::default(),
        };
        assert(document@.annotations =~= Seq::empty());
        document
    }

    /// The size of the image.
    pub fn image_size(&self) -> (r: EditorImageSize)
        ensures
            r == self@.image_size,
    {
        self.image_size
    }

    /// The annotations, the latest one last.
    pub fn annotations(&self) -> (r: &[EditorAnnotation])
        ensures
            annotation_models(r@) == self@.annotations,
    {
        self.annotations.as_slice()
    }

    /// The tool in use.
    pub fn active_tool(&self) -> (r: EditorTool)
        ensures
            r == self@.active_tool,
    {
        self.active_tool
    }

    /// Picks a tool.
    pub fn set_active_tool(&mut self, tool: EditorTool)
        ensures
            final(self)@ == (DocumentModel { active_tool: tool, ..old(self)@ }),
    {
        self.active_tool = tool;
    }

    /// The colour in use.
    pub fn active_color(&self) -> (r: EditorColor)
        ensures
            r == self@.active_color,
    {
        self.active_color
    }

    /// Picks a colour.
    pub fn set_active_color(&mut self, color: EditorColor)
        ensures
            final(self)@ == (DocumentModel { active_color: color, ..old(self)@ }),
    {
        self.active_color = color;
    }

    /// The number of the next step mark.
    pub fn next_step_number(&self) -> (r: u32)
        ensures
            r == self@.next_step_number,
    {
        self.next_step_number
    }

    /// Whether there is an edit to undo.
    pub fn can_undo(&self) -> (r: bool)
        ensures
            r == (self@.history.len() > 0),
    {
        self.history.can_undo()
    }

    /// Adds an annotation.
    pub fn push_annotation(&mut self, annotation: EditorAnnotation)
        ensures
            final(self)@ == with_annotation(old(self)@, annotation@),
    {
        self.history.push(self.annotations.as_slice(), self.next_step_number);
        if let EditorAnnotation::Step { number, .. } = &annotation {
            let next: u32 = number.saturating_add(1);
            self.next_step_number = self.next_step_number.max(next);
        }
        self.annotations.push(annotation);
        assert(self@.annotations =~= old(self)@.annotations.push(annotation@));
    }

    /// Adds the next step mark in the colour in use.
    pub fn push_next_step(&mut self, center: EditorPoint)
        ensures
            final(self)@ == with_next_step(old(self)@, center),
    {
        let number = self.next_step_number;
        let color = self.active_color;
        self.push_annotation(EditorAnnotation::Step { center, number, color });
    }

    /// Undoes the last edit and tells whether there was one.
    pub fn undo(&mut self) -> (r: bool)
        ensures
            r == (old(self)@.history.len() > 0),
            final(self)@ == undone(old(self)@),
    {
        match self.history.undo() {
            Some((annotations, next_step_number)) => {
                self.annotations = annotations;
                self.next_step_number = next_step_number;
                true
            },
            None => false,
        }
    }
}

/// The image that is edited: rows from top to bottom, four bytes a pixel.
#[derive(Debug, Clone, PartialEq, Eq)]
pub struct EditorSessionImage {
    pub width: u32,
    pub height: u32,
    pub rgba: Vec<u8>,
}

/// What is edited, or why there is nothing to edit, given what decoding its file gave.
pub open spec fn session_image_is(
    r: Result<EditorSessionImage, RsnipError>,
    decoding: Result<DecodedModel, Seq<char>>,
) -> bool {
    match (decoding, r) {
        (Ok(model), Ok(image)) => image.width == model.width && image.height == model.height
            && image.rgba@ == model.rgba,
        (Err(cause), Err(error)) => is_message(error, "failed to load editor PNG: "@ + cause),
        _ => false,
    }
}

/// Takes what decoding a file gave as the image to edit.
pub fn session_image_of_decoding(decoding: Result<(u32, u32, Vec<u8>), String>) -> (r: Result<
    EditorSessionImage,
    RsnipError,
>)
    ensures
        session_image_is(r, decoded(decoding)),
{
    match decoding {
        Ok((width, height, rgba)) => Ok(EditorSessionImage { width, height, rgba }),
        Err(cause) => {
            let mut message = "failed to load editor PNG: ".to_owned();
            message.append(cause.as_str());
            Err(RsnipError::Message(message))
        },
    }
}

/// Writes the file that hands a captured image to the editor.
pub fn save_editor_input_png(image: &CapturedImage) -> (r: Result<Vec<u8>, RsnipError>)
    ensures
        yields_bytes(r, png_of_image(PngPurpose::Editor, *image)),
        r matches Ok(png) ==> png@.len() >= 8 && png@.take(8) == png_signature(),
{
    png_file(image, PngPurpose::Editor)
}

/// Whether the editor opens the captured image that was saved for it, or refuses it where that is
/// too large, where the bytes are its file.
pub open spec fn opens_saved_capture(
    path: Seq<char>,
    bytes: Seq<u8>,
    r: Result<EditorSessionImage, RsnipError>,
) -> bool {
    forall|image: CapturedImage|
        #![trigger png_of_image(PngPurpose::Editor, image)]
        names_png(path) && image.wf() && png_of_image(PngPurpose::Editor, image) == Ok::<
            Seq<u8>,
            Seq<char>,
        >(bytes) ==> if image.bgra@.len() <= largest_image() {
            &&& r matches Ok(opened)
            &&& opened.width == image.width && opened.height == image.height
            &&& opened.rgba@ == swapped_channels(image.bgra@)
        } else {
            r is Err
        }
}

/// Reads the image to edit from its file. `bytes` is what reading the file gave. A captured image
/// that was saved for the editor is opened with the pixels that it had, if they take no more than
/// 512 MiB.
pub fn load_editor_input_png(path: &str, bytes: Result<Vec<u8>, String>) -> (r: Result<
    EditorSessionImage,
    RsnipError,
>)
    ensures
        match bytes {
            Err(cause) => session_image_is(r, Err(cause@)),
            Ok(bytes) => {
                &&& names_png(path@) ==> session_image_is(r, png_decoding(bytes@))
                &&& opens_saved_capture(path@, bytes@, r)
                &&& names_no_format(path@) ==> session_image_is(r, Err(unknown_format_text()))
            },
        },
        r matches Ok(image) ==> image.rgba@.len() == 4 * image.width * image.height,
        r matches Err(error) ==> exists|cause: Seq<char>| #[trigger]
            session_image_is(Err(error), Err(cause)),
{
    match bytes {
        Err(cause) => session_image_of_decoding(Err(cause)),
        Ok(bytes) => {
            let decoding = read_image(path, &bytes);
            let ghost model = decoded(decoding);
            let r = session_image_of_decoding(decoding);
            assert(session_image_is(r, model));
            r
        },
    }
}

/// Why a buffer of whole pixels does not make an image of the given size.
pub open spec fn image_error(error: RsnipError, width: u32, height: u32, len: nat) -> bool {
    ||| dimension_error(error, width, height)
    ||| width > 0 && height > 0 && 4 * width * height <= usize::MAX && len != 4 * width * height
        && is_message(
        error,
        "invalid BGRA buffer length: got "@ + decimal(len) + ", expected "@ + decimal(
            (4 * width * height) as nat,
        ) + " for "@ + decimal(width as nat) + "x"@ + decimal(height as nat),
    )
}

/// An image that is not empty, and whose buffer can be addressed and has the length of its size, is
/// never refused.
pub proof fn law_whole_images_are_accepted(error: RsnipError, width: u32, height: u32, len: nat)
    requires
        width > 0,
        height > 0,
        len == 4 * width * height,
        len <= usize::MAX,
    ensures
        !dimension_error(error, width, height),
        !image_error(error, width, height, len),
{
    assert(4 * width <= 4 * width * height) by (nonlinear_arith)
        requires
            0 < width,
            0 < height,
    ;
}

impl EditorSessionImage {
    /// The size of the image.
    pub fn image_size(&self) -> (r: EditorImageSize)
        ensures
            r == (EditorImageSize { width: self.width, height: self.height }),
    {
        EditorImageSize::new(self.width, self.height)
    }

    /// The image with its channels in the order that captured images have.
    pub fn to_captured_image(&self) -> (r: Result<CapturedImage, RsnipError>)
        ensures
            match r {
                Ok(image) => {
                    &&& image.wf()
                    &&& image.origin_x == 0 && image.origin_y == 0
                    &&& image.width == self.width && image.height == self.height
                    &&& image.bgra@ == swapped_channels(self.rgba@)
                    &&& self.rgba@.len() % 4 == 0
                },
                Err(error) => {
                    ||| self.rgba@.len() % 4 != 0 && is_message(
                        error,
                        "RGBA buffer length must be divisible by 4, got "@ + decimal(
                            self.rgba@.len(),
                        ),
                    )
                    ||| self.rgba@.len() % 4 == 0 && image_error(
                        error,
                        self.width,
                        self.height,
                        self.rgba@.len(),
                    )
                },
            },
    {
        if self.rgba.len() % 4 != 0 {
            let mut message = "RGBA buffer length must be divisible by 4, got ".to_owned();
            append_u64(&mut message, self.rgba.len() as u64);
            return Err(RsnipError::Message(message));
        }
        let bgra = swap_channels(self.rgba.as_slice());
        CapturedImage::new(0, 0, self.width, self.height, bgra)
    }
}

} // verus!
