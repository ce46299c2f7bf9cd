//! The recorder, step by step: it captures frames and hands them to the encoder, in step with the
//! clock. The recorder tells its next action; what became of the action is the next event.
use crate::errors::{is_message, RsnipError};
use crate::math::max_int;
use crate::recording::cursor::{
    cursor_drawn, cursor_row, draw_current_cursor_on_bgra_frame, frame_error,
    law_cursor_changes_nothing_else, law_cursor_shows_every_mark,
    law_pointer_keeps_its_place_in_the_region, visibility, CursorScreenPosition, CursorVisibility,
};
use crate::recording::encoder::{check_frame_size, wrong_frame_size};
use crate::recording::{
    frames_due, law_frames_follow_the_clock, padded_frames, paced_step, PacerStep, RecordingPacer,
    RecordingTimingMetrics,
};
use crate::screen::capture::{CaptureRegion, CapturedImage};
use crate::time::Elapsed;
use vstd::prelude::*;

verus! {

/// What the recorder is waiting for.
#[derive(Debug, Clone, Copy, PartialEq, Eq, Structural)]
pub enum WorkerPhase {
    /// The time.
    Looking,
    /// The time of the next frame.
    Waiting,
    /// The last frame, written again; so many are left, this one counted.
    Repeating { left: u64 },
    /// A capture.
    Capturing,
    /// The captured frame, written.
    Writing,
    /// The time at the end.
    Ending,
    /// The last frame, written again at the end; so many are left, this one counted.
    Padding { left: u64, elapsed: Elapsed },
    /// Nothing: the recorder has ended.
    Ended,
}

/// The recorder: its region, the frames that it has written, the last one of them or the one that is
/// being written, and what it waits for.
#[derive(Debug, Clone, PartialEq, Eq)]
pub struct WorkerState {
    pub region: CaptureRegion,
    pub pacer: RecordingPacer,
    pub frame: Vec<u8>,
    pub phase: WorkerPhase,
}

/// The recorder as a mathematical value.
pub struct WorkerModel {
    pub region: CaptureRegion,
    pub pacer: RecordingPacer,
    pub frame: Seq<u8>,
    pub phase: WorkerPhase,
}

impl View for WorkerState {
    type V = WorkerModel;

    open spec fn view(&self) -> WorkerModel {
        WorkerModel {
            region: self.region,
            pacer: self.pacer,
            frame: self.frame@,
            phase: self.phase,
        }
    }
}

/// What became of an action.
#[derive(Debug, PartialEq, Eq)]
pub enum WorkerEvent {
    /// The time that has passed, and whether the recording is to stop.
    Looked { stop: bool, elapsed: Elapsed },
    /// The next frame is due, or the recording is to stop.
    Waited { stop: bool },
    /// The frame was written.
    Wrote(Result<(), RsnipError>),
    /// The region was captured; where the pointer is after that, or why it is not known.
    Captured {
        image: Result<CapturedImage, RsnipError>,
        pointer: Result<CursorScreenPosition, String>,
    },
    /// The time that had passed at the end.
    Timed(Elapsed),
}

/// What the recorder does next.
#[derive(Debug, Clone, PartialEq, Eq)]
pub enum WorkerAction {
    /// See whether the recording is to stop, and look at the clock.
    Look,
    /// Wait until the next frame is due.
    Wait,
    /// Write the frame.
    Write,
    /// Capture the region, and find the pointer.
    Capture,
    /// Look at the clock.
    Time,
    /// Close the encoder; this is how the recording went.
    Finish(RecordingTimingMetrics),
    /// Give up.
    Fail(RsnipError),
    /// Nothing.
    Ignore,
}

// ---------------------------------------------------------------------------------------------
// Steps
// ---------------------------------------------------------------------------------------------

/// The bytes of a frame of a region.
pub open spec fn frame_bytes(region: CaptureRegion) -> int {
    4 * region.width * region.height
}

/// The recorder, waiting for something else.
pub open spec fn in_phase(worker: WorkerModel, phase: WorkerPhase) -> WorkerModel {
    WorkerModel { phase, ..worker }
}

/// The pacer after the last frame has been written again.
pub open spec fn repeated(pacer: RecordingPacer) -> RecordingPacer {
    RecordingPacer {
        frames_written: (pacer.frames_written + 1) as u64,
        duplicate_frames: (pacer.duplicate_frames + 1) as u64,
        ..pacer
    }
}

/// The pacer after a new frame has been written.
pub open spec fn refreshed(pacer: RecordingPacer) -> RecordingPacer {
    RecordingPacer {
        frames_written: (pacer.frames_written + 1) as u64,
        has_last_frame: true,
        ..pacer
    }
}

/// How a recording went.
pub open spec fn summary(pacer: RecordingPacer, elapsed: Elapsed) -> RecordingTimingMetrics {
    RecordingTimingMetrics {
        target_fps: pacer.target_fps,
        elapsed,
        frames_written: pacer.frames_written,
        duplicate_frames: pacer.duplicate_frames,
    }
}

/// What a look at the clock leads to: the end, a pause, the last frame once more, or a capture.
pub open spec fn looked_step(worker: WorkerModel, stop: bool, elapsed: Elapsed) -> (
    WorkerModel,
    WorkerAction,
) {
    if stop {
        (in_phase(worker, WorkerPhase::Ending), WorkerAction::Time)
    } else {
        match paced_step(worker.pacer, elapsed.nanos()) {
            PacerStep::Wait => (in_phase(worker, WorkerPhase::Waiting), WorkerAction::Wait),
            PacerStep::Capture { duplicates } => if duplicates > 0 {
                (
                    in_phase(worker, WorkerPhase::Repeating { left: duplicates }),
                    WorkerAction::Write,
                )
            } else {
                (in_phase(worker, WorkerPhase::Capturing), WorkerAction::Capture)
            },
        }
    }
}

/// What a frame that was written leads to.
pub open spec fn wrote_step(worker: WorkerModel) -> (WorkerModel, WorkerAction) {
    match worker.phase {
        WorkerPhase::Repeating { left } => {
            let worker = WorkerModel { pacer: repeated(worker.pacer), ..worker };
            if left > 1 {
                (
                    in_phase(worker, WorkerPhase::Repeating { left: (left - 1) as u64 }),
                    WorkerAction::Write,
                )
            } else {
                (in_phase(worker, WorkerPhase::Capturing), WorkerAction::Capture)
            }
        },
        WorkerPhase::Writing => (
            WorkerModel {
                pacer: refreshed(worker.pacer),
                phase: WorkerPhase::Looking,
                ..worker
            },
            WorkerAction::Look,
        ),
        WorkerPhase::Padding { left, elapsed } => {
            let worker = WorkerModel { pacer: repeated(worker.pacer), ..worker };
            if left > 1 {
                (
                    in_phase(worker, WorkerPhase::Padding { left: (left - 1) as u64, elapsed }),
                    WorkerAction::Write,
                )
            } else {
                (
                    in_phase(worker, WorkerPhase::Ended),
                    WorkerAction::Finish(summary(worker.pacer, elapsed)),
                )
            }
        },
        _ => (worker, WorkerAction::Ignore),
    }
}

/// What the time at the end leads to: the last frame is written again for all that are due.
pub open spec fn timed_step(worker: WorkerModel, elapsed: Elapsed) -> (WorkerModel, WorkerAction) {
    let left = padded_frames(worker.pacer, elapsed.nanos()) - worker.pacer.frames_written;
    if left > 0 {
        (
            in_phase(worker, WorkerPhase::Padding { left: left as u64, elapsed }),
            WorkerAction::Write,
        )
    } else {
        (
            in_phase(worker, WorkerPhase::Ended),
            WorkerAction::Finish(summary(worker.pacer, elapsed)),
        )
    }
}

/// A captured image with the picture of the pointer on it, if the pointer is in the region.
pub open spec fn with_pointer(
    image: CapturedImage,
    region: CaptureRegion,
    at: CursorScreenPosition,
) -> Seq<u8> {
    match visibility(at, region) {
        CursorVisibility::Inside(place) => cursor_drawn(image.bgra@, image.width, place),
        CursorVisibility::Outside => image.bgra@,
    }
}

/// A frame is the captured image with the picture of the pointer on it: it has the size of the
/// image, shows the pointer where it was on the desktop, and is the image itself wherever the
/// picture is not, and all of it if the pointer was not in the region.
pub proof fn law_frames_show_the_pointer_where_it_was(
    image: CapturedImage,
    region: CaptureRegion,
    at: CursorScreenPosition,
    x: int,
    y: int,
    channel: int,
)
    requires
        image.bgra@.len() == 4 * (image.height * image.width),
        region.width <= i32::MAX,
        region.height <= i32::MAX,
        region.x + region.width <= i32::MAX,
        region.y + region.height <= i32::MAX,
        0 <= x < image.width,
        0 <= y < image.height,
        0 <= channel < 4,
    ensures
        ({
            let frame = with_pointer(image, region, at);
            let inside = region.x <= at.x < region.x + region.width && region.y <= at.y < region.y
                + region.height;
            let (column, row) = (x - (at.x - region.x), y - (at.y - region.y));
            let place = 4 * (y * image.width + x) + channel;
            &&& frame.len() == image.bgra@.len()
            &&& !inside ==> frame == image.bgra@
            &&& inside && !(0 <= column < 12 && 0 <= row < 17) ==> frame[place]
                == image.bgra@[place]
            &&& inside && 0 <= column < 12 && 0 <= row < 17 ==> {
                let mark = cursor_row(row)[column];
                &&& mark == 'X' ==> frame[place] == if channel == 3 {
                    255u8
                } else {
                    0u8
                }
                &&& mark == 'W' ==> frame[place] == 255
                &&& mark != 'X' && mark != 'W' ==> frame[place] == image.bgra@[place]
            }
        }),
{
    law_pointer_keeps_its_place_in_the_region(at, region);
    if let CursorVisibility::Inside(place) = visibility(at, region) {
        let (column, row) = (x - place.x, y - place.y);
        if 0 <= column < 12 && 0 <= row < 17 {
            law_cursor_shows_every_mark(
                image.bgra@,
                image.width,
                image.height,
                place,
                row,
                column,
                channel,
            );
        } else {
            law_cursor_changes_nothing_else(
                image.bgra@,
                image.width,
                image.height,
                place,
                x,
                y,
                channel,
            );
        }
    }
}

/// Whether an error is why a capture is no frame: there is no capture, the place of the pointer is
/// not known, its picture cannot be drawn, or the frame has the wrong size.
pub open spec fn capture_problem(
    error: RsnipError,
    region: CaptureRegion,
    image: Result<CapturedImage, RsnipError>,
    pointer: Result<CursorScreenPosition, String>,
) -> bool {
    match (image, pointer) {
        (Err(cause), _) => error == cause,
        (Ok(_), Err(cause)) => is_message(error, "failed to read cursor position: "@ + cause@),
        (Ok(image), Ok(at)) => {
            ||| visibility(at, region) is Inside && frame_error(
                error,
                image.bgra@.len(),
                image.width,
                image.height,
            )
            ||| (visibility(at, region) is Inside ==> image.bgra@.len() == 4 * (image.height
                * image.width)) && image.bgra@.len() != frame_bytes(region) && wrong_frame_size(
                error,
                region,
                image.bgra@.len(),
            )
        },
    }
}

/// Whether a capture is a frame: the pointer can be drawn on it if it is in the region, and it has
/// the size of the region.
pub open spec fn is_frame(
    region: CaptureRegion,
    image: Result<CapturedImage, RsnipError>,
    pointer: Result<CursorScreenPosition, String>,
) -> bool {
    &&& image is Ok && pointer is Ok
    &&& image->Ok_0.bgra@.len() == frame_bytes(region)
    &&& visibility(pointer->Ok_0, region) is Inside ==> image->Ok_0.bgra@.len() == 4 * (
    image->Ok_0.height * image->Ok_0.width)
}

/// What a capture leads to.
pub open spec fn captured_step(
    before: WorkerModel,
    image: Result<CapturedImage, RsnipError>,
    pointer: Result<CursorScreenPosition, String>,
    after: WorkerModel,
    action: WorkerAction,
) -> bool {
    if is_frame(before.region, image, pointer) {
        &&& after == (WorkerModel {
            frame: with_pointer(image->Ok_0, before.region, pointer->Ok_0),
            phase: WorkerPhase::Writing,
            ..before
        })
        &&& action == WorkerAction::Write
    } else {
        &&& after == in_phase(before, WorkerPhase::Ended)
        &&& action matches WorkerAction::Fail(error)
        &&& capture_problem(error, before.region, image, pointer)
    }
}

/// What the recorder does for an event, and what it waits for after that. An event that it does not
/// wait for changes nothing.
pub open spec fn worker_step(
    before: WorkerModel,
    event: WorkerEvent,
    after: WorkerModel,
    action: WorkerAction,
) -> bool {
    match (before.phase, event) {
        (WorkerPhase::Looking, WorkerEvent::Looked { stop, elapsed }) => (after, action)
            == looked_step(before, stop, elapsed),
        (WorkerPhase::Waiting, WorkerEvent::Waited { stop }) => if stop {
            after == in_phase(before, WorkerPhase::Ending) && action == WorkerAction::Time
        } else {
            after == in_phase(before, WorkerPhase::Looking) && action == WorkerAction::Look
        },
        (
            WorkerPhase::Repeating { .. } | WorkerPhase::Writing | WorkerPhase::Padding { .. },
            WorkerEvent::Wrote(written),
        ) => match written {
            Ok(()) => (after, action) == wrote_step(before),
            Err(error) => after == in_phase(before, WorkerPhase::Ended) && action
                == WorkerAction::Fail(error),
        },
        (WorkerPhase::Capturing, WorkerEvent::Captured { image, pointer }) => captured_step(
            before,
            image,
            pointer,
            after,
            action,
        ),
        (WorkerPhase::Ending, WorkerEvent::Timed(elapsed)) => (after, action) == timed_step(
            before,
            elapsed,
        ),
        _ => after == before && action == WorkerAction::Ignore,
    }
}

/// Whether what the recorder remembers fits together: it knows the frame that it repeats, every
/// frame has the size of the region, and the counts of frames do not reach their end.
pub open spec fn sound(worker: WorkerModel) -> bool {
    let written = worker.pacer.frames_written;
    &&& 0 <= frame_bytes(worker.region) <= usize::MAX
    &&& worker.pacer.target_fps >= 1
    &&& worker.pacer.duplicate_frames <= written
    &&& worker.pacer.has_last_frame ==> worker.pacer.duplicate_frames < written
        && worker.frame.len() == frame_bytes(worker.region)
    &&& match worker.phase {
        WorkerPhase::Repeating { left } => worker.pacer.has_last_frame && 0 < left && written + left
            < u64::MAX,
        WorkerPhase::Capturing => written < u64::MAX,
        WorkerPhase::Writing => written < u64::MAX && worker.frame.len() == frame_bytes(
            worker.region,
        ),
        WorkerPhase::Padding { left, .. } => worker.pacer.has_last_frame && 0 < left && written
            + left <= u64::MAX,
        _ => true,
    }
}

impl WorkerState {
    /// A recorder that looks at the clock for its first frame.
    pub fn new(region: CaptureRegion, fps: u32) -> (r: Self)
        requires
            frame_bytes(region) <= usize::MAX,
        ensures
            r@ == (WorkerModel {
                region,
                pacer: RecordingPacer {
                    target_fps: max_int(fps as int, 1) as u32,
                    frames_written: 0,
                    duplicate_frames: 0,
                    has_last_frame: false,
                },
                frame: Seq::empty(),
                phase: WorkerPhase::Looking,
            }),
            sound(r@),
            on_time(r@, 0),
    {
        assert(0 <= 4 * region.width * region.height) by (nonlinear_arith)
            requires
                0 <= region.width,
                0 <= region.height,
        ;
        let worker = WorkerState {
            region,
            pacer: RecordingPacer::new(fps),
            frame: Vec::new(),
            phase: WorkerPhase::Looking,
        };
        assert(worker.frame@ =~= Seq::empty());
        worker
    }

    /// Takes a look at the clock.
    fn on_looked(&mut self, stop: bool, elapsed: Elapsed) -> (r: WorkerAction)
        ensures
            (final(self)@, r) == looked_step(old(self)@, stop, elapsed),
    {
        if stop {
            self.phase = WorkerPhase::Ending;
            return WorkerAction::Time;
        }
        match self.pacer.next_step(elapsed) {
            PacerStep::Wait => {
                self.phase = WorkerPhase::Waiting;
                WorkerAction::Wait
            },
            PacerStep::Capture { duplicates } => {
                if duplicates > 0 {
                    self.phase = WorkerPhase::Repeating { left: duplicates };
                    WorkerAction::Write
                } else {
                    self.phase = WorkerPhase::Capturing;
                    WorkerAction::Capture
                }
            },
        }
    }

    /// Takes a frame that was written.
    fn on_wrote(&mut self) -> (r: WorkerAction)
        requires
            sound(old(self)@),
        ensures
            (final(self)@, r) == wrote_step(old(self)@),
    {
        match self.phase {
            WorkerPhase::Repeating { left } => {
                self.pacer.wrote_duplicate();
                if left > 1 {
                    self.phase = WorkerPhase::Repeating { left: left - 1 };
                    WorkerAction::Write
                } else {
                    self.phase = WorkerPhase::Capturing;
                    WorkerAction::Capture
                }
            },
            WorkerPhase::Writing => {
                self.pacer.wrote_capture();
                self.phase = WorkerPhase::Looking;
                WorkerAction::Look
            },
            WorkerPhase::Padding { left, elapsed } => {
                self.pacer.wrote_duplicate();
                if left > 1 {
                    self.phase = WorkerPhase::Padding { left: left - 1, elapsed };
                    WorkerAction::Write
                } else {
                    self.phase = WorkerPhase::Ended;
                    WorkerAction::Finish(self.pacer.metrics(elapsed))
                }
            },
            _ => WorkerAction::Ignore,
        }
    }

    /// Takes the time at the end.
    fn on_timed(&mut self, elapsed: Elapsed) -> (r: WorkerAction)
        ensures
            (final(self)@, r) == timed_step(old(self)@, elapsed),
    {
        let left = self.pacer.final_padding(elapsed);
        if left > 0 {
            self.phase = WorkerPhase::Padding { left, elapsed };
            WorkerAction::Write
        } else {
            self.phase = WorkerPhase::Ended;
            WorkerAction::Finish(self.pacer.metrics(elapsed))
        }
    }

    /// Takes a capture.
    fn on_captured(
        &mut self,
        image: Result<CapturedImage, RsnipError>,
        pointer: Result<CursorScreenPosition, String>,
    ) -> (r: WorkerAction)
        requires
            sound(old(self)@),
        ensures
            captured_step(old(self)@, image, pointer, final(self)@, r),
    {
        let image = match image {
            Ok(image) => image,
            Err(error) => {
                self.phase = WorkerPhase::Ended;
                return WorkerAction::Fail(error);
            },
        };
        let (width, height) = (image.width, image.height);
        let mut frame = image.bgra;
        if let Err(error) = draw_current_cursor_on_bgra_frame(
            frame.as_mut_slice(),
            width,
            height,
            self.region,
            pointer,
        ) {
            self.phase = WorkerPhase::Ended;
            return WorkerAction::Fail(error);
        }
        if let Err(error) = check_frame_size(self.region, frame.len()) {
            self.phase = WorkerPhase::Ended;
            return WorkerAction::Fail(error);
        }
        self.frame = frame;
        self.phase = WorkerPhase::Writing;
        WorkerAction::Write
    }

    /// Takes an event and tells what to do next.
    pub fn run_recording_worker(&mut self, event: WorkerEvent) -> (r: WorkerAction)
        requires
            sound(old(self)@),
        ensures
            worker_step(old(self)@, event, final(self)@, r),
            sound(final(self)@),
    {
        let ghost before = self@;
        let ghost given = event;
        let action = match (self.phase, event) {
            (WorkerPhase::Looking, WorkerEvent::Looked { stop, elapsed }) => self.on_looked(
                stop,
                elapsed,
            ),
            (WorkerPhase::Waiting, WorkerEvent::Waited { stop }) => {
                if stop {
                    self.phase = WorkerPhase::Ending;
                    WorkerAction::Time
                } else {
                    self.phase = WorkerPhase::Looking;
                    WorkerAction::Look
                }
            },
            (
                WorkerPhase::Repeating { .. } | WorkerPhase::Writing | WorkerPhase::Padding { .. },
                WorkerEvent::Wrote(written),
            ) => match written {
                Ok(()) => self.on_wrote(),
                Err(error) => {
                    self.phase = WorkerPhase::Ended;
                    WorkerAction::Fail(error)
                },
            },
            (WorkerPhase::Capturing, WorkerEvent::Captured { image, pointer }) => self.on_captured(
                image,
                pointer,
            ),
            (WorkerPhase::Ending, WorkerEvent::Timed(elapsed)) => self.on_timed(elapsed),
            _ => WorkerAction::Ignore,
        };
        proof {
            law_worker_stays_sound(before, given, self@, action);
        }
        action
    }
}

// ---------------------------------------------------------------------------------------------
// Laws of the recorder
// ---------------------------------------------------------------------------------------------

/// Whatever happens, what the recorder remembers fits together.
pub proof fn law_worker_stays_sound(
    before: WorkerModel,
    event: WorkerEvent,
    after: WorkerModel,
    action: WorkerAction,
)
    requires
        sound(before),
        worker_step(before, event, after, action),
    ensures
        sound(after),
{
    if let WorkerEvent::Looked { elapsed, .. } = event {
        law_frames_follow_the_clock(0, elapsed.nanos(), before.pacer.target_fps);
    }
    if let WorkerEvent::Timed(elapsed) = event {
        law_frames_follow_the_clock(0, elapsed.nanos(), before.pacer.target_fps);
    }
}

/// Every frame that is handed to the encoder has exactly the bytes of the region.
pub proof fn law_written_frames_have_the_size_of_the_region(
    before: WorkerModel,
    event: WorkerEvent,
    after: WorkerModel,
    action: WorkerAction,
)
    requires
        sound(before),
        worker_step(before, event, after, action),
        action is Write,
    ensures
        after.region == before.region,
        after.frame.len() == frame_bytes(after.region),
{
    law_worker_stays_sound(before, event, after, action);
}

/// Whether no frame was written, or is going to be written before the next look at the clock, before
/// it was due; the first one aside. At the end, the frames that are left are exactly those that the
/// clock asks for.
pub open spec fn on_time(worker: WorkerModel, nanos: nat) -> bool {
    let written = worker.pacer.frames_written;
    let due = max_int(frames_due(nanos, worker.pacer.target_fps), 1);
    match worker.phase {
        WorkerPhase::Repeating { left } => written + left + 1 <= due,
        WorkerPhase::Capturing | WorkerPhase::Writing => written + 1 <= due,
        WorkerPhase::Padding { left, elapsed } => elapsed.nanos() <= nanos && written + left
            == frames_due(elapsed.nanos(), worker.pacer.target_fps),
        WorkerPhase::Ended => true,
        _ => written <= due,
    }
}

/// The time after an event: the clock is read in some of them and has not run back.
pub open spec fn time_after(earlier: nat, event: WorkerEvent) -> nat {
    match event {
        WorkerEvent::Looked { elapsed, .. } => elapsed.nanos(),
        WorkerEvent::Timed(elapsed) => elapsed.nanos(),
        _ => earlier,
    }
}

/// As long as the clock does not run back, no frame is written before it is due.
pub proof fn law_worker_stays_on_time(
    before: WorkerModel,
    event: WorkerEvent,
    after: WorkerModel,
    action: WorkerAction,
    earlier: nat,
)
    requires
        sound(before),
        on_time(before, earlier),
        earlier <= time_after(earlier, event),
        worker_step(before, event, after, action),
    ensures
        on_time(after, time_after(earlier, event)),
{
    let now = time_after(earlier, event);
    law_frames_follow_the_clock(earlier, now, before.pacer.target_fps);
}

/// A recording that has a frame ends with exactly the frames that the clock asks for.
pub proof fn law_finished_recording_matches_the_clock(
    before: WorkerModel,
    event: WorkerEvent,
    after: WorkerModel,
    metrics: RecordingTimingMetrics,
    earlier: nat,
)
    requires
        sound(before),
        on_time(before, earlier),
        earlier <= time_after(earlier, event),
        worker_step(before, event, after, WorkerAction::Finish(metrics)),
        before.pacer.has_last_frame,
        metrics.elapsed.nanos() > 0,
    ensures
        metrics.frames_written == frames_due(metrics.elapsed.nanos(), metrics.target_fps),
        metrics.target_fps == before.pacer.target_fps,
        metrics.duplicate_frames < metrics.frames_written,
{
    let now = time_after(earlier, event);
    law_frames_follow_the_clock(earlier, now, before.pacer.target_fps);
    law_frames_follow_the_clock(0, now, before.pacer.target_fps);
}

/// Once the recorder is told to stop, it captures nothing more: it asks for the time and ends with
/// that.
pub proof fn law_stop_ends_the_capturing(
    before: WorkerModel,
    elapsed: Elapsed,
    after: WorkerModel,
    action: WorkerAction,
    event: WorkerEvent,
)
    requires
        (before.phase is Looking && event == WorkerEvent::Looked { stop: true, elapsed }) || (
        before.phase is Waiting && event == WorkerEvent::Waited { stop: true }),
        worker_step(before, event, after, action),
    ensures
        action is Time,
        after.phase is Ending,
        after.pacer == before.pacer && after.frame == before.frame,
{
}

/// The frame that is written changes only when a new one was captured, and is then the captured one
/// with the pointer on it; what is repeated is the last frame. Each write adds one to the frames,
/// and a repetition adds one to the duplicates too.
pub proof fn law_repeated_frames_are_the_last_one(
    before: WorkerModel,
    event: WorkerEvent,
    after: WorkerModel,
    action: WorkerAction,
)
    requires
        sound(before),
        worker_step(before, event, after, action),
    ensures
        after.region == before.region,
        !(event is Captured) ==> after.frame == before.frame,
        before.phase is Capturing && action is Write ==> (event matches WorkerEvent::Captured {
            image: Ok(image),
            pointer: Ok(at),
        } && after.frame == with_pointer(image, before.region, at)),
        before.phase is Writing && event == WorkerEvent::Wrote(Ok(())) ==> {
            &&& after.pacer.frames_written == before.pacer.frames_written + 1
            &&& after.pacer.duplicate_frames == before.pacer.duplicate_frames
        },
        (before.phase is Repeating || before.phase is Padding)
            && event == WorkerEvent::Wrote(Ok(())) ==> {
            &&& after.pacer.frames_written == before.pacer.frames_written + 1
            &&& after.pacer.duplicate_frames == before.pacer.duplicate_frames + 1
        },
        !(event is Wrote) ==> after.pacer == before.pacer,
{
}

/// A capture of the region in full, with a pointer that is known, is written and never refused.
pub proof fn law_good_captures_are_written(
    before: WorkerModel,
    image: CapturedImage,
    at: CursorScreenPosition,
    after: WorkerModel,
    action: WorkerAction,
)
    requires
        before.phase is Capturing,
        image.width == before.region.width,
        image.height == before.region.height,
        image.bgra@.len() == 4 * image.width * image.height,
        worker_step(
            before,
            WorkerEvent::Captured { image: Ok(image), pointer: Ok(at) },
            after,
            action,
        ),
    ensures
        action is Write,
        after.phase is Writing,
        after.frame == with_pointer(image, before.region, at),
{
    assert(4 * image.width * image.height == 4 * (image.height * image.width)) by (nonlinear_arith);
}

} // verus!
