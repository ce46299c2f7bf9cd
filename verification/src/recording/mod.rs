//! Recording a region of the desktop as a video.
pub mod cursor;
pub mod encoder;
pub mod worker;

use crate::config::{recording_problem, RecordingConfig};
use crate::errors::{is_invalid_config, is_message, message_error, RsnipError};
use crate::math::{max_int, min_int};
use crate::paths::{is_file_in, recording_name, recording_output_file, LocalTime};
use crate::screen::capture::CaptureRegion;
use crate::text::{append_i32, append_u64, decimal, signed_decimal};
use crate::time::Elapsed;
use vstd::prelude::*;

verus! {

/// The settings that a recording uses.
#[derive(Debug, Clone, PartialEq, Eq)]
pub struct EffectiveRecordingConfig {
    pub fps: u32,
    pub codec: String,
    pub crf: u8,
    pub preset: String,
    pub ffmpeg_path: Option<String>,
}

/// A recording: what is recorded, where to and how.
#[derive(Debug, Clone, PartialEq, Eq)]
pub struct RecordingSession {
    pub region: CaptureRegion,
    pub output_path: String,
    pub config: EffectiveRecordingConfig,
}

/// The settings that a recording uses, as a mathematical value.
pub struct EffectiveConfigModel {
    pub fps: u32,
    pub codec: Seq<char>,
    pub crf: u8,
    pub preset: Seq<char>,
    pub ffmpeg_path: Option<Seq<char>>,
}

/// A recording as a mathematical value.
pub struct RecordingModel {
    pub region: CaptureRegion,
    pub output_path: Seq<char>,
    pub config: EffectiveConfigModel,
}

/// The text in an optional string.
pub open spec fn optional_text(text: Option<String>) -> Option<Seq<char>> {
    match text {
        Some(text) => Some(text@),
        None => None,
    }
}

impl View for EffectiveRecordingConfig {
    type V = EffectiveConfigModel;

    open spec fn view(&self) -> EffectiveConfigModel {
        EffectiveConfigModel {
            fps: self.fps,
            codec: self.codec@,
            crf: self.crf,
            preset: self.preset@,
            ffmpeg_path: optional_text(self.ffmpeg_path),
        }
    }
}

impl View for RecordingSession {
    type V = RecordingModel;

    open spec fn view(&self) -> RecordingModel {
        RecordingModel {
            region: self.region,
            output_path: self.output_path@,
            config: self.config@,
        }
    }
}

/// The part of the settings that a recording uses.
pub open spec fn effective(config: RecordingConfig) -> EffectiveConfigModel {
    EffectiveConfigModel {
        fps: config.fps,
        codec: config.codec@,
        crf: config.crf,
        preset: config.preset@,
        ffmpeg_path: optional_text(config.ffmpeg_path),
    }
}

/// Copies an optional string.
pub fn copy_optional_text(text: &Option<String>) -> (r: Option<String>)
    ensures
        optional_text(r) == optional_text(*text),
{
    match text {
        Some(text) => Some(text.clone()),
        None => None,
    }
}

impl EffectiveRecordingConfig {
    /// The settings that a recording uses, if they are accepted.
    pub fn from_config(config: &RecordingConfig) -> (r: Result<Self, RsnipError>)
        ensures
            match recording_problem(*config) {
                None => r matches Ok(used) && used@ == effective(*config),
                Some(problem) => r matches Err(error) && is_invalid_config(
                    error,
                    problem.field,
                    problem.reason,
                ),
            },
    {
        config.validate()?;
        Ok(
            EffectiveRecordingConfig {
                fps: config.fps,
                codec: config.codec.clone(),
                crf: config.crf,
                preset: config.preset.clone(),
                ffmpeg_path: copy_optional_text(&config.ffmpeg_path),
            },
        )
    }
}

/// Copies a recording.
pub fn copy_session(session: &RecordingSession) -> (r: RecordingSession)
    ensures
        r@ == session@,
{
    RecordingSession {
        region: session.region,
        output_path: session.output_path.clone(),
        config: EffectiveRecordingConfig {
            fps: session.config.fps,
            codec: session.config.codec.clone(),
            crf: session.config.crf,
            preset: session.config.preset.clone(),
            ffmpeg_path: copy_optional_text(&session.config.ffmpeg_path),
        },
    }
}

// ---------------------------------------------------------------------------------------------
// The region
// ---------------------------------------------------------------------------------------------

/// The largest even number up to a number.
pub open spec fn even_below(value: u32) -> int {
    value - value % 2
}

/// Whether a region has room for a video: the encoder takes even sizes only.
pub open spec fn has_even_part(region: CaptureRegion) -> bool {
    region.width >= 2 && region.height >= 2
}

/// The part of a region whose width and height are even.
pub open spec fn even_part(region: CaptureRegion) -> CaptureRegion {
    CaptureRegion {
        x: region.x,
        y: region.y,
        width: even_below(region.width) as u32,
        height: even_below(region.height) as u32,
    }
}

/// Why a region cannot be recorded.
pub open spec fn too_small_error(error: RsnipError, region: CaptureRegion) -> bool {
    is_message(
        error,
        "recording region is too small after encoder alignment: "@ + decimal(
            region.width as nat,
        ) + "x"@ + decimal(region.height as nat) + " at "@ + signed_decimal(region.x as int)
            + ","@ + signed_decimal(region.y as int),
    )
}

/// Cuts a region down to even sizes.
pub fn even_sized_recording_region(region: CaptureRegion) -> (r: Result<CaptureRegion, RsnipError>)
    ensures
        match r {
            Ok(even) => has_even_part(region) && even == even_part(region),
            Err(error) => !has_even_part(region) && too_small_error(error, region),
        },
{
    let width = region.width - (region.width % 2);
    let height = region.height - (region.height % 2);
    if width < 2 || height < 2 {
        let mut message = "recording region is too small after encoder alignment: ".to_owned();
        append_u64(&mut message, region.width as u64);
        message.append("x");
        append_u64(&mut message, region.height as u64);
        message.append(" at ");
        append_i32(&mut message, region.x);
        message.append(",");
        append_i32(&mut message, region.y);
        return Err(RsnipError::Message(message));
    }
    CaptureRegion::new(region.x, region.y, width, height)
}

/// The region that is recorded lies in the one that was asked for, has even sizes and leaves at
/// most one column and one row out; a region of even sizes is recorded whole.
pub proof fn law_recorded_region_is_even(region: CaptureRegion)
    requires
        has_even_part(region),
    ensures
        ({
            let even = even_part(region);
            &&& even.x == region.x && even.y == region.y
            &&& even.width % 2 == 0 && even.height % 2 == 0
            &&& even.width > 0 && even.height > 0
            &&& region.width - 1 <= even.width <= region.width
            &&& region.height - 1 <= even.height <= region.height
            &&& even_part(even) == even
        }),
{
}

// ---------------------------------------------------------------------------------------------
// The controller
// ---------------------------------------------------------------------------------------------

/// What the recorder is doing.
#[derive(Debug, Clone, Copy, PartialEq, Eq, Structural)]
pub enum RecordingLifecycle {
    Idle,
    Recording,
    Stopping,
    Failed,
}

#[derive(Debug, Clone, PartialEq, Eq)]
enum RecordingState {
    Idle,
    Recording(RecordingSession),
    Stopping(RecordingSession),
    Failed(String),
}

/// Keeps track of whether a recording is going on.
#[derive(Debug, Clone, PartialEq, Eq)]
pub struct RecordingController {
    state: RecordingState,
}

/// What the recorder is doing, as a mathematical value.
pub enum ControllerModel {
    Idle,
    Recording(RecordingModel),
    Stopping(RecordingModel),
    Failed(Seq<char>),
}

impl View for RecordingController {
    type V = ControllerModel;

    closed spec fn view(&self) -> ControllerModel {
        match self.state {
            RecordingState::Idle => ControllerModel::Idle,
            RecordingState::Recording(session) => ControllerModel::Recording(session@),
            RecordingState::Stopping(session) => ControllerModel::Stopping(session@),
            RecordingState::Failed(reason) => ControllerModel::Failed(reason@),
        }
    }
}

/// What the recorder is doing.
pub open spec fn lifecycle_of(controller: ControllerModel) -> RecordingLifecycle {
    match controller {
        ControllerModel::Idle => RecordingLifecycle::Idle,
        ControllerModel::Recording(_) => RecordingLifecycle::Recording,
        ControllerModel::Stopping(_) => RecordingLifecycle::Stopping,
        ControllerModel::Failed(_) => RecordingLifecycle::Failed,
    }
}

/// Whether a recording can be started.
pub open spec fn can_start(controller: ControllerModel) -> bool {
    controller is Idle || controller is Failed
}

/// The recorder after a stop, and the recording that it hands out.
pub open spec fn stopped(controller: ControllerModel) -> (ControllerModel, Option<RecordingModel>) {
    match controller {
        ControllerModel::Recording(session) => (ControllerModel::Idle, Some(session)),
        ControllerModel::Stopping(session) => (controller, Some(session)),
        _ => (controller, None),
    }
}

/// A recording that was started can be stopped: the stop hands it out, and another can be started.
pub proof fn law_stop_hands_out_what_was_started(session: RecordingModel)
    ensures
        stopped(ControllerModel::Recording(session)) == (ControllerModel::Idle, Some(session)),
        can_start(stopped(ControllerModel::Recording(session)).0),
{
}

/// Whether a path is the file, in the folder for recordings, of one that is started at a time.
pub open spec fn is_session_output(config: RecordingConfig, time: LocalTime, path: Seq<char>) -> bool {
    is_file_in(config.save_folder@, recording_name(time), path)
}

/// The file, in the folder for recordings, of one that is started at a time.
pub fn session_output_file(config: &RecordingConfig, time: LocalTime) -> (r: String)
    ensures
        is_session_output(*config, time, r@),
{
    recording_output_file(config.save_folder.as_str(), time)
}

/// Why a recording cannot be planned.
pub open spec fn plan_error(
    error: RsnipError,
    region: CaptureRegion,
    config: RecordingConfig,
) -> bool {
    match recording_problem(config) {
        Some(problem) => is_invalid_config(error, problem.field, problem.reason),
        None => !has_even_part(region) && too_small_error(error, region),
    }
}

/// Whether a recording can be planned.
pub open spec fn can_plan(region: CaptureRegion, config: RecordingConfig) -> bool {
    recording_problem(config) is None && has_even_part(region)
}

/// Why a recording is not started: it cannot be planned, there is no folder for it, or another one
/// is going on.
pub open spec fn start_error(
    error: RsnipError,
    controller: ControllerModel,
    region: CaptureRegion,
    config: RecordingConfig,
    prepared: Result<LocalTime, RsnipError>,
) -> bool {
    if !can_plan(region, config) {
        plan_error(error, region, config)
    } else {
        match prepared {
            Err(cause) => error == cause,
            Ok(_) => !can_start(controller) && is_message(
                error,
                "recording is already active or stopping"@,
            ),
        }
    }
}

/// With settings within their limits, a region with room for a video is recorded whenever no other
/// recording is going on and the folder is there.
pub proof fn law_recordings_that_can_start_do(
    error: RsnipError,
    controller: ControllerModel,
    region: CaptureRegion,
    config: RecordingConfig,
    time: LocalTime,
)
    requires
        recording_problem(config) is None,
        region.width >= 2,
        region.height >= 2,
    ensures
        !plan_error(error, region, config),
        controller is Idle || controller is Failed ==> !start_error(
            error,
            controller,
            region,
            config,
            Ok(time),
        ),
        controller is Recording || controller is Stopping ==> !can_start(controller),
{
}

/// Whether a recording of a region can be planned; its folder is made only after that.
pub fn check_recording(region: CaptureRegion, config: &RecordingConfig) -> (r: Result<
    (),
    RsnipError,
>)
    ensures
        match r {
            Ok(()) => can_plan(region, *config),
            Err(error) => !can_plan(region, *config) && plan_error(error, region, *config),
        },
{
    let _ = EffectiveRecordingConfig::from_config(config)?;
    let _ = even_sized_recording_region(region)?;
    Ok(())
}

impl RecordingController {
    /// A recorder that is idle.
    pub fn new() -> (r: Self)
        ensures
            r@ == ControllerModel::Idle,
    {
        RecordingController { state: RecordingState::Idle }
    }

    /// What the recorder is doing.
    pub fn lifecycle(&self) -> (r: RecordingLifecycle)
        ensures
            r == lifecycle_of(self@),
    {
        match &self.state {
            RecordingState::Idle => RecordingLifecycle::Idle,
            RecordingState::Recording(_) => RecordingLifecycle::Recording,
            RecordingState::Stopping(_) => RecordingLifecycle::Stopping,
            RecordingState::Failed(_) => RecordingLifecycle::Failed,
        }
    }

    /// Whether a recording is going on.
    pub fn is_recording(&self) -> (r: bool)
        ensures
            r == (self@ is Recording),
    {
        match &self.state {
            RecordingState::Recording(_) => true,
            _ => false,
        }
    }

    /// Starts a recording of a region, into a file in the folder for recordings. `prepared` is the
    /// local time once the folder is there, or why there is no folder.
    pub fn start_stub(
        &mut self,
        region: CaptureRegion,
        config: &RecordingConfig,
        prepared: Result<LocalTime, RsnipError>,
    ) -> (r: Result<RecordingSession, RsnipError>)
        ensures
            match r {
                Ok(session) => {
                    &&& can_plan(region, *config)
                    &&& can_start(old(self)@)
                    &&& prepared matches Ok(time)
                    &&& session@.region == even_part(region)
                    &&& session@.config == effective(*config)
                    &&& is_session_output(*config, time, session@.output_path)
                    &&& final(self)@ == ControllerModel::Recording(session@)
                },
                Err(error) => {
                    &&& start_error(error, old(self)@, region, *config, prepared)
                    &&& final(self)@ == old(self)@
                },
            },
    {
        let effective_config = EffectiveRecordingConfig::from_config(config)?;
        let region = even_sized_recording_region(region)?;
        let output_path = match prepared {
            Ok(time) => session_output_file(config, time),
            Err(error) => {
                return Err(error);
            },
        };
        match &self.state {
            RecordingState::Recording(_) | RecordingState::Stopping(_) => {
                return Err(message_error("recording is already active or stopping"));
            },
            _ => {},
        }
        let session = RecordingSession { region, output_path, config: effective_config };
        self.state = RecordingState::Recording(copy_session(&session));
        Ok(session)
    }

    /// Stops the recording, if there is one, and hands it out.
    pub fn stop_stub(&mut self) -> (r: Result<Option<RecordingSession>, RsnipError>)
        ensures
            r is Ok,
            final(self)@ == stopped(old(self)@).0,
            match r->Ok_0 {
                Some(session) => stopped(old(self)@).1 == Some(session@),
                None => stopped(old(self)@).1 is None,
            },
    {
        let (session, was_recording) = match &self.state {
            RecordingState::Recording(session) => (copy_session(session), true),
            RecordingState::Stopping(session) => (copy_session(session), false),
            _ => {
                return Ok(None);
            },
        };
        if was_recording {
            self.state = RecordingState::Idle;
        }
        Ok(Some(session))
    }

    /// Remembers that a recording failed.
    pub fn mark_failed(&mut self, message: String)
        ensures
            final(self)@ == ControllerModel::Failed(message@),
    {
        self.state = RecordingState::Failed(message);
    }
}

impl Default for RecordingController {
    fn default() -> (r: Self)
        ensures
            r@ == ControllerModel::Idle,
    {
        RecordingController::new()
    }
}

// ---------------------------------------------------------------------------------------------
// Frames
// ---------------------------------------------------------------------------------------------

/// How a recording went.
#[derive(Debug, Clone, Copy, PartialEq, Eq, Structural)]
pub struct RecordingTimingMetrics {
    pub target_fps: u32,
    pub elapsed: Elapsed,
    pub frames_written: u64,
    pub duplicate_frames: u64,
}

/// The number of frames that have begun after a time: the time multiplied by the rate, rounded up.
pub open spec fn frames_due(nanos: nat, fps: u32) -> int {
    min_int(
        (nanos * max_int(fps as int, 1) + 999_999_999) / 1_000_000_000,
        u64::MAX as int,
    )
}

/// Computes the number of frames that have begun after a time.
pub fn expected_frame_count(elapsed: Elapsed, fps: u32) -> (r: u64)
    ensures
        r == frames_due(elapsed.nanos(), fps),
{
    let rate: u128 = if fps > 1 {
        fps as u128
    } else {
        1
    };
    let nanos = elapsed.as_nanos();
    assert(0 <= nanos * rate <= 0xffff_ffff_ffff_ffff_ffff_ffff * 0xffff_ffff) by (nonlinear_arith)
        requires
            0 <= nanos <= 0xffff_ffff_ffff_ffff_ffff_ffff,
            0 <= rate <= 0xffff_ffff,
    ;
    let frames: u128 = (nanos * rate + 999_999_999) / 1_000_000_000;
    if frames > u64::MAX as u128 {
        u64::MAX
    } else {
        frames as u64
    }
}

/// Later there are at least as many frames, and there is one as soon as any time has passed.
pub proof fn law_frames_follow_the_clock(earlier: nat, later: nat, fps: u32)
    requires
        earlier <= later,
    ensures
        0 <= frames_due(earlier, fps) <= frames_due(later, fps),
        frames_due(0, fps) == 0,
        later > 0 ==> frames_due(later, fps) >= 1,
{
    let rate = max_int(fps as int, 1);
    assert(0 <= earlier * rate <= later * rate) by (nonlinear_arith)
        requires
            0 <= earlier <= later,
            rate >= 1,
    ;
    assert(0 * rate == 0) by (nonlinear_arith);
    assert(later > 0 ==> later * rate >= 1) by (nonlinear_arith)
        requires
            0 <= later,
            rate >= 1,
    ;
}

/// The frames that are due are the fewest that last as long as the time that has passed.
pub proof fn law_frames_due_cover_the_time(nanos: nat, fps: u32)
    requires
        fps >= 1,
        nanos * fps <= 1_000_000_000 * u64::MAX,
    ensures
        frames_due(nanos, fps) * 1_000_000_000 >= nanos * fps,
        nanos > 0 ==> (frames_due(nanos, fps) - 1) * 1_000_000_000 < nanos * fps,
{
    assert(nanos > 0 ==> nanos * fps >= 1) by (nonlinear_arith)
        requires
            0 <= nanos,
            fps >= 1,
    ;
    assert(0 <= nanos * fps) by (nonlinear_arith)
        requires
            0 <= nanos,
            fps >= 1,
    ;
    let wanted = (nanos * fps + 999_999_999) / 1_000_000_000;
    assert(wanted <= u64::MAX);
}

/// After whole seconds there are as many frames as the rate says, without drift.
pub proof fn law_whole_seconds_have_whole_rates(seconds: nat, fps: u32)
    requires
        fps >= 1,
        seconds * fps <= u64::MAX,
    ensures
        frames_due(seconds * 1_000_000_000, fps) == seconds * fps,
{
    let nanos = seconds * 1_000_000_000;
    assert(nanos * fps == (seconds * fps) * 1_000_000_000) by (nonlinear_arith)
        requires
            nanos == seconds * 1_000_000_000,
    ;
}

/// How often the last frame is written again before a new one is captured: so often that the new
/// one is the last that is due.
pub fn frames_to_duplicate_before_capture(
    frames_written: u64,
    expected_frames: u64,
    has_last_frame: bool,
) -> (r: u64)
    ensures
        r == if has_last_frame {
            max_int(expected_frames - frames_written - 1, 0)
        } else {
            0
        },
{
    if !has_last_frame {
        return 0;
    }
    expected_frames.saturating_sub(frames_written.saturating_add(1))
}

/// How often the last frame is written again at the end.
pub fn final_padding_frames(frames_written: u64, expected_frames: u64, has_last_frame: bool) -> (r:
    u64)
    ensures
        r == if has_last_frame {
            max_int(expected_frames - frames_written, 0)
        } else {
            0
        },
{
    if !has_last_frame {
        return 0;
    }
    expected_frames.saturating_sub(frames_written)
}

/// What the recorder does next.
#[derive(Debug, Clone, Copy, PartialEq, Eq, Structural)]
pub enum PacerStep {
    /// Wait until the next frame is due.
    Wait,
    /// Write the last frame again so many times, then capture a frame and write it.
    Capture { duplicates: u64 },
}

/// Keeps the frames of a recording in step with the clock.
#[derive(Debug, Clone, Copy, PartialEq, Eq, Structural)]
pub struct RecordingPacer {
    pub target_fps: u32,
    pub frames_written: u64,
    pub duplicate_frames: u64,
    pub has_last_frame: bool,
}

/// What the recorder does after a time.
pub open spec fn paced_step(pacer: RecordingPacer, nanos: nat) -> PacerStep {
    let due = max_int(frames_due(nanos, pacer.target_fps), 1);
    if pacer.frames_written >= due {
        PacerStep::Wait
    } else if pacer.has_last_frame {
        PacerStep::Capture { duplicates: (due - pacer.frames_written - 1) as u64 }
    } else {
        PacerStep::Capture { duplicates: 0 }
    }
}

/// The pacer after a step has been carried out.
pub open spec fn paced(pacer: RecordingPacer, step: PacerStep) -> RecordingPacer {
    match step {
        PacerStep::Wait => pacer,
        PacerStep::Capture { duplicates } => RecordingPacer {
            frames_written: (pacer.frames_written + duplicates + 1) as u64,
            duplicate_frames: (pacer.duplicate_frames + duplicates) as u64,
            has_last_frame: true,
            ..pacer
        },
    }
}

/// Whether no frame was written before it was due, the first one aside.
pub open spec fn on_time(pacer: RecordingPacer, nanos: nat) -> bool {
    pacer.frames_written <= max_int(frames_due(nanos, pacer.target_fps), 1)
        && pacer.duplicate_frames <= pacer.frames_written
}

/// No step writes a frame before it is due; and once there is a frame to repeat, a step that writes
/// writes all that are due.
pub proof fn law_steps_keep_time(pacer: RecordingPacer, earlier: nat, now: nat)
    requires
        earlier <= now,
        on_time(pacer, earlier),
    ensures
        ({
            let step = paced_step(pacer, now);
            let after = paced(pacer, step);
            &&& on_time(after, now)
            &&& step is Capture && pacer.has_last_frame ==> after.frames_written == max_int(
                frames_due(now, pacer.target_fps),
                1,
            )
        }),
{
    law_frames_follow_the_clock(earlier, now, pacer.target_fps);
}

/// The frames at the end of a recording, after the last frame has been repeated for all that are
/// due.
pub open spec fn padded_frames(pacer: RecordingPacer, nanos: nat) -> int {
    if pacer.has_last_frame {
        max_int(pacer.frames_written as int, frames_due(nanos, pacer.target_fps))
    } else {
        pacer.frames_written as int
    }
}

/// A recording that has a frame ends with exactly the frames that the clock asks for.
pub proof fn law_recording_matches_the_clock(pacer: RecordingPacer, earlier: nat, end: nat)
    requires
        earlier <= end,
        0 < end,
        on_time(pacer, earlier),
        pacer.has_last_frame,
    ensures
        padded_frames(pacer, end) == frames_due(end, pacer.target_fps),
{
    law_frames_follow_the_clock(earlier, end, pacer.target_fps);
}

impl RecordingPacer {
    /// A pacer before the first frame.
    pub fn new(fps: u32) -> (r: Self)
        ensures
            r == (RecordingPacer {
                target_fps: max_int(fps as int, 1) as u32,
                frames_written: 0,
                duplicate_frames: 0,
                has_last_frame: false,
            }),
            on_time(r, 0),
    {
        RecordingPacer {
            target_fps: fps.max(1),
            frames_written: 0,
            duplicate_frames: 0,
            has_last_frame: false,
        }
    }

    /// Tells what to do next, after a time.
    pub fn next_step(&self, elapsed: Elapsed) -> (r: PacerStep)
        ensures
            r == paced_step(*self, elapsed.nanos()),
            r matches PacerStep::Capture { duplicates } ==> self.frames_written + duplicates
                < u64::MAX && (duplicates > 0 ==> self.has_last_frame),
    {
        let expected = expected_frame_count(elapsed, self.target_fps).max(1);
        if self.frames_written >= expected {
            return PacerStep::Wait;
        }
        PacerStep::Capture {
            duplicates: frames_to_duplicate_before_capture(
                self.frames_written,
                expected,
                self.has_last_frame,
            ),
        }
    }

    /// The last frame was written again.
    pub fn wrote_duplicate(&mut self)
        requires
            old(self).frames_written < u64::MAX,
            old(self).duplicate_frames < u64::MAX,
        ensures
            *final(self) == (RecordingPacer {
                frames_written: (old(self).frames_written + 1) as u64,
                duplicate_frames: (old(self).duplicate_frames + 1) as u64,
                ..*old(self)
            }),
    {
        self.frames_written = self.frames_written + 1;
        self.duplicate_frames = self.duplicate_frames + 1;
    }

    /// A new frame was captured and written.
    pub fn wrote_capture(&mut self)
        requires
            old(self).frames_written < u64::MAX,
        ensures
            *final(self) == (RecordingPacer {
                frames_written: (old(self).frames_written + 1) as u64,
                has_last_frame: true,
                ..*old(self)
            }),
    {
        self.frames_written = self.frames_written + 1;
        self.has_last_frame = true;
    }

    /// Tells how often the last frame is to be written again at the end.
    pub fn final_padding(&self, elapsed: Elapsed) -> (r: u64)
        ensures
            self.frames_written + r == padded_frames(*self, elapsed.nanos()),
    {
        let expected = expected_frame_count(elapsed, self.target_fps);
        final_padding_frames(self.frames_written, expected, self.has_last_frame)
    }

    /// How the recording went.
    pub fn metrics(&self, elapsed: Elapsed) -> (r: RecordingTimingMetrics)
        ensures
            r == (RecordingTimingMetrics {
                target_fps: self.target_fps,
                elapsed,
                frames_written: self.frames_written,
                duplicate_frames: self.duplicate_frames,
            }),
    {
        RecordingTimingMetrics {
            target_fps: self.target_fps,
            elapsed,
            frames_written: self.frames_written,
            duplicate_frames: self.duplicate_frames,
        }
    }
}

} // verus!
