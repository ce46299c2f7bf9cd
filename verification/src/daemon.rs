//! The daemon: what it does for each command, step by step. The daemon tells its next action; what
//! became of the action is the next event.
use crate::config::Config;
use crate::errors::RsnipError;
use crate::ipc::IpcCommand;
use crate::ocr::{OcrFailure, OcrTextResult};
use crate::overlay::recording::RecordingOverlayStatus;
use crate::overlay::selection::{Selection, SelectionMode, SelectionOutcome};
use crate::overlay::toast::{
    show_simple_toast_async, show_toast_async, Toast, ToastAction, ToastActionModel, ToastKind,
    ToastModel,
};
use crate::paths::{is_file_in, recording_name, LocalTime};
use crate::recording::{
    can_plan, can_start, check_recording, copy_session, effective, even_part, is_session_output,
    plan_error, start_error, stopped, ControllerModel, RecordingController, RecordingModel,
    RecordingSession,
};
use crate::screen::capture::{
    crop_admitted, crop_error, is_cropped, law_crop_keeps_pixels, lemma_sub_image_len,
    region_inside, CaptureRegion, CapturedImage,
};
use crate::screen::monitor::rect_in_rect;
use crate::screen::windows::SelectableWindowHandle;
use crate::time::Elapsed;
use vstd::prelude::*;

verus! {

/// What the daemon is waiting for.
#[derive(Debug, Clone, PartialEq, Eq)]
pub enum DaemonPhase {
    /// The next command.
    Waiting,
    /// A region.
    Selecting(SelectionMode),
    /// The folder for a recording of a region.
    Preparing(CaptureRegion),
    /// The start of the recorder.
    StartingWorker(RecordingSession),
    /// The start of the frame around the recorded region.
    StartingOverlay,
    /// The end of the recorder.
    Stopping,
    /// The copy of a recording.
    CopyingFile(String),
    /// The end of the recorder, before the daemon ends.
    ShuttingDown,
    /// A capture of the desktop, for an image.
    Snipping(Selection),
    /// The end of the editor.
    Editing,
    /// The copy of an image.
    CopyingImage,
    /// A capture of the desktop, for text.
    Reading(Selection),
    /// The text in an image.
    Recognizing,
    /// The copy of a text.
    CopyingText,
    /// Nothing: the daemon has ended.
    Ended,
}

/// What the daemon is waiting for, as a mathematical value.
pub enum PhaseModel {
    Waiting,
    Selecting(SelectionMode),
    Preparing(CaptureRegion),
    StartingWorker(RecordingModel),
    StartingOverlay,
    Stopping,
    CopyingFile(Seq<char>),
    ShuttingDown,
    Snipping(Selection),
    Editing,
    CopyingImage,
    Reading(Selection),
    Recognizing,
    CopyingText,
    Ended,
}

impl View for DaemonPhase {
    type V = PhaseModel;

    open spec fn view(&self) -> PhaseModel {
        match *self {
            DaemonPhase::Waiting => PhaseModel::Waiting,
            DaemonPhase::Selecting(mode) => PhaseModel::Selecting(mode),
            DaemonPhase::Preparing(region) => PhaseModel::Preparing(region),
            DaemonPhase::StartingWorker(session) => PhaseModel::StartingWorker(session@),
            DaemonPhase::StartingOverlay => PhaseModel::StartingOverlay,
            DaemonPhase::Stopping => PhaseModel::Stopping,
            DaemonPhase::CopyingFile(path) => PhaseModel::CopyingFile(path@),
            DaemonPhase::ShuttingDown => PhaseModel::ShuttingDown,
            DaemonPhase::Snipping(selection) => PhaseModel::Snipping(selection),
            DaemonPhase::Editing => PhaseModel::Editing,
            DaemonPhase::CopyingImage => PhaseModel::CopyingImage,
            DaemonPhase::Reading(selection) => PhaseModel::Reading(selection),
            DaemonPhase::Recognizing => PhaseModel::Recognizing,
            DaemonPhase::CopyingText => PhaseModel::CopyingText,
            DaemonPhase::Ended => PhaseModel::Ended,
        }
    }
}

/// The daemon: its settings, the recording, whether a recorder and a frame around the recorded
/// region are running, whether clients are told that a recording is going on, and what it waits
/// for.
#[derive(Debug, Clone, PartialEq, Eq)]
pub struct DaemonState {
    pub config: Config,
    pub recording: RecordingController,
    pub recording_worker: bool,
    pub recording_overlay: bool,
    pub recording_active: bool,
    pub phase: DaemonPhase,
}

/// The daemon as a mathematical value.
pub struct DaemonModel {
    pub config: Config,
    pub recording: ControllerModel,
    pub recording_worker: bool,
    pub recording_overlay: bool,
    pub recording_active: bool,
    pub phase: PhaseModel,
}

impl View for DaemonState {
    type V = DaemonModel;

    open spec fn view(&self) -> DaemonModel {
        DaemonModel {
            config: self.config,
            recording: self.recording@,
            recording_worker: self.recording_worker,
            recording_overlay: self.recording_overlay,
            recording_active: self.recording_active,
            phase: self.phase@,
        }
    }
}

/// What became of an action.
#[derive(Debug, PartialEq, Eq)]
pub enum DaemonEvent {
    /// A command came.
    Command(IpcCommand),
    /// Picking a region ended; without an outcome if the overlay failed.
    SelectionEnded(Option<SelectionOutcome>),
    /// The folder for a recording is there, at a local time.
    OutputPrepared(Result<LocalTime, RsnipError>),
    /// The recorder started.
    WorkerStarted(Result<(), RsnipError>),
    /// The frame around the recorded region started, or did not.
    OverlayStarted(bool),
    /// The recorder ended and left a file; nothing if there was no recorder.
    WorkerStopped(Option<Result<String, RsnipError>>),
    /// A recording was copied.
    FileCopied(Result<(), RsnipError>),
    /// The desktop was captured.
    Captured(Result<CapturedImage, RsnipError>),
    /// The editor was closed.
    EditorClosed(Result<(), RsnipError>),
    /// An image was copied and saved for the editor under a path.
    ImageCopied(Result<String, RsnipError>),
    /// The text in an image was read.
    TextRead(Result<OcrTextResult, OcrFailure>),
    /// A text was copied.
    TextCopied(Result<(), RsnipError>),
}

/// What the daemon does next.
#[derive(Debug, Clone, PartialEq, Eq)]
pub enum DaemonAction {
    /// Wait for the next command.
    Wait,
    /// Show a notice and wait for the next command.
    Show(Toast),
    /// Let a region be picked.
    Select(SelectionMode),
    /// Make the folder for a recording if it is not there, and read the local time.
    PrepareOutput { folder: String },
    /// Start the recorder.
    StartWorker(RecordingSession),
    /// Start the frame around the recorded region, and show a status in it.
    StartOverlay { region: CaptureRegion, status: RecordingOverlayStatus },
    /// End the frame and the recorder, those that are running.
    StopRecording { overlay: bool, worker: bool },
    /// Copy a recording.
    CopyFile(String),
    /// Bring a window to the front if one is given, and capture the desktop; show a notice before.
    Capture { focus: Option<SelectableWindowHandle>, notice: Option<Toast> },
    /// Open the editor with an image.
    OpenEditor(CapturedImage),
    /// Copy an image and save it for the editor.
    CopyImage(CapturedImage),
    /// Read the text in an image.
    ReadText(CapturedImage),
    /// Copy a text.
    CopyText(String),
    /// End.
    Exit,
}

// ---------------------------------------------------------------------------------------------
// Notices
// ---------------------------------------------------------------------------------------------

/// A notice on which a click does nothing.
pub open spec fn plain_notice(title: Seq<char>, message: Seq<char>, kind: ToastKind) -> ToastModel {
    ToastModel { title, message, kind, action: ToastActionModel::Nothing }
}

/// Whether the daemon shows a notice and waits.
pub open spec fn shows(action: DaemonAction, notice: ToastModel) -> bool {
    action matches DaemonAction::Show(toast) && toast@ == notice
}

fn show_error(title: &str, text: &str, error: &RsnipError) -> (r: DaemonAction)
    ensures
        shows(r, plain_notice(title@, text@ + error.text(), ToastKind::Error)),
{
    let mut message = text.to_owned();
    message.append(error.to_string().as_str());
    DaemonAction::Show(show_simple_toast_async(title, message, ToastKind::Error))
}

fn show_plain(title: &str, text: &str, kind: ToastKind) -> (r: DaemonAction)
    ensures
        shows(r, plain_notice(title@, text@, kind)),
{
    DaemonAction::Show(show_simple_toast_async(title, text.to_owned(), kind))
}

// ---------------------------------------------------------------------------------------------
// Steps
// ---------------------------------------------------------------------------------------------

/// The daemon, waiting for something else.
pub open spec fn in_phase(daemon: DaemonModel, phase: PhaseModel) -> DaemonModel {
    DaemonModel { phase, ..daemon }
}

/// The daemon after a recording has been closed, waiting for the next command.
pub open spec fn recording_closed(daemon: DaemonModel) -> DaemonModel {
    DaemonModel {
        recording: stopped(daemon.recording).0,
        recording_active: false,
        phase: PhaseModel::Waiting,
        ..daemon
    }
}

/// The daemon after a recording has failed, waiting for the next command.
pub open spec fn recording_failed(daemon: DaemonModel, error: RsnipError) -> DaemonModel {
    DaemonModel {
        recording: ControllerModel::Failed(error.text()),
        recording_active: false,
        phase: PhaseModel::Waiting,
        ..daemon
    }
}

/// The daemon after it has let go of the recorder and of the frame.
pub open spec fn released(daemon: DaemonModel, phase: PhaseModel) -> DaemonModel {
    DaemonModel { recording_worker: false, recording_overlay: false, phase, ..daemon }
}

/// Whether the daemon takes a recording to be going on.
pub open spec fn is_recording(daemon: DaemonModel) -> bool {
    daemon.recording is Recording || daemon.recording_active
}

/// What a command does while the daemon waits for one.
pub open spec fn command_step(
    before: DaemonModel,
    command: IpcCommand,
    after: DaemonModel,
    action: DaemonAction,
) -> bool {
    match command {
        IpcCommand::Snip => {
            &&& after == in_phase(before, PhaseModel::Selecting(SelectionMode::Snip))
            &&& action == DaemonAction::Select(SelectionMode::Snip)
        },
        IpcCommand::Ocr => {
            &&& after == in_phase(before, PhaseModel::Selecting(SelectionMode::Ocr))
            &&& action == DaemonAction::Select(SelectionMode::Ocr)
        },
        IpcCommand::Record => if is_recording(before) {
            &&& after == released(before, PhaseModel::Stopping)
            &&& action == (DaemonAction::StopRecording {
                overlay: before.recording_overlay,
                worker: before.recording_worker,
            })
        } else {
            &&& after == in_phase(before, PhaseModel::Selecting(SelectionMode::Record))
            &&& action == DaemonAction::Select(SelectionMode::Record)
        },
        IpcCommand::Shutdown => {
            &&& after == released(before, PhaseModel::ShuttingDown)
            &&& action == (DaemonAction::StopRecording {
                overlay: before.recording_overlay,
                worker: before.recording_worker,
            })
        },
    }
}

/// What a picked region leads to.
pub open spec fn selected_step(
    before: DaemonModel,
    mode: SelectionMode,
    selection: Selection,
    after: DaemonModel,
    action: DaemonAction,
) -> bool {
    match mode {
        SelectionMode::Snip => {
            &&& after == in_phase(before, PhaseModel::Snipping(selection))
            &&& action matches DaemonAction::Capture { focus, notice: None }
            &&& focus == selection.window_handle
        },
        SelectionMode::Ocr => {
            &&& after == in_phase(before, PhaseModel::Reading(selection))
            &&& action matches DaemonAction::Capture { focus, notice: Some(toast) }
            &&& focus == selection.window_handle
            &&& toast@ == plain_notice(
                "RSnip OCR"@,
                "⚙ Extrayendo texto..."@,
                ToastKind::Info,
            )
        },
        SelectionMode::Record => {
            ||| {
                &&& after == in_phase(before, PhaseModel::Preparing(selection.region))
                &&& action matches DaemonAction::PrepareOutput { folder }
                &&& folder@ == before.config.recording.save_folder@
                &&& can_plan(selection.region, before.config.recording)
            }
            ||| {
                &&& action is Wait
                &&& exists|error: RsnipError|
                    {
                        &&& #[trigger] plan_error(
                            error,
                            selection.region,
                            before.config.recording,
                        )
                        &&& !can_plan(selection.region, before.config.recording)
                        &&& after == recording_failed(before, error)
                    }
            }
        },
    }
}

/// What the folder for a recording leads to: the recording is started into a file in it.
pub open spec fn prepared_step(
    before: DaemonModel,
    region: CaptureRegion,
    prepared: Result<LocalTime, RsnipError>,
    after: DaemonModel,
    action: DaemonAction,
) -> bool {
    ||| {
        &&& can_plan(region, before.config.recording)
        &&& can_start(before.recording)
        &&& prepared matches Ok(time)
        &&& action matches DaemonAction::StartWorker(session)
        &&& session@.region == even_part(region)
        &&& session@.config == effective(before.config.recording)
        &&& is_session_output(before.config.recording, time, session@.output_path)
        &&& after == (DaemonModel {
            recording: ControllerModel::Recording(session@),
            phase: PhaseModel::StartingWorker(session@),
            ..before
        })
    }
    ||| {
        &&& action is Wait
        &&& exists|error: RsnipError|
            {
                &&& #[trigger] start_error(
                    error,
                    before.recording,
                    region,
                    before.config.recording,
                    prepared,
                )
                &&& after == recording_failed(before, error)
            }
    }
}

/// What a capture of the desktop leads to: the region is cut out and handed on, or a notice tells
/// why that did not work.
pub open spec fn captured_step(
    before: DaemonModel,
    selection: Selection,
    for_text: bool,
    captured: Result<CapturedImage, RsnipError>,
    after: DaemonModel,
    action: DaemonAction,
) -> bool {
    ||| {
        &&& captured matches Ok(image)
        &&& after.phase == if for_text {
            PhaseModel::Recognizing
        } else if selection.flags.shift_pressed {
            PhaseModel::Editing
        } else {
            PhaseModel::CopyingImage
        }
        &&& after == in_phase(before, after.phase)
        &&& rect_in_rect(image.spec_rect(), selection.region.spec_rect())
        &&& selection.region.width > 0 && selection.region.height > 0
        &&& match action {
            DaemonAction::ReadText(part) => for_text && is_cropped(image, selection.region, part),
            DaemonAction::OpenEditor(part) => !for_text && selection.flags.shift_pressed
                && is_cropped(image, selection.region, part),
            DaemonAction::CopyImage(part) => !for_text && !selection.flags.shift_pressed
                && is_cropped(image, selection.region, part),
            _ => false,
        }
    }
    ||| {
        &&& after == in_phase(before, PhaseModel::Waiting)
        &&& exists|error: RsnipError|
            {
                &&& #[trigger] capture_failed(captured, selection.region, error)
                &&& shows(action, capture_notice(for_text, error))
            }
    }
}

/// Whether an error is why a capture gave no image of a region.
pub open spec fn capture_failed(
    captured: Result<CapturedImage, RsnipError>,
    region: CaptureRegion,
    error: RsnipError,
) -> bool {
    match captured {
        Ok(image) => crop_error(image, region, error),
        Err(cause) => error == cause,
    }
}

/// The notice for a capture that did not work.
pub open spec fn capture_notice(for_text: bool, error: RsnipError) -> ToastModel {
    if for_text {
        plain_notice("RSnip OCR"@, "Error OCR: "@ + error.text(), ToastKind::Error)
    } else {
        snip_error(error)
    }
}

/// The notice for an image that was not copied.
pub open spec fn snip_error(error: RsnipError) -> ToastModel {
    plain_notice(
        "RSnip error"@,
        "No se pudo copiar el recorte: "@ + error.text(),
        ToastKind::Error,
    )
}

/// The notice for a text that was read, or not.
pub open spec fn text_notice(read: Result<OcrTextResult, OcrFailure>) -> ToastModel {
    match read {
        Ok(_) => plain_notice("RSnip OCR"@, "⚠ No se encontró texto claro"@, ToastKind::Info),
        Err(OcrFailure::Preparing(error)) => capture_notice(true, error),
        Err(OcrFailure::Tesseract(_)) => plain_notice(
            "RSnip OCR"@,
            "✘ Error: ¿Tienes instalado Tesseract-OCR?"@,
            ToastKind::Error,
        ),
    }
}

/// What the daemon does for an event, and what it waits for after that. An event that it does not
/// wait for changes nothing.
pub open spec fn daemon_step(
    before: DaemonModel,
    event: DaemonEvent,
    after: DaemonModel,
    action: DaemonAction,
) -> bool {
    match (before.phase, event) {
        (PhaseModel::Waiting, DaemonEvent::Command(command)) => command_step(
            before,
            command,
            after,
            action,
        ),
        (PhaseModel::Selecting(mode), DaemonEvent::SelectionEnded(outcome)) => match outcome {
            Some(SelectionOutcome::Selected(selection)) => selected_step(
                before,
                mode,
                selection,
                after,
                action,
            ),
            _ => after == in_phase(before, PhaseModel::Waiting) && action is Wait,
        },
        (PhaseModel::Preparing(region), DaemonEvent::OutputPrepared(prepared)) => prepared_step(
            before,
            region,
            prepared,
            after,
            action,
        ),
        (PhaseModel::StartingWorker(session), DaemonEvent::WorkerStarted(started)) => match started {
            Ok(()) => {
                &&& after == in_phase(before, PhaseModel::StartingOverlay)
                &&& action matches DaemonAction::StartOverlay { region, status }
                &&& region == session.region
                &&& status.elapsed.nanos() == 0 && status.fps == session.config.fps
            },
            Err(error) => {
                &&& after == recording_failed(before, error)
                &&& shows(
                    action,
                    plain_notice(
                        "RSnip"@,
                        "No se pudo iniciar la grabación: "@ + error.text(),
                        ToastKind::Error,
                    ),
                )
            },
        },
        (PhaseModel::StartingOverlay, DaemonEvent::OverlayStarted(started)) => {
            &&& after == (DaemonModel {
                recording_worker: true,
                recording_overlay: started,
                recording_active: true,
                phase: PhaseModel::Waiting,
                ..before
            })
            &&& action is Wait
        },
        (PhaseModel::Stopping, DaemonEvent::WorkerStopped(ended)) => match ended {
            Some(Ok(path)) => {
                &&& after == in_phase(before, PhaseModel::CopyingFile(path@))
                &&& action matches DaemonAction::CopyFile(file)
                &&& file@ == path@
            },
            Some(Err(error)) => {
                &&& after == recording_failed(before, error)
                &&& shows(
                    action,
                    plain_notice(
                        "RSnip"@,
                        "No se pudo guardar el video: "@ + error.text(),
                        ToastKind::Error,
                    ),
                )
            },
            None => after == recording_closed(before) && action is Wait,
        },
        (PhaseModel::CopyingFile(path), DaemonEvent::FileCopied(copied)) => {
            &&& after == recording_closed(before)
            &&& shows(
                action,
                match copied {
                    Ok(()) => ToastModel {
                        title: "RSnip"@,
                        message: "Video guardado y copiado — Click para abrir ubicación"@,
                        kind: ToastKind::Info,
                        action: ToastActionModel::OpenInExplorer(path),
                    },
                    Err(error) => plain_notice(
                        "RSnip"@,
                        "No se pudo copiar el video: "@ + error.text(),
                        ToastKind::Error,
                    ),
                },
            )
        },
        (PhaseModel::ShuttingDown, DaemonEvent::WorkerStopped(_)) => {
            &&& after == (DaemonModel {
                recording_active: false,
                phase: PhaseModel::Ended,
                ..before
            })
            &&& action is Exit
        },
        (PhaseModel::Snipping(selection), DaemonEvent::Captured(captured)) => captured_step(
            before,
            selection,
            false,
            captured,
            after,
            action,
        ),
        (PhaseModel::Reading(selection), DaemonEvent::Captured(captured)) => captured_step(
            before,
            selection,
            true,
            captured,
            after,
            action,
        ),
        (PhaseModel::Editing, DaemonEvent::EditorClosed(closed)) => {
            &&& after == in_phase(before, PhaseModel::Waiting)
            &&& match closed {
                Ok(()) => action is Wait,
                Err(error) => shows(action, snip_error(error)),
            }
        },
        (PhaseModel::CopyingImage, DaemonEvent::ImageCopied(copied)) => {
            &&& after == in_phase(before, PhaseModel::Waiting)
            &&& shows(
                action,
                match copied {
                    Ok(path) => ToastModel {
                        title: "RSnip"@,
                        message: "✔  Copiado al portapapeles (Click para editar)"@,
                        kind: ToastKind::Info,
                        action: ToastActionModel::OpenEditor(path@),
                    },
                    Err(error) => snip_error(error),
                },
            )
        },
        (PhaseModel::Recognizing, DaemonEvent::TextRead(read)) => match read {
            Ok(OcrTextResult::Text(text)) => {
                &&& after == in_phase(before, PhaseModel::CopyingText)
                &&& action matches DaemonAction::CopyText(copy)
                &&& copy@ == text@
            },
            _ => {
                &&& after == in_phase(before, PhaseModel::Waiting)
                &&& shows(action, text_notice(read))
            },
        },
        (PhaseModel::CopyingText, DaemonEvent::TextCopied(copied)) => {
            &&& after == in_phase(before, PhaseModel::Waiting)
            &&& shows(
                action,
                match copied {
                    Ok(()) => plain_notice(
                        "RSnip OCR"@,
                        "✔ Texto extraído y copiado!"@,
                        ToastKind::Info,
                    ),
                    Err(error) => plain_notice(
                        "RSnip OCR"@,
                        "No se pudo copiar el texto: "@ + error.text(),
                        ToastKind::Error,
                    ),
                },
            )
        },
        _ => after == before && action is Wait,
    }
}

/// Whether the capture in an event can be cut down to the region that was picked.
pub open spec fn admits(daemon: DaemonModel, event: DaemonEvent) -> bool {
    match (daemon.phase, event) {
        (PhaseModel::Snipping(selection), DaemonEvent::Captured(Ok(image))) => admits_region(
            image,
            selection.region,
        ),
        (PhaseModel::Reading(selection), DaemonEvent::Captured(Ok(image))) => admits_region(
            image,
            selection.region,
        ),
        _ => true,
    }
}

/// Whether an image can be cut down to a region, or the region is refused.
pub open spec fn admits_region(image: CapturedImage, region: CaptureRegion) -> bool {
    image.wf() && crop_admitted(image, region)
}

impl DaemonState {
    /// A daemon that waits for its first command.
    pub fn new(config: Config) -> (r: Self)
        ensures
            r@ == (DaemonModel {
                config,
                recording: ControllerModel::Idle,
                recording_worker: false,
                recording_overlay: false,
                recording_active: false,
                phase: PhaseModel::Waiting,
            }),
            sound(r@),
    {
        DaemonState {
            config,
            recording: RecordingController::new(),
            recording_worker: false,
            recording_overlay: false,
            recording_active: false,
            phase: DaemonPhase::Waiting,
        }
    }

    /// The region that was picked, while the desktop is captured for it.
    pub fn pending_region(&self) -> (r: Option<CaptureRegion>)
        ensures
            r == match self@.phase {
                PhaseModel::Snipping(selection) => Some(selection.region),
                PhaseModel::Reading(selection) => Some(selection.region),
                _ => None,
            },
    {
        match &self.phase {
            DaemonPhase::Snipping(selection) => Some(selection.region),
            DaemonPhase::Reading(selection) => Some(selection.region),
            _ => None,
        }
    }

    /// Lets go of the recorder and of the frame.
    fn release(&mut self, phase: DaemonPhase) -> (r: DaemonAction)
        ensures
            final(self)@ == released(old(self)@, phase@),
            r == (DaemonAction::StopRecording {
                overlay: old(self).recording_overlay,
                worker: old(self).recording_worker,
            }),
    {
        let action = DaemonAction::StopRecording {
            overlay: self.recording_overlay,
            worker: self.recording_worker,
        };
        self.recording_overlay = false;
        self.recording_worker = false;
        self.phase = phase;
        action
    }

    /// Remembers that a recording failed, and waits for the next command.
    fn fail(&mut self, error: &RsnipError)
        ensures
            final(self)@ == recording_failed(old(self)@, *error),
    {
        self.recording.mark_failed(error.to_string());
        self.recording_active = false;
        self.phase = DaemonPhase::Waiting;
    }

    /// Closes a recording, and waits for the next command.
    fn close(&mut self)
        ensures
            final(self)@ == recording_closed(old(self)@),
    {
        let _ = self.recording.stop_stub();
        self.recording_active = false;
        self.phase = DaemonPhase::Waiting;
    }

    /// Takes a command.
    fn on_command(&mut self, command: IpcCommand) -> (r: DaemonAction)
        ensures
            command_step(old(self)@, command, final(self)@, r),
    {
        match command {
            IpcCommand::Snip => {
                self.phase = DaemonPhase::Selecting(SelectionMode::Snip);
                DaemonAction::Select(SelectionMode::Snip)
            },
            IpcCommand::Ocr => {
                self.phase = DaemonPhase::Selecting(SelectionMode::Ocr);
                DaemonAction::Select(SelectionMode::Ocr)
            },
            IpcCommand::Record => {
                if self.recording.is_recording() || self.recording_active {
                    self.release(DaemonPhase::Stopping)
                } else {
                    self.phase = DaemonPhase::Selecting(SelectionMode::Record);
                    DaemonAction::Select(SelectionMode::Record)
                }
            },
            IpcCommand::Shutdown => self.release(DaemonPhase::ShuttingDown),
        }
    }

    /// Takes a region that was picked.
    fn on_selected(&mut self, mode: SelectionMode, selection: Selection) -> (r: DaemonAction)
        ensures
            selected_step(old(self)@, mode, selection, final(self)@, r),
    {
        match mode {
            SelectionMode::Snip => {
                self.phase = DaemonPhase::Snipping(selection);
                DaemonAction::Capture { focus: selection.window_handle, notice: None }
            },
            SelectionMode::Ocr => {
                self.phase = DaemonPhase::Reading(selection);
                let toast = show_simple_toast_async(
                    "RSnip OCR",
                    "⚙ Extrayendo texto...".to_owned(),
                    ToastKind::Info,
                );
                DaemonAction::Capture { focus: selection.window_handle, notice: Some(toast) }
            },
            SelectionMode::Record => {
                match check_recording(selection.region, &self.config.recording) {
                    Ok(()) => {
                        self.phase = DaemonPhase::Preparing(selection.region);
                        DaemonAction::PrepareOutput {
                            folder: self.config.recording.save_folder.clone(),
                        }
                    },
                    Err(error) => {
                        self.fail(&error);
                        DaemonAction::Wait
                    },
                }
            },
        }
    }

    /// Takes the folder for a recording.
    fn on_prepared(&mut self, region: CaptureRegion, prepared: Result<LocalTime, RsnipError>) -> (r:
        DaemonAction)
        ensures
            prepared_step(old(self)@, region, prepared, final(self)@, r),
    {
        match self.recording.start_stub(region, &self.config.recording, prepared) {
            Ok(session) => {
                self.phase = DaemonPhase::StartingWorker(copy_session(&session));
                DaemonAction::StartWorker(session)
            },
            Err(error) => {
                self.fail(&error);
                DaemonAction::Wait
            },
        }
    }

    /// Takes a capture of the desktop.
    fn on_captured(
        &mut self,
        selection: Selection,
        for_text: bool,
        captured: Result<CapturedImage, RsnipError>,
    ) -> (r: DaemonAction)
        requires
            captured matches Ok(image) ==> admits_region(image, selection.region),
        ensures
            captured_step(old(self)@, selection, for_text, captured, final(self)@, r),
    {
        let ghost given = captured;
        let error = match captured {
            Ok(image) => match image.crop(selection.region) {
                Ok(part) => {
                    if for_text {
                        self.phase = DaemonPhase::Recognizing;
                        return DaemonAction::ReadText(part);
                    }
                    if selection.flags.shift_pressed {
                        self.phase = DaemonPhase::Editing;
                        return DaemonAction::OpenEditor(part);
                    }
                    self.phase = DaemonPhase::CopyingImage;
                    return DaemonAction::CopyImage(part);
                },
                Err(error) => error,
            },
            Err(error) => error,
        };
        assert(capture_failed(given, selection.region, error));
        self.phase = DaemonPhase::Waiting;
        if for_text {
            show_error("RSnip OCR", "Error OCR: ", &error)
        } else {
            show_error("RSnip error", "No se pudo copiar el recorte: ", &error)
        }
    }

    /// Takes the text in an image.
    fn on_text(&mut self, read: Result<OcrTextResult, OcrFailure>) -> (r: DaemonAction)
        requires
            old(self)@.phase is Recognizing,
        ensures
            daemon_step(old(self)@, DaemonEvent::TextRead(read), final(self)@, r),
    {
        match read {
            Ok(OcrTextResult::Text(text)) => {
                self.phase = DaemonPhase::CopyingText;
                DaemonAction::CopyText(text)
            },
            Ok(OcrTextResult::NoText) => {
                self.phase = DaemonPhase::Waiting;
                show_plain("RSnip OCR", "⚠ No se encontró texto claro", ToastKind::Info)
            },
            Err(OcrFailure::Preparing(error)) => {
                self.phase = DaemonPhase::Waiting;
                show_error("RSnip OCR", "Error OCR: ", &error)
            },
            Err(OcrFailure::Tesseract(_)) => {
                self.phase = DaemonPhase::Waiting;
                show_plain(
                    "RSnip OCR",
                    "✘ Error: ¿Tienes instalado Tesseract-OCR?",
                    ToastKind::Error,
                )
            },
        }
    }

    /// Takes an event and tells what to do next.
    pub fn dispatch_daemon_command(&mut self, event: DaemonEvent) -> (r: DaemonAction)
        requires
            admits(old(self)@, event),
        ensures
            daemon_step(old(self)@, event, final(self)@, r),
    {
        let phase = self.copy_phase();
        match (phase, event) {
            (DaemonPhase::Waiting, DaemonEvent::Command(command)) => self.on_command(command),
            (DaemonPhase::Selecting(mode), DaemonEvent::SelectionEnded(outcome)) => {
                match outcome {
                    Some(SelectionOutcome::Selected(selection)) => self.on_selected(
                        mode,
                        selection,
                    ),
                    _ => {
                        self.phase = DaemonPhase::Waiting;
                        DaemonAction::Wait
                    },
                }
            },
            (DaemonPhase::Preparing(region), DaemonEvent::OutputPrepared(prepared)) => {
                self.on_prepared(region, prepared)
            },
            (DaemonPhase::StartingWorker(session), DaemonEvent::WorkerStarted(started)) => {
                match started {
                    Ok(()) => {
                        self.phase = DaemonPhase::StartingOverlay;
                        DaemonAction::StartOverlay {
                            region: session.region,
                            status: RecordingOverlayStatus {
                                elapsed: Elapsed::zero(),
                                fps: session.config.fps,
                            },
                        }
                    },
                    Err(error) => {
                        self.fail(&error);
                        show_error("RSnip", "No se pudo iniciar la grabación: ", &error)
                    },
                }
            },
            (DaemonPhase::StartingOverlay, DaemonEvent::OverlayStarted(started)) => {
                self.recording_overlay = started;
                self.recording_worker = true;
                self.recording_active = true;
                self.phase = DaemonPhase::Waiting;
                DaemonAction::Wait
            },
            (DaemonPhase::Stopping, DaemonEvent::WorkerStopped(ended)) => match ended {
                Some(Ok(path)) => {
                    self.phase = DaemonPhase::CopyingFile(path.clone());
                    DaemonAction::CopyFile(path)
                },
                Some(Err(error)) => {
                    self.fail(&error);
                    show_error("RSnip", "No se pudo guardar el video: ", &error)
                },
                None => {
                    self.close();
                    DaemonAction::Wait
                },
            },
            (DaemonPhase::CopyingFile(path), DaemonEvent::FileCopied(copied)) => {
                self.close();
                match copied {
                    Ok(()) => DaemonAction::Show(
                        show_toast_async(
                            "RSnip",
                            "Video guardado y copiado — Click para abrir ubicación".to_owned(),
                            ToastKind::Info,
                            ToastAction::OpenInExplorer(path),
                        ),
                    ),
                    Err(error) => show_error("RSnip", "No se pudo copiar el video: ", &error),
                }
            },
            (DaemonPhase::ShuttingDown, DaemonEvent::WorkerStopped(_)) => {
                self.recording_active = false;
                self.phase = DaemonPhase::Ended;
                DaemonAction::Exit
            },
            (DaemonPhase::Snipping(selection), DaemonEvent::Captured(captured)) => {
                self.on_captured(selection, false, captured)
            },
            (DaemonPhase::Reading(selection), DaemonEvent::Captured(captured)) => {
                self.on_captured(selection, true, captured)
            },
            (DaemonPhase::Editing, DaemonEvent::EditorClosed(closed)) => {
                self.phase = DaemonPhase::Waiting;
                match closed {
                    Ok(()) => DaemonAction::Wait,
                    Err(error) => show_error(
                        "RSnip error",
                        "No se pudo copiar el recorte: ",
                        &error,
                    ),
                }
            },
            (DaemonPhase::CopyingImage, DaemonEvent::ImageCopied(copied)) => {
                self.phase = DaemonPhase::Waiting;
                match copied {
                    Ok(path) => DaemonAction::Show(
                        show_toast_async(
                            "RSnip",
                            "✔  Copiado al portapapeles (Click para editar)".to_owned(),
                            ToastKind::Info,
                            ToastAction::OpenEditor(path),
                        ),
                    ),
                    Err(error) => show_error(
                        "RSnip error",
                        "No se pudo copiar el recorte: ",
                        &error,
                    ),
                }
            },
            (DaemonPhase::Recognizing, DaemonEvent::TextRead(read)) => self.on_text(read),
            (DaemonPhase::CopyingText, DaemonEvent::TextCopied(copied)) => {
                self.phase = DaemonPhase::Waiting;
                match copied {
                    Ok(()) => show_plain(
                        "RSnip OCR",
                        "✔ Texto extraído y copiado!",
                        ToastKind::Info,
                    ),
                    Err(error) => show_error(
                        "RSnip OCR",
                        "No se pudo copiar el texto: ",
                        &error,
                    ),
                }
            },
            _ => DaemonAction::Wait,
        }
    }

    /// A copy of what the daemon waits for.
    fn copy_phase(&self) -> (r: DaemonPhase)
        ensures
            r@ == self.phase@,
    {
        match &self.phase {
            DaemonPhase::Waiting => DaemonPhase::Waiting,
            DaemonPhase::Selecting(mode) => DaemonPhase::Selecting(*mode),
            DaemonPhase::Preparing(region) => DaemonPhase::Preparing(*region),
            DaemonPhase::StartingWorker(session) => DaemonPhase::StartingWorker(
                copy_session(session),
            ),
            DaemonPhase::StartingOverlay => DaemonPhase::StartingOverlay,
            DaemonPhase::Stopping => DaemonPhase::Stopping,
            DaemonPhase::CopyingFile(path) => DaemonPhase::CopyingFile(path.clone()),
            DaemonPhase::ShuttingDown => DaemonPhase::ShuttingDown,
            DaemonPhase::Snipping(selection) => DaemonPhase::Snipping(*selection),
            DaemonPhase::Editing => DaemonPhase::Editing,
            DaemonPhase::CopyingImage => DaemonPhase::CopyingImage,
            DaemonPhase::Reading(selection) => DaemonPhase::Reading(*selection),
            DaemonPhase::Recognizing => DaemonPhase::Recognizing,
            DaemonPhase::CopyingText => DaemonPhase::CopyingText,
            DaemonPhase::Ended => DaemonPhase::Ended,
        }
    }
}

// ---------------------------------------------------------------------------------------------
// Laws of the daemon
// ---------------------------------------------------------------------------------------------

/// Whether no recording is going on, and one can be started.
pub open spec fn at_rest(daemon: DaemonModel) -> bool {
    &&& can_start(daemon.recording)
    &&& !daemon.recording_active
    &&& !daemon.recording_worker
    &&& !daemon.recording_overlay
}

/// Whether a recording is going on, clients are told so, and the recorder is running.
pub open spec fn at_work(daemon: DaemonModel) -> bool {
    &&& daemon.recording is Recording
    &&& daemon.recording_active
    &&& daemon.recording_worker
}

/// Whether what the daemon remembers fits together.
pub open spec fn sound(daemon: DaemonModel) -> bool {
    match daemon.phase {
        PhaseModel::Selecting(SelectionMode::Record) => at_rest(daemon),
        PhaseModel::Preparing(_) => at_rest(daemon),
        PhaseModel::StartingWorker(session) => {
            &&& daemon.recording == ControllerModel::Recording(session)
            &&& !daemon.recording_active
            &&& !daemon.recording_worker
            &&& !daemon.recording_overlay
        },
        PhaseModel::StartingOverlay => {
            &&& daemon.recording is Recording
            &&& !daemon.recording_active
            &&& !daemon.recording_worker
            &&& !daemon.recording_overlay
        },
        PhaseModel::Stopping | PhaseModel::CopyingFile(_) => {
            &&& daemon.recording is Recording
            &&& daemon.recording_active
            &&& !daemon.recording_worker
            &&& !daemon.recording_overlay
        },
        PhaseModel::ShuttingDown => !daemon.recording_worker && !daemon.recording_overlay,
        PhaseModel::Ended => {
            &&& !daemon.recording_active
            &&& !daemon.recording_worker
            &&& !daemon.recording_overlay
        },
        _ => at_rest(daemon) || at_work(daemon),
    }
}

/// Whatever happens, what the daemon remembers fits together.
pub proof fn law_daemon_stays_sound(
    before: DaemonModel,
    event: DaemonEvent,
    after: DaemonModel,
    action: DaemonAction,
)
    requires
        sound(before),
        daemon_step(before, event, after, action),
    ensures
        sound(after),
{
}

/// The settings never change.
pub proof fn law_settings_are_kept(
    before: DaemonModel,
    event: DaemonEvent,
    after: DaemonModel,
    action: DaemonAction,
)
    requires
        daemon_step(before, event, after, action),
    ensures
        after.config == before.config,
{
}

/// While the daemon waits for a command, clients are told of a recording exactly if one is going
/// on.
pub proof fn law_recording_is_told_truly(daemon: DaemonModel)
    requires
        sound(daemon),
        daemon.phase is Waiting,
    ensures
        daemon.recording_active == (daemon.recording is Recording),
        daemon.recording_active == daemon.recording_worker,
        daemon.recording_overlay ==> daemon.recording_active,
{
}

/// The same command starts a recording if none is going on and stops the one that is.
pub proof fn law_record_command_toggles(
    before: DaemonModel,
    after: DaemonModel,
    action: DaemonAction,
)
    requires
        sound(before),
        before.phase is Waiting,
        daemon_step(before, DaemonEvent::Command(IpcCommand::Record), after, action),
    ensures
        before.recording is Recording ==> action == (DaemonAction::StopRecording {
            overlay: before.recording_overlay,
            worker: true,
        }),
        !(before.recording is Recording) ==> action == DaemonAction::Select(
            SelectionMode::Record,
        ),
{
}

/// Every recording is written to a file in the folder for recordings, and the folder is there before
/// the recorder starts.
pub proof fn law_recordings_are_saved_in_their_folder(
    before: DaemonModel,
    event: DaemonEvent,
    after: DaemonModel,
    session: RecordingSession,
)
    requires
        daemon_step(before, event, after, DaemonAction::StartWorker(session)),
    ensures
        event matches DaemonEvent::OutputPrepared(Ok(time)) && is_file_in(
            before.config.recording.save_folder@,
            recording_name(time),
            session.output_path@,
        ),
        after.recording == ControllerModel::Recording(session@),
{
}

/// However a stop ends, no recording is going on after it, and another one can be started.
pub proof fn law_stop_comes_to_rest(
    before: DaemonModel,
    event: DaemonEvent,
    after: DaemonModel,
    action: DaemonAction,
)
    requires
        sound(before),
        before.phase is Stopping || before.phase is CopyingFile,
        daemon_step(before, event, after, action),
        after.phase is Waiting,
    ensures
        at_rest(after),
{
}

/// A recording that was saved and copied is announced, and a click on the notice shows its file.
pub proof fn law_saved_recording_is_announced(
    before: DaemonModel,
    path: String,
    between: DaemonModel,
    copying: DaemonAction,
    after: DaemonModel,
    action: DaemonAction,
)
    requires
        before.phase is Stopping,
        daemon_step(before, DaemonEvent::WorkerStopped(Some(Ok(path))), between, copying),
        daemon_step(between, DaemonEvent::FileCopied(Ok(())), after, action),
    ensures
        copying matches DaemonAction::CopyFile(file) && file@ == path@,
        action matches DaemonAction::Show(toast) && toast@.kind == ToastKind::Info
            && toast@.action == ToastActionModel::OpenInExplorer(path@),
        after.phase is Waiting,
{
}

/// Where no region is picked, nothing happens.
pub proof fn law_no_selection_no_change(
    before: DaemonModel,
    outcome: Option<SelectionOutcome>,
    after: DaemonModel,
    action: DaemonAction,
)
    requires
        before.phase is Selecting,
        !(outcome matches Some(SelectionOutcome::Selected(_))),
        daemon_step(before, DaemonEvent::SelectionEnded(outcome), after, action),
    ensures
        action is Wait,
        after == in_phase(before, PhaseModel::Waiting),
{
}

/// With the shift key held the editor is opened and nothing is copied; without it the image is
/// copied. A region of the desktop that was captured is never refused.
pub proof fn law_shift_opens_the_editor(
    before: DaemonModel,
    selection: Selection,
    captured: Result<CapturedImage, RsnipError>,
    after: DaemonModel,
    action: DaemonAction,
)
    requires
        before.phase == PhaseModel::Snipping(selection),
        daemon_step(before, DaemonEvent::Captured(captured), after, action),
    ensures
        action is OpenEditor ==> selection.flags.shift_pressed,
        action is CopyImage ==> !selection.flags.shift_pressed,
        action is OpenEditor || action is CopyImage || action is Show,
        captured matches Ok(image) && image.wf() && rect_in_rect(
            image.spec_rect(),
            selection.region.spec_rect(),
        ) && region_inside(image, selection.region) && selection.region.width > 0
            && selection.region.height > 0 ==> !(action is Show),
{
    if let Ok(image) = captured {
        if image.wf() && region_inside(image, selection.region) {
            lemma_sub_image_len(
                image.width as int,
                image.height as int,
                selection.region.width as int,
                selection.region.height as int,
            );
            assert(image.bgra.len() == image.bgra@.len());
        }
    }
}

/// Snips and text recognition leave a recording alone.
pub proof fn law_snips_leave_recordings_alone(
    before: DaemonModel,
    event: DaemonEvent,
    after: DaemonModel,
    action: DaemonAction,
)
    requires
        before.phase is Snipping || before.phase is Editing || before.phase is CopyingImage
            || before.phase is Reading || before.phase is Recognizing || before.phase
            is CopyingText,
        daemon_step(before, event, after, action),
    ensures
        after == in_phase(before, after.phase),
{
}

/// Only a shutdown ends the daemon, and a shutdown always does, once the recorder has ended.
pub proof fn law_only_shutdown_ends(
    before: DaemonModel,
    event: DaemonEvent,
    after: DaemonModel,
    action: DaemonAction,
)
    requires
        daemon_step(before, event, after, action),
    ensures
        action is Exit ==> before.phase is ShuttingDown,
        after.phase is ShuttingDown && !(before.phase is ShuttingDown) ==> event
            == DaemonEvent::Command(IpcCommand::Shutdown),
        before.phase is Waiting && event == DaemonEvent::Command(IpcCommand::Shutdown)
            ==> after.phase is ShuttingDown,
        before.phase is ShuttingDown && event is WorkerStopped ==> action is Exit,
{
}

/// A snip ends with what was selected: of the desktop that was captured, the part that is copied or
/// edited shows, at each point of the selected region, what the desktop showed there.
pub proof fn law_snip_takes_what_was_selected(
    waiting: DaemonModel,
    selecting: DaemonModel,
    asked: DaemonAction,
    selection: Selection,
    snipping: DaemonModel,
    capturing: DaemonAction,
    image: CapturedImage,
    after: DaemonModel,
    action: DaemonAction,
    x: int,
    y: int,
)
    requires
        waiting.phase is Waiting,
        daemon_step(waiting, DaemonEvent::Command(IpcCommand::Snip), selecting, asked),
        daemon_step(
            selecting,
            DaemonEvent::SelectionEnded(Some(SelectionOutcome::Selected(selection))),
            snipping,
            capturing,
        ),
        daemon_step(snipping, DaemonEvent::Captured(Ok(image)), after, action),
        selection.region.x <= x < selection.region.x + selection.region.width,
        selection.region.y <= y < selection.region.y + selection.region.height,
    ensures
        asked == DaemonAction::Select(SelectionMode::Snip),
        capturing matches DaemonAction::Capture { focus, notice } && focus
            == selection.window_handle && notice is None,
        action matches DaemonAction::CopyImage(part) ==> !selection.flags.shift_pressed
            && part.full_region_spec() == selection.region && part.pixel_at(x, y) == image.pixel_at(
            x,
            y,
        ),
        action matches DaemonAction::OpenEditor(part) ==> selection.flags.shift_pressed
            && part.full_region_spec() == selection.region && part.pixel_at(x, y) == image.pixel_at(
            x,
            y,
        ),
{
    match action {
        DaemonAction::CopyImage(part) => {
            law_crop_keeps_pixels(image, selection.region, part, x, y);
        },
        DaemonAction::OpenEditor(part) => {
            law_crop_keeps_pixels(image, selection.region, part, x, y);
        },
        _ => {},
    }
}

/// Text recognition reads what was selected and copies exactly the text that was read; if there was
/// none, or reading failed, nothing is copied and a notice says so.
pub proof fn law_recognized_text_is_copied(
    before: DaemonModel,
    read: Result<OcrTextResult, OcrFailure>,
    after: DaemonModel,
    action: DaemonAction,
)
    requires
        before.phase is Recognizing,
        daemon_step(before, DaemonEvent::TextRead(read), after, action),
    ensures
        match read {
            Ok(OcrTextResult::Text(text)) => action matches DaemonAction::CopyText(copy) && copy@
                == text@,
            Ok(OcrTextResult::NoText) => action matches DaemonAction::Show(toast) && toast@.kind
                is Info,
            Err(_) => action matches DaemonAction::Show(toast) && toast@.kind is Error,
        },
        after.phase is CopyingText <==> action is CopyText,
{
}

/// A recording that is started records the selected region, but for an odd last column or row, at
/// the rate and with the encoder settings of the configuration, and its frame stands around the
/// same region and tells the same rate.
pub proof fn law_recording_records_what_was_selected(
    before: DaemonModel,
    region: CaptureRegion,
    time: LocalTime,
    starting: DaemonModel,
    session: RecordingSession,
    after: DaemonModel,
    action: DaemonAction,
)
    requires
        before.phase == PhaseModel::Preparing(region),
        daemon_step(
            before,
            DaemonEvent::OutputPrepared(Ok(time)),
            starting,
            DaemonAction::StartWorker(session),
        ),
        daemon_step(starting, DaemonEvent::WorkerStarted(Ok(())), after, action),
    ensures
        session@.region.x == region.x && session@.region.y == region.y,
        region.width - 1 <= session@.region.width <= region.width,
        region.height - 1 <= session@.region.height <= region.height,
        session@.region.width % 2 == 0 && session@.region.height % 2 == 0,
        session@.config.fps == before.config.recording.fps,
        session@.config.codec == before.config.recording.codec@,
        session@.config.crf == before.config.recording.crf,
        session@.config.preset == before.config.recording.preset@,
        action matches DaemonAction::StartOverlay { region: framed, status } && framed
            == session@.region && status.fps == session@.config.fps && status.elapsed.nanos() == 0,
        starting.recording == ControllerModel::Recording(session@),
{
}

/// A failure is told by a notice of an error that holds the text of the failure; success is told by
/// one that is no error.
pub proof fn law_failures_are_told_with_their_text(
    before: DaemonModel,
    event: DaemonEvent,
    after: DaemonModel,
    toast: Toast,
)
    requires
        daemon_step(before, event, after, DaemonAction::Show(toast)),
    ensures
        event matches DaemonEvent::ImageCopied(Ok(path)) ==> toast@.kind is Info && toast@.action
            == ToastActionModel::OpenEditor(path@),
        event matches DaemonEvent::ImageCopied(Err(error)) ==> toast@.kind is Error
            && error.text().is_suffix_of(toast@.message),
        event matches DaemonEvent::FileCopied(Err(error)) ==> toast@.kind is Error
            && error.text().is_suffix_of(toast@.message),
        event matches DaemonEvent::TextCopied(Err(error)) ==> toast@.kind is Error
            && error.text().is_suffix_of(toast@.message),
        event matches DaemonEvent::TextCopied(Ok(())) ==> toast@.kind is Info,
        event matches DaemonEvent::WorkerStarted(Err(error)) ==> toast@.kind is Error
            && error.text().is_suffix_of(toast@.message),
        event matches DaemonEvent::WorkerStopped(Some(Err(error))) ==> toast@.kind is Error
            && error.text().is_suffix_of(toast@.message),
        event matches DaemonEvent::EditorClosed(Err(error)) ==> toast@.kind is Error
            && error.text().is_suffix_of(toast@.message),
        event matches DaemonEvent::Captured(Err(error)) ==> toast@.kind is Error
            && error.text().is_suffix_of(toast@.message),
        toast@.kind is Error ==> toast@.action is Nothing,
{
    lemma_suffix("No se pudo copiar el recorte: "@);
    lemma_suffix("No se pudo copiar el video: "@);
    lemma_suffix("No se pudo copiar el texto: "@);
    lemma_suffix("No se pudo iniciar la grabación: "@);
    lemma_suffix("No se pudo guardar el video: "@);
    lemma_suffix("Error OCR: "@);
}

proof fn lemma_suffix(front: Seq<char>)
    ensures
        forall|text: Seq<char>| text.is_suffix_of(#[trigger] (front + text)),
{
    assert forall|text: Seq<char>| text.is_suffix_of(#[trigger] (front + text)) by {
        let whole = front + text;
        assert(whole.subrange(whole.len() - text.len(), whole.len() as int) =~= text);
    }
}

} // verus!
