use rsnip::config::Config;
use rsnip::daemon::{DaemonAction, DaemonEvent, DaemonPhase, DaemonState};
use rsnip::errors::RsnipError;
use rsnip::ipc::IpcCommand;
use rsnip::ocr::{OcrFailure, OcrTextResult};
use rsnip::overlay::selection::{
    Selection, SelectionCancelReason, SelectionFlags, SelectionMode, SelectionOutcome,
};
use rsnip::overlay::toast::{Toast, ToastAction, ToastKind};
use rsnip::paths::LocalTime;
use rsnip::recording::RecordingLifecycle;
use rsnip::screen::capture::{CaptureRegion, CapturedImage};
use rsnip::screen::windows::SelectableWindowHandle;
use std::path::Path;

fn daemon() -> DaemonState {
    DaemonState::new(Config::defaults_with_video_dir("C:/Videos".to_owned()))
}

fn command(daemon: &mut DaemonState, command: IpcCommand) -> DaemonAction {
    daemon.dispatch_daemon_command(DaemonEvent::Command(command))
}

fn selection(mode: SelectionMode, shift: bool) -> Selection {
    Selection {
        mode,
        region: CaptureRegion::new(1, 1, 2, 2).unwrap(),
        flags: SelectionFlags::new(shift),
        window_handle: Some(SelectableWindowHandle(5)),
    }
}

fn select(daemon: &mut DaemonState, mode: SelectionMode, shift: bool) -> DaemonAction {
    daemon.dispatch_daemon_command(DaemonEvent::SelectionEnded(Some(SelectionOutcome::Selected(
        selection(mode, shift),
    ))))
}

fn desktop() -> CapturedImage {
    let mut bgra = Vec::new();
    for i in 0..16u8 {
        bgra.extend_from_slice(&[i, i, i, 255]);
    }
    CapturedImage::new(0, 0, 4, 4, bgra).unwrap()
}

fn cropped() -> CapturedImage {
    desktop().crop(CaptureRegion::new(1, 1, 2, 2).unwrap()).unwrap()
}

fn morning() -> LocalTime {
    LocalTime { year: 2026, month: 4, day: 5, hour: 9, minute: 5, second: 7 }
}

fn failure(text: &str) -> RsnipError {
    RsnipError::Message(text.to_owned())
}

fn shown(action: DaemonAction) -> Toast {
    match action {
        DaemonAction::Show(toast) => toast,
        other => panic!("expected a notice, got {other:?}"),
    }
}

fn recording() -> DaemonState {
    let mut daemon = daemon();
    command(&mut daemon, IpcCommand::Record);
    select(&mut daemon, SelectionMode::Record, false);
    daemon.dispatch_daemon_command(DaemonEvent::OutputPrepared(Ok(morning())));
    daemon.dispatch_daemon_command(DaemonEvent::WorkerStarted(Ok(())));
    daemon.dispatch_daemon_command(DaemonEvent::OverlayStarted(true));
    daemon
}

#[test]
fn a_snip_is_copied_and_announced() {
    let mut daemon = daemon();
    assert_eq!(
        command(&mut daemon, IpcCommand::Snip),
        DaemonAction::Select(SelectionMode::Snip)
    );
    assert_eq!(
        select(&mut daemon, SelectionMode::Snip, false),
        DaemonAction::Capture { focus: Some(SelectableWindowHandle(5)), notice: None }
    );
    assert_eq!(daemon.pending_region(), Some(selection(SelectionMode::Snip, false).region));
    assert_eq!(
        daemon.dispatch_daemon_command(DaemonEvent::Captured(Ok(desktop()))),
        DaemonAction::CopyImage(cropped())
    );
    let toast = shown(
        daemon.dispatch_daemon_command(DaemonEvent::ImageCopied(Ok("C:/t/a.png".to_owned()))),
    );
    assert_eq!(toast.message.0, "✔  Copiado al portapapeles (Click para editar)");
    assert_eq!(toast.action, ToastAction::OpenEditor("C:/t/a.png".to_owned()));
    assert_eq!(daemon.phase, DaemonPhase::Waiting);
}

#[test]
fn shift_opens_the_editor_instead() {
    let mut daemon = daemon();
    command(&mut daemon, IpcCommand::Snip);
    select(&mut daemon, SelectionMode::Snip, true);
    assert_eq!(
        daemon.dispatch_daemon_command(DaemonEvent::Captured(Ok(desktop()))),
        DaemonAction::OpenEditor(cropped())
    );
    assert_eq!(
        daemon.dispatch_daemon_command(DaemonEvent::EditorClosed(Ok(()))),
        DaemonAction::Wait
    );
}

#[test]
fn a_failed_snip_is_told() {
    let mut daemon = daemon();
    command(&mut daemon, IpcCommand::Snip);
    select(&mut daemon, SelectionMode::Snip, false);
    let toast = shown(daemon.dispatch_daemon_command(DaemonEvent::Captured(Err(failure("dark")))));
    assert_eq!(toast.title, "RSnip error");
    assert_eq!(toast.message.0, "No se pudo copiar el recorte: dark");
    assert_eq!(toast.kind, ToastKind::Error);
    assert_eq!(daemon.phase, DaemonPhase::Waiting);

    command(&mut daemon, IpcCommand::Snip);
    select(&mut daemon, SelectionMode::Snip, false);
    let small = CapturedImage::new(0, 0, 2, 2, vec![0; 16]).unwrap();
    let toast = shown(daemon.dispatch_daemon_command(DaemonEvent::Captured(Ok(small))));
    assert!(toast.message.0.starts_with("No se pudo copiar el recorte: crop region "));

    command(&mut daemon, IpcCommand::Snip);
    select(&mut daemon, SelectionMode::Snip, true);
    daemon.dispatch_daemon_command(DaemonEvent::Captured(Ok(desktop())));
    let toast =
        shown(daemon.dispatch_daemon_command(DaemonEvent::EditorClosed(Err(failure("exit")))));
    assert_eq!(toast.message.0, "No se pudo copiar el recorte: exit");
}

#[test]
fn a_cancelled_selection_changes_nothing() {
    for outcome in [
        None,
        Some(SelectionOutcome::Cancelled(SelectionCancelReason::Escape)),
        Some(SelectionOutcome::Failed("no screen".to_owned())),
    ] {
        let mut daemon = daemon();
        let before = daemon.clone();
        command(&mut daemon, IpcCommand::Ocr);
        assert_eq!(
            daemon.dispatch_daemon_command(DaemonEvent::SelectionEnded(outcome)),
            DaemonAction::Wait
        );
        assert_eq!(daemon, before);
    }
}

#[test]
fn text_is_read_copied_and_announced() {
    let mut daemon = daemon();
    command(&mut daemon, IpcCommand::Ocr);
    match select(&mut daemon, SelectionMode::Ocr, false) {
        DaemonAction::Capture { focus, notice: Some(toast) } => {
            assert_eq!(focus, Some(SelectableWindowHandle(5)));
            assert_eq!(toast.title, "RSnip OCR");
            assert_eq!(toast.message.0, "⚙ Extrayendo texto...");
        }
        other => panic!("expected a capture, got {other:?}"),
    }
    assert_eq!(
        daemon.dispatch_daemon_command(DaemonEvent::Captured(Ok(desktop()))),
        DaemonAction::ReadText(cropped())
    );
    assert_eq!(
        daemon.dispatch_daemon_command(DaemonEvent::TextRead(Ok(OcrTextResult::Text(
            "hola".to_owned()
        )))),
        DaemonAction::CopyText("hola".to_owned())
    );
    let toast = shown(daemon.dispatch_daemon_command(DaemonEvent::TextCopied(Ok(()))));
    assert_eq!(toast.message.0, "✔ Texto extraído y copiado!");
    assert_eq!(toast.kind, ToastKind::Info);
}

#[test]
fn text_that_is_not_read_is_told() {
    let notice = |read: Result<OcrTextResult, OcrFailure>| {
        let mut daemon = daemon();
        command(&mut daemon, IpcCommand::Ocr);
        select(&mut daemon, SelectionMode::Ocr, false);
        daemon.dispatch_daemon_command(DaemonEvent::Captured(Ok(desktop())));
        shown(daemon.dispatch_daemon_command(DaemonEvent::TextRead(read)))
    };
    assert_eq!(
        notice(Ok(OcrTextResult::NoText)).message.0,
        "⚠ No se encontró texto claro"
    );
    let toast = notice(Err(OcrFailure::Tesseract(failure("missing"))));
    assert_eq!(toast.message.0, "✘ Error: ¿Tienes instalado Tesseract-OCR?");
    assert_eq!(toast.kind, ToastKind::Error);
    assert_eq!(
        notice(Err(OcrFailure::Preparing(failure("disk full")))).message.0,
        "Error OCR: disk full"
    );
    let mut daemon = daemon();
    command(&mut daemon, IpcCommand::Ocr);
    select(&mut daemon, SelectionMode::Ocr, false);
    daemon.dispatch_daemon_command(DaemonEvent::Captured(Ok(desktop())));
    daemon.dispatch_daemon_command(DaemonEvent::TextRead(Ok(OcrTextResult::Text(
        "hola".to_owned(),
    ))));
    let toast = shown(daemon.dispatch_daemon_command(DaemonEvent::TextCopied(Err(failure("busy")))));
    assert_eq!(toast.message.0, "No se pudo copiar el texto: busy");
}

#[test]
fn a_recording_is_started() {
    let mut daemon = daemon();
    assert_eq!(
        command(&mut daemon, IpcCommand::Record),
        DaemonAction::Select(SelectionMode::Record)
    );
    assert_eq!(
        select(&mut daemon, SelectionMode::Record, false),
        DaemonAction::PrepareOutput { folder: "C:/Videos".to_owned() }
    );
    match daemon.dispatch_daemon_command(DaemonEvent::OutputPrepared(Ok(morning()))) {
        DaemonAction::StartWorker(session) => {
            let path = Path::new("C:/Videos").join("Recording_20260405_090507.mp4");
            assert_eq!(Path::new(&session.output_path), path);
            assert_eq!(session.region, CaptureRegion::new(1, 1, 2, 2).unwrap());
        }
        other => panic!("expected a start, got {other:?}"),
    }
    match daemon.dispatch_daemon_command(DaemonEvent::WorkerStarted(Ok(()))) {
        DaemonAction::StartOverlay { region, status } => {
            assert_eq!(region, CaptureRegion::new(1, 1, 2, 2).unwrap());
            assert_eq!(status.fps, 30);
            assert_eq!(status.elapsed.as_nanos(), 0);
        }
        other => panic!("expected a frame, got {other:?}"),
    }
    assert!(!daemon.recording_active);
    assert_eq!(
        daemon.dispatch_daemon_command(DaemonEvent::OverlayStarted(false)),
        DaemonAction::Wait
    );
    assert!(daemon.recording_active && daemon.recording_worker && !daemon.recording_overlay);
}

#[test]
fn the_same_command_stops_a_recording() {
    let mut daemon = recording();
    assert_eq!(
        command(&mut daemon, IpcCommand::Record),
        DaemonAction::StopRecording { overlay: true, worker: true }
    );
    assert_eq!(
        daemon.dispatch_daemon_command(DaemonEvent::WorkerStopped(Some(Ok(
            "C:/Videos/a.mp4".to_owned()
        )))),
        DaemonAction::CopyFile("C:/Videos/a.mp4".to_owned())
    );
    assert!(daemon.recording_active);
    let toast = shown(daemon.dispatch_daemon_command(DaemonEvent::FileCopied(Ok(()))));
    assert_eq!(toast.message.0, "Video guardado y copiado — Click para abrir ubicación");
    assert_eq!(toast.action, ToastAction::OpenInExplorer("C:/Videos/a.mp4".to_owned()));
    assert!(!daemon.recording_active);
    assert_eq!(daemon.recording.lifecycle(), RecordingLifecycle::Idle);
    assert_eq!(
        command(&mut daemon, IpcCommand::Record),
        DaemonAction::Select(SelectionMode::Record)
    );
}

#[test]
fn recordings_that_fail_are_told() {
    let mut daemon = recording();
    command(&mut daemon, IpcCommand::Record);
    let toast = shown(
        daemon.dispatch_daemon_command(DaemonEvent::WorkerStopped(Some(Err(failure("codec"))))),
    );
    assert_eq!(toast.message.0, "No se pudo guardar el video: codec");
    assert_eq!(daemon.recording.lifecycle(), RecordingLifecycle::Failed);

    let mut daemon = recording();
    command(&mut daemon, IpcCommand::Record);
    daemon.dispatch_daemon_command(DaemonEvent::WorkerStopped(Some(Ok("a.mp4".to_owned()))));
    let toast = shown(daemon.dispatch_daemon_command(DaemonEvent::FileCopied(Err(failure("busy")))));
    assert_eq!(toast.message.0, "No se pudo copiar el video: busy");
    assert_eq!(daemon.recording.lifecycle(), RecordingLifecycle::Idle);
}

#[test]
fn starts_that_fail_can_be_tried_again() {
    let mut daemon = daemon();
    command(&mut daemon, IpcCommand::Record);
    select(&mut daemon, SelectionMode::Record, false);
    daemon.dispatch_daemon_command(DaemonEvent::OutputPrepared(Ok(morning())));
    let toast =
        shown(daemon.dispatch_daemon_command(DaemonEvent::WorkerStarted(Err(failure("ffmpeg")))));
    assert_eq!(toast.message.0, "No se pudo iniciar la grabación: ffmpeg");
    assert_eq!(daemon.recording.lifecycle(), RecordingLifecycle::Failed);
    command(&mut daemon, IpcCommand::Record);
    select(&mut daemon, SelectionMode::Record, false);
    assert_eq!(
        daemon.dispatch_daemon_command(DaemonEvent::OutputPrepared(Err(failure("no folder")))),
        DaemonAction::Wait
    );
    assert_eq!(daemon.recording.lifecycle(), RecordingLifecycle::Failed);
    assert_eq!(
        command(&mut daemon, IpcCommand::Record),
        DaemonAction::Select(SelectionMode::Record)
    );
}

#[test]
fn a_region_that_is_too_small_is_not_recorded() {
    let mut daemon = daemon();
    command(&mut daemon, IpcCommand::Record);
    let thin = Selection {
        region: CaptureRegion::new(0, 0, 1, 9).unwrap(),
        ..selection(SelectionMode::Record, false)
    };
    let action = daemon.dispatch_daemon_command(DaemonEvent::SelectionEnded(Some(
        SelectionOutcome::Selected(thin),
    )));
    assert_eq!(action, DaemonAction::Wait);
    assert_eq!(daemon.recording.lifecycle(), RecordingLifecycle::Failed);
    assert_eq!(daemon.phase, DaemonPhase::Waiting);
}

#[test]
fn a_snip_leaves_a_recording_alone() {
    let mut daemon = recording();
    let before = daemon.clone();
    command(&mut daemon, IpcCommand::Snip);
    select(&mut daemon, SelectionMode::Snip, false);
    daemon.dispatch_daemon_command(DaemonEvent::Captured(Ok(desktop())));
    daemon.dispatch_daemon_command(DaemonEvent::ImageCopied(Err(failure("busy"))));
    assert_eq!(daemon, before);
}

#[test]
fn a_shutdown_ends_the_daemon() {
    let mut daemon = recording();
    assert_eq!(
        command(&mut daemon, IpcCommand::Shutdown),
        DaemonAction::StopRecording { overlay: true, worker: true }
    );
    assert_eq!(
        daemon.dispatch_daemon_command(DaemonEvent::WorkerStopped(Some(Err(failure("codec"))))),
        DaemonAction::Exit
    );
    assert!(!daemon.recording_active);
    assert_eq!(daemon.phase, DaemonPhase::Ended);
}

#[test]
fn an_event_that_nobody_waits_for_changes_nothing() {
    let mut daemon = recording();
    let before = daemon.clone();
    assert_eq!(
        daemon.dispatch_daemon_command(DaemonEvent::TextCopied(Ok(()))),
        DaemonAction::Wait
    );
    assert_eq!(daemon, before);
}
