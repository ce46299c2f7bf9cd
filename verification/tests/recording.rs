use rsnip::config::RecordingConfig;
use rsnip::errors::RsnipError;
use rsnip::overlay::recording::{
    overlay_text, poll_recording_overlay_command, recording_overlay_layout, RecordingOverlayAction,
    RecordingOverlayCommand, RecordingOverlayStatus,
};
use rsnip::paths::{recording_output_file, LocalTime};
use rsnip::recording::cursor::{
    draw_current_cursor_on_bgra_frame, draw_cursor_on_bgra_frame, CursorFramePosition,
    CursorScreenPosition, CursorVisibility,
};
use rsnip::recording::encoder::{check_frame_size, finish_result, FfmpegCommandSpec};
use rsnip::recording::worker::{WorkerAction, WorkerEvent, WorkerState};
use rsnip::recording::{
    even_sized_recording_region, expected_frame_count, final_padding_frames,
    frames_to_duplicate_before_capture, session_output_file, EffectiveRecordingConfig, PacerStep,
    RecordingController, RecordingLifecycle, RecordingPacer,
};
use rsnip::screen::capture::{CaptureRegion, CapturedImage};
use rsnip::time::Elapsed;

fn settings() -> RecordingConfig {
    RecordingConfig::defaults_with_save_folder("C:/Videos".to_owned())
}

fn noon() -> LocalTime {
    LocalTime { year: 2024, month: 2, day: 3, hour: 12, minute: 4, second: 5 }
}

#[test]
fn resolves_cursor_inside_region_to_local_coordinates() {
    let region = CaptureRegion::new(100, 200, 300, 400).expect("valid region");
    let position = CursorScreenPosition { x: 125, y: 240 };
    assert_eq!(
        position.resolve_in_region(region),
        CursorVisibility::Inside(CursorFramePosition { x: 25, y: 40 })
    );
}

#[test]
fn resolves_negative_region_coordinates() {
    let region = CaptureRegion::new(-500, -100, 300, 200).expect("valid region");
    let position = CursorScreenPosition { x: -450, y: -50 };
    assert_eq!(
        position.resolve_in_region(region),
        CursorVisibility::Inside(CursorFramePosition { x: 50, y: 50 })
    );
}

#[test]
fn right_and_bottom_edges_are_outside() {
    let region = CaptureRegion::new(10, 20, 30, 40).expect("valid region");
    assert_eq!(
        CursorScreenPosition { x: 10, y: 20 }.resolve_in_region(region),
        CursorVisibility::Inside(CursorFramePosition { x: 0, y: 0 })
    );
    assert_eq!(
        CursorScreenPosition { x: 39, y: 59 }.resolve_in_region(region),
        CursorVisibility::Inside(CursorFramePosition { x: 29, y: 39 })
    );
    assert_eq!(
        CursorScreenPosition { x: 40, y: 59 }.resolve_in_region(region),
        CursorVisibility::Outside
    );
    assert_eq!(
        CursorScreenPosition { x: 39, y: 60 }.resolve_in_region(region),
        CursorVisibility::Outside
    );
}

#[test]
fn cursor_draw_clips_at_frame_edges() {
    let mut frame = vec![128; 4 * 4 * 4];
    draw_cursor_on_bgra_frame(&mut frame, 4, 4, CursorFramePosition { x: 2, y: 2 })
        .expect("cursor draws");
    assert!(frame.chunks_exact(4).any(|pixel| pixel == [0, 0, 0, 255]));
    assert_eq!(frame.len(), 4 * 4 * 4);
}

#[test]
fn cursor_draw_rejects_invalid_buffer_length() {
    let mut frame = vec![0; 3];
    assert!(
        draw_cursor_on_bgra_frame(&mut frame, 10, 10, CursorFramePosition { x: 0, y: 0 }).is_err()
    );
}

#[test]
fn a_cursor_outside_leaves_the_frame_alone() {
    let region = CaptureRegion::new(0, 0, 4, 4).unwrap();
    let mut frame = vec![128u8; 64];
    let away = Ok(CursorScreenPosition { x: 4, y: 0 });
    assert_eq!(
        draw_current_cursor_on_bgra_frame(&mut frame, 4, 4, region, away).unwrap(),
        CursorVisibility::Outside
    );
    assert_eq!(frame, vec![128u8; 64]);
    let unknown = Err("denied".to_owned());
    assert!(draw_current_cursor_on_bgra_frame(&mut frame, 4, 4, region, unknown).is_err());
}

#[test]
fn builds_ffmpeg_rawvideo_command() {
    let mut source = RecordingConfig::defaults_with_save_folder("C:/Videos".into());
    source.ffmpeg_path = Some("C:/Tools/ffmpeg.exe".into());
    let config = EffectiveRecordingConfig::from_config(&source).expect("valid config");
    let region = CaptureRegion::new(0, 0, 640, 480).expect("valid region");

    let spec = FfmpegCommandSpec::new(region, &config, "C:/Videos/out.mp4");

    assert_eq!(spec.executable, "C:/Tools/ffmpeg.exe");
    assert!(
        spec.args
            .windows(2)
            .any(|pair| pair[0] == "-f" && pair[1] == "rawvideo")
    );
    assert!(
        spec.args
            .windows(2)
            .any(|pair| pair[0] == "-pixel_format" && pair[1] == "bgra")
    );
    assert!(
        spec.args
            .windows(2)
            .any(|pair| pair[0] == "-video_size" && pair[1] == "640x480")
    );
    assert!(
        spec.args
            .windows(2)
            .any(|pair| pair[0] == "-framerate" && pair[1] == "30")
    );
    assert_eq!(spec.args.last().expect("output path"), "C:/Videos/out.mp4");
}

#[test]
fn the_encoder_is_looked_up_by_name_unless_configured() {
    let config = EffectiveRecordingConfig::from_config(&settings()).unwrap();
    let region = CaptureRegion::new(0, 0, 2, 2).unwrap();
    assert_eq!(FfmpegCommandSpec::new(region, &config, "a.mp4").executable, "ffmpeg.exe");
}

#[test]
fn frames_have_to_be_whole() {
    let region = CaptureRegion::new(0, 0, 2, 3).unwrap();
    assert!(check_frame_size(region, 24).is_ok());
    assert_eq!(
        check_frame_size(region, 23).unwrap_err().to_string(),
        "invalid recording frame size: expected 24 bytes, got 23"
    );
}

#[test]
fn a_failed_encoder_tells_its_messages() {
    let done = finish_result(
        true,
        "exit code: 0".to_owned(),
        String::new(),
        "a.mp4".to_owned(),
        None,
    );
    assert_eq!(done.unwrap().output_path, "a.mp4");
    let failed = finish_result(
        false,
        "exit code: 1".to_owned(),
        "no codec".to_owned(),
        "a.mp4".to_owned(),
        None,
    );
    assert_eq!(
        failed.unwrap_err().to_string(),
        "ffmpeg failed with status exit code: 1: no codec"
    );
}

#[test]
fn recording_controller_transitions_start_and_stop() {
    let mut controller = RecordingController::new();
    let config = settings();
    let region = CaptureRegion::new(10, 20, 300, 200).expect("valid region");
    let output_path = session_output_file(&config, noon());
    assert_eq!(output_path, recording_output_file("C:/Videos", noon()));

    let session = controller
        .start_stub(region, &config, Ok(noon()))
        .expect("recording starts");
    assert_eq!(controller.lifecycle(), RecordingLifecycle::Recording);
    assert_eq!(session.region, region);
    assert_eq!(session.output_path, output_path);

    let stopped = controller.stop_stub().expect("recording stops");
    assert_eq!(stopped.expect("active session returned").region, region);
    assert_eq!(controller.lifecycle(), RecordingLifecycle::Idle);
}

#[test]
fn recording_controller_rejects_double_start() {
    let mut controller = RecordingController::new();
    let config = settings();
    let region = CaptureRegion::new(0, 0, 100, 100).expect("valid region");

    controller
        .start_stub(region, &config, Ok(noon()))
        .expect("first start succeeds");
    assert!(controller
        .start_stub(region, &config, Ok(noon()))
        .is_err());
}

#[test]
fn a_failed_recorder_can_start_again() {
    let mut controller = RecordingController::default();
    controller.mark_failed("no encoder".to_owned());
    assert_eq!(controller.lifecycle(), RecordingLifecycle::Failed);
    assert_eq!(controller.stop_stub().unwrap(), None);
    let region = CaptureRegion::new(0, 0, 100, 100).unwrap();
    assert!(controller.start_stub(region, &settings(), Ok(noon())).is_ok());
    assert!(controller.is_recording());
}

#[test]
fn a_start_with_bad_settings_is_refused() {
    let mut controller = RecordingController::new();
    let mut config = settings();
    config.fps = 0;
    let region = CaptureRegion::new(0, 0, 100, 100).unwrap();
    assert!(matches!(
        controller.start_stub(region, &config, Ok(noon())),
        Err(RsnipError::InvalidConfig { .. })
    ));
    let thin = CaptureRegion::new(3, 4, 1, 100).unwrap();
    assert_eq!(
        controller.start_stub(thin, &settings(), Ok(noon())).unwrap_err().to_string(),
        "recording region is too small after encoder alignment: 1x100 at 3,4"
    );
    assert_eq!(controller.lifecycle(), RecordingLifecycle::Idle);
}

#[test]
fn recording_region_is_aligned_to_even_dimensions_for_yuv420p() {
    let region = CaptureRegion::new(10, 20, 121, 95).expect("valid region");
    let aligned = even_sized_recording_region(region).expect("aligned region");
    assert_eq!(aligned.x, 10);
    assert_eq!(aligned.y, 20);
    assert_eq!(aligned.width, 120);
    assert_eq!(aligned.height, 94);
}

#[test]
fn expected_frame_count_uses_wall_clock_without_drift() {
    assert_eq!(expected_frame_count(Elapsed::zero(), 30), 0);
    assert_eq!(expected_frame_count(Elapsed::from_millis(1), 30), 1);
    assert_eq!(expected_frame_count(Elapsed::from_secs(5), 30), 150);
    assert_eq!(expected_frame_count(Elapsed::from_millis(5_001), 30), 151);
}

#[test]
fn duplicate_count_leaves_room_for_fresh_capture() {
    assert_eq!(frames_to_duplicate_before_capture(10, 15, true), 4);
    assert_eq!(frames_to_duplicate_before_capture(10, 11, true), 0);
    assert_eq!(frames_to_duplicate_before_capture(10, 15, false), 0);
}

#[test]
fn final_padding_duplicates_until_expected_frame_count() {
    assert_eq!(final_padding_frames(148, 150, true), 2);
    assert_eq!(final_padding_frames(150, 150, true), 0);
    assert_eq!(final_padding_frames(0, 5, false), 0);
}

#[test]
fn a_slow_recording_catches_up_with_the_clock() {
    let mut pacer = RecordingPacer::new(30);
    assert_eq!(pacer.next_step(Elapsed::zero()), PacerStep::Capture { duplicates: 0 });
    pacer.wrote_capture();
    assert_eq!(pacer.next_step(Elapsed::zero()), PacerStep::Wait);
    let late = Elapsed::from_millis(500);
    assert_eq!(pacer.next_step(late), PacerStep::Capture { duplicates: 13 });
    for _ in 0..13 {
        pacer.wrote_duplicate();
    }
    pacer.wrote_capture();
    assert_eq!(pacer.next_step(late), PacerStep::Wait);
    let end = Elapsed::from_secs(1);
    let padding = pacer.final_padding(end);
    for _ in 0..padding {
        pacer.wrote_duplicate();
    }
    let metrics = pacer.metrics(end);
    assert_eq!(metrics.frames_written, 30);
    assert_eq!(metrics.duplicate_frames, 28);
    assert_eq!(metrics.target_fps, 30);
}

fn captured(width: u32, height: u32, value: u8) -> WorkerEvent {
    let bytes = vec![value; (4 * width * height) as usize];
    WorkerEvent::Captured {
        image: CapturedImage::new(0, 0, width, height, bytes),
        pointer: Ok(CursorScreenPosition { x: -5, y: -5 }),
    }
}

fn looked(millis: u64) -> WorkerEvent {
    WorkerEvent::Looked { stop: false, elapsed: Elapsed::from_millis(millis) }
}

#[test]
fn a_recorder_keeps_time() {
    let region = CaptureRegion::new(0, 0, 4, 2).unwrap();
    let mut worker = WorkerState::new(region, 10);
    assert_eq!(worker.run_recording_worker(looked(0)), WorkerAction::Capture);
    assert_eq!(worker.run_recording_worker(captured(4, 2, 7)), WorkerAction::Write);
    assert_eq!(worker.frame, vec![7; 32]);
    assert_eq!(worker.run_recording_worker(WorkerEvent::Wrote(Ok(()))), WorkerAction::Look);
    assert_eq!(worker.run_recording_worker(looked(50)), WorkerAction::Wait);
    assert_eq!(
        worker.run_recording_worker(WorkerEvent::Waited { stop: false }),
        WorkerAction::Look
    );
    assert_eq!(worker.run_recording_worker(looked(350)), WorkerAction::Write);
    assert_eq!(worker.frame, vec![7; 32]);
    assert_eq!(worker.run_recording_worker(WorkerEvent::Wrote(Ok(()))), WorkerAction::Write);
    assert_eq!(worker.run_recording_worker(WorkerEvent::Wrote(Ok(()))), WorkerAction::Capture);
    assert_eq!(worker.run_recording_worker(captured(4, 2, 9)), WorkerAction::Write);
    assert_eq!(worker.frame, vec![9; 32]);
    assert_eq!(worker.run_recording_worker(WorkerEvent::Wrote(Ok(()))), WorkerAction::Look);
    assert_eq!(worker.run_recording_worker(looked(390)), WorkerAction::Wait);
    assert_eq!(
        worker.run_recording_worker(WorkerEvent::Waited { stop: true }),
        WorkerAction::Time
    );
    let end = Elapsed::from_millis(600);
    assert_eq!(worker.run_recording_worker(WorkerEvent::Timed(end)), WorkerAction::Write);
    assert_eq!(worker.run_recording_worker(WorkerEvent::Wrote(Ok(()))), WorkerAction::Write);
    match worker.run_recording_worker(WorkerEvent::Wrote(Ok(()))) {
        WorkerAction::Finish(metrics) => {
            assert_eq!(metrics.frames_written, 6);
            assert_eq!(metrics.duplicate_frames, 4);
            assert_eq!(metrics.target_fps, 10);
            assert_eq!(metrics.elapsed, end);
        }
        _ => panic!("expected the end"),
    }
    assert_eq!(worker.run_recording_worker(looked(700)), WorkerAction::Ignore);
}

#[test]
fn a_recorder_that_is_stopped_at_once_writes_nothing() {
    let region = CaptureRegion::new(0, 0, 4, 2).unwrap();
    let mut worker = WorkerState::new(region, 0);
    let stopped = WorkerEvent::Looked { stop: true, elapsed: Elapsed::zero() };
    assert_eq!(worker.run_recording_worker(stopped), WorkerAction::Time);
    match worker.run_recording_worker(WorkerEvent::Timed(Elapsed::from_secs(3))) {
        WorkerAction::Finish(metrics) => {
            assert_eq!(metrics.frames_written, 0);
            assert_eq!(metrics.target_fps, 1);
        }
        _ => panic!("expected the end"),
    }
}

#[test]
fn a_recorder_gives_up_on_a_failure() {
    let region = CaptureRegion::new(0, 0, 4, 2).unwrap();
    let start = || {
        let mut worker = WorkerState::new(region, 10);
        assert_eq!(worker.run_recording_worker(looked(0)), WorkerAction::Capture);
        worker
    };
    let problem = |event: WorkerEvent| match start().run_recording_worker(event) {
        WorkerAction::Fail(error) => error.to_string(),
        _ => panic!("expected a failure"),
    };
    assert_eq!(
        problem(captured(2, 2, 1)),
        "invalid recording frame size: expected 32 bytes, got 16"
    );
    assert_eq!(
        problem(WorkerEvent::Captured {
            image: Err(RsnipError::Message("dark".to_owned())),
            pointer: Err("lost".to_owned()),
        }),
        "dark"
    );
    assert_eq!(
        problem(WorkerEvent::Captured {
            image: CapturedImage::new(0, 0, 4, 2, vec![0; 32]),
            pointer: Err("lost".to_owned()),
        }),
        "failed to read cursor position: lost"
    );
    let mut worker = start();
    assert_eq!(worker.run_recording_worker(captured(4, 2, 1)), WorkerAction::Write);
    let torn = || WorkerEvent::Wrote(Err(RsnipError::Message("torn".to_owned())));
    assert_eq!(
        worker.run_recording_worker(torn()),
        WorkerAction::Fail(RsnipError::Message("torn".to_owned()))
    );
    assert_eq!(worker.run_recording_worker(torn()), WorkerAction::Ignore);
}

#[test]
fn a_recorder_draws_the_pointer() {
    let region = CaptureRegion::new(10, 10, 40, 40).unwrap();
    let mut worker = WorkerState::new(region, 10);
    assert_eq!(worker.run_recording_worker(looked(0)), WorkerAction::Capture);
    let event = WorkerEvent::Captured {
        image: CapturedImage::new(10, 10, 40, 40, vec![100; 6400]),
        pointer: Ok(CursorScreenPosition { x: 12, y: 13 }),
    };
    assert_eq!(worker.run_recording_worker(event), WorkerAction::Write);
    let mut expected = vec![100; 6400];
    let place = CursorFramePosition { x: 2, y: 3 };
    draw_cursor_on_bgra_frame(&mut expected, 40, 40, place).unwrap();
    assert_ne!(expected, vec![100; 6400]);
    assert_eq!(worker.frame, expected);
}

#[test]
fn overlay_text_formats_elapsed_and_fps() {
    let text = overlay_text(RecordingOverlayStatus {
        elapsed: Elapsed::from_secs(65),
        fps: 30,
    });
    assert_eq!(text, "01:05 | 30 FPS");
}

#[test]
fn a_long_recording_counts_on_in_minutes() {
    let text = overlay_text(RecordingOverlayStatus { elapsed: Elapsed::from_secs(6_000), fps: 5 });
    assert_eq!(text, "100:00 | 5 FPS");
}

#[test]
fn the_frame_follows_its_commands() {
    let mut status = RecordingOverlayStatus { elapsed: Elapsed::zero(), fps: 30 };
    let next = RecordingOverlayStatus { elapsed: Elapsed::from_secs(2), fps: 30 };
    assert_eq!(
        poll_recording_overlay_command(&mut status, RecordingOverlayCommand::Update(next)),
        RecordingOverlayAction::Repaint
    );
    assert_eq!(status, next);
    assert_eq!(
        poll_recording_overlay_command(&mut status, RecordingOverlayCommand::Empty),
        RecordingOverlayAction::Idle
    );
    assert_eq!(
        poll_recording_overlay_command(&mut status, RecordingOverlayCommand::Stop),
        RecordingOverlayAction::Close
    );
}

#[test]
fn the_frame_lies_around_the_region() {
    let region = CaptureRegion::new(100, 200, 300, 150).unwrap();
    let layout = recording_overlay_layout(region);
    assert!(layout.bar.bottom - layout.bar.top == 28);
    assert!(layout.left.left <= layout.right.left);
    assert!(layout.top.top <= layout.bottom.top);
}

#[test]
fn a_recording_needs_its_folder() {
    let mut controller = RecordingController::new();
    let region = CaptureRegion::new(0, 0, 100, 100).unwrap();
    let denied = || Err(RsnipError::Io("denied".to_owned()));
    assert_eq!(
        controller.start_stub(region, &settings(), denied()).unwrap_err(),
        RsnipError::Io("denied".to_owned())
    );
    assert_eq!(controller.lifecycle(), RecordingLifecycle::Idle);
    controller.start_stub(region, &settings(), Ok(noon())).unwrap();
    assert_eq!(
        controller.start_stub(region, &settings(), denied()).unwrap_err(),
        RsnipError::Io("denied".to_owned())
    );
    assert!(controller.is_recording());
}
