use rsnip::app::{
    corner_region, editor_child_error, overlay_child_error, overlay_outcome_report,
    overlay_report_line, overlay_report_text, parse_cancel_reason, parse_command,
    parse_overlay_child_outcome, parse_selection_mode, run_command, selection_mode_arg, Command,
    OverlayOutcomeDto, OverlayRegionDto, Task,
};
use rsnip::errors::RsnipError;
use rsnip::ipc::IpcCommand;
use rsnip::overlay::selection::{
    Selection, SelectionCancelReason, SelectionFlags, SelectionMode, SelectionOutcome,
};
use rsnip::screen::capture::{CaptureRegion, CapturedImage};
use rsnip::screen::windows::SelectableWindowHandle;
use serde_json::Value;

fn text(value: &Value, key: &str) -> Option<String> {
    value.get(key).and_then(Value::as_str).map(str::to_owned)
}

fn report(json: &str) -> Result<OverlayOutcomeDto, String> {
    let value: Value = serde_json::from_str(json).map_err(|error| error.to_string())?;
    let number = |region: &Value, key: &str| region.get(key).and_then(Value::as_i64).unwrap();
    Ok(OverlayOutcomeDto {
        outcome: text(&value, "outcome").ok_or("missing field `outcome`")?,
        mode: text(&value, "mode"),
        region: value.get("region").map(|region| OverlayRegionDto {
            x: number(region, "x") as i32,
            y: number(region, "y") as i32,
            width: number(region, "width") as u32,
            height: number(region, "height") as u32,
        }),
        shift_pressed: value.get("shift_pressed").and_then(Value::as_bool),
        window_handle: value
            .get("window_handle")
            .and_then(Value::as_i64)
            .map(|handle| handle as isize),
        reason: text(&value, "reason"),
        message: text(&value, "message"),
    })
}

fn outcome_of(stdout: &str, mode: SelectionMode) -> Result<Option<SelectionOutcome>, RsnipError> {
    let found = overlay_report_text(stdout).map(|json| report(&json));
    parse_overlay_child_outcome(found, mode)
}

fn args(words: &[&str]) -> Vec<String> {
    words.iter().map(|word| (*word).to_owned()).collect()
}

#[test]
fn parses_selected_overlay_child_outcome() {
    let stdout = r#"
human log
RSNIP_OVERLAY_OUTCOME_JSON={"outcome":"selected","mode":"snip","region":{"x":10,"y":20,"width":30,"height":40},"shift_pressed":true}
"#;

    let outcome = outcome_of(stdout, SelectionMode::Snip).unwrap().unwrap();

    assert_eq!(
        outcome,
        SelectionOutcome::Selected(Selection {
            mode: SelectionMode::Snip,
            region: CaptureRegion::new(10, 20, 30, 40).unwrap(),
            flags: SelectionFlags::new(true),
            window_handle: None,
        })
    );
}

#[test]
fn parses_cancelled_overlay_child_outcome() {
    let stdout = "RSNIP_OVERLAY_OUTCOME_JSON={\"outcome\":\"cancelled\",\"reason\":\"escape\"}";

    let outcome = outcome_of(stdout, SelectionMode::Snip).unwrap().unwrap();

    assert_eq!(
        outcome,
        SelectionOutcome::Cancelled(SelectionCancelReason::Escape)
    );
}

#[test]
fn rejects_overlay_child_mode_mismatch() {
    let stdout = r#"RSNIP_OVERLAY_OUTCOME_JSON={"outcome":"selected","mode":"ocr","region":{"x":10,"y":20,"width":30,"height":40},"shift_pressed":false}"#;

    let error = outcome_of(stdout, SelectionMode::Snip).unwrap_err();

    assert!(error.to_string().contains("expected Snip"));
}

#[test]
fn output_without_a_report_has_no_outcome() {
    assert_eq!(outcome_of("nothing\nhere\n", SelectionMode::Snip).unwrap(), None);
    assert_eq!(overlay_report_text(""), None);
    assert_eq!(
        overlay_report_text("a\r\n  RSNIP_OVERLAY_OUTCOME_JSON={}  \r\nb"),
        Some("{}".to_owned())
    );
    assert_eq!(overlay_report_line("{}"), "RSNIP_OVERLAY_OUTCOME_JSON={}");
}

#[test]
fn the_first_report_counts() {
    let stdout = "RSNIP_OVERLAY_OUTCOME_JSON=1\nRSNIP_OVERLAY_OUTCOME_JSON=2\n";
    assert_eq!(overlay_report_text(stdout), Some("1".to_owned()));
}

#[test]
fn a_report_that_is_not_understood_is_an_error() {
    let error = outcome_of("RSNIP_OVERLAY_OUTCOME_JSON={", SelectionMode::Snip).unwrap_err();
    assert!(error
        .to_string()
        .starts_with("failed to parse overlay child outcome JSON: "));
    let message = |json: &str| {
        parse_overlay_child_outcome(Some(report(json)), SelectionMode::Ocr)
            .unwrap_err()
            .to_string()
    };
    assert_eq!(
        message("{\"outcome\":\"selected\"}"),
        "overlay selected outcome missing region"
    );
    assert_eq!(
        message("{\"outcome\":\"selected\",\"mode\":\"film\"}"),
        "unknown overlay mode `film`; expected snip, record, or ocr"
    );
    assert_eq!(
        message("{\"outcome\":\"selected\",\"mode\":\"record\"}"),
        "overlay child returned mode Record, expected Ocr"
    );
    assert_eq!(
        message("{\"outcome\":\"cancelled\",\"reason\":\"rain\"}"),
        "unknown overlay cancel reason `rain`"
    );
    assert_eq!(
        message("{\"outcome\":\"lost\"}"),
        "unknown overlay child outcome `lost`"
    );
}

#[test]
fn what_a_report_leaves_out_has_a_default() {
    let read = |json: &str| {
        parse_overlay_child_outcome(Some(report(json)), SelectionMode::Ocr).unwrap().unwrap()
    };
    assert_eq!(
        read("{\"outcome\":\"cancelled\"}"),
        SelectionOutcome::Cancelled(SelectionCancelReason::WindowClosed)
    );
    assert_eq!(
        read("{\"outcome\":\"failed\"}"),
        SelectionOutcome::Failed("overlay child failed without message".to_owned())
    );
    assert_eq!(
        read("{\"outcome\":\"selected\",\"region\":{\"x\":1,\"y\":2,\"width\":3,\"height\":4}}"),
        SelectionOutcome::Selected(Selection {
            mode: SelectionMode::Ocr,
            region: CaptureRegion::new(1, 2, 3, 4).unwrap(),
            flags: SelectionFlags::new(false),
            window_handle: None,
        })
    );
}

#[test]
fn reports_are_read_back() {
    let outcomes = vec![
        SelectionOutcome::Selected(Selection {
            mode: SelectionMode::Record,
            region: CaptureRegion::new(-5, 6, 70, 80).unwrap(),
            flags: SelectionFlags::new(true),
            window_handle: Some(SelectableWindowHandle(12)),
        }),
        SelectionOutcome::Cancelled(SelectionCancelReason::BelowThreshold),
        SelectionOutcome::Failed("no screen".to_owned()),
    ];
    for outcome in outcomes {
        let report = overlay_outcome_report(&outcome);
        assert_eq!(
            parse_overlay_child_outcome(Some(Ok(report)), SelectionMode::Record).unwrap(),
            Some(outcome)
        );
    }
}

#[test]
fn commands_have_their_names() {
    let parse = |words: &[&str]| parse_command(&args(words));
    assert_eq!(parse(&[]).unwrap(), Command::Help);
    assert_eq!(parse(&["daemon"]).unwrap(), Command::Daemon);
    assert_eq!(parse(&["snip", "ignored"]).unwrap(), Command::Snip);
    assert_eq!(parse(&["record"]).unwrap(), Command::Record);
    assert_eq!(parse(&["ocr"]).unwrap(), Command::Ocr);
    assert_eq!(parse(&["stop"]).unwrap(), Command::Stop);
    assert_eq!(parse(&["config"]).unwrap(), Command::Config);
    assert_eq!(parse(&["debug-capture"]).unwrap(), Command::CaptureDebug);
    assert_eq!(parse(&["-h"]).unwrap(), Command::Help);
    assert_eq!(
        parse(&["__overlay-once", "ocr"]).unwrap(),
        Command::OverlayOnce(SelectionMode::Ocr)
    );
    assert_eq!(
        parse(&["__editor-once", "a.png"]).unwrap(),
        Command::EditorOnce("a.png".to_owned())
    );
}

#[test]
fn other_words_are_refused() {
    let message = |words: &[&str]| parse_command(&args(words)).unwrap_err().to_string();
    assert_eq!(message(&["dance"]), "unknown command `dance`");
    assert_eq!(
        message(&["__overlay-once"]),
        "__overlay-once requires mode snip, record, or ocr"
    );
    assert_eq!(message(&["__editor-once"]), "__editor-once requires an input image path");
    assert_eq!(
        message(&["__overlay-once", "dance"]),
        "unknown overlay mode `dance`; expected snip, record, or ocr"
    );
}

#[test]
fn actions_are_sent_to_the_daemon() {
    assert_eq!(run_command(Command::Snip), Task::Send(IpcCommand::Snip));
    assert_eq!(run_command(Command::Record), Task::Send(IpcCommand::Record));
    assert_eq!(run_command(Command::Ocr), Task::Send(IpcCommand::Ocr));
    assert_eq!(run_command(Command::Stop), Task::Send(IpcCommand::Shutdown));
    assert_eq!(run_command(Command::OverlayDebug), Task::RunOverlay(SelectionMode::Snip));
    assert_eq!(
        run_command(Command::EditorOnce("a.png".to_owned())),
        Task::RunEditor("a.png".to_owned())
    );
    assert_eq!(run_command(Command::Help), Task::PrintHelp);
}

#[test]
fn words_are_read_back() {
    for mode in [SelectionMode::Snip, SelectionMode::Record, SelectionMode::Ocr] {
        assert_eq!(parse_selection_mode(selection_mode_arg(mode)).unwrap(), mode);
    }
    assert_eq!(
        parse_cancel_reason("below_threshold").unwrap(),
        SelectionCancelReason::BelowThreshold
    );
}

#[test]
fn failed_processes_are_explained() {
    assert_eq!(
        overlay_child_error("exit code: 1", " no display \n").to_string(),
        "selection overlay child exited with status exit code: 1: no display"
    );
    assert_eq!(
        editor_child_error("exit code: 2").to_string(),
        "editor child exited with status exit code: 2"
    );
}

#[test]
fn a_corner_is_never_larger_than_the_image() {
    let image = CapturedImage::new(-3, 4, 5, 2, vec![0; 40]).unwrap();
    assert_eq!(
        corner_region(&image, 3, 3),
        CaptureRegion { x: -3, y: 4, width: 3, height: 2 }
    );
}
