use rsnip::errors::RsnipError;
use rsnip::ipc::{
    accepted_message, check_response_line, handle_client, json_payload, send_command,
    timeout_millis, unreachable_error, ClientOutcome, IpcCommand, IpcRequest, IpcResponse,
};
use rsnip::time::Elapsed;

#[test]
fn record_accepted_message_reflects_recording_state() {
    assert_eq!(
        accepted_message(IpcCommand::Record, false),
        "record start accepted: select a region to start recording"
    );

    assert_eq!(
        accepted_message(IpcCommand::Record, true),
        "record stop accepted: active recording will stop"
    );
}

#[test]
fn command_accepted_messages_are_actionable() {
    let recording_active = false;

    assert!(accepted_message(IpcCommand::Snip, recording_active).contains("clipboard"));
    assert!(accepted_message(IpcCommand::Ocr, recording_active).contains("clipboard"));
    assert!(accepted_message(IpcCommand::Shutdown, recording_active).contains("stopping"));
}

#[test]
fn a_line_carries_one_json_text() {
    let json = "{\"cmd\":\"snip\"}";
    let line = IpcRequest::to_json_line(Ok(json.to_owned())).unwrap();
    assert_eq!(line, "{\"cmd\":\"snip\"}\n");
    assert_eq!(json_payload(&line), json);
    assert_eq!(
        IpcRequest::from_json_line(&line, Ok(IpcRequest::new(IpcCommand::Snip))).unwrap(),
        IpcRequest::new(IpcCommand::Snip)
    );
    assert_eq!(
        IpcResponse::to_json_line(Err("no".to_owned())).unwrap_err().to_string(),
        "failed to serialize IPC response: no"
    );
    assert_eq!(
        IpcRequest::from_json_line(" x \n", Err("bad".to_owned())).unwrap_err().to_string(),
        "failed to parse IPC request `x`: bad"
    );
}

#[test]
fn only_an_accepted_command_is_answered_with_success() {
    let (response, _) = handle_client(ClientOutcome::Accepted {
        command: IpcCommand::Record,
        recording_active: true,
    });
    assert_eq!(
        response,
        IpcResponse::ok("record stop accepted: active recording will stop")
    );
    for outcome in [
        ClientOutcome::Empty,
        ClientOutcome::ReadFailed { cause: "gone".to_owned() },
        ClientOutcome::Refused { reason: "odd".to_owned() },
        ClientOutcome::Undelivered { cause: "closed".to_owned() },
    ] {
        let (response, _) = handle_client(outcome);
        assert!(matches!(response, IpcResponse::Error { .. }));
    }
}

#[test]
fn the_server_goes_on_after_an_answer() {
    for command in [IpcCommand::Snip, IpcCommand::Record, IpcCommand::Ocr, IpcCommand::Shutdown] {
        let (_, goes_on) =
            handle_client(ClientOutcome::Accepted { command, recording_active: false });
        assert!(goes_on);
    }
    assert!(handle_client(ClientOutcome::Empty).1);
}

#[test]
fn a_client_gives_the_message_on() {
    assert_eq!(send_command(IpcResponse::ok("done")).unwrap(), "done");
    assert_eq!(
        send_command(IpcResponse::error("busy")),
        Err(RsnipError::Message("busy".to_owned()))
    );
}

#[test]
fn an_empty_answer_is_an_error() {
    assert!(check_response_line(" \n").is_err());
    assert!(check_response_line("{}\n").is_ok());
    assert!(unreachable_error(1_000, "no pipe").to_string().contains("1000"));
}

#[test]
fn a_timeout_is_told_in_milliseconds() {
    assert_eq!(timeout_millis(Elapsed::from_millis(1_000)), 1_000);
    assert_eq!(timeout_millis(Elapsed::from_secs(u64::MAX)), u32::MAX);
}
