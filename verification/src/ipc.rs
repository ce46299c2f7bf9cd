//! The requests that the daemon takes and the answers that it gives, a line each.
use crate::errors::{is_message, message_error, RsnipError};
use crate::math::min_int;
use crate::text::{append_u64, contains, decimal, is_blank, text_contains, trim, trimmed};
use crate::time::Elapsed;
use vstd::prelude::*;

verus! {

/// What the daemon can be asked to do.
#[derive(Debug, Clone, Copy, PartialEq, Eq, Structural)]
pub enum IpcCommand {
    Snip,
    Record,
    Ocr,
    Shutdown,
}

/// A request.
#[derive(Debug, Clone, Copy, PartialEq, Eq, Structural)]
pub struct IpcRequest {
    pub cmd: IpcCommand,
}

/// An answer.
#[derive(Debug, Clone, PartialEq, Eq)]
pub enum IpcResponse {
    Success { message: String },
    Error { message: String },
}

/// An answer as a mathematical value.
pub enum ResponseModel {
    Success(Seq<char>),
    Error(Seq<char>),
}

impl View for IpcResponse {
    type V = ResponseModel;

    open spec fn view(&self) -> ResponseModel {
        match *self {
            IpcResponse::Success { message } => ResponseModel::Success(message@),
            IpcResponse::Error { message } => ResponseModel::Error(message@),
        }
    }
}

// ---------------------------------------------------------------------------------------------
// Lines
// ---------------------------------------------------------------------------------------------

/// The line that carries a JSON text, or why there is no such text.
pub open spec fn is_json_line(
    r: Result<String, RsnipError>,
    json: Result<String, String>,
    what: Seq<char>,
) -> bool {
    match (json, r) {
        (Ok(text), Ok(line)) => line@ == text@.push('\n'),
        (Err(cause), Err(error)) => is_message(
            error,
            "failed to serialize IPC "@ + what + ": "@ + cause@,
        ),
        _ => false,
    }
}

/// A message is sent as one line: the JSON text and a line break behind it.
pub proof fn law_messages_are_lines(json: String, line: String, what: Seq<char>)
    requires
        is_json_line(Ok(line), Ok(json), what),
    ensures
        line@.len() == json@.len() + 1,
        line@.last() == '\n',
        line@.drop_last() == json@,
{
    assert(line@.drop_last() =~= json@);
}

fn json_line(json: Result<String, String>, what: &str) -> (r: Result<String, RsnipError>)
    ensures
        is_json_line(r, json, what@),
{
    match json {
        Ok(text) => {
            let mut line = text;
            let ghost before = line@;
            line.append("\n");
            proof {
                reveal_strlit("\n");
                assert(line@ =~= before.push('\n'));
            }
            Ok(line)
        },
        Err(cause) => {
            let mut message = "failed to serialize IPC ".to_owned();
            message.append(what);
            message.append(": ");
            message.append(cause.as_str());
            Err(RsnipError::Message(message))
        },
    }
}

/// Why a line is not understood: the line, without white space around it, and the cause.
pub open spec fn is_parse_error(
    error: RsnipError,
    what: Seq<char>,
    line: Seq<char>,
    cause: Seq<char>,
) -> bool {
    is_message(error, "failed to parse IPC "@ + what + " `"@ + trimmed(line) + "`: "@ + cause)
}

fn parse_error(what: &str, line: &str, cause: &str) -> (r: RsnipError)
    ensures
        is_parse_error(r, what@, line@, cause@),
{
    let mut message = "failed to parse IPC ".to_owned();
    message.append(what);
    message.append(" `");
    message.append(trim(line).as_str());
    message.append("`: ");
    message.append(cause);
    RsnipError::Message(message)
}

/// The JSON text of a line.
pub fn json_payload(line: &str) -> (r: String)
    ensures
        r@ == trimmed(line@),
{
    trim(line)
}

impl IpcRequest {
    /// A request.
    pub fn new(cmd: IpcCommand) -> (r: Self)
        ensures
            r == (IpcRequest { cmd }),
    {
        IpcRequest { cmd }
    }

    /// The line that carries a request, given its JSON text or why there is none.
    pub fn to_json_line(json: Result<String, String>) -> (r: Result<String, RsnipError>)
        ensures
            is_json_line(r, json, "request"@),
    {
        json_line(json, "request")
    }

    /// The request that a line carries, given what its JSON text means or why it means nothing.
    pub fn from_json_line(line: &str, meaning: Result<IpcRequest, String>) -> (r: Result<
        IpcRequest,
        RsnipError,
    >)
        ensures
            match (meaning, r) {
                (Ok(request), Ok(taken)) => taken == request,
                (Err(cause), Err(error)) => is_parse_error(error, "request"@, line@, cause@),
                _ => false,
            },
    {
        match meaning {
            Ok(request) => Ok(request),
            Err(cause) => Err(parse_error("request", line, cause.as_str())),
        }
    }
}

impl IpcResponse {
    /// An answer that tells of a success.
    pub fn ok(message: &str) -> (r: Self)
        ensures
            r@ == ResponseModel::Success(message@),
    {
        IpcResponse::Success { message: message.to_owned() }
    }

    /// An answer that tells of an error.
    pub fn error(message: &str) -> (r: Self)
        ensures
            r@ == ResponseModel::Error(message@),
    {
        IpcResponse::Error { message: message.to_owned() }
    }

    /// The line that carries an answer, given its JSON text or why there is none.
    pub fn to_json_line(json: Result<String, String>) -> (r: Result<String, RsnipError>)
        ensures
            is_json_line(r, json, "response"@),
    {
        json_line(json, "response")
    }

    /// The answer that a line carries, given what its JSON text means or why it means nothing.
    pub fn from_json_line(line: &str, meaning: Result<IpcResponse, String>) -> (r: Result<
        IpcResponse,
        RsnipError,
    >)
        ensures
            match (meaning, r) {
                (Ok(response), Ok(taken)) => taken@ == response@,
                (Err(cause), Err(error)) => is_parse_error(error, "response"@, line@, cause@),
                _ => false,
            },
    {
        match meaning {
            Ok(response) => Ok(response),
            Err(cause) => Err(parse_error("response", line, cause.as_str())),
        }
    }
}

// ---------------------------------------------------------------------------------------------
// The daemon's side
// ---------------------------------------------------------------------------------------------

/// What the daemon says when it takes a command.
pub open spec fn acceptance(command: IpcCommand, recording_active: bool) -> Seq<char> {
    match command {
        IpcCommand::Snip =>
            "snip accepted: select a region; selected image will be copied to clipboard"@,
        IpcCommand::Record => if recording_active {
            "record stop accepted: active recording will stop"@
        } else {
            "record start accepted: select a region to start recording"@
        },
        IpcCommand::Ocr => "ocr accepted: select a region; text will be copied to clipboard"@,
        IpcCommand::Shutdown => "shutdown accepted: daemon stopping"@,
    }
}

/// The answer to an accepted command begins with the word of the command, so that the answers to
/// different commands differ; a start and a stop of a recording are told apart.
pub proof fn law_acceptance_names_the_command(recording_active: bool)
    ensures
        "snip"@.is_prefix_of(acceptance(IpcCommand::Snip, recording_active)),
        "ocr"@.is_prefix_of(acceptance(IpcCommand::Ocr, recording_active)),
        "shutdown"@.is_prefix_of(acceptance(IpcCommand::Shutdown, recording_active)),
        "record start"@.is_prefix_of(acceptance(IpcCommand::Record, false)),
        "record stop"@.is_prefix_of(acceptance(IpcCommand::Record, true)),
        forall|command: IpcCommand|
            !(command is Record) ==> #[trigger] acceptance(command, true) == acceptance(
                command,
                false,
            ),
{
    reveal_strlit("snip");
    reveal_strlit("ocr");
    reveal_strlit("shutdown");
    reveal_strlit("record start");
    reveal_strlit("record stop");
    reveal_strlit("snip accepted: select a region; selected image will be copied to clipboard");
    reveal_strlit("record stop accepted: active recording will stop");
    reveal_strlit("record start accepted: select a region to start recording");
    reveal_strlit("ocr accepted: select a region; text will be copied to clipboard");
    reveal_strlit("shutdown accepted: daemon stopping");
    let start = acceptance(IpcCommand::Record, false);
    let stop = acceptance(IpcCommand::Record, true);
    let snip = acceptance(IpcCommand::Snip, recording_active);
    let ocr = acceptance(IpcCommand::Ocr, recording_active);
    let shutdown = acceptance(IpcCommand::Shutdown, recording_active);
    assert("snip"@ =~= snip.subrange(0, 4));
    assert("ocr"@ =~= ocr.subrange(0, 3));
    assert("shutdown"@ =~= shutdown.subrange(0, 8));
    assert("record start"@ =~= start.subrange(0, 12));
    assert("record stop"@ =~= stop.subrange(0, 11));
}

/// What the daemon says when it takes a command.
pub fn accepted_message(command: IpcCommand, recording_active: bool) -> (r: &'static str)
    ensures
        r@ == acceptance(command, recording_active),
{
    match command {
        IpcCommand::Snip =>
            "snip accepted: select a region; selected image will be copied to clipboard",
        IpcCommand::Record => if recording_active {
            "record stop accepted: active recording will stop"
        } else {
            "record start accepted: select a region to start recording"
        },
        IpcCommand::Ocr => "ocr accepted: select a region; text will be copied to clipboard",
        IpcCommand::Shutdown => "shutdown accepted: daemon stopping",
    }
}

/// What became of a request.
#[derive(Debug, Clone, PartialEq, Eq)]
pub enum ClientOutcome {
    /// The client sent nothing.
    Empty,
    /// The request could not be read.
    ReadFailed { cause: String },
    /// The request was not understood.
    Refused { reason: String },
    /// The command was handed on.
    Accepted { command: IpcCommand, recording_active: bool },
    /// There is nobody to hand the command to.
    Undelivered { cause: String },
}

/// The answer to a request.
pub open spec fn answer(outcome: ClientOutcome) -> ResponseModel {
    match outcome {
        ClientOutcome::Empty => ResponseModel::Error("empty IPC request"@),
        ClientOutcome::ReadFailed { cause } => ResponseModel::Error(
            "failed to read IPC request: "@ + cause@,
        ),
        ClientOutcome::Refused { reason } => ResponseModel::Error(reason@),
        ClientOutcome::Accepted { command, recording_active } => ResponseModel::Success(
            acceptance(command, recording_active),
        ),
        ClientOutcome::Undelivered { cause } => ResponseModel::Error(
            "daemon dispatcher unavailable: "@ + cause@,
        ),
    }
}

/// Whether more clients are served after an answer: not after a success that speaks of `Shutdown`.
pub open spec fn keeps_serving(response: ResponseModel) -> bool {
    !(response matches ResponseModel::Success(message) && contains(message, "Shutdown"@))
}

/// A client that got an error keeps the daemon serving, whatever went wrong.
pub proof fn law_errors_keep_the_daemon_serving(outcome: ClientOutcome)
    ensures
        answer(outcome) is Error ==> keeps_serving(answer(outcome)),
        answer(outcome) is Success <==> outcome is Accepted,
{
}

/// Answers a request, and tells whether more clients are served.
pub fn handle_client(outcome: ClientOutcome) -> (r: (IpcResponse, bool))
    ensures
        r.0@ == answer(outcome),
        r.1 == keeps_serving(answer(outcome)),
{
    let response = match outcome {
        ClientOutcome::Empty => IpcResponse::error("empty IPC request"),
        ClientOutcome::ReadFailed { cause } => {
            let mut message = "failed to read IPC request: ".to_owned();
            message.append(cause.as_str());
            IpcResponse::Error { message }
        },
        ClientOutcome::Refused { reason } => IpcResponse::Error { message: reason },
        ClientOutcome::Accepted { command, recording_active } => IpcResponse::ok(
            accepted_message(command, recording_active),
        ),
        ClientOutcome::Undelivered { cause } => {
            let mut message = "daemon dispatcher unavailable: ".to_owned();
            message.append(cause.as_str());
            IpcResponse::Error { message }
        },
    };
    let goes_on = match &response {
        IpcResponse::Success { message } => !text_contains(message.as_str(), "Shutdown"),
        IpcResponse::Error { .. } => true,
    };
    (response, goes_on)
}

/// A request is answered with a success if and only if its command was handed on.
pub proof fn law_success_means_handed_on(outcome: ClientOutcome)
    ensures
        answer(outcome) is Success <==> outcome is Accepted,
{
}

// ---------------------------------------------------------------------------------------------
// The client's side
// ---------------------------------------------------------------------------------------------

/// The time to wait for the daemon in whole milliseconds, as the system takes it.
pub fn timeout_millis(timeout: Elapsed) -> (r: u32)
    ensures
        r == min_int(timeout.millis() as int, u32::MAX as int),
{
    let millis = timeout.as_millis();
    if millis > u32::MAX as u128 {
        u32::MAX
    } else {
        millis as u32
    }
}

/// The error when the daemon does not answer in time.
pub fn unreachable_error(timeout_ms: u64, cause: &str) -> (r: RsnipError)
    ensures
        is_message(
            r,
            "rsnip daemon is not reachable on \\.\\pipe\\rsnip within "@ + decimal(
                timeout_ms as nat,
            ) + "ms: "@ + cause@,
        ),
{
    let mut message = "rsnip daemon is not reachable on \\.\\pipe\\rsnip within ".to_owned();
    append_u64(&mut message, timeout_ms);
    message.append("ms: ");
    message.append(cause);
    RsnipError::Message(message)
}

/// Checks that an answer is not empty.
pub fn check_response_line(line: &str) -> (r: Result<(), RsnipError>)
    ensures
        match r {
            Ok(()) => trimmed(line@).len() > 0,
            Err(error) => trimmed(line@).len() == 0 && is_message(
                error,
                "empty response from rsnip daemon"@,
            ),
        },
{
    if is_blank(line) {
        return Err(message_error("empty response from rsnip daemon"));
    }
    Ok(())
}

/// What an answer means for the one who asked: the message to print, or the error.
pub fn send_command(response: IpcResponse) -> (r: Result<String, RsnipError>)
    ensures
        match r {
            Ok(message) => response@ == ResponseModel::Success(message@),
            Err(error) => response@ matches ResponseModel::Error(message) && is_message(
                error,
                message,
            ),
        },
{
    match response {
        IpcResponse::Success { message } => Ok(message),
        IpcResponse::Error { message } => Err(RsnipError::Message(message)),
    }
}

} // verus!
