//! The commands of the tool, and what the overlay in a process of its own reports.
use crate::errors::{is_message, message_error, RsnipError};
use crate::hotkeys::HotkeyAction;
use crate::ipc::IpcCommand;
use crate::math::min_int;
use crate::overlay::selection::{
    OutcomeModel, Selection, SelectionCancelReason, SelectionFlags, SelectionMode,
    SelectionOutcome,
};
use crate::recording::encoder::texts;
use crate::recording::optional_text;
use crate::screen::capture::{empty_region_text, CaptureRegion, CapturedImage};
use crate::screen::windows::SelectableWindowHandle;
use crate::text::{
    chars_of, lemma_split_joined, lemma_split_whole, occurs, split_at_char, split_ranges, text_eq,
    text_of, trim, trim_range, trimmed,
};
use vstd::prelude::*;

verus! {

// ---------------------------------------------------------------------------------------------
// Commands
// ---------------------------------------------------------------------------------------------

/// A command of the tool.
#[derive(Debug, Clone, PartialEq, Eq)]
pub enum Command {
    Daemon,
    Snip,
    Record,
    Ocr,
    Stop,
    Config,
    CaptureDebug,
    ClipboardTextDebug,
    ClipboardImageDebug,
    ClipboardFileDebug,
    OverlayDebug,
    OverlayOnce(SelectionMode),
    EditorDebug,
    EditorOnce(String),
    ToastDebug,
    WindowsDebug,
    Help,
}

/// A command of the tool as a mathematical value.
pub enum CommandModel {
    Daemon,
    Snip,
    Record,
    Ocr,
    Stop,
    Config,
    CaptureDebug,
    ClipboardTextDebug,
    ClipboardImageDebug,
    ClipboardFileDebug,
    OverlayDebug,
    OverlayOnce(SelectionMode),
    EditorDebug,
    EditorOnce(Seq<char>),
    ToastDebug,
    WindowsDebug,
    Help,
}

impl View for Command {
    type V = CommandModel;

    open spec fn view(&self) -> CommandModel {
        match *self {
            Command::Daemon => CommandModel::Daemon,
            Command::Snip => CommandModel::Snip,
            Command::Record => CommandModel::Record,
            Command::Ocr => CommandModel::Ocr,
            Command::Stop => CommandModel::Stop,
            Command::Config => CommandModel::Config,
            Command::CaptureDebug => CommandModel::CaptureDebug,
            Command::ClipboardTextDebug => CommandModel::ClipboardTextDebug,
            Command::ClipboardImageDebug => CommandModel::ClipboardImageDebug,
            Command::ClipboardFileDebug => CommandModel::ClipboardFileDebug,
            Command::OverlayDebug => CommandModel::OverlayDebug,
            Command::OverlayOnce(mode) => CommandModel::OverlayOnce(mode),
            Command::EditorDebug => CommandModel::EditorDebug,
            Command::EditorOnce(path) => CommandModel::EditorOnce(path@),
            Command::ToastDebug => CommandModel::ToastDebug,
            Command::WindowsDebug => CommandModel::WindowsDebug,
            Command::Help => CommandModel::Help,
        }
    }
}

/// The command that a word alone stands for.
pub open spec fn command_named(name: Seq<char>) -> Option<CommandModel> {
    if name == "daemon"@ {
        Some(CommandModel::Daemon)
    } else if name == "snip"@ {
        Some(CommandModel::Snip)
    } else if name == "record"@ {
        Some(CommandModel::Record)
    } else if name == "ocr"@ {
        Some(CommandModel::Ocr)
    } else if name == "stop"@ {
        Some(CommandModel::Stop)
    } else if name == "config"@ {
        Some(CommandModel::Config)
    } else if name == "capture-debug"@ || name == "debug-capture"@ {
        Some(CommandModel::CaptureDebug)
    } else if name == "clipboard-text-debug"@ {
        Some(CommandModel::ClipboardTextDebug)
    } else if name == "clipboard-image-debug"@ {
        Some(CommandModel::ClipboardImageDebug)
    } else if name == "clipboard-file-debug"@ {
        Some(CommandModel::ClipboardFileDebug)
    } else if name == "overlay-debug"@ || name == "selection-overlay-debug"@ {
        Some(CommandModel::OverlayDebug)
    } else if name == "editor-debug"@ {
        Some(CommandModel::EditorDebug)
    } else if name == "toast-debug"@ {
        Some(CommandModel::ToastDebug)
    } else if name == "windows-debug"@ {
        Some(CommandModel::WindowsDebug)
    } else if name == "help"@ || name == "--help"@ || name == "-h"@ {
        Some(CommandModel::Help)
    } else {
        None
    }
}

fn plain_command(name: &str) -> (r: Option<Command>)
    ensures
        match r {
            Some(command) => command_named(name@) == Some(command@),
            None => command_named(name@) is None,
        },
{
    if text_eq(name, "daemon") {
        Some(Command::Daemon)
    } else if text_eq(name, "snip") {
        Some(Command::Snip)
    } else if text_eq(name, "record") {
        Some(Command::Record)
    } else if text_eq(name, "ocr") {
        Some(Command::Ocr)
    } else if text_eq(name, "stop") {
        Some(Command::Stop)
    } else if text_eq(name, "config") {
        Some(Command::Config)
    } else if text_eq(name, "capture-debug") || text_eq(name, "debug-capture") {
        Some(Command::CaptureDebug)
    } else if text_eq(name, "clipboard-text-debug") {
        Some(Command::ClipboardTextDebug)
    } else if text_eq(name, "clipboard-image-debug") {
        Some(Command::ClipboardImageDebug)
    } else if text_eq(name, "clipboard-file-debug") {
        Some(Command::ClipboardFileDebug)
    } else if text_eq(name, "overlay-debug") || text_eq(name, "selection-overlay-debug") {
        Some(Command::OverlayDebug)
    } else if text_eq(name, "editor-debug") {
        Some(Command::EditorDebug)
    } else if text_eq(name, "toast-debug") {
        Some(Command::ToastDebug)
    } else if text_eq(name, "windows-debug") {
        Some(Command::WindowsDebug)
    } else if text_eq(name, "help") || text_eq(name, "--help") || text_eq(name, "-h") {
        Some(Command::Help)
    } else {
        None
    }
}

/// Why arguments are no command.
pub enum Refusal {
    Unknown(Seq<char>),
    Message(Seq<char>),
}

/// Whether an error gives the reason of a refusal.
pub open spec fn is_refusal(error: RsnipError, refusal: Refusal) -> bool {
    match refusal {
        Refusal::Unknown(name) => error matches RsnipError::UnknownCommand(given) && given@
            == name,
        Refusal::Message(text) => is_message(error, text),
    }
}

/// The command that arguments stand for. Arguments behind those that it takes are not looked at.
pub open spec fn command_of(args: Seq<Seq<char>>) -> Result<CommandModel, Refusal> {
    if args.len() == 0 {
        Ok(CommandModel::Help)
    } else {
        match command_named(args[0]) {
            Some(command) => Ok(command),
            None => if args[0] == "__overlay-once"@ {
                if args.len() == 1 {
                    Err(
                        Refusal::Message("__overlay-once requires mode snip, record, or ocr"@),
                    )
                } else {
                    match mode_named(args[1]) {
                        Some(mode) => Ok(CommandModel::OverlayOnce(mode)),
                        None => Err(Refusal::Message(unknown_mode_text(args[1]))),
                    }
                }
            } else if args[0] == "__editor-once"@ {
                if args.len() == 1 {
                    Err(Refusal::Message("__editor-once requires an input image path"@))
                } else {
                    Ok(CommandModel::EditorOnce(args[1]))
                }
            } else {
                Err(Refusal::Unknown(args[0]))
            },
        }
    }
}

/// Reads a command from the arguments of the program.
pub fn parse_command(args: &Vec<String>) -> (r: Result<Command, RsnipError>)
    ensures
        match (command_of(texts(args@)), r) {
            (Ok(model), Ok(command)) => command@ == model,
            (Err(refusal), Err(error)) => is_refusal(error, refusal),
            _ => false,
        },
{
    if args.len() == 0 {
        return Ok(Command::Help);
    }
    let name = args[0].as_str();
    if let Some(command) = plain_command(name) {
        return Ok(command);
    }
    if text_eq(name, "__overlay-once") {
        if args.len() == 1 {
            return Err(message_error("__overlay-once requires mode snip, record, or ocr"));
        }
        match parse_selection_mode(args[1].as_str()) {
            Ok(mode) => Ok(Command::OverlayOnce(mode)),
            Err(error) => Err(error),
        }
    } else if text_eq(name, "__editor-once") {
        if args.len() == 1 {
            return Err(message_error("__editor-once requires an input image path"));
        }
        Ok(Command::EditorOnce(args[1].clone()))
    } else {
        Err(RsnipError::UnknownCommand(name.to_owned()))
    }
}

/// What the program does for a command.
#[derive(Debug, Clone, PartialEq, Eq)]
pub enum Task {
    RunDaemon,
    Send(IpcCommand),
    PrintConfigPath,
    DebugCapture,
    DebugClipboardText,
    DebugClipboardImage,
    DebugClipboardFile,
    RunOverlay(SelectionMode),
    DebugEditor,
    RunEditor(String),
    DebugToast,
    DebugWindows,
    PrintHelp,
}

/// Whether a task is what the program does for a command. The actions are sent to the daemon.
pub open spec fn is_task_of(command: CommandModel, task: Task) -> bool {
    match command {
        CommandModel::Daemon => task is RunDaemon,
        CommandModel::Snip => task == Task::Send(IpcCommand::Snip),
        CommandModel::Record => task == Task::Send(IpcCommand::Record),
        CommandModel::Ocr => task == Task::Send(IpcCommand::Ocr),
        CommandModel::Stop => task == Task::Send(IpcCommand::Shutdown),
        CommandModel::Config => task is PrintConfigPath,
        CommandModel::CaptureDebug => task is DebugCapture,
        CommandModel::ClipboardTextDebug => task is DebugClipboardText,
        CommandModel::ClipboardImageDebug => task is DebugClipboardImage,
        CommandModel::ClipboardFileDebug => task is DebugClipboardFile,
        CommandModel::OverlayDebug => task == Task::RunOverlay(SelectionMode::Snip),
        CommandModel::OverlayOnce(mode) => task == Task::RunOverlay(mode),
        CommandModel::EditorDebug => task is DebugEditor,
        CommandModel::EditorOnce(path) => task matches Task::RunEditor(given) && given@ == path,
        CommandModel::ToastDebug => task is DebugToast,
        CommandModel::WindowsDebug => task is DebugWindows,
        CommandModel::Help => task is PrintHelp,
    }
}

/// What the program does for a command.
pub fn run_command(command: Command) -> (r: Task)
    ensures
        is_task_of(command@, r),
{
    match command {
        Command::Daemon => Task::RunDaemon,
        Command::Snip => Task::Send(IpcCommand::Snip),
        Command::Record => Task::Send(IpcCommand::Record),
        Command::Ocr => Task::Send(IpcCommand::Ocr),
        Command::Stop => Task::Send(IpcCommand::Shutdown),
        Command::Config => Task::PrintConfigPath,
        Command::CaptureDebug => Task::DebugCapture,
        Command::ClipboardTextDebug => Task::DebugClipboardText,
        Command::ClipboardImageDebug => Task::DebugClipboardImage,
        Command::ClipboardFileDebug => Task::DebugClipboardFile,
        Command::OverlayDebug => Task::RunOverlay(SelectionMode::Snip),
        Command::OverlayOnce(mode) => Task::RunOverlay(mode),
        Command::EditorDebug => Task::DebugEditor,
        Command::EditorOnce(path) => Task::RunEditor(path),
        Command::ToastDebug => Task::DebugToast,
        Command::WindowsDebug => Task::DebugWindows,
        Command::Help => Task::PrintHelp,
    }
}

/// The region in the upper left corner of an image, as large as the image but at most of the given
/// size.
pub fn corner_region(image: &CapturedImage, max_width: u32, max_height: u32) -> (r: CaptureRegion)
    requires
        image.wf(),
        max_width > 0,
        max_height > 0,
    ensures
        r == (CaptureRegion {
            x: image.origin_x,
            y: image.origin_y,
            width: min_int(image.width as int, max_width as int) as u32,
            height: min_int(image.height as int, max_height as int) as u32,
        }),
{
    CaptureRegion {
        x: image.origin_x,
        y: image.origin_y,
        width: if image.width < max_width {
            image.width
        } else {
            max_width
        },
        height: if image.height < max_height {
            image.height
        } else {
            max_height
        },
    }
}

// ---------------------------------------------------------------------------------------------
// Names
// ---------------------------------------------------------------------------------------------

/// The word for what a region is picked for.
pub open spec fn mode_name(mode: SelectionMode) -> Seq<char> {
    match mode {
        SelectionMode::Snip => "snip"@,
        SelectionMode::Record => "record"@,
        SelectionMode::Ocr => "ocr"@,
    }
}

/// What a region is picked for, by its word.
pub open spec fn mode_named(name: Seq<char>) -> Option<SelectionMode> {
    if name == "snip"@ {
        Some(SelectionMode::Snip)
    } else if name == "record"@ {
        Some(SelectionMode::Record)
    } else if name == "ocr"@ {
        Some(SelectionMode::Ocr)
    } else {
        None
    }
}

/// The message for a word that is none of those.
pub open spec fn unknown_mode_text(name: Seq<char>) -> Seq<char> {
    "unknown overlay mode `"@ + name + "`; expected snip, record, or ocr"@
}

/// The word for what a region is picked for.
pub fn selection_mode_arg(mode: SelectionMode) -> (r: &'static str)
    ensures
        r@ == mode_name(mode),
{
    match mode {
        SelectionMode::Snip => "snip",
        SelectionMode::Record => "record",
        SelectionMode::Ocr => "ocr",
    }
}

/// Reads what a region is picked for.
pub fn parse_selection_mode(mode: &str) -> (r: Result<SelectionMode, RsnipError>)
    ensures
        match r {
            Ok(found) => mode_named(mode@) == Some(found),
            Err(error) => mode_named(mode@) is None && is_message(error, unknown_mode_text(mode@)),
        },
{
    if text_eq(mode, "snip") {
        return Ok(SelectionMode::Snip);
    }
    if text_eq(mode, "record") {
        return Ok(SelectionMode::Record);
    }
    if text_eq(mode, "ocr") {
        return Ok(SelectionMode::Ocr);
    }
    let mut message = "unknown overlay mode `".to_owned();
    message.append(mode);
    message.append("`; expected snip, record, or ocr");
    Err(RsnipError::Message(message))
}

/// The word for why no region was picked.
pub open spec fn reason_name(reason: SelectionCancelReason) -> Seq<char> {
    match reason {
        SelectionCancelReason::Escape => "escape"@,
        SelectionCancelReason::WindowClosed => "window_closed"@,
        SelectionCancelReason::BelowThreshold => "below_threshold"@,
    }
}

/// Why no region was picked, by its word.
pub open spec fn reason_named(name: Seq<char>) -> Option<SelectionCancelReason> {
    if name == "escape"@ {
        Some(SelectionCancelReason::Escape)
    } else if name == "window_closed"@ {
        Some(SelectionCancelReason::WindowClosed)
    } else if name == "below_threshold"@ {
        Some(SelectionCancelReason::BelowThreshold)
    } else {
        None
    }
}

/// The message for a word that is none of those.
pub open spec fn unknown_reason_text(name: Seq<char>) -> Seq<char> {
    "unknown overlay cancel reason `"@ + name + "`"@
}

/// The word for why no region was picked.
pub fn cancel_reason_arg(reason: SelectionCancelReason) -> (r: &'static str)
    ensures
        r@ == reason_name(reason),
{
    match reason {
        SelectionCancelReason::Escape => "escape",
        SelectionCancelReason::WindowClosed => "window_closed",
        SelectionCancelReason::BelowThreshold => "below_threshold",
    }
}

/// Reads why no region was picked.
pub fn parse_cancel_reason(reason: &str) -> (r: Result<SelectionCancelReason, RsnipError>)
    ensures
        match r {
            Ok(found) => reason_named(reason@) == Some(found),
            Err(error) => reason_named(reason@) is None && is_message(
                error,
                unknown_reason_text(reason@),
            ),
        },
{
    if text_eq(reason, "escape") {
        return Ok(SelectionCancelReason::Escape);
    }
    if text_eq(reason, "window_closed") {
        return Ok(SelectionCancelReason::WindowClosed);
    }
    if text_eq(reason, "below_threshold") {
        return Ok(SelectionCancelReason::BelowThreshold);
    }
    let mut message = "unknown overlay cancel reason `".to_owned();
    message.append(reason);
    message.append("`");
    Err(RsnipError::Message(message))
}

/// The command line and the key combinations do the same: the word of a mode, given as a command,
/// sends the command that the combination for that mode triggers; and `stop` ends the daemon.
pub proof fn law_command_line_does_what_hotkeys_do(mode: SelectionMode, task: Task, ending: Task)
    requires
        command_of(seq![mode_name(mode)]) matches Ok(command) && is_task_of(command, task),
        command_of(seq!["stop"@]) matches Ok(command) && is_task_of(command, ending),
    ensures
        task == Task::Send(
            crate::hotkeys::command_of(
                match mode {
                    SelectionMode::Snip => HotkeyAction::Snip,
                    SelectionMode::Record => HotkeyAction::Record,
                    SelectionMode::Ocr => HotkeyAction::Ocr,
                },
            ),
        ),
        ending == Task::Send(IpcCommand::Shutdown),
{
    lemma_command_words();
}

/// Each word of a mode is a command, and so is `stop`.
pub proof fn law_words_of_modes_are_commands(mode: SelectionMode)
    ensures
        command_of(seq![mode_name(mode)]) is Ok,
        command_of(seq!["stop"@]) is Ok,
        command_of(Seq::<Seq<char>>::empty()) == Ok::<CommandModel, Refusal>(CommandModel::Help),
{
    lemma_command_words();
}

proof fn lemma_command_words()
    ensures
        command_named("snip"@) == Some(CommandModel::Snip),
        command_named("record"@) == Some(CommandModel::Record),
        command_named("ocr"@) == Some(CommandModel::Ocr),
        command_named("stop"@) == Some(CommandModel::Stop),
{
    reveal_strlit("daemon");
    reveal_strlit("snip");
    reveal_strlit("record");
    reveal_strlit("ocr");
    reveal_strlit("stop");
    assert("daemon"@[0] == 'd' && "snip"@[0] == 's' && "record"@[0] == 'r' && "ocr"@[0] == 'o');
    assert("snip"@[1] == 'n' && "stop"@[0] == 's' && "stop"@[1] == 't');
}

/// Each word is read as what it stands for.
pub proof fn law_words_are_read_back(mode: SelectionMode, reason: SelectionCancelReason)
    ensures
        mode_named(mode_name(mode)) == Some(mode),
        reason_named(reason_name(reason)) == Some(reason),
{
    reveal_strlit("snip");
    reveal_strlit("record");
    reveal_strlit("ocr");
    reveal_strlit("escape");
    reveal_strlit("window_closed");
    reveal_strlit("below_threshold");
    assert("record"@[0] != "snip"@[0]);
    assert("ocr"@[0] != "snip"@[0] && "ocr"@[0] != "record"@[0]);
    assert("window_closed"@[0] != "escape"@[0]);
    assert("below_threshold"@[0] != "escape"@[0] && "below_threshold"@[0]
        != "window_closed"@[0]);
}

/// A request for the overlay is read as one for the same mode.
pub proof fn law_overlay_request_is_read_back(mode: SelectionMode)
    ensures
        command_of(seq!["__overlay-once"@, mode_name(mode)]) == Ok::<CommandModel, Refusal>(
            CommandModel::OverlayOnce(mode),
        ),
{
    law_words_are_read_back(mode, SelectionCancelReason::Escape);
    lemma_inner_commands_have_no_plain_name();
}

/// A request for the editor is read as one for the same image.
pub proof fn law_editor_request_is_read_back(path: Seq<char>)
    ensures
        command_of(seq!["__editor-once"@, path]) == Ok::<CommandModel, Refusal>(
            CommandModel::EditorOnce(path),
        ),
{
    lemma_inner_commands_have_no_plain_name();
}

proof fn lemma_inner_commands_have_no_plain_name()
    ensures
        command_named("__overlay-once"@) is None,
        command_named("__editor-once"@) is None,
        "__editor-once"@ != "__overlay-once"@,
{
    reveal_strlit("__overlay-once");
    reveal_strlit("__editor-once");
    reveal_strlit("daemon");
    reveal_strlit("snip");
    reveal_strlit("record");
    reveal_strlit("ocr");
    reveal_strlit("stop");
    reveal_strlit("config");
    reveal_strlit("capture-debug");
    reveal_strlit("debug-capture");
    reveal_strlit("clipboard-text-debug");
    reveal_strlit("clipboard-image-debug");
    reveal_strlit("clipboard-file-debug");
    reveal_strlit("overlay-debug");
    reveal_strlit("selection-overlay-debug");
    reveal_strlit("editor-debug");
    reveal_strlit("toast-debug");
    reveal_strlit("windows-debug");
    reveal_strlit("help");
    reveal_strlit("--help");
    reveal_strlit("-h");
    assert("__overlay-once"@[0] == '_' && "__editor-once"@[0] == '_');
    assert("__overlay-once"@[2] != "__editor-once"@[2]);
}

// ---------------------------------------------------------------------------------------------
// The report of the overlay
// ---------------------------------------------------------------------------------------------

/// A region in a report.
#[derive(Debug, Clone, Copy, PartialEq, Eq, Structural)]
pub struct OverlayRegionDto {
    pub x: i32,
    pub y: i32,
    pub width: u32,
    pub height: u32,
}

/// A report of how picking a region ended. What it does not tell of is left out.
#[derive(Debug, Clone, PartialEq, Eq)]
pub struct OverlayOutcomeDto {
    pub outcome: String,
    pub mode: Option<String>,
    pub region: Option<OverlayRegionDto>,
    pub shift_pressed: Option<bool>,
    pub window_handle: Option<isize>,
    pub reason: Option<String>,
    pub message: Option<String>,
}

/// A report as a mathematical value.
pub struct OutcomeDtoModel {
    pub outcome: Seq<char>,
    pub mode: Option<Seq<char>>,
    pub region: Option<OverlayRegionDto>,
    pub shift_pressed: Option<bool>,
    pub window_handle: Option<isize>,
    pub reason: Option<Seq<char>>,
    pub message: Option<Seq<char>>,
}

impl View for OverlayOutcomeDto {
    type V = OutcomeDtoModel;

    open spec fn view(&self) -> OutcomeDtoModel {
        OutcomeDtoModel {
            outcome: self.outcome@,
            mode: optional_text(self.mode),
            region: self.region,
            shift_pressed: self.shift_pressed,
            window_handle: self.window_handle,
            reason: optional_text(self.reason),
            message: optional_text(self.message),
        }
    }
}

/// How a mode is shown in a message.
pub open spec fn mode_label(mode: SelectionMode) -> Seq<char> {
    match mode {
        SelectionMode::Snip => "Snip"@,
        SelectionMode::Record => "Record"@,
        SelectionMode::Ocr => "Ocr"@,
    }
}

fn mode_label_text(mode: SelectionMode) -> (r: &'static str)
    ensures
        r@ == mode_label(mode),
{
    match mode {
        SelectionMode::Snip => "Snip",
        SelectionMode::Record => "Record",
        SelectionMode::Ocr => "Ocr",
    }
}

/// The region that a report of a picked region tells, for the given mode.
pub open spec fn selection_in(report: OutcomeDtoModel, mode: SelectionMode) -> Result<
    OutcomeModel,
    Seq<char>,
> {
    match report.region {
        None => Err("overlay selected outcome missing region"@),
        Some(region) => if region.width == 0 || region.height == 0 {
            Err(empty_region_text(region.x, region.y, region.width, region.height))
        } else {
            Ok(
                OutcomeModel::Selected(
                    Selection {
                        mode,
                        region: CaptureRegion {
                            x: region.x,
                            y: region.y,
                            width: region.width,
                            height: region.height,
                        },
                        flags: SelectionFlags { shift_pressed: report.shift_pressed == Some(true) },
                        window_handle: match report.window_handle {
                            Some(handle) => Some(SelectableWindowHandle(handle)),
                            None => None,
                        },
                    },
                ),
            )
        },
    }
}

/// How picking a region ended, by a report, where a region was to be picked for `expected_mode`.
pub open spec fn outcome_in(report: OutcomeDtoModel, expected_mode: SelectionMode) -> Result<
    OutcomeModel,
    Seq<char>,
> {
    if report.outcome == "selected"@ {
        match report.mode {
            None => selection_in(report, expected_mode),
            Some(name) => match mode_named(name) {
                None => Err(unknown_mode_text(name)),
                Some(mode) => if mode != expected_mode {
                    Err(
                        "overlay child returned mode "@ + mode_label(mode) + ", expected "@
                            + mode_label(expected_mode),
                    )
                } else {
                    selection_in(report, expected_mode)
                },
            },
        }
    } else if report.outcome == "cancelled"@ {
        let name = match report.reason {
            Some(name) => name,
            None => "window_closed"@,
        };
        match reason_named(name) {
            Some(reason) => Ok(OutcomeModel::Cancelled(reason)),
            None => Err(unknown_reason_text(name)),
        }
    } else if report.outcome == "failed"@ {
        Ok(
            OutcomeModel::Failed(
                match report.message {
                    Some(text) => text,
                    None => "overlay child failed without message"@,
                },
            ),
        )
    } else {
        Err("unknown overlay child outcome `"@ + report.outcome + "`"@)
    }
}

/// Reads a report of how picking a region ended. `report` is what the process reported, if it
/// reported anything, or why that is not understood.
pub fn parse_overlay_child_outcome(
    report: Option<Result<OverlayOutcomeDto, String>>,
    expected_mode: SelectionMode,
) -> (r: Result<Option<SelectionOutcome>, RsnipError>)
    ensures
        match report {
            None => r matches Ok(None),
            Some(Err(cause)) => r matches Err(error) && is_message(
                error,
                "failed to parse overlay child outcome JSON: "@ + cause@,
            ),
            Some(Ok(report)) => match r {
                Ok(outcome) => outcome matches Some(outcome) && outcome_in(report@, expected_mode)
                    == Ok::<OutcomeModel, Seq<char>>(outcome@),
                Err(error) => outcome_in(report@, expected_mode) matches Err(text) && is_message(
                    error,
                    text,
                ),
            },
        },
{
    let report = match report {
        None => {
            return Ok(None);
        },
        Some(Err(cause)) => {
            let mut message = "failed to parse overlay child outcome JSON: ".to_owned();
            message.append(cause.as_str());
            return Err(RsnipError::Message(message));
        },
        Some(Ok(report)) => report,
    };
    let outcome = report.outcome.as_str();
    if text_eq(outcome, "selected") {
        if let Some(name) = &report.mode {
            let mode = match parse_selection_mode(name.as_str()) {
                Ok(mode) => mode,
                Err(error) => {
                    return Err(error);
                },
            };
            if mode != expected_mode {
                let mut message = "overlay child returned mode ".to_owned();
                message.append(mode_label_text(mode));
                message.append(", expected ");
                message.append(mode_label_text(expected_mode));
                return Err(RsnipError::Message(message));
            }
        }
        let region = match report.region {
            Some(region) => region,
            None => {
                return Err(message_error("overlay selected outcome missing region"));
            },
        };
        let region = CaptureRegion::new(region.x, region.y, region.width, region.height)?;
        Ok(
            Some(
                SelectionOutcome::Selected(
                    Selection {
                        mode: expected_mode,
                        region,
                        flags: SelectionFlags::new(
                            match report.shift_pressed {
                                Some(pressed) => pressed,
                                None => false,
                            },
                        ),
                        window_handle: match report.window_handle {
                            Some(handle) => Some(SelectableWindowHandle(handle)),
                            None => None,
                        },
                    },
                ),
            ),
        )
    } else if text_eq(outcome, "cancelled") {
        let found = match &report.reason {
            Some(name) => parse_cancel_reason(name.as_str()),
            None => parse_cancel_reason("window_closed"),
        };
        match found {
            Ok(reason) => Ok(Some(SelectionOutcome::Cancelled(reason))),
            Err(error) => Err(error),
        }
    } else if text_eq(outcome, "failed") {
        Ok(
            Some(
                SelectionOutcome::Failed(
                    match &report.message {
                        Some(text) => text.clone(),
                        None => "overlay child failed without message".to_owned(),
                    },
                ),
            ),
        )
    } else {
        let mut message = "unknown overlay child outcome `".to_owned();
        message.append(outcome);
        message.append("`");
        Err(RsnipError::Message(message))
    }
}

/// The report of how picking a region ended.
pub open spec fn report_of(outcome: OutcomeModel) -> OutcomeDtoModel {
    match outcome {
        OutcomeModel::Selected(selection) => OutcomeDtoModel {
            outcome: "selected"@,
            mode: Some(mode_name(selection.mode)),
            region: Some(
                OverlayRegionDto {
                    x: selection.region.x,
                    y: selection.region.y,
                    width: selection.region.width,
                    height: selection.region.height,
                },
            ),
            shift_pressed: Some(selection.flags.shift_pressed),
            window_handle: match selection.window_handle {
                Some(handle) => Some(handle.0),
                None => None,
            },
            reason: None,
            message: None,
        },
        OutcomeModel::Cancelled(reason) => OutcomeDtoModel {
            outcome: "cancelled"@,
            mode: None,
            region: None,
            shift_pressed: None,
            window_handle: None,
            reason: Some(reason_name(reason)),
            message: None,
        },
        OutcomeModel::Failed(text) => OutcomeDtoModel {
            outcome: "failed"@,
            mode: None,
            region: None,
            shift_pressed: None,
            window_handle: None,
            reason: None,
            message: Some(text),
        },
    }
}

/// Reports how picking a region ended.
pub fn overlay_outcome_report(outcome: &SelectionOutcome) -> (r: OverlayOutcomeDto)
    ensures
        r@ == report_of(outcome@),
{
    match outcome {
        SelectionOutcome::Selected(selection) => OverlayOutcomeDto {
            outcome: "selected".to_owned(),
            mode: Some(selection_mode_arg(selection.mode).to_owned()),
            region: Some(
                OverlayRegionDto {
                    x: selection.region.x,
                    y: selection.region.y,
                    width: selection.region.width,
                    height: selection.region.height,
                },
            ),
            shift_pressed: Some(selection.flags.shift_pressed),
            window_handle: match selection.window_handle {
                Some(handle) => Some(handle.0),
                None => None,
            },
            reason: None,
            message: None,
        },
        SelectionOutcome::Cancelled(reason) => OverlayOutcomeDto {
            outcome: "cancelled".to_owned(),
            mode: None,
            region: None,
            shift_pressed: None,
            window_handle: None,
            reason: Some(cancel_reason_arg(*reason).to_owned()),
            message: None,
        },
        SelectionOutcome::Failed(text) => OverlayOutcomeDto {
            outcome: "failed".to_owned(),
            mode: None,
            region: None,
            shift_pressed: None,
            window_handle: None,
            reason: None,
            message: Some(text.clone()),
        },
    }
}

/// What is reported is read back as it was, where the region that was picked is not empty and was
/// picked for the mode that was asked for.
pub proof fn law_report_is_read_back(outcome: OutcomeModel, expected_mode: SelectionMode)
    requires
        outcome matches OutcomeModel::Selected(selection) ==> selection.mode == expected_mode
            && selection.region.width > 0 && selection.region.height > 0,
    ensures
        outcome_in(report_of(outcome), expected_mode) == Ok::<OutcomeModel, Seq<char>>(outcome),
{
    reveal_strlit("selected");
    reveal_strlit("cancelled");
    reveal_strlit("failed");
    assert("cancelled"@[0] != "selected"@[0]);
    assert("failed"@[0] != "selected"@[0] && "failed"@[0] != "cancelled"@[0]);
    match outcome {
        OutcomeModel::Selected(selection) => {
            law_words_are_read_back(selection.mode, SelectionCancelReason::Escape);
        },
        OutcomeModel::Cancelled(reason) => {
            law_words_are_read_back(expected_mode, reason);
        },
        OutcomeModel::Failed(_) => {},
    }
}

/// A report says what was picked in so many words: the mode by its name, and the edges, the keys
/// and the handle under their own names.
pub proof fn law_report_says_what_was_picked(selection: Selection)
    ensures
        ({
            let report = report_of(OutcomeModel::Selected(selection));
            &&& report.outcome == "selected"@
            &&& report.mode == Some(
                match selection.mode {
                    SelectionMode::Snip => "snip"@,
                    SelectionMode::Record => "record"@,
                    SelectionMode::Ocr => "ocr"@,
                },
            )
            &&& report.region matches Some(region) && region.x == selection.region.x && region.y
                == selection.region.y && region.width == selection.region.width && region.height
                == selection.region.height
            &&& report.shift_pressed == Some(selection.flags.shift_pressed)
            &&& report.window_handle is Some <==> selection.window_handle is Some
            &&& selection.window_handle matches Some(handle) ==> report.window_handle == Some(
                handle.0,
            )
            &&& report.reason is None && report.message is None
        }),
{
}

/// A region that was picked for another mode is never taken for one that was asked for.
pub proof fn law_other_modes_are_refused(outcome: OutcomeModel, expected_mode: SelectionMode)
    requires
        outcome matches OutcomeModel::Selected(selection) && selection.mode != expected_mode,
    ensures
        outcome_in(report_of(outcome), expected_mode) is Err,
{
    law_words_are_read_back(outcome->Selected_0.mode, SelectionCancelReason::Escape);
}

// ---------------------------------------------------------------------------------------------
// The line of the report
// ---------------------------------------------------------------------------------------------

/// What stands in front of a report in the output of the overlay process.
pub open spec fn outcome_prefix() -> Seq<char> {
    "RSNIP_OVERLAY_OUTCOME_JSON="@
}

/// The report in a line, if the line holds one.
pub open spec fn report_in_line(line: Seq<char>) -> Option<Seq<char>> {
    let text = trimmed(line);
    if outcome_prefix().is_prefix_of(text) {
        Some(text.skip(outcome_prefix().len() as int))
    } else {
        None
    }
}

/// The first report in a number of lines.
pub open spec fn first_report(lines: Seq<Seq<char>>) -> Option<Seq<char>>
    decreases lines.len(),
{
    if lines.len() == 0 {
        None
    } else {
        match report_in_line(lines[0]) {
            Some(report) => Some(report),
            None => first_report(lines.drop_first()),
        }
    }
}

/// The report in the output of the overlay process, as JSON text, if there is one.
pub fn overlay_report_text(stdout: &str) -> (r: Option<String>)
    ensures
        optional_text(r) == first_report(split_at_char(stdout@, '\n')),
{
    let chars = chars_of(stdout);
    let prefix = chars_of("RSNIP_OVERLAY_OUTCOME_JSON=");
    let lines = split_ranges(&chars, '\n');
    let ghost all = split_at_char(stdout@, '\n');
    let mut i: usize = 0;
    assert(all.skip(0) =~= all);
    while i < lines.len()
        invariant
            i <= lines@.len(),
            lines@.len() == all.len(),
            chars@ == stdout@,
            prefix@ == outcome_prefix(),
            all == split_at_char(chars@, '\n'),
            forall|k: int|
                0 <= k < lines@.len() ==> {
                    &&& (#[trigger] lines@[k]).0 <= lines@[k].1 <= chars@.len()
                    &&& chars@.subrange(lines@[k].0 as int, lines@[k].1 as int) == all[k]
                },
            first_report(all.skip(i as int)) == first_report(all),
        decreases lines@.len() - i,
    {
        let (from, to) = lines[i];
        let (start, end) = trim_range(&chars, from, to);
        let ghost text = chars@.subrange(start as int, end as int);
        assert(all.skip(i as int)[0] == all[i as int]);
        assert(all.skip(i as int).drop_first() =~= all.skip(i + 1));
        let found = occurs(&chars, &prefix, start, end);
        proof {
            let head = chars@.take(end as int);
            if prefix@.len() <= end - start {
                assert(head.subrange(start as int, start + prefix@.len()) =~= text.take(
                    prefix@.len() as int,
                ));
                assert(prefix@.is_prefix_of(text) == (text.take(prefix@.len() as int) =~= prefix@));
            }
        }
        if found {
            let at = start + prefix.len();
            assert(chars@.subrange(at as int, end as int) =~= text.skip(prefix@.len() as int));
            return Some(text_of(&chars, at, end));
        }
        i += 1;
    }
    assert(all.skip(i as int) =~= Seq::empty());
    None
}

/// The line of a report.
pub fn overlay_report_line(json: &str) -> (r: String)
    ensures
        r@ == outcome_prefix() + json@,
{
    let mut line = "RSNIP_OVERLAY_OUTCOME_JSON=".to_owned();
    line.append(json);
    line
}

proof fn lemma_first_report_skips(a: Seq<Seq<char>>, b: Seq<Seq<char>>)
    requires
        first_report(a) is None,
    ensures
        first_report(a + b) == first_report(b),
    decreases a.len(),
{
    if a.len() == 0 {
        assert(a + b =~= b);
    } else {
        assert((a + b)[0] == a[0]);
        assert((a + b).drop_first() =~= a.drop_first() + b);
        lemma_first_report_skips(a.drop_first(), b);
    }
}

/// The report is found in the output whatever other lines stand before and behind it, unless one
/// before it looks like a report too. The report is one line without white space around it.
pub proof fn law_report_is_found(before: Seq<char>, report: Seq<char>, behind: Seq<char>)
    requires
        first_report(split_at_char(before, '\n')) is None,
        !report.contains('\n'),
        trimmed(outcome_prefix() + report) == outcome_prefix() + report,
    ensures
        first_report(
            split_at_char(
                before.push('\n') + (outcome_prefix() + report).push('\n') + behind,
                '\n',
            ),
        ) == Some(report),
{
    let line = outcome_prefix() + report;
    let rest = line.push('\n') + behind;
    assert(before.push('\n') + line.push('\n') + behind =~= before.push('\n') + rest);
    lemma_split_joined(before, rest, '\n');
    lemma_split_joined(line, behind, '\n');
    assert(!line.contains('\n')) by {
        reveal_strlit("RSNIP_OVERLAY_OUTCOME_JSON=");
        assert forall|i: int| 0 <= i < line.len() implies line[i] != '\n' by {
            if i >= outcome_prefix().len() {
                assert(line[i] == report[i - outcome_prefix().len()]);
            }
        }
    }
    lemma_split_whole(line, '\n');
    lemma_first_report_skips(split_at_char(before, '\n'), split_at_char(rest, '\n'));
    assert(split_at_char(rest, '\n')[0] == line);
    assert(line.skip(outcome_prefix().len() as int) =~= report);
    assert(outcome_prefix().is_prefix_of(line));
}

// ---------------------------------------------------------------------------------------------
// Processes
// ---------------------------------------------------------------------------------------------

/// The error of an overlay process that failed, with what it wrote as its errors.
pub fn overlay_child_error(status: &str, stderr: &str) -> (r: RsnipError)
    ensures
        is_message(
            r,
            "selection overlay child exited with status "@ + status@ + ": "@ + trimmed(stderr@),
        ),
{
    let mut message = "selection overlay child exited with status ".to_owned();
    message.append(status);
    message.append(": ");
    message.append(trim(stderr).as_str());
    RsnipError::Message(message)
}

/// The error of an editor process that failed.
pub fn editor_child_error(status: &str) -> (r: RsnipError)
    ensures
        is_message(r, "editor child exited with status "@ + status@),
{
    let mut message = "editor child exited with status ".to_owned();
    message.append(status);
    RsnipError::Message(message)
}

} // verus!
