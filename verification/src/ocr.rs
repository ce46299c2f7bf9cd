//! Text recognition: how the external program is called and what its output means.
use crate::config::{ocr_problem, OcrConfig};
use crate::errors::{is_invalid_config, is_message, RsnipError};
use crate::images::{png_file, png_of_image, png_signature, yields_bytes, PngPurpose};
use crate::recording::encoder::texts;
use crate::screen::capture::CapturedImage;
use crate::text::{chars_of, trim, trimmed};
use vstd::prelude::*;

verus! {

/// What the external program is asked to read, and how.
#[derive(Debug, Clone, PartialEq, Eq)]
pub struct OcrRequest {
    pub image_path: String,
    pub tesseract_path: String,
    pub languages: String,
}

/// What was read.
#[derive(Debug, Clone, PartialEq, Eq)]
pub enum OcrTextResult {
    Text(String),
    NoText,
}

/// How the external program ended, and what it wrote.
#[derive(Debug, Clone, PartialEq, Eq)]
pub struct TesseractOutput {
    pub success: bool,
    pub stdout: String,
    pub stderr: String,
}

/// The message when the external program is not where it is expected.
pub open spec fn missing_text(path: Seq<char>) -> Seq<char> {
    "Tesseract OCR no detectado en `"@ + path
        + "`. Instalar desde https://github.com/UB-Mannheim/tesseract/releases/ o actualizar ocr.tesseract_path en rsnip.toml"@
}

/// The path of the external program, if the settings are accepted and it is a file.
pub fn resolve_tesseract(config: &OcrConfig, is_file: bool) -> (r: Result<String, RsnipError>)
    ensures
        match r {
            Ok(path) => ocr_problem(*config) is None && is_file && path@ == config.tesseract_path@,
            Err(error) => match ocr_problem(*config) {
                Some(problem) => is_invalid_config(error, problem.field, problem.reason),
                None => !is_file && is_message(error, missing_text(config.tesseract_path@)),
            },
        },
{
    config.validate()?;
    if is_file {
        return Ok(config.tesseract_path.clone());
    }
    let mut message = "Tesseract OCR no detectado en `".to_owned();
    message.append(config.tesseract_path.as_str());
    message.append(
        "`. Instalar desde https://github.com/UB-Mannheim/tesseract/releases/ o actualizar ocr.tesseract_path en rsnip.toml",
    );
    Err(RsnipError::Message(message))
}

/// Whether an error is why the external program does not tell its version.
pub open spec fn version_error(
    tesseract_path: Seq<char>,
    version: Result<TesseractOutput, String>,
    error: RsnipError,
) -> bool {
    match version {
        Err(cause) => is_message(
            error,
            "failed to run Tesseract `"@ + tesseract_path + "`: "@ + cause@
                + ". Install from https://github.com/UB-Mannheim/tesseract/releases/"@,
        ),
        Ok(output) => !output.success && is_message(
            error,
            "Tesseract `"@ + tesseract_path + "` failed version check: "@ + trimmed(
                output.stderr@,
            ),
        ),
    }
}

/// Checks that the external program runs: `version` is how the call that asks for its version
/// ended, or why it could not be made.
pub fn verify_tesseract(tesseract_path: String, version: Result<TesseractOutput, String>) -> (r:
    Result<String, RsnipError>)
    ensures
        match r {
            Ok(path) => version matches Ok(output) && output.success && path@ == tesseract_path@,
            Err(error) => version_error(tesseract_path@, version, error),
        },
{
    match version {
        Err(cause) => {
            let mut message = "failed to run Tesseract `".to_owned();
            message.append(tesseract_path.as_str());
            message.append("`: ");
            message.append(cause.as_str());
            message.append(
                ". Install from https://github.com/UB-Mannheim/tesseract/releases/",
            );
            Err(RsnipError::Message(message))
        },
        Ok(output) => {
            if !output.success {
                let mut message = "Tesseract `".to_owned();
                message.append(tesseract_path.as_str());
                message.append("` failed version check: ");
                message.append(trim(output.stderr.as_str()).as_str());
                return Err(RsnipError::Message(message));
            }
            Ok(tesseract_path)
        },
    }
}

/// Writes the file that hands a captured image to the text recognition.
pub fn save_ocr_input_png(image: &CapturedImage) -> (r: Result<Vec<u8>, RsnipError>)
    ensures
        yields_bytes(r, png_of_image(PngPurpose::Ocr, *image)),
        r matches Ok(png) ==> png@.len() >= 8 && png@.take(8) == png_signature(),
{
    png_file(image, PngPurpose::Ocr)
}

/// The request to read an image with the languages of the settings.
pub fn run_ocr(image_path: &str, config: &OcrConfig, tesseract_path: String) -> (r: OcrRequest)
    ensures
        r.image_path@ == image_path@,
        r.tesseract_path@ == tesseract_path@,
        r.languages@ == config.languages@,
{
    OcrRequest {
        image_path: image_path.to_owned(),
        tesseract_path,
        languages: config.languages.clone(),
    }
}

/// The arguments of the external program: the image, output to where it can be read, and the
/// languages.
pub fn tesseract_args(request: &OcrRequest) -> (r: Vec<String>)
    ensures
        texts(r@) == seq![request.image_path@, "stdout"@, "-l"@, request.languages@],
{
    let mut args: Vec<String> = Vec::new();
    args.push(request.image_path.clone());
    args.push("stdout".to_owned());
    args.push("-l".to_owned());
    args.push(request.languages.clone());
    assert(texts(args@) =~= seq![request.image_path@, "stdout"@, "-l"@, request.languages@]);
    args
}

/// Whether a result is what the output of the external program means: an error if it failed, else
/// the text without white space around it, if any is left.
pub open spec fn is_meaning(output: TesseractOutput, r: Result<OcrTextResult, RsnipError>) -> bool {
    let text = trimmed(output.stdout@);
    match r {
        Err(error) => !output.success && is_message(
            error,
            "Tesseract OCR failed: "@ + trimmed(output.stderr@),
        ),
        Ok(OcrTextResult::NoText) => output.success && text.len() == 0,
        Ok(OcrTextResult::Text(found)) => output.success && text.len() > 0 && found@ == text,
    }
}

/// The text without white space around it.
pub fn normalize_ocr_text(text: &str) -> (r: String)
    ensures
        r@ == trimmed(text@),
{
    trim(text)
}

/// Tells what the output of the external program means.
pub fn parse_tesseract_output(output: TesseractOutput) -> (r: Result<OcrTextResult, RsnipError>)
    ensures
        is_meaning(output, r),
{
    if !output.success {
        let mut message = "Tesseract OCR failed: ".to_owned();
        message.append(trim(output.stderr.as_str()).as_str());
        return Err(RsnipError::Message(message));
    }
    let text = normalize_ocr_text(output.stdout.as_str());
    let characters = chars_of(text.as_str());
    if characters.len() == 0 {
        return Ok(OcrTextResult::NoText);
    }
    Ok(OcrTextResult::Text(text))
}

/// Whether an error is why the external program gave no text.
pub open spec fn run_error(
    tesseract_path: Seq<char>,
    run: Result<TesseractOutput, String>,
    error: RsnipError,
) -> bool {
    match run {
        Ok(output) => is_meaning(output, Err(error)),
        Err(cause) => is_message(
            error,
            "failed to run Tesseract `"@ + tesseract_path + "`: "@ + cause@,
        ),
    }
}

/// Tells what a run of the external program means; `run` is how it ended, or why it could not be
/// started.
pub fn run_ocr_request(request: &OcrRequest, run: Result<TesseractOutput, String>) -> (r: Result<
    OcrTextResult,
    RsnipError,
>)
    ensures
        match r {
            Ok(text) => run matches Ok(output) && is_meaning(output, Ok(text)),
            Err(error) => run_error(request.tesseract_path@, run, error),
        },
{
    match run {
        Ok(output) => parse_tesseract_output(output),
        Err(cause) => {
            let mut message = "failed to run Tesseract `".to_owned();
            message.append(request.tesseract_path.as_str());
            message.append("`: ");
            message.append(cause.as_str());
            Err(RsnipError::Message(message))
        },
    }
}

// ---------------------------------------------------------------------------------------------
// From an image to its text
// ---------------------------------------------------------------------------------------------

/// Why no text was read: the image could not be saved or the settings are refused, or the external
/// program is missing or failed.
#[derive(Debug, Clone, PartialEq, Eq)]
pub enum OcrFailure {
    Preparing(RsnipError),
    Tesseract(RsnipError),
}

/// What the recognition is waiting for.
#[derive(Debug, Clone, Copy, PartialEq, Eq, Structural)]
pub enum OcrPhase {
    /// The image, saved.
    Saving,
    /// Whether the external program is there.
    Locating,
    /// The version of the external program.
    Verifying,
    /// The text.
    Reading,
    /// Nothing: the recognition has ended.
    Ended,
}

/// The recognition of the text in an image: the settings, the file of the image once it is saved, and
/// what it waits for.
#[derive(Debug, Clone, PartialEq, Eq)]
pub struct OcrRun {
    pub config: OcrConfig,
    pub image_path: String,
    pub phase: OcrPhase,
}

/// The recognition as a mathematical value.
pub struct OcrRunModel {
    pub config: OcrConfig,
    pub image_path: Seq<char>,
    pub phase: OcrPhase,
}

impl View for OcrRun {
    type V = OcrRunModel;

    open spec fn view(&self) -> OcrRunModel {
        OcrRunModel { config: self.config, image_path: self.image_path@, phase: self.phase }
    }
}

/// What became of an action.
#[derive(Debug, PartialEq, Eq)]
pub enum OcrEvent {
    /// The image was saved under a path.
    Saved(Result<String, RsnipError>),
    /// Whether the external program is a file.
    Located(bool),
    /// How the call that asks for the version ended, or why it could not be made.
    Versioned(Result<TesseractOutput, String>),
    /// How the call that reads the text ended, or why it could not be made.
    Ran(Result<TesseractOutput, String>),
}

/// What the recognition does next.
#[derive(Debug, PartialEq, Eq)]
pub enum OcrAction {
    /// Save the image.
    Save,
    /// See whether the external program is a file.
    Locate { tesseract_path: String },
    /// Ask the external program for its version.
    AskVersion { tesseract_path: String },
    /// Let the external program read the text.
    Read(OcrRequest),
    /// End with a result, and remove the file of the image if it was saved.
    Finish { result: Result<OcrTextResult, OcrFailure>, saved: Option<String> },
    /// Nothing.
    Ignore,
}

/// The recognition, waiting for something else.
pub open spec fn in_phase(run: OcrRunModel, phase: OcrPhase) -> OcrRunModel {
    OcrRunModel { phase, ..run }
}

/// Whether the recognition has ended and the saved image is removed.
pub open spec fn ends_run(
    before: OcrRunModel,
    after: OcrRunModel,
    action: OcrAction,
) -> bool {
    &&& after == in_phase(before, OcrPhase::Ended)
    &&& action matches OcrAction::Finish { saved: Some(path), .. }
    &&& path@ == before.image_path
}

/// Whether the recognition has ended because of an error.
pub open spec fn ends_with(action: OcrAction, failure: OcrFailure) -> bool {
    action matches OcrAction::Finish { result: Err(given), .. } && given == failure
}

/// What the recognition does for an event, and what it waits for after that. An event that it does
/// not wait for changes nothing.
pub open spec fn ocr_step(
    before: OcrRunModel,
    event: OcrEvent,
    after: OcrRunModel,
    action: OcrAction,
) -> bool {
    let program = before.config.tesseract_path@;
    match (before.phase, event) {
        (OcrPhase::Saving, OcrEvent::Saved(saved)) => match saved {
            Ok(path) => {
                &&& after == (OcrRunModel {
                    image_path: path@,
                    phase: OcrPhase::Locating,
                    ..before
                })
                &&& action matches OcrAction::Locate { tesseract_path }
                &&& tesseract_path@ == program
            },
            Err(error) => {
                &&& after == in_phase(before, OcrPhase::Ended)
                &&& ends_with(action, OcrFailure::Preparing(error))
                &&& action matches OcrAction::Finish { saved: None, .. }
            },
        },
        (OcrPhase::Locating, OcrEvent::Located(is_file)) => match ocr_problem(before.config) {
            Some(problem) => {
                &&& ends_run(before, after, action)
                &&& action matches OcrAction::Finish { result: Err(OcrFailure::Preparing(error)), .. }
                &&& is_invalid_config(error, problem.field, problem.reason)
            },
            None => if is_file {
                &&& after == in_phase(before, OcrPhase::Verifying)
                &&& action matches OcrAction::AskVersion { tesseract_path }
                &&& tesseract_path@ == program
            } else {
                &&& ends_run(before, after, action)
                &&& action matches OcrAction::Finish { result: Err(OcrFailure::Tesseract(error)), .. }
                &&& is_message(error, missing_text(program))
            },
        },
        (OcrPhase::Verifying, OcrEvent::Versioned(version)) => if version matches Ok(output)
            && output.success {
            &&& after == in_phase(before, OcrPhase::Reading)
            &&& action matches OcrAction::Read(request)
            &&& request.image_path@ == before.image_path
            &&& request.tesseract_path@ == program
            &&& request.languages@ == before.config.languages@
        } else {
            &&& ends_run(before, after, action)
            &&& action matches OcrAction::Finish { result: Err(OcrFailure::Tesseract(error)), .. }
            &&& version_error(program, version, error)
        },
        (OcrPhase::Reading, OcrEvent::Ran(run)) => {
            &&& ends_run(before, after, action)
            &&& match action {
                OcrAction::Finish { result: Ok(text), .. } => run matches Ok(output) && is_meaning(
                    output,
                    Ok(text),
                ),
                OcrAction::Finish { result: Err(OcrFailure::Tesseract(error)), .. } => run_error(
                    program,
                    run,
                    error,
                ),
                _ => false,
            }
        },
        _ => after == before && action is Ignore,
    }
}

impl OcrRun {
    /// The recognition of the text in an image that is to be saved.
    pub fn new(config: &OcrConfig) -> (r: Self)
        ensures
            r.config.tesseract_path@ == config.tesseract_path@,
            r.config.languages@ == config.languages@,
            r@.image_path == Seq::<char>::empty(),
            r@.phase == OcrPhase::Saving,
    {
        OcrRun {
            config: OcrConfig {
                tesseract_path: config.tesseract_path.clone(),
                languages: config.languages.clone(),
            },
            image_path: String::new(),
            phase: OcrPhase::Saving,
        }
    }

    /// Ends with a result.
    fn finish(&mut self, result: Result<OcrTextResult, OcrFailure>) -> (r: OcrAction)
        ensures
            ends_run(old(self)@, final(self)@, r),
            r matches OcrAction::Finish { result: given, .. } && given == result,
    {
        self.phase = OcrPhase::Ended;
        OcrAction::Finish { result, saved: Some(self.image_path.clone()) }
    }

    /// Takes an event and tells what to do next.
    pub fn extract_text(&mut self, event: OcrEvent) -> (r: OcrAction)
        ensures
            ocr_step(old(self)@, event, final(self)@, r),
    {
        match (self.phase, event) {
            (OcrPhase::Saving, OcrEvent::Saved(saved)) => match saved {
                Ok(path) => {
                    self.image_path = path;
                    self.phase = OcrPhase::Locating;
                    OcrAction::Locate { tesseract_path: self.config.tesseract_path.clone() }
                },
                Err(error) => {
                    self.phase = OcrPhase::Ended;
                    OcrAction::Finish { result: Err(OcrFailure::Preparing(error)), saved: None }
                },
            },
            (OcrPhase::Locating, OcrEvent::Located(is_file)) => {
                if let Err(error) = self.config.validate() {
                    return self.finish(Err(OcrFailure::Preparing(error)));
                }
                match resolve_tesseract(&self.config, is_file) {
                    Ok(tesseract_path) => {
                        self.phase = OcrPhase::Verifying;
                        OcrAction::AskVersion { tesseract_path }
                    },
                    Err(error) => self.finish(Err(OcrFailure::Tesseract(error))),
                }
            },
            (OcrPhase::Verifying, OcrEvent::Versioned(version)) => {
                match verify_tesseract(self.config.tesseract_path.clone(), version) {
                    Ok(tesseract_path) => {
                        self.phase = OcrPhase::Reading;
                        OcrAction::Read(
                            run_ocr(self.image_path.as_str(), &self.config, tesseract_path),
                        )
                    },
                    Err(error) => self.finish(Err(OcrFailure::Tesseract(error))),
                }
            },
            (OcrPhase::Reading, OcrEvent::Ran(run)) => {
                let request = run_ocr(
                    self.image_path.as_str(),
                    &self.config,
                    self.config.tesseract_path.clone(),
                );
                match run_ocr_request(&request, run) {
                    Ok(text) => self.finish(Ok(text)),
                    Err(error) => self.finish(Err(OcrFailure::Tesseract(error))),
                }
            },
            _ => OcrAction::Ignore,
        }
    }
}

/// The external program is blamed only where the settings are accepted and it is missing or failed;
/// and where it did not fail, it is not blamed.
pub proof fn law_only_failures_of_the_program_are_blamed_on_it(
    before: OcrRunModel,
    event: OcrEvent,
    after: OcrRunModel,
    action: OcrAction,
)
    requires
        ocr_step(before, event, after, action),
    ensures
        (action matches OcrAction::Finish { result: Err(OcrFailure::Tesseract(_)), .. }) == match (
            before.phase,
            event,
        ) {
            (OcrPhase::Locating, OcrEvent::Located(is_file)) => ocr_problem(before.config) is None
                && !is_file,
            (OcrPhase::Verifying, OcrEvent::Versioned(version)) => !(version matches Ok(output)
                && output.success),
            (OcrPhase::Reading, OcrEvent::Ran(run)) => !(run matches Ok(output)
                && output.success),
            _ => false,
        },
{
}

/// However the recognition ends, an image that was saved is removed.
pub proof fn law_saved_images_are_removed(
    before: OcrRunModel,
    event: OcrEvent,
    after: OcrRunModel,
    result: Result<OcrTextResult, OcrFailure>,
    saved: Option<String>,
)
    requires
        ocr_step(before, event, after, OcrAction::Finish { result, saved }),
        !(before.phase is Saving),
    ensures
        saved matches Some(path) && path@ == before.image_path,
        after.phase is Ended,
{
}

/// The recognition of a saved image asks the program of the settings to read that image in the
/// languages of the settings, and only after the program was found and answered for its version.
pub proof fn law_recognition_reads_the_saved_image(
    located: OcrRunModel,
    is_file: bool,
    verifying: OcrRunModel,
    asking: OcrAction,
    version: Result<TesseractOutput, String>,
    reading: OcrRunModel,
    action: OcrAction,
)
    requires
        located.phase is Locating,
        ocr_step(located, OcrEvent::Located(is_file), verifying, asking),
        asking is AskVersion,
        ocr_step(verifying, OcrEvent::Versioned(version), reading, action),
        action is Read,
    ensures
        is_file,
        asking matches OcrAction::AskVersion { tesseract_path } && tesseract_path@
            == located.config.tesseract_path@,
        version matches Ok(output) && output.success,
        action matches OcrAction::Read(request) && {
            &&& request.image_path@ == located.image_path
            &&& request.tesseract_path@ == located.config.tesseract_path@
            &&& request.languages@ == located.config.languages@
        },
        reading.phase is Reading,
{
}

/// What the program printed is the text that is found, without the white space around it; if it
/// printed nothing but white space, there is no text.
pub proof fn law_text_is_what_was_printed(
    before: OcrRunModel,
    output: TesseractOutput,
    after: OcrRunModel,
    action: OcrAction,
)
    requires
        before.phase is Reading,
        output.success,
        ocr_step(before, OcrEvent::Ran(Ok(output)), after, action),
    ensures
        match action {
            OcrAction::Finish { result: Ok(OcrTextResult::Text(found)), .. } => found@ == trimmed(
                output.stdout@,
            ) && found@.len() > 0,
            OcrAction::Finish { result: Ok(OcrTextResult::NoText), .. } => trimmed(
                output.stdout@,
            ).len() == 0,
            _ => false,
        },
        after.phase is Ended,
{
}

} // verus!
