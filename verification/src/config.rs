//! Settings, their defaults and the values that are refused.
use crate::errors::{invalid_config, is_invalid_config, RsnipError};
use crate::text::{is_blank, trimmed};
use vstd::prelude::*;

verus! {

/// All settings.
#[derive(Debug, Clone, PartialEq, Eq)]
pub struct Config {
    pub hotkeys: HotkeyConfig,
    pub recording: RecordingConfig,
    pub ocr: OcrConfig,
    pub ui: UiConfig,
}

/// The keys that trigger the actions.
#[derive(Debug, Clone, PartialEq, Eq)]
pub struct HotkeyConfig {
    pub snip: String,
    pub record: String,
    pub ocr: String,
}

/// How and where videos are recorded.
#[derive(Debug, Clone, PartialEq, Eq)]
pub struct RecordingConfig {
    pub fps: u32,
    pub save_folder: String,
    pub codec: String,
    pub crf: u8,
    pub preset: String,
    pub ffmpeg_path: Option<String>,
}

/// How text is recognised.
#[derive(Debug, Clone, PartialEq, Eq)]
pub struct OcrConfig {
    pub tesseract_path: String,
    pub languages: String,
}

/// What the user interface shows.
#[derive(Debug, Clone, Copy, PartialEq, Eq, Structural)]
pub struct UiConfig {
    pub toasts: bool,
    pub editor: bool,
}

/// The setting that a check refuses, and why.
pub struct Problem {
    pub field: Seq<char>,
    pub reason: Seq<char>,
}

/// Whether a check passes exactly where there is no problem, and tells the problem otherwise.
pub open spec fn reports(result: Result<(), RsnipError>, problem: Option<Problem>) -> bool {
    match (result, problem) {
        (Ok(()), None) => true,
        (Err(error), Some(problem)) => is_invalid_config(error, problem.field, problem.reason),
        _ => false,
    }
}

/// What is wrong with the settings of the recorder, the first thing first.
pub open spec fn recording_problem(config: RecordingConfig) -> Option<Problem> {
    if config.fps < 1 || config.fps > 240 {
        Some(Problem { field: "recording.fps"@, reason: "must be between 1 and 240"@ })
    } else if config.save_folder@.len() == 0 {
        Some(Problem { field: "recording.save_folder"@, reason: "must not be empty"@ })
    } else if trimmed(config.codec@).len() == 0 {
        Some(Problem { field: "recording.codec"@, reason: "must not be empty"@ })
    } else if config.crf > 51 {
        Some(
            Problem {
                field: "recording.crf"@,
                reason: "must be between 0 and 51 for libx264-compatible encoders"@,
            },
        )
    } else if trimmed(config.preset@).len() == 0 {
        Some(Problem { field: "recording.preset"@, reason: "must not be empty"@ })
    } else {
        None
    }
}

/// What is wrong with the settings of the text recognition, the first thing first.
pub open spec fn ocr_problem(config: OcrConfig) -> Option<Problem> {
    if config.tesseract_path@.len() == 0 {
        Some(Problem { field: "ocr.tesseract_path"@, reason: "must not be empty"@ })
    } else if trimmed(config.languages@).len() == 0 {
        Some(Problem { field: "ocr.languages"@, reason: "must not be empty"@ })
    } else {
        None
    }
}

/// What is wrong with the settings, the first thing first.
pub open spec fn config_problem(config: Config) -> Option<Problem> {
    match recording_problem(config.recording) {
        Some(problem) => Some(problem),
        None => ocr_problem(config.ocr),
    }
}

/// Settings for recordings are accepted exactly if the rate lies between 1 and 240, the quality is
/// at most 51, and the folder, the codec and the preset are given; if they are refused, the field
/// that is named is one that breaks its rule.
pub proof fn law_recording_settings_are_held_to_their_limits(config: RecordingConfig)
    ensures
        recording_problem(config) is None <==> {
            &&& 1 <= config.fps <= 240
            &&& config.crf <= 51
            &&& config.save_folder@.len() > 0
            &&& trimmed(config.codec@).len() > 0
            &&& trimmed(config.preset@).len() > 0
        },
        recording_problem(config) matches Some(problem) ==> {
            ||| problem.field == "recording.fps"@ && !(1 <= config.fps <= 240)
            ||| problem.field == "recording.crf"@ && config.crf > 51
            ||| problem.field == "recording.save_folder"@ && config.save_folder@.len() == 0
            ||| problem.field == "recording.codec"@ && trimmed(config.codec@).len() == 0
            ||| problem.field == "recording.preset"@ && trimmed(config.preset@).len() == 0
        },
{
}

/// Settings are accepted exactly if those for recordings are and the program for text and its
/// languages are given.
pub proof fn law_settings_are_held_to_their_limits(config: Config)
    ensures
        config_problem(config) is None <==> recording_problem(config.recording) is None
            && config.ocr.tesseract_path@.len() > 0 && trimmed(config.ocr.languages@).len() > 0,
        recording_problem(config.recording) is None ==> (config_problem(config) matches Some(problem)
            ==> {
            ||| problem.field == "ocr.tesseract_path"@ && config.ocr.tesseract_path@.len() == 0
            ||| problem.field == "ocr.languages"@ && trimmed(config.ocr.languages@).len() == 0
        }),
{
}

/// Whether a text is empty.
fn is_empty_text(text: &String) -> (r: bool)
    ensures
        r == (text@.len() == 0),
{
    let characters = crate::text::chars_of(text.as_str());
    characters.len() == 0
}

impl Config {
    /// The default settings, with videos saved in a folder.
    pub fn defaults_with_video_dir(video_dir: String) -> (r: Self)
        ensures
            is_default_hotkeys(r.hotkeys),
            is_default_recording(r.recording, video_dir@),
            is_default_ocr(r.ocr),
            r.ui == (UiConfig { toasts: true, editor: true }),
    {
        Config {
            hotkeys: HotkeyConfig::default(),
            recording: RecordingConfig::defaults_with_save_folder(video_dir),
            ocr: OcrConfig::default(),
            ui: UiConfig::default(),
        }
    }

    /// Checks the settings of the recorder and of the text recognition.
    pub fn validate(&self) -> (r: Result<(), RsnipError>)
        ensures
            reports(r, config_problem(*self)),
    {
        self.recording.validate()?;
        self.ocr.validate()
    }

    /// The settings to begin with, given the folder for videos if there is one.
    pub fn initial(video_dir: Option<String>) -> (r: Result<Config, RsnipError>)
        ensures
            match video_dir {
                None => r matches Err(RsnipError::MissingUserDirectory(name)) && name@
                    == "videos"@,
                Some(folder) => if folder@.len() == 0 {
                    r matches Err(error) && is_invalid_config(
                        error,
                        "recording.save_folder"@,
                        "must not be empty"@,
                    )
                } else {
                    r matches Ok(config) && is_default_hotkeys(config.hotkeys)
                        && is_default_recording(config.recording, folder@) && is_default_ocr(
                        config.ocr,
                    ) && config.ui == (UiConfig { toasts: true, editor: true })
                },
            },
    {
        match video_dir {
            None => Err(RsnipError::MissingUserDirectory("videos")),
            Some(folder) => {
                let config = Config::defaults_with_video_dir(folder);
                proof {
                    lemma_defaults_are_valid(config, folder@);
                }
                config.validate()?;
                Ok(config)
            },
        }
    }
}

/// Whether the keys are the default ones.
pub open spec fn is_default_hotkeys(config: HotkeyConfig) -> bool {
    &&& config.snip@ == "ctrl+shift+s"@
    &&& config.record@ == "ctrl+shift+r"@
    &&& config.ocr@ == "ctrl+shift+e"@
}

/// Whether the settings of the recorder are the default ones, with videos saved in a folder.
pub open spec fn is_default_recording(config: RecordingConfig, save_folder: Seq<char>) -> bool {
    &&& config.fps == 30
    &&& config.save_folder@ == save_folder
    &&& config.codec@ == "libx264"@
    &&& config.crf == 26
    &&& config.preset@ == "veryfast"@
    &&& config.ffmpeg_path is None
}

/// Whether the settings of the text recognition are the default ones.
pub open spec fn is_default_ocr(config: OcrConfig) -> bool {
    &&& config.tesseract_path@ == "C:\\Program Files\\Tesseract-OCR\\tesseract.exe"@
    &&& config.languages@ == "spa+eng"@
}

/// A text that starts and ends with something else than white space is not blank.
proof fn lemma_not_blank(text: Seq<char>)
    requires
        text.len() > 0,
        !crate::text::is_space(text[0]),
        !crate::text::is_space(text.last()),
    ensures
        trimmed(text) == text,
{
}

/// The default settings have one problem at most: a folder without a name.
proof fn lemma_defaults_are_valid(config: Config, save_folder: Seq<char>)
    requires
        is_default_recording(config.recording, save_folder),
        is_default_ocr(config.ocr),
    ensures
        save_folder.len() > 0 ==> config_problem(config) is None,
        save_folder.len() == 0 ==> recording_problem(config.recording) == Some(
            Problem { field: "recording.save_folder"@, reason: "must not be empty"@ },
        ),
{
    reveal_strlit("libx264");
    reveal_strlit("veryfast");
    reveal_strlit("spa+eng");
    reveal_strlit("C:\\Program Files\\Tesseract-OCR\\tesseract.exe");
    lemma_not_blank(config.recording.codec@);
    lemma_not_blank(config.recording.preset@);
    lemma_not_blank(config.ocr.languages@);
}

/// The default settings are accepted, wherever videos are saved.
pub proof fn law_default_settings_are_valid(config: Config, save_folder: Seq<char>)
    requires
        is_default_recording(config.recording, save_folder),
        is_default_ocr(config.ocr),
        save_folder.len() > 0,
    ensures
        config_problem(config) is None,
{
    lemma_defaults_are_valid(config, save_folder);
}

impl Default for HotkeyConfig {
    fn default() -> (r: Self)
        ensures
            is_default_hotkeys(r),
    {
        HotkeyConfig {
            snip: "ctrl+shift+s".to_owned(),
            record: "ctrl+shift+r".to_owned(),
            ocr: "ctrl+shift+e".to_owned(),
        }
    }
}

impl RecordingConfig {
    /// The default settings of the recorder.
    pub fn defaults_with_save_folder(save_folder: String) -> (r: Self)
        ensures
            is_default_recording(r, save_folder@),
    {
        RecordingConfig {
            fps: 30,
            save_folder,
            codec: "libx264".to_owned(),
            crf: 26,
            preset: "veryfast".to_owned(),
            ffmpeg_path: None,
        }
    }

    /// Checks the settings of the recorder.
    pub fn validate(&self) -> (r: Result<(), RsnipError>)
        ensures
            reports(r, recording_problem(*self)),
    {
        if self.fps < 1 || self.fps > 240 {
            return Err(invalid_config("recording.fps", "must be between 1 and 240"));
        }
        if is_empty_text(&self.save_folder) {
            return Err(invalid_config("recording.save_folder", "must not be empty"));
        }
        if is_blank(self.codec.as_str()) {
            return Err(invalid_config("recording.codec", "must not be empty"));
        }
        if self.crf > 51 {
            return Err(
                invalid_config(
                    "recording.crf",
                    "must be between 0 and 51 for libx264-compatible encoders",
                ),
            );
        }
        if is_blank(self.preset.as_str()) {
            return Err(invalid_config("recording.preset", "must not be empty"));
        }
        Ok(())
    }
}

impl OcrConfig {
    /// Checks the settings of the text recognition.
    pub fn validate(&self) -> (r: Result<(), RsnipError>)
        ensures
            reports(r, ocr_problem(*self)),
    {
        if is_empty_text(&self.tesseract_path) {
            return Err(invalid_config("ocr.tesseract_path", "must not be empty"));
        }
        if is_blank(self.languages.as_str()) {
            return Err(invalid_config("ocr.languages", "must not be empty"));
        }
        Ok(())
    }
}

impl Default for OcrConfig {
    fn default() -> (r: Self)
        ensures
            is_default_ocr(r),
    {
        OcrConfig {
            tesseract_path: "C:\\Program Files\\Tesseract-OCR\\tesseract.exe".to_owned(),
            languages: "spa+eng".to_owned(),
        }
    }
}

impl Default for UiConfig {
    fn default() -> (r: Self)
        ensures
            r == (UiConfig { toasts: true, editor: true }),
    {
        UiConfig { toasts: true, editor: true }
    }
}

} // verus!
