use rsnip::config::{Config, HotkeyConfig, OcrConfig, RecordingConfig, UiConfig};
use rsnip::errors::RsnipError;

fn recording() -> RecordingConfig {
    RecordingConfig::defaults_with_save_folder("C:/Videos".to_owned())
}

fn refused(result: Result<(), RsnipError>) -> (&'static str, String) {
    match result {
        Err(RsnipError::InvalidConfig { field, message }) => (field, message),
        other => panic!("expected a refusal, got {other:?}"),
    }
}

#[test]
fn default_recording_config_is_valid() {
    let config = RecordingConfig::defaults_with_save_folder("C:/Videos".into());
    config.validate().expect("default recording config is valid");
}

#[test]
fn rejects_invalid_recording_fps() {
    let mut config = RecordingConfig::defaults_with_save_folder("C:/Videos".into());
    config.fps = 0;
    assert!(config.validate().is_err());
}

#[test]
fn rejects_invalid_recording_crf() {
    let mut config = RecordingConfig::defaults_with_save_folder("C:/Videos".into());
    config.crf = 52;
    assert!(config.validate().is_err());
}

#[test]
fn default_ocr_config_is_valid() {
    OcrConfig::default().validate().expect("valid OCR config");
}

#[test]
fn rejects_empty_ocr_languages() {
    let mut config = OcrConfig::default();
    config.languages = "  ".to_owned();
    assert!(config.validate().is_err());
}

#[test]
fn default_values_are_those_of_the_example() {
    let config = Config::defaults_with_video_dir("C:/Users/me/Videos".to_owned());
    assert_eq!(config.hotkeys.snip, "ctrl+shift+s");
    assert_eq!(config.hotkeys.record, "ctrl+shift+r");
    assert_eq!(config.hotkeys.ocr, "ctrl+shift+e");
    assert_eq!(config.recording.fps, 30);
    assert_eq!(config.recording.save_folder, "C:/Users/me/Videos");
    assert_eq!(config.recording.codec, "libx264");
    assert_eq!(config.recording.crf, 26);
    assert_eq!(config.recording.preset, "veryfast");
    assert_eq!(config.recording.ffmpeg_path, None);
    assert_eq!(
        config.ocr.tesseract_path,
        "C:\\Program Files\\Tesseract-OCR\\tesseract.exe"
    );
    assert_eq!(config.ocr.languages, "spa+eng");
    assert_eq!(config.ui, UiConfig { toasts: true, editor: true });
    assert_eq!(config.hotkeys, HotkeyConfig::default());
    assert!(config.validate().is_ok());
}

#[test]
fn refusals_name_their_field() {
    let mut config = recording();
    config.fps = 0;
    let (field, _) = refused(config.validate());
    assert_eq!(field, "recording.fps");
    let mut config = recording();
    config.crf = 52;
    let (field, _) = refused(config.validate());
    assert_eq!(field, "recording.crf");
    let mut config = OcrConfig::default();
    config.tesseract_path = String::new();
    assert_eq!(
        refused(config.validate()),
        ("ocr.tesseract_path", "must not be empty".to_owned())
    );
    let mut config = OcrConfig::default();
    config.languages = " \t".to_owned();
    assert_eq!(
        refused(config.validate()),
        ("ocr.languages", "must not be empty".to_owned())
    );
}

#[test]
fn an_error_tells_the_field_and_the_reason() {
    let mut config = OcrConfig::default();
    config.languages = String::new();
    assert_eq!(
        config.validate().unwrap_err().to_string(),
        "invalid config value `ocr.languages`: must not be empty"
    );
}

#[test]
fn first_settings_need_a_video_folder() {
    assert_eq!(
        Config::initial(Some("D:/Videos".to_owned())).unwrap().recording.save_folder,
        "D:/Videos"
    );
    assert!(matches!(
        Config::initial(None),
        Err(RsnipError::MissingUserDirectory(_))
    ));
}
