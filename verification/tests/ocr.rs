use rsnip::config::OcrConfig;
use rsnip::errors::RsnipError;
use rsnip::ocr::{
    normalize_ocr_text, parse_tesseract_output, resolve_tesseract, run_ocr, run_ocr_request,
    tesseract_args, verify_tesseract, OcrAction, OcrEvent, OcrFailure, OcrRun, OcrTextResult,
    TesseractOutput,
};

#[test]
fn normalizes_ocr_text_by_trimming_outer_whitespace() {
    assert_eq!(normalize_ocr_text("  hola\n mundo\n\n"), "hola\n mundo");
}

#[test]
fn parses_empty_success_as_no_text() {
    let result = parse_tesseract_output(TesseractOutput {
        success: true,
        stdout: "  \n\t".to_owned(),
        stderr: String::new(),
    })
    .expect("successful no-text result");
    assert_eq!(result, OcrTextResult::NoText);
}

#[test]
fn parses_text_success_as_text() {
    let result = parse_tesseract_output(TesseractOutput {
        success: true,
        stdout: " texto extraido \n".to_owned(),
        stderr: String::new(),
    })
    .expect("successful text result");
    assert_eq!(result, OcrTextResult::Text("texto extraido".to_owned()));
}

#[test]
fn parses_failed_status_as_error() {
    let result = parse_tesseract_output(TesseractOutput {
        success: false,
        stdout: String::new(),
        stderr: "missing language data".to_owned(),
    });
    assert!(result.is_err());
}

#[test]
fn a_missing_program_is_explained() {
    let config = OcrConfig::default();
    assert_eq!(resolve_tesseract(&config, true).unwrap(), config.tesseract_path);
    assert_eq!(
        resolve_tesseract(&config, false).unwrap_err().to_string(),
        "Tesseract OCR no detectado en `C:\\Program Files\\Tesseract-OCR\\tesseract.exe`. Instalar desde https://github.com/UB-Mannheim/tesseract/releases/ o actualizar ocr.tesseract_path en rsnip.toml"
    );
    let empty = OcrConfig { tesseract_path: String::new(), languages: "eng".to_owned() };
    assert!(matches!(
        resolve_tesseract(&empty, true),
        Err(RsnipError::InvalidConfig { field: "ocr.tesseract_path", .. })
    ));
}

#[test]
fn the_program_has_to_tell_its_version() {
    let output = |success: bool| TesseractOutput {
        success,
        stdout: String::new(),
        stderr: " broken \n".to_owned(),
    };
    assert_eq!(verify_tesseract("t.exe".to_owned(), Ok(output(true))).unwrap(), "t.exe");
    assert_eq!(
        verify_tesseract("t.exe".to_owned(), Ok(output(false))).unwrap_err().to_string(),
        "Tesseract `t.exe` failed version check: broken"
    );
    assert_eq!(
        verify_tesseract("t.exe".to_owned(), Err("denied".to_owned())).unwrap_err().to_string(),
        "failed to run Tesseract `t.exe`: denied. Install from https://github.com/UB-Mannheim/tesseract/releases/"
    );
}

#[test]
fn a_request_names_image_and_languages() {
    let request = run_ocr("a.png", &OcrConfig::default(), "t.exe".to_owned());
    assert_eq!(tesseract_args(&request), vec!["a.png", "stdout", "-l", "spa+eng"]);
    assert_eq!(
        run_ocr_request(&request, Err("denied".to_owned())).unwrap_err().to_string(),
        "failed to run Tesseract `t.exe`: denied"
    );
    let output = TesseractOutput {
        success: true,
        stdout: "uno".to_owned(),
        stderr: String::new(),
    };
    assert_eq!(
        run_ocr_request(&request, Ok(output)).unwrap(),
        OcrTextResult::Text("uno".to_owned())
    );
}

fn output(success: bool, stdout: &str, stderr: &str) -> Result<TesseractOutput, String> {
    Ok(TesseractOutput { success, stdout: stdout.to_owned(), stderr: stderr.to_owned() })
}

fn located() -> OcrRun {
    let mut run = OcrRun::new(&OcrConfig::default());
    let program = OcrConfig::default().tesseract_path;
    assert_eq!(
        run.extract_text(OcrEvent::Saved(Ok("a.png".to_owned()))),
        OcrAction::Locate { tesseract_path: program.clone() }
    );
    assert_eq!(
        run.extract_text(OcrEvent::Located(true)),
        OcrAction::AskVersion { tesseract_path: program }
    );
    run
}

fn blamed(action: OcrAction) -> Option<String> {
    match action {
        OcrAction::Finish { result: Err(OcrFailure::Tesseract(error)), saved } => {
            assert_eq!(saved, Some("a.png".to_owned()));
            Some(error.to_string())
        }
        _ => None,
    }
}

#[test]
fn text_is_read_step_by_step() {
    let mut run = located();
    match run.extract_text(OcrEvent::Versioned(output(true, "5.3", ""))) {
        OcrAction::Read(request) => {
            assert_eq!(request.image_path, "a.png");
            assert_eq!(request.languages, "spa+eng");
        }
        other => panic!("expected a call, got {other:?}"),
    }
    assert_eq!(
        run.extract_text(OcrEvent::Ran(output(true, " hola ", ""))),
        OcrAction::Finish {
            result: Ok(OcrTextResult::Text("hola".to_owned())),
            saved: Some("a.png".to_owned()),
        }
    );
    assert_eq!(run.extract_text(OcrEvent::Located(true)), OcrAction::Ignore);
}

#[test]
fn the_program_is_blamed_for_its_own_failures() {
    let mut run = located();
    assert!(blamed(run.extract_text(OcrEvent::Versioned(Err("gone".to_owned())))).is_some());
    let mut run = located();
    assert!(blamed(run.extract_text(OcrEvent::Versioned(output(false, "", "old")))).is_some());
    let mut run = located();
    run.extract_text(OcrEvent::Versioned(output(true, "5.3", "")));
    assert_eq!(
        blamed(run.extract_text(OcrEvent::Ran(output(false, "", " no data ")))),
        Some("Tesseract OCR failed: no data".to_owned())
    );
    let mut run = OcrRun::new(&OcrConfig::default());
    run.extract_text(OcrEvent::Saved(Ok("a.png".to_owned())));
    assert!(blamed(run.extract_text(OcrEvent::Located(false))).is_some());
}

#[test]
fn the_program_is_not_blamed_for_other_failures() {
    let full = || RsnipError::Message("disk full".to_owned());
    let mut run = OcrRun::new(&OcrConfig::default());
    assert_eq!(
        run.extract_text(OcrEvent::Saved(Err(full()))),
        OcrAction::Finish { result: Err(OcrFailure::Preparing(full())), saved: None }
    );
    let silent = OcrConfig { tesseract_path: "t.exe".to_owned(), languages: " ".to_owned() };
    let mut run = OcrRun::new(&silent);
    run.extract_text(OcrEvent::Saved(Ok("a.png".to_owned())));
    match run.extract_text(OcrEvent::Located(true)) {
        OcrAction::Finish { result: Err(OcrFailure::Preparing(error)), saved } => {
            assert!(matches!(error, RsnipError::InvalidConfig { field: "ocr.languages", .. }));
            assert_eq!(saved, Some("a.png".to_owned()));
        }
        other => panic!("expected the end, got {other:?}"),
    }
}
