use rsnip::clipboard::{
    copy_file, copy_image, copy_text, format_code, image_to_dib, image_to_png, open_with_retries,
    ClipboardFormat,
};
use rsnip::editor::{load_editor_input_png, save_editor_input_png, session_image_of_decoding};
use rsnip::errors::RsnipError;
use rsnip::images::{png_file, png_of_encoding, read_image, PngPurpose};
use rsnip::ocr::save_ocr_input_png;
use rsnip::paths::{next_temp_path, TempImage};
use rsnip::screen::capture::CapturedImage;
use rsnip::time::Elapsed;

#[test]
fn dib_contains_top_down_32bit_header_and_pixels() {
    let image = CapturedImage::new(0, 0, 2, 1, vec![1, 2, 3, 4, 5, 6, 7, 8]).unwrap();
    let dib = image_to_dib(&image).unwrap();

    assert_eq!(dib.len(), 40 + 8);
    assert_eq!(u32::from_le_bytes(dib[0..4].try_into().unwrap()), 40);
    assert_eq!(i32::from_le_bytes(dib[4..8].try_into().unwrap()), 2);
    assert_eq!(i32::from_le_bytes(dib[8..12].try_into().unwrap()), -1);
    assert_eq!(u16::from_le_bytes(dib[14..16].try_into().unwrap()), 32);
    assert_eq!(&dib[40..], &[1, 2, 3, 4, 5, 6, 7, 8]);
}

#[test]
fn png_contains_png_signature() {
    let image = CapturedImage::new(0, 0, 1, 1, vec![1, 2, 3, 255]).unwrap();
    let png = image_to_png(&image).unwrap();
    assert_eq!(&png[..8], b"\x89PNG\r\n\x1a\n");
}

#[test]
fn a_png_file_shows_the_image_again() {
    let image = CapturedImage::new(0, 0, 2, 1, vec![1, 2, 3, 255, 5, 6, 7, 255]).unwrap();
    let png = image_to_png(&image).unwrap();
    let shown = image::load_from_memory(&png).unwrap().to_rgba8();
    assert_eq!(shown.dimensions(), (2, 1));
    assert_eq!(shown.into_raw(), vec![3, 2, 1, 255, 7, 6, 5, 255]);
    assert_eq!(png, image_to_png(&image).unwrap());
}

#[test]
fn an_image_without_all_its_pixels_is_refused() {
    let short = CapturedImage {
        origin_x: 0,
        origin_y: 0,
        width: 2,
        height: 1,
        bgra: vec![1, 2, 3, 4],
    };
    assert_eq!(
        image_to_png(&short).unwrap_err().to_string(),
        "failed to build clipboard PNG buffer for 2x1 image"
    );
    assert_eq!(
        save_editor_input_png(&short).unwrap_err().to_string(),
        "failed to build editor PNG buffer for 2x1 image"
    );
    assert_eq!(
        save_ocr_input_png(&short).unwrap_err().to_string(),
        "failed to build OCR PNG buffer for 2x1 image"
    );
    let odd = CapturedImage { bgra: vec![1, 2, 3], ..short };
    assert_eq!(
        image_to_png(&odd).unwrap_err().to_string(),
        "BGRA buffer length must be divisible by 4, got 3"
    );
}

#[test]
fn an_encoding_is_handed_on() {
    assert_eq!(png_of_encoding(PngPurpose::Clipboard, 1, 1, Some(Ok(vec![7]))).unwrap(), vec![7]);
    assert_eq!(
        png_of_encoding(PngPurpose::Clipboard, 1, 1, Some(Err("full".to_owned()))).unwrap_err().to_string(),
        "failed to encode clipboard PNG: full"
    );
    assert_eq!(
        png_of_encoding(PngPurpose::Clipboard, 3, 4, None).unwrap_err().to_string(),
        "failed to build clipboard PNG buffer for 3x4 image"
    );
    assert_eq!(
        png_of_encoding(PngPurpose::Editor, 1, 1, Some(Err("full".to_owned())))
            .unwrap_err()
            .to_string(),
        "failed to save editor PNG: full"
    );
    assert_eq!(
        png_of_encoding(PngPurpose::Ocr, 1, 1, Some(Err("full".to_owned())))
            .unwrap_err()
            .to_string(),
        "failed to save OCR PNG: full"
    );
    let empty = CapturedImage { origin_x: 0, origin_y: 0, width: 0, height: 0, bgra: vec![] };
    assert!(image_to_png(&empty).is_err());
}

#[test]
fn the_editor_opens_the_image_that_was_saved() {
    let image = CapturedImage::new(7, 8, 2, 1, vec![1, 2, 3, 0, 5, 6, 7, 200]).unwrap();
    let time = Elapsed { seconds: 3, nanoseconds: 4 };
    let path = next_temp_path("/tmp/rsnip", TempImage::Editor, 12, Ok(time)).unwrap();
    let png = save_editor_input_png(&image).unwrap();
    let opened = load_editor_input_png(&path, Ok(png.clone())).unwrap();
    assert_eq!((opened.width, opened.height), (2, 1));
    assert_eq!(opened.rgba, vec![3, 2, 1, 0, 7, 6, 5, 200]);
    assert_eq!(png, save_ocr_input_png(&image).unwrap());
    assert_eq!(png, png_file(&image, PngPurpose::Clipboard).unwrap());
}

#[test]
fn a_file_that_is_no_image_is_not_opened() {
    let error = |path: &str, bytes: Result<Vec<u8>, String>| {
        load_editor_input_png(path, bytes).unwrap_err().to_string()
    };
    assert_eq!(
        error("/tmp/a1.png", Err("no such file".to_owned())),
        "failed to load editor PNG: no such file"
    );
    assert!(error("/tmp/a1.png", Ok(vec![1, 2, 3])).starts_with("failed to load editor PNG: "));
    let image = CapturedImage::new(0, 0, 1, 1, vec![1, 2, 3, 255]).unwrap();
    let png = save_editor_input_png(&image).unwrap();
    assert!(error("/tmp/a1", Ok(png.clone())).starts_with("failed to load editor PNG: "));
    assert!(error("/tmp/a1.txt", Ok(png.clone())).starts_with("failed to load editor PNG: "));
    assert!(read_image("/tmp/a1.png", &png[..20].to_vec()).is_err());
    assert_eq!(read_image("/tmp/a1.png", &png), Ok((1, 1, vec![3, 2, 1, 255])));
    let pixels = || Ok((1, 1, vec![3, 2, 1, 255]));
    assert_eq!(read_image("C:/A1.PNG", &png), pixels());
    assert_eq!(read_image("//server/share/tmp/a1.png", &png), pixels());
    assert_eq!(read_image("\\\\?\\C:\\tmp\\a1.png", &png), pixels());
    let unknown = "failed to load editor PNG: The image format could not be determined";
    assert_eq!(error("/tmp/a1", Ok(png.clone())), unknown);
    assert_eq!(error("/tmp/a1.", Ok(png.clone())), unknown);
    assert_eq!(error("", Ok(png.clone())), unknown);
}

#[test]
fn a_decoding_is_handed_on_to_the_editor() {
    let opened = session_image_of_decoding(Ok((1, 1, vec![1, 2, 3, 4]))).unwrap();
    assert_eq!((opened.width, opened.height, opened.rgba), (1, 1, vec![1, 2, 3, 4]));
    assert_eq!(
        session_image_of_decoding(Err("torn".to_owned())).unwrap_err().to_string(),
        "failed to load editor PNG: torn"
    );
}

#[test]
fn an_image_is_copied_in_two_formats() {
    let image = CapturedImage::new(0, 0, 1, 1, vec![1, 2, 3, 255]).unwrap();
    let payload = copy_image(&image, 49_161).unwrap();
    assert_eq!(payload.dib_format, 8);
    assert_eq!(payload.dib, image_to_dib(&image).unwrap());
    assert_eq!(payload.png_format, 49_161);
    assert_eq!(payload.png, image_to_png(&image).unwrap());
    match copy_image(&image, 0) {
        Err(RsnipError::Message(message)) => {
            assert_eq!(message, "RegisterClipboardFormatW failed for PNG")
        }
        _ => panic!("expected an error"),
    }
}

#[test]
fn sizes_of_bitmaps_have_a_limit() {
    let image = |width: u32, height: u32| CapturedImage {
        origin_x: 0,
        origin_y: 0,
        width,
        height,
        bgra: vec![],
    };
    assert_eq!(
        image_to_dib(&image(0x8000_0000, 1)).unwrap_err().to_string(),
        "image width too large: 2147483648"
    );
    assert_eq!(
        image_to_dib(&image(1, 0x8000_0000)).unwrap_err().to_string(),
        "image height too large: 2147483648"
    );
}

#[test]
fn text_is_copied_as_wide_characters() {
    assert_eq!(copy_text("aé"), vec![0x61, 0, 0xe9, 0, 0, 0]);
    assert_eq!(copy_text("\u{1f600}"), vec![0x3d, 0xd8, 0x00, 0xde, 0, 0]);
    assert_eq!(copy_text(""), vec![0, 0]);
}

#[test]
fn a_file_is_copied_as_a_list_of_one() {
    let bytes = copy_file("C:");
    assert_eq!(&bytes[0..4], &[20, 0, 0, 0]);
    assert_eq!(&bytes[4..16], &[0; 12]);
    assert_eq!(&bytes[16..20], &[1, 0, 0, 0]);
    assert_eq!(&bytes[20..], &[0x43, 0, 0x3a, 0, 0, 0, 0, 0]);
}

#[test]
fn formats_have_their_numbers() {
    assert_eq!(format_code(ClipboardFormat::Image), 8);
    assert_eq!(format_code(ClipboardFormat::Text), 13);
    assert_eq!(format_code(ClipboardFormat::FileDrop), 15);
}

#[test]
fn a_busy_clipboard_is_tried_five_times() {
    assert_eq!(open_with_retries(4, "busy"), None);
    assert_eq!(
        open_with_retries(5, "busy").unwrap().to_string(),
        "OpenClipboard failed after 5 attempts: busy"
    );
}
