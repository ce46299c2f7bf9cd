use rsnip::canvas::{
    draw_circle_outline, draw_line, draw_number, draw_thick_rect_outline, fill_circle, fill_rect,
    put_pixel,
};
use rsnip::errors::RsnipError;
use rsnip::paths::{
    config_dir, config_file, data_dir, default_video_dir, log_file, next_temp_path,
    recording_output_file, recording_timestamp, temp_dir, LocalTime, TempImage,
};
use rsnip::pixels::{bgra_to_rgba, swap_channels};
use rsnip::single_instance::{SingleInstance, SingleInstanceStatus};
use rsnip::text::{
    decimal_i64, decimal_u128, decimal_u64, decode_utf16, encode_utf16, padded_u64, text_contains,
    trim,
};
use rsnip::time::Elapsed;
use std::path::Path;

fn joined(base: &str, part: &str) -> String {
    Path::new(base).join(part).to_string_lossy().into_owned()
}

#[test]
fn files_stand_in_the_folders_of_the_tool() {
    let dir = config_dir(Some("base".to_owned())).unwrap();
    assert_eq!(dir, joined("base", "rsnip"));
    assert_eq!(config_file(Some("base".to_owned())).unwrap(), joined(&dir, "rsnip.toml"));
    let data = data_dir(Some("data".to_owned())).unwrap();
    assert_eq!(data, joined("data", "rsnip"));
    assert_eq!(log_file(Some("data".to_owned())).unwrap(), joined(&data, "rsnip.log"));
    assert_eq!(temp_dir("tmp"), joined("tmp", "rsnip"));
    assert_eq!(default_video_dir(Some("v".to_owned())).unwrap(), "v");
}

#[test]
fn files_never_stand_beside_their_folder() {
    let inside = |path: &str| path.ends_with("/rsnip") || path.ends_with("\\rsnip");
    assert!(inside(&temp_dir("C:\\Users\\a\\AppData\\Roaming")));
    assert!(inside(&temp_dir("/etc")));
    assert!(inside(&temp_dir("/etc/")));
    assert_eq!(temp_dir("/etc/"), "/etc/rsnip");
    assert_eq!(temp_dir(""), "rsnip");
    let verbatim = "\\\\?\\C:\\Videos";
    let path = temp_dir(verbatim);
    assert!(inside(&path) && path.starts_with(verbatim));
    assert_eq!(path.len(), verbatim.len() + "/rsnip".len());
    assert!(inside(&temp_dir("\\\\?\\C:\\a\\..\\b")));
}

#[test]
fn folders_have_to_be_known() {
    assert!(matches!(config_dir(None), Err(RsnipError::MissingUserDirectory("config"))));
    assert!(matches!(config_file(None), Err(RsnipError::MissingUserDirectory("config"))));
    assert!(matches!(data_dir(None), Err(RsnipError::MissingUserDirectory("local data"))));
    assert!(matches!(log_file(None), Err(RsnipError::MissingUserDirectory("local data"))));
    assert!(matches!(default_video_dir(None), Err(RsnipError::MissingUserDirectory(_))));
}

#[test]
fn recordings_are_named_by_their_time() {
    let time = LocalTime { year: 2024, month: 3, day: 9, hour: 1, minute: 2, second: 59 };
    assert_eq!(recording_timestamp(time), "20240309_010259");
    assert_eq!(
        recording_output_file("videos", time),
        joined("videos", "Recording_20240309_010259.mp4")
    );
}

#[test]
fn temporary_images_are_named_by_process_and_time() {
    let time = Elapsed { seconds: 3, nanoseconds: 4 };
    assert_eq!(
        next_temp_path("tmp", TempImage::Editor, 77, Ok(time)).unwrap(),
        joined("tmp", "rsnip-editor-77-3000000004.png")
    );
    assert_eq!(
        next_temp_path("tmp", TempImage::Ocr, 77, Ok(time)).unwrap(),
        joined("tmp", "rsnip-ocr-77-3000000004.png")
    );
    assert_eq!(
        next_temp_path("tmp", TempImage::Ocr, 77, Err("early".to_owned()))
            .unwrap_err()
            .to_string(),
        "system time before UNIX_EPOCH: early"
    );
}

#[test]
fn one_daemon_runs_at_a_time() {
    let (_, status) = SingleInstance::acquire_daemon(Ok(5), false).unwrap();
    assert_eq!(status, SingleInstanceStatus::Acquired);
    let (_, status) = SingleInstance::acquire_daemon(Ok(5), true).unwrap();
    assert_eq!(status, SingleInstanceStatus::AlreadyRunning);
    assert!(SingleInstance::acquire_daemon(Err("denied".to_owned()), false).is_err());
}

#[test]
fn swapping_channels_twice_changes_nothing() {
    let bytes = vec![1, 2, 3, 4, 5, 6, 7, 8];
    assert_eq!(swap_channels(&bytes), vec![3, 2, 1, 4, 7, 6, 5, 8]);
    assert_eq!(swap_channels(&swap_channels(&bytes)), bytes);
    assert_eq!(bgra_to_rgba(&bytes).unwrap(), swap_channels(&bytes));
    assert_eq!(
        bgra_to_rgba(&bytes[..7]).unwrap_err().to_string(),
        "BGRA buffer length must be divisible by 4, got 7"
    );
}

#[test]
fn numbers_are_written_in_decimal() {
    assert_eq!(decimal_u64(0), "0");
    assert_eq!(decimal_u64(u64::MAX), u64::MAX.to_string());
    assert_eq!(decimal_u128(u128::MAX), u128::MAX.to_string());
    assert_eq!(decimal_i64(i64::MIN), i64::MIN.to_string());
    assert_eq!(padded_u64(7, 3), "007");
    assert_eq!(padded_u64(1234, 2), "1234");
}

#[test]
fn text_is_trimmed_and_searched() {
    assert_eq!(trim("\u{3000}\t hola \u{85}\n"), "hola");
    assert_eq!(trim(" \n"), "");
    assert!(text_contains("hola mundo", "a m"));
    assert!(!text_contains("hola", "x"));
    assert!(text_contains("", ""));
}

#[test]
fn wide_characters_are_read_back() {
    let text = "hola ñ こ \u{1f600}";
    let units = encode_utf16(text);
    assert_eq!(units, text.encode_utf16().collect::<Vec<u16>>());
    assert_eq!(decode_utf16(&units), text);
    assert_eq!(decode_utf16(&[0x61, 0xd83d, 0x62]), "a\u{fffd}b");
    assert_eq!(decode_utf16(&[0xde00]), "\u{fffd}");
}

#[test]
fn times_are_told_in_whole_units() {
    let time = Elapsed { seconds: 2, nanoseconds: 345_678_901 };
    assert_eq!(time.as_nanos(), 2_345_678_901);
    assert_eq!(time.as_millis(), 2_345);
    assert_eq!(time.as_secs(), 2);
    assert_eq!(Elapsed::from_millis(1_500), Elapsed { seconds: 1, nanoseconds: 500_000_000 });
    assert_eq!(
        time.saturating_sub(Elapsed::from_secs(1)),
        Elapsed { seconds: 1, nanoseconds: 345_678_901 }
    );
    assert_eq!(Elapsed::zero().saturating_sub(time), Elapsed::zero());
}

fn drawn(width: u32, height: u32, draw: impl Fn(&mut [u8])) -> Vec<String> {
    let mut pixels = vec![b'.'; (width * height) as usize];
    draw(&mut pixels);
    pixels
        .chunks(width as usize)
        .map(|row| String::from_utf8(row.to_vec()).unwrap())
        .collect()
}

#[test]
fn a_line_joins_its_ends() {
    assert_eq!(
        drawn(5, 3, |pixels| draw_line(pixels, 5, 3, (0, 0), (4, 2), b'#', 1)),
        vec!["#....", ".##..", "...##"]
    );
    assert_eq!(
        drawn(4, 2, |pixels| draw_line(pixels, 4, 2, (-2, 1), (1, 1), b'#', 1)),
        vec!["....", "##.."]
    );
}

#[test]
fn points_off_the_canvas_are_not_drawn() {
    let rows = drawn(2, 1, |pixels| {
        put_pixel(pixels, 2, 1, 1, 0, b'#');
        put_pixel(pixels, 2, 1, 2, 0, b'#');
        put_pixel(pixels, 2, 1, 0, -1, b'#');
    });
    assert_eq!(rows, vec![".#"]);
}

#[test]
fn rectangles_are_filled_and_framed() {
    assert_eq!(
        drawn(4, 3, |pixels| fill_rect(pixels, 4, 3, 1, 1, 3, 3, b'#')),
        vec!["....", ".##.", ".##."]
    );
    assert_eq!(
        drawn(5, 4, |pixels| draw_thick_rect_outline(pixels, 5, 4, 0, 0, 5, 4, b'#', 1)),
        vec!["#####", "#...#", "#...#", "#####"]
    );
}

#[test]
fn circles_are_round() {
    assert_eq!(
        drawn(5, 5, |pixels| fill_circle(pixels, 5, 5, (2, 2), 2, b'#')),
        vec!["..#..", ".###.", "#####", ".###.", "..#.."]
    );
    let rows = drawn(9, 9, |pixels| draw_circle_outline(pixels, 9, 9, (4, 4), 4, b'#'));
    assert_eq!(&rows[4][4..5], ".");
    assert_eq!(&rows[4][8..9], "#");
}

#[test]
fn numbers_are_drawn_about_their_center() {
    let rows = drawn(20, 20, |pixels| draw_number(pixels, 20, 20, (10, 10), 8, b'#', 1));
    let lit = rows.iter().flat_map(|row| row.chars()).filter(|c| *c == '#').count();
    assert!(lit > 0);
    assert!(rows[0].chars().all(|c| c == '.'));
}
