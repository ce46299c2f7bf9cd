use rsnip::overlay::toast::{
    explorer_select_arg, scaled_alpha, show_simple_toast_async, show_toast_async, toast_alpha,
    toast_background, toast_position, update_toast_opacity_or_close, ToastAction, ToastKind,
    ToastMessage, ToastTick, TOAST_HEIGHT, TOAST_WIDTH,
};
use rsnip::text::to_wide_null;
use rsnip::time::Elapsed;

#[test]
fn wide_strings_are_nul_terminated() {
    let value = to_wide_null("hola");
    assert_eq!(value.last(), Some(&0));
    assert_eq!(&value[..4], &[104, 111, 108, 97]);
}

#[test]
fn toast_alpha_fades_in_holds_and_fades_out() {
    assert_eq!(toast_alpha(Elapsed::from_millis(0)), 0);
    assert!(toast_alpha(Elapsed::from_millis(70)) > 0);
    assert_eq!(toast_alpha(Elapsed::from_millis(140)), u8::MAX);
    assert_eq!(toast_alpha(Elapsed::from_millis(1000)), u8::MAX);
    assert!(toast_alpha(Elapsed::from_millis(2100)) < u8::MAX);
}

#[test]
fn toast_actions_are_explicit() {
    assert_eq!(ToastAction::Nothing, ToastAction::Nothing);
    assert_eq!(ToastAction::DebugLog, ToastAction::DebugLog);
}

#[test]
fn a_notice_closes_after_its_time() {
    assert_eq!(
        update_toast_opacity_or_close(Elapsed::from_millis(1_000)),
        ToastTick::SetAlpha(255)
    );
    assert_eq!(update_toast_opacity_or_close(Elapsed::from_millis(2_200)), ToastTick::Close);
    assert_eq!(scaled_alpha(Elapsed::from_millis(70), Elapsed::from_millis(140)), 127);
    assert_eq!(toast_alpha(Elapsed::from_millis(2_070)), 128);
}

#[test]
fn a_notice_stands_in_the_lower_right_corner() {
    let (x, y) = toast_position(1920, 1080);
    assert_eq!((x, y), (1536, 940));
    assert!(x + TOAST_WIDTH < 1920 && y + TOAST_HEIGHT < 1080);
    assert_ne!(toast_background(ToastKind::Info), toast_background(ToastKind::Error));
}

#[test]
fn a_simple_notice_does_nothing_on_a_click() {
    let toast = show_simple_toast_async("RSnip", "hola".to_owned(), ToastKind::Info);
    assert_eq!(toast.action, ToastAction::Nothing);
    assert_eq!(toast.message, ToastMessage("hola".to_owned()));
    let toast = show_toast_async(
        "RSnip",
        "video".to_owned(),
        ToastKind::Error,
        ToastAction::OpenInExplorer("a.mp4".to_owned()),
    );
    assert_eq!(toast.title, "RSnip");
    assert_eq!(toast.kind, ToastKind::Error);
    assert_eq!(toast.action, ToastAction::OpenInExplorer("a.mp4".to_owned()));
}

#[test]
fn explorer_is_told_which_file_to_show() {
    assert!(explorer_select_arg("C:\\Videos\\a.mp4").contains("C:\\Videos\\a.mp4"));
    assert!(explorer_select_arg("a").starts_with("/select,"));
}
