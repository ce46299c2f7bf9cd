use rsnip::config::HotkeyConfig;
use rsnip::hotkeys::{
    message_step, parse_hotkey, start_hotkey_runtime, HotkeyAction, HotkeyStep, MOD_ALT,
    MOD_CONTROL, MOD_SHIFT, MOD_WIN,
};
use rsnip::ipc::IpcCommand;

#[test]
fn parses_default_snip_hotkey() {
    let hotkey = parse_hotkey("ctrl+shift+s").unwrap();
    assert_eq!(hotkey.virtual_key, u32::from(b'S'));
}

#[test]
fn rejects_hotkey_without_key() {
    assert!(parse_hotkey("ctrl+shift").is_err());
}

#[test]
fn modifiers_add_up() {
    let hotkey = parse_hotkey(" Ctrl + ALT + shift + Win + f5 ").unwrap();
    assert_eq!(hotkey.modifiers, MOD_CONTROL | MOD_ALT | MOD_SHIFT | MOD_WIN);
    assert_eq!(hotkey.virtual_key, 0x74);
}

#[test]
fn function_keys_have_a_range() {
    assert_eq!(parse_hotkey("ctrl+f1").unwrap().virtual_key, 0x70);
    assert_eq!(parse_hotkey("ctrl+f24").unwrap().virtual_key, 0x87);
    assert!(parse_hotkey("ctrl+f0").is_err());
    assert!(parse_hotkey("ctrl+f25").is_err());
    assert!(parse_hotkey("ctrl+fx").is_err());
}

#[test]
fn default_hotkeys_are_registered_in_order() {
    let specs = start_hotkey_runtime(&HotkeyConfig::default()).unwrap();
    let actions: Vec<HotkeyAction> = specs.iter().map(|spec| spec.action).collect();
    assert_eq!(actions, vec![HotkeyAction::Snip, HotkeyAction::Record, HotkeyAction::Ocr]);
    let keys: Vec<u32> = specs.iter().map(|spec| spec.hotkey.virtual_key).collect();
    assert_eq!(keys, vec![u32::from(b'S'), u32::from(b'R'), u32::from(b'E')]);
    for spec in &specs {
        assert_eq!(spec.hotkey.modifiers, MOD_CONTROL | MOD_SHIFT);
    }
}

#[test]
fn a_hotkey_sends_its_command() {
    let specs = start_hotkey_runtime(&HotkeyConfig::default()).unwrap();
    let sent: Vec<HotkeyStep> =
        specs.iter().map(|spec| message_step(1, Some(spec.id))).collect();
    assert_eq!(
        sent,
        vec![
            HotkeyStep::Send(IpcCommand::Snip),
            HotkeyStep::Send(IpcCommand::Record),
            HotkeyStep::Send(IpcCommand::Ocr),
        ]
    );
    assert_eq!(message_step(1, Some(99)), HotkeyStep::Skip);
    assert_eq!(message_step(1, None), HotkeyStep::Dispatch);
    assert_eq!(message_step(0, None), HotkeyStep::Quit);
    assert_eq!(message_step(-1, None), HotkeyStep::Failed);
}
