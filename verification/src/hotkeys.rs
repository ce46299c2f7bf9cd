//! Key combinations: how they are written and which command each of them triggers.
use crate::config::{is_default_hotkeys, HotkeyConfig};
use crate::errors::{is_message, yields, RsnipError};
use crate::ipc::IpcCommand;
use crate::text::{
    ascii_upper, chars_of, decimal, decimal_value, law_decimal_is_read_back, law_letter_case,
    lemma_split_joined, lemma_split_whole, lowered, lowered_text, split_at_char, split_ranges,
    text_eq, text_of, to_ascii_upper, trim_range, trimmed, trimmed_back, trimmed_front,
};
use vstd::prelude::*;

verus! {

pub const MOD_ALT: u32 = 1;

pub const MOD_CONTROL: u32 = 2;

pub const MOD_SHIFT: u32 = 4;

pub const MOD_WIN: u32 = 8;

/// What a key combination triggers.
#[derive(Debug, Clone, Copy, PartialEq, Eq, Structural)]
pub enum HotkeyAction {
    Snip,
    Record,
    Ocr,
}

/// A key combination as the system takes it: a sum of modifiers and the code of a key.
#[derive(Debug, Clone, Copy, PartialEq, Eq, Structural)]
pub struct ParsedHotkey {
    pub modifiers: u32,
    pub virtual_key: u32,
}

/// The modifiers of a key combination.
#[derive(Debug, Clone, Copy, PartialEq, Eq, Structural)]
pub struct ModifierSet {
    pub control: bool,
    pub shift: bool,
    pub alt: bool,
    pub win: bool,
}

/// The number for a set of modifiers.
pub open spec fn modifier_bits(set: ModifierSet) -> int {
    (if set.alt {
        MOD_ALT as int
    } else {
        0
    }) + (if set.control {
        MOD_CONTROL as int
    } else {
        0
    }) + (if set.shift {
        MOD_SHIFT as int
    } else {
        0
    }) + (if set.win {
        MOD_WIN as int
    } else {
        0
    })
}

fn bits_of_modifiers(set: ModifierSet) -> (r: u32)
    ensures
        r == modifier_bits(set),
{
    let mut bits: u32 = 0;
    if set.alt {
        bits = bits + MOD_ALT;
    }
    if set.control {
        bits = bits + MOD_CONTROL;
    }
    if set.shift {
        bits = bits + MOD_SHIFT;
    }
    if set.win {
        bits = bits + MOD_WIN;
    }
    bits
}

// ---------------------------------------------------------------------------------------------
// Keys
// ---------------------------------------------------------------------------------------------

/// The value of a text of decimal digits.
pub open spec fn digits_value(digits: Seq<char>) -> nat
    decreases digits.len(),
{
    if digits.len() == 0 {
        0
    } else {
        (digits_value(digits.drop_last()) * 10 + (digits.last() as int - '0' as int)) as nat
    }
}

/// Whether a text is made of decimal digits.
pub open spec fn are_digits(text: Seq<char>) -> bool {
    forall|i: int| 0 <= i < text.len() ==> '0' <= #[trigger] text[i] <= '9'
}

/// The number that a text writes: digits, after a plus sign or not.
pub open spec fn written_number(text: Seq<char>) -> Option<nat> {
    let digits = if text.len() > 0 && text[0] == '+' {
        text.drop_first()
    } else {
        text
    };
    if digits.len() > 0 && are_digits(digits) {
        Some(digits_value(digits))
    } else {
        None
    }
}

/// What `str::parse` says of a text that is no number of 32 bits.
pub uninterp spec fn number_complaint(text: Seq<char>) -> Seq<char>;

/// Reads a number with `str::parse::<u32>`. The contract claims that it takes exactly the texts of
/// one or more decimal digits, after a plus sign or not, whose value fits, and that its complaint
/// about any other text depends on the text alone.
#[verifier::external_body]
fn parse_number(text: &str) -> (r: Result<u32, String>)
    ensures
        match r {
            Ok(number) => written_number(text@) == Some(number as nat),
            Err(complaint) => {
                &&& complaint@ == number_complaint(text@)
                &&& written_number(text@) matches Some(value) ==> value > u32::MAX
            },
        },
{
    text.parse::<u32>().map_err(|error| error.to_string())
}

/// The code of a key, or why the combination is refused.
pub open spec fn function_key(number: Result<u32, Seq<char>>, key: Seq<char>, input: Seq<char>) -> Result<
    u32,
    Seq<char>,
> {
    match number {
        Err(complaint) => Err(
            "hotkey `"@ + input + "` contains invalid function key `"@ + key + "`: "@ + complaint,
        ),
        Ok(number) => if 1 <= number <= 24 {
            Ok((0x70 + number - 1) as u32)
        } else {
            Err("hotkey `"@ + input + "` contains function key outside F1-F24"@)
        },
    }
}

/// The number of a function key, or the complaint about it.
pub open spec fn function_number(text: Seq<char>) -> Result<u32, Seq<char>> {
    match written_number(text) {
        Some(value) => if value <= u32::MAX {
            Ok(value as u32)
        } else {
            Err(number_complaint(text))
        },
        None => Err(number_complaint(text)),
    }
}

/// The code of a key that has a name.
pub open spec fn named_key(key: Seq<char>) -> Option<u32> {
    if key == "escape"@ || key == "esc"@ {
        Some(0x1B)
    } else if key == "space"@ {
        Some(0x20)
    } else if key == "enter"@ || key == "return"@ {
        Some(0x0D)
    } else if key == "tab"@ {
        Some(0x09)
    } else if key == "backspace"@ {
        Some(0x08)
    } else if key == "delete"@ || key == "del"@ {
        Some(0x2E)
    } else if key == "insert"@ || key == "ins"@ {
        Some(0x2D)
    } else if key == "home"@ {
        Some(0x24)
    } else if key == "end"@ {
        Some(0x23)
    } else if key == "pageup"@ || key == "pgup"@ {
        Some(0x21)
    } else if key == "pagedown"@ || key == "pgdn"@ {
        Some(0x22)
    } else if key == "left"@ {
        Some(0x25)
    } else if key == "up"@ {
        Some(0x26)
    } else if key == "right"@ {
        Some(0x27)
    } else if key == "down"@ {
        Some(0x28)
    } else {
        None
    }
}

/// The code of a single letter or digit.
pub open spec fn letter_key(key: Seq<char>) -> Option<u32> {
    if key.len() != 1 {
        None
    } else if 'a' <= key[0] <= 'z' || 'A' <= key[0] <= 'Z' || '0' <= key[0] <= '9' {
        Some(ascii_upper(key[0]) as u32)
    } else {
        None
    }
}

/// The code of a key: a letter or a digit, a name, or a function key.
pub open spec fn key_code(key: Seq<char>, input: Seq<char>) -> Result<u32, Seq<char>> {
    match (letter_key(key), named_key(key)) {
        (Some(code), _) => Ok(code),
        (None, Some(code)) => Ok(code),
        (None, None) => if key.len() > 0 && key[0] == 'f' {
            function_key(function_number(key.drop_first()), key, input)
        } else {
            Err("hotkey `"@ + input + "` contains unsupported key `"@ + key + "`"@)
        },
    }
}

/// The text in an optional complaint.
pub open spec fn read_number(number: Result<u32, String>) -> Result<u32, Seq<char>> {
    match number {
        Ok(number) => Ok(number),
        Err(complaint) => Err(complaint@),
    }
}

/// The code of a function key, given its number or the complaint about it.
pub fn function_key_code(number: Result<u32, String>, key: &str, input: &str) -> (r: Result<
    u32,
    RsnipError,
>)
    ensures
        yields(r, function_key(read_number(number), key@, input@)),
{
    match number {
        Err(complaint) => {
            let mut message = "hotkey `".to_owned();
            message.append(input);
            message.append("` contains invalid function key `");
            message.append(key);
            message.append("`: ");
            message.append(complaint.as_str());
            Err(RsnipError::Message(message))
        },
        Ok(number) => {
            if number < 1 || number > 24 {
                let mut message = "hotkey `".to_owned();
                message.append(input);
                message.append("` contains function key outside F1-F24");
                return Err(RsnipError::Message(message));
            }
            Ok(0x70 + number - 1)
        },
    }
}

fn named_key_code(key: &str) -> (r: Option<u32>)
    ensures
        r == named_key(key@),
{
    if text_eq(key, "escape") || text_eq(key, "esc") {
        Some(0x1B)
    } else if text_eq(key, "space") {
        Some(0x20)
    } else if text_eq(key, "enter") || text_eq(key, "return") {
        Some(0x0D)
    } else if text_eq(key, "tab") {
        Some(0x09)
    } else if text_eq(key, "backspace") {
        Some(0x08)
    } else if text_eq(key, "delete") || text_eq(key, "del") {
        Some(0x2E)
    } else if text_eq(key, "insert") || text_eq(key, "ins") {
        Some(0x2D)
    } else if text_eq(key, "home") {
        Some(0x24)
    } else if text_eq(key, "end") {
        Some(0x23)
    } else if text_eq(key, "pageup") || text_eq(key, "pgup") {
        Some(0x21)
    } else if text_eq(key, "pagedown") || text_eq(key, "pgdn") {
        Some(0x22)
    } else if text_eq(key, "left") {
        Some(0x25)
    } else if text_eq(key, "up") {
        Some(0x26)
    } else if text_eq(key, "right") {
        Some(0x27)
    } else if text_eq(key, "down") {
        Some(0x28)
    } else {
        None
    }
}

/// Finds the code of a key.
pub fn parse_virtual_key(key: &str, input: &str) -> (r: Result<u32, RsnipError>)
    ensures
        yields(r, key_code(key@, input@)),
{
    let characters = chars_of(key);
    if characters.len() == 1 {
        let letter = characters[0];
        if (letter >= 'a' && letter <= 'z') || (letter >= 'A' && letter <= 'Z') || (letter >= '0'
            && letter <= '9') {
            return Ok(to_ascii_upper(letter) as u32);
        }
    }
    if let Some(code) = named_key_code(key) {
        return Ok(code);
    }
    if characters.len() > 0 && characters[0] == 'f' {
        let rest = text_of(&characters, 1, characters.len());
        assert(rest@ =~= key@.drop_first());
        return function_key_code(parse_number(rest.as_str()), key, input);
    }
    let mut message = "hotkey `".to_owned();
    message.append(input);
    message.append("` contains unsupported key `");
    message.append(key);
    message.append("`");
    Err(RsnipError::Message(message))
}

/// The code of a key with a single letter or digit is the code of the character, of the capital one
/// for a letter: a digit `d` has the code `0x30 + d`, and both cases of a letter are one key.
pub proof fn law_letters_and_digits_are_their_codes(c: char, input: Seq<char>)
    ensures
        '0' <= c <= '9' ==> (key_code(seq![c], input) matches Ok(code) && code == 0x30 + (c as int
            - '0' as int)),
        'A' <= c <= 'Z' ==> (key_code(seq![c], input) matches Ok(code) && code == c as int),
        'a' <= c <= 'z' ==> (key_code(seq![c], input) matches Ok(code) && code == c as int - 'a' as int
            + 'A' as int),
{
}

/// The code of a letter or digit names the key: two of them share a code only if they are the same
/// character but for its case.
pub proof fn law_codes_name_letters_and_digits(a: char, b: char, input: Seq<char>)
    requires
        'a' <= a <= 'z' || '0' <= a <= '9',
        'a' <= b <= 'z' || '0' <= b <= '9',
    ensures
        key_code(seq![a], input) is Ok,
        key_code(seq![a], input) == key_code(seq![b], input) <==> a == b,
{
    law_letters_and_digits_are_their_codes(a, input);
    law_letters_and_digits_are_their_codes(b, input);
}

/// A key with a name has a code below those of the digits, so that it is mistaken for no digit, no
/// letter and no function key; and names for different keys have different codes.
pub proof fn law_codes_name_the_named_keys(a: Seq<char>, b: Seq<char>)
    ensures
        named_key(a) matches Some(code) ==> 8 <= code < 0x30,
        named_key("esc"@) == named_key("escape"@) && named_key("return"@) == named_key("enter"@),
        named_key("del"@) == named_key("delete"@) && named_key("ins"@) == named_key("insert"@),
        named_key("pgup"@) == named_key("pageup"@) && named_key("pgdn"@) == named_key("pagedown"@),
        named_key(a) is Some && named_key(a) == named_key(b) && a != b ==> {
            ||| is_pair(a, b, "esc"@, "escape"@)
            ||| is_pair(a, b, "return"@, "enter"@)
            ||| is_pair(a, b, "del"@, "delete"@)
            ||| is_pair(a, b, "ins"@, "insert"@)
            ||| is_pair(a, b, "pgup"@, "pageup"@)
            ||| is_pair(a, b, "pgdn"@, "pagedown"@)
        },
{
    lemma_key_names_differ();
}

/// The control characters among the keys have their ASCII codes, and the keys of the two blocks
/// around the arrows have the codes that the system counts them by.
pub proof fn law_named_keys_have_the_codes_of_the_system()
    ensures
        named_key("backspace"@) == Some('\u{8}' as u32),
        named_key("tab"@) == Some('\t' as u32),
        named_key("enter"@) == Some('\r' as u32),
        named_key("escape"@) == Some('\u{1b}' as u32),
        named_key("space"@) == Some(' ' as u32),
        named_key("pageup"@) == Some(0x21u32),
        named_key("pagedown"@) == Some(0x22u32),
        named_key("end"@) == Some(0x23u32),
        named_key("home"@) == Some(0x24u32),
        named_key("left"@) == Some(0x25u32),
        named_key("up"@) == Some(0x26u32),
        named_key("right"@) == Some(0x27u32),
        named_key("down"@) == Some(0x28u32),
        named_key("insert"@) == Some(0x2Du32),
        named_key("delete"@) == Some(0x2Eu32),
{
    lemma_key_names_differ();
}

/// Whether two texts are two given ones, in either order.
pub open spec fn is_pair(a: Seq<char>, b: Seq<char>, one: Seq<char>, other: Seq<char>) -> bool {
    (a == one && b == other) || (a == other && b == one)
}

proof fn lemma_key_names_differ()
    ensures
        named_key("esc"@) == Some(0x1Bu32) && named_key("escape"@) == Some(0x1Bu32),
        named_key("space"@) == Some(0x20u32),
        named_key("enter"@) == Some(0x0Du32) && named_key("return"@) == Some(0x0Du32),
        named_key("tab"@) == Some(0x09u32) && named_key("backspace"@) == Some(0x08u32),
        named_key("delete"@) == Some(0x2Eu32) && named_key("del"@) == Some(0x2Eu32),
        named_key("insert"@) == Some(0x2Du32) && named_key("ins"@) == Some(0x2Du32),
        named_key("home"@) == Some(0x24u32) && named_key("end"@) == Some(0x23u32),
        named_key("pageup"@) == Some(0x21u32) && named_key("pgup"@) == Some(0x21u32),
        named_key("pagedown"@) == Some(0x22u32) && named_key("pgdn"@) == Some(0x22u32),
        named_key("left"@) == Some(0x25u32) && named_key("up"@) == Some(0x26u32),
        named_key("right"@) == Some(0x27u32) && named_key("down"@) == Some(0x28u32),
{
    reveal_strlit("escape");
    reveal_strlit("esc");
    reveal_strlit("space");
    reveal_strlit("enter");
    reveal_strlit("return");
    reveal_strlit("tab");
    reveal_strlit("backspace");
    reveal_strlit("delete");
    reveal_strlit("del");
    reveal_strlit("insert");
    reveal_strlit("ins");
    reveal_strlit("home");
    reveal_strlit("end");
    reveal_strlit("pageup");
    reveal_strlit("pgup");
    reveal_strlit("pagedown");
    reveal_strlit("pgdn");
    reveal_strlit("left");
    reveal_strlit("up");
    reveal_strlit("right");
    reveal_strlit("down");
    assert("escape"@.len() == 6 && "escape"@[0] == 'e' && "escape"@[1] == 's');
    assert("esc"@.len() == 3 && "esc"@[0] == 'e' && "esc"@[1] == 's');
    assert("space"@.len() == 5 && "space"@[0] == 's' && "space"@[1] == 'p');
    assert("enter"@.len() == 5 && "enter"@[0] == 'e' && "enter"@[1] == 'n');
    assert("return"@.len() == 6 && "return"@[0] == 'r' && "return"@[1] == 'e');
    assert("tab"@.len() == 3 && "tab"@[0] == 't' && "tab"@[1] == 'a');
    assert("backspace"@.len() == 9 && "backspace"@[0] == 'b' && "backspace"@[1] == 'a');
    assert("delete"@.len() == 6 && "delete"@[0] == 'd' && "delete"@[1] == 'e');
    assert("del"@.len() == 3 && "del"@[0] == 'd' && "del"@[1] == 'e');
    assert("insert"@.len() == 6 && "insert"@[0] == 'i' && "insert"@[1] == 'n');
    assert("ins"@.len() == 3 && "ins"@[0] == 'i' && "ins"@[1] == 'n');
    assert("home"@.len() == 4 && "home"@[0] == 'h' && "home"@[1] == 'o');
    assert("end"@.len() == 3 && "end"@[0] == 'e' && "end"@[1] == 'n');
    assert("pageup"@.len() == 6 && "pageup"@[0] == 'p' && "pageup"@[1] == 'a');
    assert("pgup"@.len() == 4 && "pgup"@[0] == 'p' && "pgup"@[1] == 'g');
    assert("pagedown"@.len() == 8 && "pagedown"@[0] == 'p' && "pagedown"@[1] == 'a');
    assert("pgdn"@.len() == 4 && "pgdn"@[0] == 'p' && "pgdn"@[1] == 'g');
    assert("left"@.len() == 4 && "left"@[0] == 'l' && "left"@[1] == 'e');
    assert("up"@.len() == 2 && "up"@[0] == 'u' && "up"@[1] == 'p');
    assert("right"@.len() == 5 && "right"@[0] == 'r' && "right"@[1] == 'i');
    assert("down"@.len() == 4 && "down"@[0] == 'd' && "down"@[1] == 'o');
    assert("pgup"@[2] == 'u' && "pgdn"@[2] == 'd');
}

/// The function keys from F1 to F24 have consecutive codes from `0x70` on, and there are no others.
pub proof fn law_function_keys_are_in_order(number: nat, input: Seq<char>)
    ensures
        1 <= number <= 24 ==> (key_code(seq!['f'] + decimal(number), input) matches Ok(code) && code
            == 0x6F + number),
        number == 0 || 24 < number ==> key_code(seq!['f'] + decimal(number), input) is Err,
{
    let key = seq!['f'] + decimal(number);
    law_decimal_is_read_back(number);
    lemma_digits_value(decimal(number));
    assert(key.drop_first() =~= decimal(number));
    assert(named_key(key) is None) by {
        assert(key[1] <= '9');
        assert forall|name: Seq<char>| name.len() > 1 && name[1] > '9' implies key != name by {}
        lemma_names_are_letters();
    }
}

proof fn lemma_digits_value(digits: Seq<char>)
    requires
        forall|i: int| 0 <= i < digits.len() ==> '0' <= #[trigger] digits[i] <= '9',
    ensures
        digits_value(digits) == decimal_value(digits),
        decimal_value(digits) >= 0,
    decreases digits.len(),
{
    if digits.len() > 0 {
        assert forall|i: int| 0 <= i < digits.drop_last().len() implies '0'
            <= #[trigger] digits.drop_last()[i] <= '9' by {
            assert(digits.drop_last()[i] == digits[i]);
        }
        lemma_digits_value(digits.drop_last());
    }
}

/// The second character of the name of a key is no digit.
proof fn lemma_names_are_letters()
    ensures
        forall|name: Seq<char>| #[trigger] named_key(name) is Some ==> name.len() > 1 && name[1]
            > '9',
{
    reveal_strlit("escape");
    reveal_strlit("esc");
    reveal_strlit("space");
    reveal_strlit("enter");
    reveal_strlit("return");
    reveal_strlit("tab");
    reveal_strlit("backspace");
    reveal_strlit("delete");
    reveal_strlit("del");
    reveal_strlit("insert");
    reveal_strlit("ins");
    reveal_strlit("home");
    reveal_strlit("end");
    reveal_strlit("pageup");
    reveal_strlit("pgup");
    reveal_strlit("pagedown");
    reveal_strlit("pgdn");
    reveal_strlit("left");
    reveal_strlit("up");
    reveal_strlit("right");
    reveal_strlit("down");
}

// ---------------------------------------------------------------------------------------------
// Combinations
// ---------------------------------------------------------------------------------------------

/// What has been read of a key combination: its modifiers and, if it came, its key.
#[derive(Debug, Clone, Copy, PartialEq, Eq, Structural)]
pub struct HotkeyParts {
    pub modifiers: ModifierSet,
    pub virtual_key: Option<u32>,
}

/// A combination of which nothing has been read.
pub open spec fn no_parts() -> HotkeyParts {
    HotkeyParts {
        modifiers: ModifierSet { control: false, shift: false, alt: false, win: false },
        virtual_key: None,
    }
}

/// The parts after one more was read. Blank parts are passed over, and a second key is refused.
pub open spec fn with_part(parts: HotkeyParts, part: Seq<char>, input: Seq<char>) -> Result<
    HotkeyParts,
    Seq<char>,
> {
    let name = lowered(trimmed(part));
    if name.len() == 0 {
        Ok(parts)
    } else if name == "ctrl"@ || name == "control"@ {
        Ok(HotkeyParts { modifiers: ModifierSet { control: true, ..parts.modifiers }, ..parts })
    } else if name == "shift"@ {
        Ok(HotkeyParts { modifiers: ModifierSet { shift: true, ..parts.modifiers }, ..parts })
    } else if name == "alt"@ {
        Ok(HotkeyParts { modifiers: ModifierSet { alt: true, ..parts.modifiers }, ..parts })
    } else if name == "win"@ || name == "windows"@ || name == "meta"@ {
        Ok(HotkeyParts { modifiers: ModifierSet { win: true, ..parts.modifiers }, ..parts })
    } else if parts.virtual_key is Some {
        Err("hotkey `"@ + input + "` contains more than one key"@)
    } else {
        match key_code(name, input) {
            Ok(code) => Ok(HotkeyParts { virtual_key: Some(code), ..parts }),
            Err(text) => Err(text),
        }
    }
}

/// The parts of a list, read from the first to the last.
pub open spec fn read_parts(list: Seq<Seq<char>>, input: Seq<char>) -> Result<HotkeyParts, Seq<char>>
    decreases list.len(),
{
    if list.len() == 0 {
        Ok(no_parts())
    } else {
        match read_parts(list.drop_last(), input) {
            Ok(parts) => with_part(parts, list.last(), input),
            Err(text) => Err(text),
        }
    }
}

/// The key combination that a text writes: modifiers and one key, with plus signs between them.
pub open spec fn written_hotkey(input: Seq<char>) -> Result<ParsedHotkey, Seq<char>> {
    match read_parts(split_at_char(input, '+'), input) {
        Err(text) => Err(text),
        Ok(parts) => match parts.virtual_key {
            Some(virtual_key) => Ok(
                ParsedHotkey { modifiers: modifier_bits(parts.modifiers) as u32, virtual_key },
            ),
            None => Err("hotkey `"@ + input + "` does not contain a key"@),
        },
    }
}

/// Once a part is refused, the combination is, with the same message, whatever follows.
proof fn lemma_refused_part(list: Seq<Seq<char>>, count: int, input: Seq<char>)
    requires
        0 <= count <= list.len(),
        read_parts(list.take(count), input) is Err,
    ensures
        read_parts(list, input) == read_parts(list.take(count), input),
    decreases list.len() - count,
{
    if count < list.len() {
        assert(list.take(count + 1).drop_last() =~= list.take(count));
        lemma_refused_part(list, count + 1, input);
    } else {
        assert(list.take(count) =~= list);
    }
}

fn read_part(parts: HotkeyParts, name: &str, input: &str) -> (r: Result<HotkeyParts, RsnipError>)
    requires
        name@.len() > 0,
    ensures
        forall|part: Seq<char>| lowered(#[trigger] trimmed(part)) == name@ ==> yields(
            r,
            with_part(parts, part, input@),
        ),
{
    let mut modifiers = parts.modifiers;
    if text_eq(name, "ctrl") || text_eq(name, "control") {
        modifiers.control = true;
    } else if text_eq(name, "shift") {
        modifiers.shift = true;
    } else if text_eq(name, "alt") {
        modifiers.alt = true;
    } else if text_eq(name, "win") || text_eq(name, "windows") || text_eq(name, "meta") {
        modifiers.win = true;
    } else {
        if parts.virtual_key.is_some() {
            let mut message = "hotkey `".to_owned();
            message.append(input);
            message.append("` contains more than one key");
            return Err(RsnipError::Message(message));
        }
        let code = parse_virtual_key(name, input)?;
        return Ok(HotkeyParts { modifiers, virtual_key: Some(code) });
    }
    Ok(HotkeyParts { modifiers, virtual_key: parts.virtual_key })
}

/// Reads a key combination.
pub fn parse_hotkey(input: &str) -> (r: Result<ParsedHotkey, RsnipError>)
    ensures
        yields(r, written_hotkey(input@)),
{
    let characters = chars_of(input);
    let ranges = split_ranges(&characters, '+');
    let ghost list = split_at_char(input@, '+');
    let mut parts = HotkeyParts {
        modifiers: ModifierSet { control: false, shift: false, alt: false, win: false },
        virtual_key: None,
    };
    let mut i: usize = 0;
    assert(list.take(0) =~= Seq::<Seq<char>>::empty());
    while i < ranges.len()
        invariant
            i <= ranges@.len(),
            characters@ == input@,
            list == split_at_char(input@, '+'),
            ranges@.len() == list.len(),
            forall|k: int|
                0 <= k < ranges@.len() ==> (#[trigger] ranges@[k]).0 <= ranges@[k].1
                    <= characters@.len() && list[k] == characters@.subrange(
                    ranges@[k].0 as int,
                    ranges@[k].1 as int,
                ),
            read_parts(list.take(i as int), input@) == Ok::<HotkeyParts, Seq<char>>(parts),
        decreases ranges@.len() - i,
    {
        let (from, to) = ranges[i];
        let (start, end) = trim_range(&characters, from, to);
        let name = lowered_text(&characters, start, end);
        assert(list.take(i + 1).drop_last() =~= list.take(i as int));
        assert(list.take(i + 1).last() == list[i as int]);
        assert(name@ == lowered(trimmed(list[i as int])));
        if start < end {
            match read_part(parts, name.as_str(), input) {
                Ok(read) => {
                    parts = read;
                },
                Err(error) => {
                    proof {
                        lemma_refused_part(list, i + 1, input@);
                    }
                    return Err(error);
                },
            }
        }
        i += 1;
    }
    assert(list.take(i as int) =~= list);
    match parts.virtual_key {
        Some(virtual_key) => Ok(
            ParsedHotkey { modifiers: bits_of_modifiers(parts.modifiers), virtual_key },
        ),
        None => {
            let mut message = "hotkey `".to_owned();
            message.append(input);
            message.append("` does not contain a key");
            Err(RsnipError::Message(message))
        },
    }
}

/// Every key combination that is accepted has a key code of one byte and modifiers of four bits.
pub proof fn law_accepted_hotkeys_fit_the_system(input: Seq<char>)
    ensures
        written_hotkey(input) matches Ok(hotkey) ==> 8 <= hotkey.virtual_key <= 0xff
            && hotkey.modifiers <= 0xf,
{
    lemma_read_parts_fit(split_at_char(input, '+'), input);
}

proof fn lemma_read_parts_fit(list: Seq<Seq<char>>, input: Seq<char>)
    ensures
        read_parts(list, input) matches Ok(parts) ==> (parts.virtual_key matches Some(code) ==> 8
            <= code <= 0xff),
    decreases list.len(),
{
    if list.len() > 0 {
        lemma_read_parts_fit(list.drop_last(), input);
    }
}

/// Whether one of the parts of a combination is a word, whatever the case of its letters and the
/// white space around it.
pub open spec fn mentions(list: Seq<Seq<char>>, word: Seq<char>) -> bool {
    exists|i: int| 0 <= i < list.len() && lowered(trimmed(#[trigger] list[i])) == word
}

/// Whether a word is the name of a modifier.
pub open spec fn is_modifier(word: Seq<char>) -> bool {
    ||| word == "ctrl"@ || word == "control"@ || word == "shift"@ || word == "alt"@
    ||| word == "win"@ || word == "windows"@ || word == "meta"@
}

/// The modifiers of a combination are those that it names, in whatever order, and each has a bit of
/// its own: alt the lowest, and above it control, shift and the system key.
pub proof fn law_modifiers_are_those_named(input: Seq<char>)
    ensures
        written_hotkey(input) matches Ok(hotkey) ==> {
            let list = split_at_char(input, '+');
            &&& hotkey.modifiers < 16
            &&& hotkey.modifiers % 2 == 1 <==> mentions(list, "alt"@)
            &&& hotkey.modifiers / 2 % 2 == 1 <==> mentions(list, "ctrl"@) || mentions(
                list,
                "control"@,
            )
            &&& hotkey.modifiers / 4 % 2 == 1 <==> mentions(list, "shift"@)
            &&& hotkey.modifiers / 8 % 2 == 1 <==> mentions(list, "win"@) || mentions(
                list,
                "windows"@,
            ) || mentions(list, "meta"@)
        },
{
    let list = split_at_char(input, '+');
    lemma_modifiers_read(list, input);
}

proof fn lemma_modifiers_read(list: Seq<Seq<char>>, input: Seq<char>)
    ensures
        read_parts(list, input) matches Ok(parts) ==> {
            &&& parts.modifiers.alt <==> mentions(list, "alt"@)
            &&& parts.modifiers.control <==> mentions(list, "ctrl"@) || mentions(list, "control"@)
            &&& parts.modifiers.shift <==> mentions(list, "shift"@)
            &&& parts.modifiers.win <==> mentions(list, "win"@) || mentions(list, "windows"@)
                || mentions(list, "meta"@)
        },
    decreases list.len(),
{
    lemma_modifier_names_differ();
    if list.len() > 0 {
        lemma_modifiers_read(list.drop_last(), input);
        lemma_mentions_last(list, "alt"@);
        lemma_mentions_last(list, "ctrl"@);
        lemma_mentions_last(list, "control"@);
        lemma_mentions_last(list, "shift"@);
        lemma_mentions_last(list, "win"@);
        lemma_mentions_last(list, "windows"@);
        lemma_mentions_last(list, "meta"@);
    }
}

/// A word is among the parts if it is the last of them or among the others.
proof fn lemma_mentions_last(list: Seq<Seq<char>>, word: Seq<char>)
    requires
        list.len() > 0,
    ensures
        mentions(list, word) <==> mentions(list.drop_last(), word) || lowered(trimmed(list.last()))
            == word,
{
    if mentions(list, word) {
        let i = choose|i: int|
            0 <= i < list.len() && lowered(trimmed(#[trigger] list[i])) == word;
        if i < list.len() - 1 {
            assert(list.drop_last()[i] == list[i]);
        }
    }
    if mentions(list.drop_last(), word) {
        let i = choose|i: int|
            0 <= i < list.drop_last().len() && lowered(trimmed(#[trigger] list.drop_last()[i]))
                == word;
        assert(list[i] == list.drop_last()[i]);
    }
    if lowered(trimmed(list.last())) == word {
        assert(list[list.len() - 1] == list.last());
    }
}

proof fn lemma_modifier_names_differ()
    ensures
        "ctrl"@.len() == 4 && "ctrl"@[0] == 'c',
        "control"@.len() == 7 && "control"@[0] == 'c',
        "shift"@.len() == 5 && "shift"@[0] == 's',
        "alt"@.len() == 3 && "alt"@[0] == 'a',
        "win"@.len() == 3 && "win"@[0] == 'w',
        "windows"@.len() == 7 && "windows"@[0] == 'w',
        "meta"@.len() == 4 && "meta"@[0] == 'm',
{
    reveal_strlit("ctrl");
    reveal_strlit("control");
    reveal_strlit("shift");
    reveal_strlit("alt");
    reveal_strlit("win");
    reveal_strlit("windows");
    reveal_strlit("meta");
}

/// Whether a part of a combination names no key: it is a modifier or blank.
pub open spec fn names_no_key(part: Seq<char>) -> bool {
    is_modifier(lowered(trimmed(part))) || trimmed(part).len() == 0
}

/// Whether no part names a key, but for the one at an index, if there is one there.
pub open spec fn no_other_key(list: Seq<Seq<char>>, index: int) -> bool {
    forall|i: int| 0 <= i < list.len() && i != index ==> names_no_key(#[trigger] list[i])
}

/// A combination in which a part names a key is accepted exactly if that key is known and no other
/// part names one; the code is that of the key.
pub proof fn law_combination_has_one_key(input: Seq<char>, index: int)
    requires
        0 <= index < split_at_char(input, '+').len(),
        !names_no_key(split_at_char(input, '+')[index]),
    ensures
        ({
            let list = split_at_char(input, '+');
            match (written_hotkey(input), key_code(lowered(trimmed(list[index])), input)) {
                (Ok(hotkey), Ok(code)) => no_other_key(list, index) && hotkey.virtual_key == code,
                (Ok(_), Err(_)) => false,
                (Err(_), Ok(_)) => !no_other_key(list, index),
                (Err(_), Err(_)) => true,
            }
        }),
{
    lemma_one_key(split_at_char(input, '+'), index, input);
}

/// A combination in which no part names a key is refused.
pub proof fn law_combination_needs_a_key(input: Seq<char>)
    requires
        no_other_key(split_at_char(input, '+'), -1),
    ensures
        written_hotkey(input) is Err,
{
    lemma_no_key(split_at_char(input, '+'), input);
}

proof fn lemma_one_key(list: Seq<Seq<char>>, index: int, input: Seq<char>)
    requires
        0 <= index < list.len(),
        !names_no_key(list[index]),
    ensures
        match (read_parts(list, input), key_code(lowered(trimmed(list[index])), input)) {
            (Ok(parts), Ok(code)) => no_other_key(list, index) && parts.virtual_key == Some(code),
            (Ok(_), Err(_)) => false,
            (Err(_), Ok(_)) => !no_other_key(list, index),
            (Err(_), Err(_)) => true,
        },
    decreases list.len(),
{
    let rest = list.drop_last();
    lemma_no_other_key(list, index);
    if index < list.len() - 1 {
        assert(rest[index] == list[index]);
        lemma_one_key(rest, index, input);
        lemma_part(list.last(), input);
    } else {
        lemma_no_key(rest, input);
        lemma_no_other_key(list, -1);
        assert(no_other_key(rest, index) == no_other_key(rest, -1));
        lemma_part(list.last(), input);
    }
}

/// Parts that name no key are accepted and leave no key; if one of them names a key, they are
/// refused or leave a key.
proof fn lemma_no_key(list: Seq<Seq<char>>, input: Seq<char>)
    ensures
        match read_parts(list, input) {
            Ok(parts) => no_other_key(list, -1) <==> parts.virtual_key is None,
            Err(_) => !no_other_key(list, -1),
        },
    decreases list.len(),
{
    if list.len() > 0 {
        lemma_no_key(list.drop_last(), input);
        lemma_no_other_key(list, -1);
        lemma_part(list.last(), input);
    }
}

proof fn lemma_no_other_key(list: Seq<Seq<char>>, index: int)
    requires
        list.len() > 0,
    ensures
        no_other_key(list, index) <==> no_other_key(list.drop_last(), index) && (index == list.len()
            - 1 || names_no_key(list.last())),
{
    let rest = list.drop_last();
    if no_other_key(list, index) {
        assert forall|i: int| 0 <= i < rest.len() && i != index implies names_no_key(
            #[trigger] rest[i],
        ) by {
            assert(names_no_key(list[i]));
        }
        assert(list[list.len() - 1] == list.last());
    }
    if no_other_key(rest, index) && (index == list.len() - 1 || names_no_key(list.last())) {
        assert forall|i: int| 0 <= i < list.len() && i != index implies names_no_key(
            #[trigger] list[i],
        ) by {
            if i < rest.len() {
                assert(names_no_key(rest[i]));
            }
        }
    }
}

/// A part that names no key keeps the key; one that names a key sets it, if there was none.
proof fn lemma_part(part: Seq<char>, input: Seq<char>)
    ensures
        forall|parts: HotkeyParts|
            match #[trigger] with_part(parts, part, input) {
                Ok(read) => if names_no_key(part) {
                    read.virtual_key == parts.virtual_key
                } else {
                    &&& parts.virtual_key is None
                    &&& key_code(lowered(trimmed(part)), input) matches Ok(code)
                    &&& read.virtual_key == Some(code)
                },
                Err(_) => {
                    &&& !names_no_key(part)
                    &&& parts.virtual_key is None ==> key_code(lowered(trimmed(part)), input) is Err
                },
            },
{
    assert(lowered(trimmed(part)).len() == trimmed(part).len());
}

// ---------------------------------------------------------------------------------------------
// Registration and messages
// ---------------------------------------------------------------------------------------------

pub const SNIP_HOTKEY_ID: i32 = 1;

pub const RECORD_HOTKEY_ID: i32 = 2;

pub const OCR_HOTKEY_ID: i32 = 3;

/// A key combination under the number by which the system reports it.
#[derive(Debug, Clone, Copy, PartialEq, Eq, Structural)]
pub struct HotkeyRegistrationSpec {
    pub id: i32,
    pub action: HotkeyAction,
    pub hotkey: ParsedHotkey,
}

/// The key combinations of the settings, or what is wrong with the first that is refused.
pub open spec fn registrations(config: HotkeyConfig) -> Result<
    Seq<HotkeyRegistrationSpec>,
    Seq<char>,
> {
    match (
        written_hotkey(config.snip@),
        written_hotkey(config.record@),
        written_hotkey(config.ocr@),
    ) {
        (Ok(snip), Ok(record), Ok(ocr)) => Ok(
            seq![
                HotkeyRegistrationSpec {
                    id: SNIP_HOTKEY_ID,
                    action: HotkeyAction::Snip,
                    hotkey: snip,
                },
                HotkeyRegistrationSpec {
                    id: RECORD_HOTKEY_ID,
                    action: HotkeyAction::Record,
                    hotkey: record,
                },
                HotkeyRegistrationSpec {
                    id: OCR_HOTKEY_ID,
                    action: HotkeyAction::Ocr,
                    hotkey: ocr,
                },
            ],
        ),
        (Err(text), _, _) => Err(text),
        (Ok(_), Err(text), _) => Err(text),
        (Ok(_), Ok(_), Err(text)) => Err(text),
    }
}

/// Reads the key combinations of the settings.
pub fn start_hotkey_runtime(config: &HotkeyConfig) -> (r: Result<
    Vec<HotkeyRegistrationSpec>,
    RsnipError,
>)
    ensures
        match (r, registrations(*config)) {
            (Ok(specs), Ok(wanted)) => specs@ == wanted,
            (Err(error), Err(text)) => is_message(error, text),
            _ => false,
        },
{
    let snip = parse_hotkey(config.snip.as_str())?;
    let record = parse_hotkey(config.record.as_str())?;
    let ocr = parse_hotkey(config.ocr.as_str())?;
    let mut specs: Vec<HotkeyRegistrationSpec> = Vec::new();
    specs.push(
        HotkeyRegistrationSpec { id: SNIP_HOTKEY_ID, action: HotkeyAction::Snip, hotkey: snip },
    );
    specs.push(
        HotkeyRegistrationSpec {
            id: RECORD_HOTKEY_ID,
            action: HotkeyAction::Record,
            hotkey: record,
        },
    );
    specs.push(
        HotkeyRegistrationSpec { id: OCR_HOTKEY_ID, action: HotkeyAction::Ocr, hotkey: ocr },
    );
    assert(registrations(*config) matches Ok(wanted) && specs@ =~= wanted);
    Ok(specs)
}

/// The command of an action.
pub open spec fn command_of(action: HotkeyAction) -> IpcCommand {
    match action {
        HotkeyAction::Snip => IpcCommand::Snip,
        HotkeyAction::Record => IpcCommand::Record,
        HotkeyAction::Ocr => IpcCommand::Ocr,
    }
}

/// The command that a reported key combination triggers.
pub open spec fn command_of_id(id: i32) -> Option<IpcCommand> {
    if id == SNIP_HOTKEY_ID {
        Some(IpcCommand::Snip)
    } else if id == RECORD_HOTKEY_ID {
        Some(IpcCommand::Record)
    } else if id == OCR_HOTKEY_ID {
        Some(IpcCommand::Ocr)
    } else {
        None
    }
}

/// A key combination triggers the command of the action that it was registered for.
pub proof fn law_hotkeys_trigger_their_actions(config: HotkeyConfig, index: int)
    ensures
        registrations(config) matches Ok(specs) ==> (0 <= index < specs.len() ==> command_of_id(
            specs[index].id,
        ) == Some(command_of(specs[index].action))),
{
}

/// The settings give each action its own key combination, under its own number, and the action is
/// found again by that number.
pub proof fn law_each_action_has_its_own_hotkey(config: HotkeyConfig)
    ensures
        registrations(config) is Ok <==> written_hotkey(config.snip@) is Ok && written_hotkey(
            config.record@,
        ) is Ok && written_hotkey(config.ocr@) is Ok,
        registrations(config) matches Ok(specs) ==> {
            &&& specs.len() == 3
            &&& forall|i: int, k: int| 0 <= i < k < 3 ==> specs[i].id != specs[k].id
            &&& forall|i: int|
                0 <= i < 3 ==> match (#[trigger] specs[i]).action {
                    HotkeyAction::Snip => written_hotkey(config.snip@) == Ok::<
                        ParsedHotkey,
                        Seq<char>,
                    >(specs[i].hotkey) && command_of_id(specs[i].id) == Some(IpcCommand::Snip),
                    HotkeyAction::Record => written_hotkey(config.record@) == Ok::<
                        ParsedHotkey,
                        Seq<char>,
                    >(specs[i].hotkey) && command_of_id(specs[i].id) == Some(IpcCommand::Record),
                    HotkeyAction::Ocr => written_hotkey(config.ocr@) == Ok::<
                        ParsedHotkey,
                        Seq<char>,
                    >(specs[i].hotkey) && command_of_id(specs[i].id) == Some(IpcCommand::Ocr),
                }
            &&& specs[0].action is Snip && specs[1].action is Record && specs[2].action is Ocr
        },
{
}

/// The default settings are accepted: control and shift with S, R and E, for the three actions.
pub proof fn law_default_hotkeys_are_accepted(config: HotkeyConfig)
    requires
        is_default_hotkeys(config),
    ensures
        registrations(config) matches Ok(specs) && {
            &&& specs.len() == 3
            &&& forall|i: int| 0 <= i < 3 ==> (#[trigger] specs[i]).hotkey.modifiers == 2 + 4
            &&& specs[0].hotkey.virtual_key == 'S' as u32
            &&& specs[1].hotkey.virtual_key == 'R' as u32
            &&& specs[2].hotkey.virtual_key == 'E' as u32
        },
{
    reveal_strlit("ctrl");
    reveal_strlit("shift");
    reveal_strlit("ctrl+shift+s");
    reveal_strlit("ctrl+shift+r");
    reveal_strlit("ctrl+shift+e");
    let front = "ctrl"@.push('+') + "shift"@.push('+');
    assert("ctrl+shift+s"@ =~= front + seq!['s']);
    assert("ctrl+shift+r"@ =~= front + seq!['r']);
    assert("ctrl+shift+e"@ =~= front + seq!['e']);
    lemma_control_shift_letter('s');
    lemma_control_shift_letter('r');
    lemma_control_shift_letter('e');
}

proof fn lemma_control_shift_letter(letter: char)
    requires
        'a' <= letter <= 'z',
    ensures
        ({
            let front = "ctrl"@.push('+') + "shift"@.push('+');
            written_hotkey(front + seq![letter]) == Ok::<ParsedHotkey, Seq<char>>(
                ParsedHotkey { modifiers: 6, virtual_key: (letter as u32 - 32) as u32 },
            )
        }),
{
    let (control, shift, key) = ("ctrl"@, "shift"@, seq![letter]);
    let text = control.push('+') + shift.push('+') + key;
    reveal_strlit("ctrl");
    reveal_strlit("shift");
    lemma_modifier_names_differ();
    assert(control.push('+') + shift.push('+') + key =~= control.push('+') + (shift.push('+')
        + key));
    lemma_split_joined(control, shift.push('+') + key, '+');
    lemma_split_joined(shift, key, '+');
    lemma_split_whole(control, '+');
    lemma_split_whole(shift, '+');
    lemma_split_whole(key, '+');
    let list = split_at_char(text, '+');
    assert(list =~= seq![control, shift, key]);
    lemma_small_word(control);
    lemma_small_word(shift);
    lemma_small_word(key);
    assert(list.drop_last() =~= seq![control, shift]);
    assert(list.drop_last().drop_last() =~= seq![control]);
    assert(list.drop_last().drop_last().drop_last() =~= Seq::<Seq<char>>::empty());
    reveal_with_fuel(read_parts, 4);
    law_letters_and_digits_are_their_codes(letter, text);
}

/// A word of small letters is kept when it is trimmed and its letters are made small.
proof fn lemma_small_word(word: Seq<char>)
    requires
        word.len() > 0,
        forall|i: int| 0 <= i < word.len() ==> 'a' <= #[trigger] word[i] <= 'z',
    ensures
        lowered(trimmed(word)) == word,
{
    assert('a' <= word[0] <= 'z');
    assert('a' <= word[word.len() - 1] <= 'z');
    assert(trimmed_front(word) == word);
    assert(trimmed_back(word) == word);
    assert forall|i: int| 0 <= i < word.len() implies lowered(word)[i] == word[i] by {
        law_letter_case(word[i]);
    }
    assert(lowered(word) =~= word);
}

/// What a message of the system means for the thread that waits for key combinations.
#[derive(Debug, Clone, Copy, PartialEq, Eq, Structural)]
pub enum HotkeyStep {
    /// Waiting failed: leave.
    Failed,
    /// There are no more messages: leave.
    Quit,
    /// Hand a command on; leave if nobody takes it.
    Send(IpcCommand),
    /// Nothing is to be done.
    Skip,
    /// The message is for somebody else.
    Dispatch,
}

/// Tells what a message means: `result` is what waiting for it returned, and `hotkey` the number of
/// the key combination if the message reports one.
pub fn message_step(result: i32, hotkey: Option<i32>) -> (r: HotkeyStep)
    ensures
        r == if result == -1 {
            HotkeyStep::Failed
        } else if result == 0 {
            HotkeyStep::Quit
        } else {
            match hotkey {
                Some(id) => match command_of_id(id) {
                    Some(command) => HotkeyStep::Send(command),
                    None => HotkeyStep::Skip,
                },
                None => HotkeyStep::Dispatch,
            }
        },
{
    if result == -1 {
        return HotkeyStep::Failed;
    }
    if result == 0 {
        return HotkeyStep::Quit;
    }
    match hotkey {
        Some(id) => {
            if id == SNIP_HOTKEY_ID {
                HotkeyStep::Send(IpcCommand::Snip)
            } else if id == RECORD_HOTKEY_ID {
                HotkeyStep::Send(IpcCommand::Record)
            } else if id == OCR_HOTKEY_ID {
                HotkeyStep::Send(IpcCommand::Ocr)
            } else {
                HotkeyStep::Skip
            }
        },
        None => HotkeyStep::Dispatch,
    }
}

} // verus!
