use vstd::prelude::*;
use crate::command::{stderr_text, CommandOutcome};
use crate::text::{decimal, owned, push_char, push_decimal};
use crate::types::UiEvent;
use crate::types::KeyboardLayout;

verus! {

/// Keycode of the left Shift key.
pub const SHIFT_KEYCODE: u32 = 42;

/// Keycode of the AltGr (right Alt) key.
pub const ALTGR_KEYCODE: u32 = 100;

/// The key events that type one key: AltGr and Shift go down first (AltGr outermost),
/// then the key is pressed and released, then the modifiers come up in reverse order.
/// An event is a keycode and whether the key goes down.
pub open spec fn key_events(code: u32, shifted: bool, altgr: bool) -> Seq<(u32, bool)> {
    let down = (if altgr { seq![(ALTGR_KEYCODE, true)] } else { Seq::empty() }) + (if shifted {
        seq![(SHIFT_KEYCODE, true)]
    } else {
        Seq::empty()
    });
    let up = (if shifted { seq![(SHIFT_KEYCODE, false)] } else { Seq::empty() }) + (if altgr {
        seq![(ALTGR_KEYCODE, false)]
    } else {
        Seq::empty()
    });
    down + seq![(code, true), (code, false)] + up
}

/// The `ydotool key` argument for one event: `<keycode>:1` for a press, `<keycode>:0` for
/// a release.
pub open spec fn key_arg(event: (u32, bool)) -> Seq<char> {
    decimal(event.0 as nat) + seq![':', if event.1 { '1' } else { '0' }]
}

/// The `ydotool key` arguments for a list of events.
pub open spec fn key_args(events: Seq<(u32, bool)>) -> Seq<Seq<char>> {
    events.map_values(|e: (u32, bool)| key_arg(e))
}

/// The character sequences of a list of strings.
pub open spec fn arg_views(v: Seq<String>) -> Seq<Seq<char>> {
    v.map_values(|s: String| s@)
}

/// Every key that goes down comes up again, in the reverse order of going down.
pub open spec fn balanced(events: Seq<(u32, bool)>) -> bool {
    &&& events.len() % 2 == 0
    &&& forall|i: int|
        0 <= i < events.len() / 2 ==> {
            &&& (#[trigger] events[i]).1
            &&& events[events.len() - 1 - i] == (events[i].0, false)
        }
}

/// The key events that type a character on a layout, if the layout has a key for it.
pub open spec fn layout_events(ch: char, layout: KeyboardLayout) -> Option<Seq<(u32, bool)>> {
    match layout {
        KeyboardLayout::Us => match us_key(ch) {
            Some((code, shifted)) => Some(key_events(code, shifted, false)),
            None => None,
        },
        KeyboardLayout::Norwegian => match norwegian_key(ch) {
            Some((code, shifted, altgr)) => Some(key_events(code, shifted, altgr)),
            None => None,
        },
    }
}

/// The `ydotool key` argument for one event.
pub fn key_arg_string(code: u32, down: bool) -> (s: String)
    ensures
        s@ == key_arg((code, down)),
{
    let mut s = String::new();
    push_decimal(&mut s, code as u128);
    push_char(&mut s, ':');
    push_char(&mut s, if down { '1' } else { '0' });
    assert(s@ =~= key_arg((code, down)));
    s
}

/// The arguments that type one key, with Shift and AltGr held around it as asked.
pub fn key_sequence_with_mods(keycode: u32, shifted: bool, altgr: bool) -> (sequence: Vec<String>)
    ensures
        arg_views(sequence@) == key_args(key_events(keycode, shifted, altgr)),
{
    let ghost mut events: Seq<(u32, bool)> = Seq::empty();
    let mut sequence: Vec<String> = Vec::new();
    if altgr {
        sequence.push(key_arg_string(ALTGR_KEYCODE, true));
        proof { events = events.push((ALTGR_KEYCODE, true)); }
        assert(arg_views(sequence@) =~= key_args(events));
    }
    if shifted {
        sequence.push(key_arg_string(SHIFT_KEYCODE, true));
        proof { events = events.push((SHIFT_KEYCODE, true)); }
        assert(arg_views(sequence@) =~= key_args(events));
    }
    sequence.push(key_arg_string(keycode, true));
    proof { events = events.push((keycode, true)); }
    assert(arg_views(sequence@) =~= key_args(events));
    sequence.push(key_arg_string(keycode, false));
    proof { events = events.push((keycode, false)); }
    assert(arg_views(sequence@) =~= key_args(events));
    if shifted {
        sequence.push(key_arg_string(SHIFT_KEYCODE, false));
        proof { events = events.push((SHIFT_KEYCODE, false)); }
        assert(arg_views(sequence@) =~= key_args(events));
    }
    if altgr {
        sequence.push(key_arg_string(ALTGR_KEYCODE, false));
        proof { events = events.push((ALTGR_KEYCODE, false)); }
        assert(arg_views(sequence@) =~= key_args(events));
    }
    assert(events =~= key_events(keycode, shifted, altgr));
    sequence
}

/// The arguments that type one key, with Shift held around it when asked.
pub fn key_sequence(keycode: u32, shifted: bool) -> (sequence: Vec<String>)
    ensures
        arg_views(sequence@) == key_args(key_events(keycode, shifted, false)),
{
    key_sequence_with_mods(keycode, shifted, false)
}

/// The arguments that type a letter key, with Shift held for an upper-case letter.
pub fn letter_sequence(keycode: u32, upper: bool) -> (sequence: Vec<String>)
    ensures
        arg_views(sequence@) == key_args(key_events(keycode, upper, false)),
{
    key_sequence(keycode, upper)
}

/// Whether an ASCII letter is upper case.
fn is_uppercase_letter(ch: char) -> (r: bool)
    ensures
        r == ('A' <= ch <= 'Z'),
{
    'A' <= ch && ch <= 'Z'
}

/// The key that types a character on the US layout: its keycode and whether Shift is held.
pub open spec fn us_key(ch: char) -> Option<(u32, bool)> {
    match ch {
        '\n' => Some((28, false)),
        '\t' => Some((15, false)),
        ' ' => Some((57, false)),
        'a' => Some((30, false)),
        'b' => Some((48, false)),
        'c' => Some((46, false)),
        'd' => Some((32, false)),
        'e' => Some((18, false)),
        'f' => Some((33, false)),
        'g' => Some((34, false)),
        'h' => Some((35, false)),
        'i' => Some((23, false)),
        'j' => Some((36, false)),
        'k' => Some((37, false)),
        'l' => Some((38, false)),
        'm' => Some((50, false)),
        'n' => Some((49, false)),
        'o' => Some((24, false)),
        'p' => Some((25, false)),
        'q' => Some((16, false)),
        'r' => Some((19, false)),
        's' => Some((31, false)),
        't' => Some((20, false)),
        'u' => Some((22, false)),
        'v' => Some((47, false)),
        'w' => Some((17, false)),
        'x' => Some((45, false)),
        'y' => Some((21, false)),
        'z' => Some((44, false)),
        'A' => Some((30, true)),
        'B' => Some((48, true)),
        'C' => Some((46, true)),
        'D' => Some((32, true)),
        'E' => Some((18, true)),
        'F' => Some((33, true)),
        'G' => Some((34, true)),
        'H' => Some((35, true)),
        'I' => Some((23, true)),
        'J' => Some((36, true)),
        'K' => Some((37, true)),
        'L' => Some((38, true)),
        'M' => Some((50, true)),
        'N' => Some((49, true)),
        'O' => Some((24, true)),
        'P' => Some((25, true)),
        'Q' => Some((16, true)),
        'R' => Some((19, true)),
        'S' => Some((31, true)),
        'T' => Some((20, true)),
        'U' => Some((22, true)),
        'V' => Some((47, true)),
        'W' => Some((17, true)),
        'X' => Some((45, true)),
        'Y' => Some((21, true)),
        'Z' => Some((44, true)),
        '1' => Some((2, false)),
        '2' => Some((3, false)),
        '3' => Some((4, false)),
        '4' => Some((5, false)),
        '5' => Some((6, false)),
        '6' => Some((7, false)),
        '7' => Some((8, false)),
        '8' => Some((9, false)),
        '9' => Some((10, false)),
        '0' => Some((11, false)),
        '-' => Some((53, false)),
        '_' => Some((53, true)),
        '=' => Some((13, false)),
        '+' => Some((12, false)),
        '[' => Some((26, false)),
        '{' => Some((26, true)),
        ']' => Some((27, false)),
        '}' => Some((27, true)),
        ';' => Some((39, false)),
        ':' => Some((39, true)),
        '\'' => Some((40, false)),
        '"' => Some((40, true)),
        '`' => Some((13, true)),
        '~' => Some((41, true)),
        '\\' => Some((43, false)),
        '|' => Some((41, false)),
        ',' => Some((51, false)),
        '<' => Some((51, true)),
        '.' => Some((52, false)),
        '>' => Some((52, true)),
        '/' => Some((86, false)),
        '?' => Some((12, true)),
        '!' => Some((2, true)),
        '@' => Some((3, true)),
        '#' => Some((4, true)),
        '$' => Some((5, true)),
        '%' => Some((6, true)),
        '^' => Some((7, true)),
        '&' => Some((8, true)),
        '*' => Some((9, true)),
        '(' => Some((10, true)),
        ')' => Some((11, true)),
        _ => None,
    }
}

/// The key that types a character on the Norwegian layout: its keycode, whether Shift
/// is held and whether AltGr is held.
pub open spec fn norwegian_key(ch: char) -> Option<(u32, bool, bool)> {
    match ch {
        '\n' => Some((28, false, false)),
        '\t' => Some((15, false, false)),
        ' ' => Some((57, false, false)),
        'a' => Some((30, false, false)),
        'A' => Some((30, true, false)),
        'b' => Some((48, false, false)),
        'B' => Some((48, true, false)),
        'c' => Some((46, false, false)),
        'C' => Some((46, true, false)),
        'd' => Some((32, false, false)),
        'D' => Some((32, true, false)),
        'e' => Some((18, false, false)),
        'E' => Some((18, true, false)),
        'f' => Some((33, false, false)),
        'F' => Some((33, true, false)),
        'g' => Some((34, false, false)),
        'G' => Some((34, true, false)),
        'h' => Some((35, false, false)),
        'H' => Some((35, true, false)),
        'i' => Some((23, false, false)),
        'I' => Some((23, true, false)),
        'j' => Some((36, false, false)),
        'J' => Some((36, true, false)),
        'k' => Some((37, false, false)),
        'K' => Some((37, true, false)),
        'l' => Some((38, false, false)),
        'L' => Some((38, true, false)),
        'm' => Some((50, false, false)),
        'M' => Some((50, true, false)),
        'n' => Some((49, false, false)),
        'N' => Some((49, true, false)),
        'o' => Some((24, false, false)),
        'O' => Some((24, true, false)),
        'p' => Some((25, false, false)),
        'P' => Some((25, true, false)),
        'q' => Some((16, false, false)),
        'Q' => Some((16, true, false)),
        'r' => Some((19, false, false)),
        'R' => Some((19, true, false)),
        's' => Some((31, false, false)),
        'S' => Some((31, true, false)),
        't' => Some((20, false, false)),
        'T' => Some((20, true, false)),
        'u' => Some((22, false, false)),
        'U' => Some((22, true, false)),
        'v' => Some((47, false, false)),
        'V' => Some((47, true, false)),
        'w' => Some((17, false, false)),
        'W' => Some((17, true, false)),
        'x' => Some((45, false, false)),
        'X' => Some((45, true, false)),
        'y' => Some((21, false, false)),
        'Y' => Some((21, true, false)),
        'z' => Some((44, false, false)),
        'Z' => Some((44, true, false)),
        '1' => Some((2, false, false)),
        '!' => Some((2, true, false)),
        '2' => Some((3, false, false)),
        '"' => Some((3, true, false)),
        '@' => Some((3, false, true)),
        '3' => Some((4, false, false)),
        '#' => Some((4, true, false)),
        '4' => Some((5, false, false)),
        '$' => Some((5, false, true)),
        '5' => Some((6, false, false)),
        '%' => Some((6, true, false)),
        '6' => Some((7, false, false)),
        '&' => Some((7, true, false)),
        '7' => Some((8, false, false)),
        '/' => Some((8, true, false)),
        '{' => Some((8, false, true)),
        '8' => Some((9, false, false)),
        '(' => Some((9, true, false)),
        '[' => Some((9, false, true)),
        '9' => Some((10, false, false)),
        ')' => Some((10, true, false)),
        ']' => Some((10, false, true)),
        '0' => Some((11, false, false)),
        '=' => Some((11, true, false)),
        '}' => Some((11, false, true)),
        '+' => Some((12, false, false)),
        '?' => Some((12, true, false)),
        '\\' => Some((13, false, false)),
        '`' => Some((13, true, false)),
        '\'' => Some((43, false, false)),
        '*' => Some((43, true, false)),
        '|' => Some((41, false, false)),
        '§' => Some((41, true, false)),
        ',' => Some((51, false, false)),
        ';' => Some((51, true, false)),
        '.' => Some((52, false, false)),
        ':' => Some((52, true, false)),
        '-' => Some((53, false, false)),
        '_' => Some((53, true, false)),
        '<' => Some((86, false, false)),
        '>' => Some((86, true, false)),
        'å' => Some((26, false, false)),
        'Å' => Some((26, true, false)),
        '^' => Some((27, true, false)),
        '~' => Some((27, false, true)),
        'ø' => Some((39, false, false)),
        'Ø' => Some((39, true, false)),
        'æ' => Some((40, false, false)),
        'Æ' => Some((40, true, false)),
        '€' => Some((18, false, true)),
        _ => None,
    }
}

/// The character that a key with Shift as given types on the US layout, if any.
pub open spec fn us_char(code: u32, shifted: bool) -> Option<char> {
    match (code, shifted) {
        (28, false) => Some('\n'),
        (15, false) => Some('\t'),
        (57, false) => Some(' '),
        (30, false) => Some('a'),
        (48, false) => Some('b'),
        (46, false) => Some('c'),
        (32, false) => Some('d'),
        (18, false) => Some('e'),
        (33, false) => Some('f'),
        (34, false) => Some('g'),
        (35, false) => Some('h'),
        (23, false) => Some('i'),
        (36, false) => Some('j'),
        (37, false) => Some('k'),
        (38, false) => Some('l'),
        (50, false) => Some('m'),
        (49, false) => Some('n'),
        (24, false) => Some('o'),
        (25, false) => Some('p'),
        (16, false) => Some('q'),
        (19, false) => Some('r'),
        (31, false) => Some('s'),
        (20, false) => Some('t'),
        (22, false) => Some('u'),
        (47, false) => Some('v'),
        (17, false) => Some('w'),
        (45, false) => Some('x'),
        (21, false) => Some('y'),
        (44, false) => Some('z'),
        (30, true) => Some('A'),
        (48, true) => Some('B'),
        (46, true) => Some('C'),
        (32, true) => Some('D'),
        (18, true) => Some('E'),
        (33, true) => Some('F'),
        (34, true) => Some('G'),
        (35, true) => Some('H'),
        (23, true) => Some('I'),
        (36, true) => Some('J'),
        (37, true) => Some('K'),
        (38, true) => Some('L'),
        (50, true) => Some('M'),
        (49, true) => Some('N'),
        (24, true) => Some('O'),
        (25, true) => Some('P'),
        (16, true) => Some('Q'),
        (19, true) => Some('R'),
        (31, true) => Some('S'),
        (20, true) => Some('T'),
        (22, true) => Some('U'),
        (47, true) => Some('V'),
        (17, true) => Some('W'),
        (45, true) => Some('X'),
        (21, true) => Some('Y'),
        (44, true) => Some('Z'),
        (2, false) => Some('1'),
        (3, false) => Some('2'),
        (4, false) => Some('3'),
        (5, false) => Some('4'),
        (6, false) => Some('5'),
        (7, false) => Some('6'),
        (8, false) => Some('7'),
        (9, false) => Some('8'),
        (10, false) => Some('9'),
        (11, false) => Some('0'),
        (53, false) => Some('-'),
        (53, true) => Some('_'),
        (13, false) => Some('='),
        (12, false) => Some('+'),
        (26, false) => Some('['),
        (26, true) => Some('{'),
        (27, false) => Some(']'),
        (27, true) => Some('}'),
        (39, false) => Some(';'),
        (39, true) => Some(':'),
        (40, false) => Some('\''),
        (40, true) => Some('"'),
        (13, true) => Some('`'),
        (41, true) => Some('~'),
        (43, false) => Some('\\'),
        (41, false) => Some('|'),
        (51, false) => Some(','),
        (51, true) => Some('<'),
        (52, false) => Some('.'),
        (52, true) => Some('>'),
        (86, false) => Some('/'),
        (12, true) => Some('?'),
        (2, true) => Some('!'),
        (3, true) => Some('@'),
        (4, true) => Some('#'),
        (5, true) => Some('$'),
        (6, true) => Some('%'),
        (7, true) => Some('^'),
        (8, true) => Some('&'),
        (9, true) => Some('*'),
        (10, true) => Some('('),
        (11, true) => Some(')'),
        _ => None,
    }
}

/// The character that a key with Shift and AltGr as given types on the Norwegian layout,
/// if any.
pub open spec fn norwegian_char(code: u32, shifted: bool, altgr: bool) -> Option<char> {
    match (code, shifted, altgr) {
        (28, false, false) => Some('\n'),
        (15, false, false) => Some('\t'),
        (57, false, false) => Some(' '),
        (30, false, false) => Some('a'),
        (30, true, false) => Some('A'),
        (48, false, false) => Some('b'),
        (48, true, false) => Some('B'),
        (46, false, false) => Some('c'),
        (46, true, false) => Some('C'),
        (32, false, false) => Some('d'),
        (32, true, false) => Some('D'),
        (18, false, false) => Some('e'),
        (18, true, false) => Some('E'),
        (33, false, false) => Some('f'),
        (33, true, false) => Some('F'),
        (34, false, false) => Some('g'),
        (34, true, false) => Some('G'),
        (35, false, false) => Some('h'),
        (35, true, false) => Some('H'),
        (23, false, false) => Some('i'),
        (23, true, false) => Some('I'),
        (36, false, false) => Some('j'),
        (36, true, false) => Some('J'),
        (37, false, false) => Some('k'),
        (37, true, false) => Some('K'),
        (38, false, false) => Some('l'),
        (38, true, false) => Some('L'),
        (50, false, false) => Some('m'),
        (50, true, false) => Some('M'),
        (49, false, false) => Some('n'),
        (49, true, false) => Some('N'),
        (24, false, false) => Some('o'),
        (24, true, false) => Some('O'),
        (25, false, false) => Some('p'),
        (25, true, false) => Some('P'),
        (16, false, false) => Some('q'),
        (16, true, false) => Some('Q'),
        (19, false, false) => Some('r'),
        (19, true, false) => Some('R'),
        (31, false, false) => Some('s'),
        (31, true, false) => Some('S'),
        (20, false, false) => Some('t'),
        (20, true, false) => Some('T'),
        (22, false, false) => Some('u'),
        (22, true, false) => Some('U'),
        (47, false, false) => Some('v'),
        (47, true, false) => Some('V'),
        (17, false, false) => Some('w'),
        (17, true, false) => Some('W'),
        (45, false, false) => Some('x'),
        (45, true, false) => Some('X'),
        (21, false, false) => Some('y'),
        (21, true, false) => Some('Y'),
        (44, false, false) => Some('z'),
        (44, true, false) => Some('Z'),
        (2, false, false) => Some('1'),
        (2, true, false) => Some('!'),
        (3, false, false) => Some('2'),
        (3, true, false) => Some('"'),
        (3, false, true) => Some('@'),
        (4, false, false) => Some('3'),
        (4, true, false) => Some('#'),
        (5, false, false) => Some('4'),
        (5, false, true) => Some('$'),
        (6, false, false) => Some('5'),
        (6, true, false) => Some('%'),
        (7, false, false) => Some('6'),
        (7, true, false) => Some('&'),
        (8, false, false) => Some('7'),
        (8, true, false) => Some('/'),
        (8, false, true) => Some('{'),
        (9, false, false) => Some('8'),
        (9, true, false) => Some('('),
        (9, false, true) => Some('['),
        (10, false, false) => Some('9'),
        (10, true, false) => Some(')'),
        (10, false, true) => Some(']'),
        (11, false, false) => Some('0'),
        (11, true, false) => Some('='),
        (11, false, true) => Some('}'),
        (12, false, false) => Some('+'),
        (12, true, false) => Some('?'),
        (13, false, false) => Some('\\'),
        (13, true, false) => Some('`'),
        (43, false, false) => Some('\''),
        (43, true, false) => Some('*'),
        (41, false, false) => Some('|'),
        (41, true, false) => Some('§'),
        (51, false, false) => Some(','),
        (51, true, false) => Some(';'),
        (52, false, false) => Some('.'),
        (52, true, false) => Some(':'),
        (53, false, false) => Some('-'),
        (53, true, false) => Some('_'),
        (86, false, false) => Some('<'),
        (86, true, false) => Some('>'),
        (26, false, false) => Some('å'),
        (26, true, false) => Some('Å'),
        (27, true, false) => Some('^'),
        (27, false, true) => Some('~'),
        (39, false, false) => Some('ø'),
        (39, true, false) => Some('Ø'),
        (40, false, false) => Some('æ'),
        (40, true, false) => Some('Æ'),
        (18, false, true) => Some('€'),
        _ => None,
    }
}

/// The `ydotool key` arguments that type a character on the US layout, or `None` for a
/// character that the layout has no key for.
pub fn us_sequence(ch: char) -> (r: Option<Vec<String>>)
    ensures
        match us_key(ch) {
            Some((code, shifted)) => r is Some && arg_views(r->0@) == key_args(
                key_events(code, shifted, false),
            ),
            None => r is None,
        },
{
    match ch {
        '\n' => Some(key_sequence(28, false)),
        '\t' => Some(key_sequence(15, false)),
        ' ' => Some(key_sequence(57, false)),
        'a' => Some(key_sequence(30, false)),
        'b' => Some(key_sequence(48, false)),
        'c' => Some(key_sequence(46, false)),
        'd' => Some(key_sequence(32, false)),
        'e' => Some(key_sequence(18, false)),
        'f' => Some(key_sequence(33, false)),
        'g' => Some(key_sequence(34, false)),
        'h' => Some(key_sequence(35, false)),
        'i' => Some(key_sequence(23, false)),
        'j' => Some(key_sequence(36, false)),
        'k' => Some(key_sequence(37, false)),
        'l' => Some(key_sequence(38, false)),
        'm' => Some(key_sequence(50, false)),
        'n' => Some(key_sequence(49, false)),
        'o' => Some(key_sequence(24, false)),
        'p' => Some(key_sequence(25, false)),
        'q' => Some(key_sequence(16, false)),
        'r' => Some(key_sequence(19, false)),
        's' => Some(key_sequence(31, false)),
        't' => Some(key_sequence(20, false)),
        'u' => Some(key_sequence(22, false)),
        'v' => Some(key_sequence(47, false)),
        'w' => Some(key_sequence(17, false)),
        'x' => Some(key_sequence(45, false)),
        'y' => Some(key_sequence(21, false)),
        'z' => Some(key_sequence(44, false)),
        'A' => Some(key_sequence(30, true)),
        'B' => Some(key_sequence(48, true)),
        'C' => Some(key_sequence(46, true)),
        'D' => Some(key_sequence(32, true)),
        'E' => Some(key_sequence(18, true)),
        'F' => Some(key_sequence(33, true)),
        'G' => Some(key_sequence(34, true)),
        'H' => Some(key_sequence(35, true)),
        'I' => Some(key_sequence(23, true)),
        'J' => Some(key_sequence(36, true)),
        'K' => Some(key_sequence(37, true)),
        'L' => Some(key_sequence(38, true)),
        'M' => Some(key_sequence(50, true)),
        'N' => Some(key_sequence(49, true)),
        'O' => Some(key_sequence(24, true)),
        'P' => Some(key_sequence(25, true)),
        'Q' => Some(key_sequence(16, true)),
        'R' => Some(key_sequence(19, true)),
        'S' => Some(key_sequence(31, true)),
        'T' => Some(key_sequence(20, true)),
        'U' => Some(key_sequence(22, true)),
        'V' => Some(key_sequence(47, true)),
        'W' => Some(key_sequence(17, true)),
        'X' => Some(key_sequence(45, true)),
        'Y' => Some(key_sequence(21, true)),
        'Z' => Some(key_sequence(44, true)),
        '1' => Some(key_sequence(2, false)),
        '2' => Some(key_sequence(3, false)),
        '3' => Some(key_sequence(4, false)),
        '4' => Some(key_sequence(5, false)),
        '5' => Some(key_sequence(6, false)),
        '6' => Some(key_sequence(7, false)),
        '7' => Some(key_sequence(8, false)),
        '8' => Some(key_sequence(9, false)),
        '9' => Some(key_sequence(10, false)),
        '0' => Some(key_sequence(11, false)),
        '-' => Some(key_sequence(53, false)),
        '_' => Some(key_sequence(53, true)),
        '=' => Some(key_sequence(13, false)),
        '+' => Some(key_sequence(12, false)),
        '[' => Some(key_sequence(26, false)),
        '{' => Some(key_sequence(26, true)),
        ']' => Some(key_sequence(27, false)),
        '}' => Some(key_sequence(27, true)),
        ';' => Some(key_sequence(39, false)),
        ':' => Some(key_sequence(39, true)),
        '\'' => Some(key_sequence(40, false)),
        '"' => Some(key_sequence(40, true)),
        '`' => Some(key_sequence(13, true)),
        '~' => Some(key_sequence(41, true)),
        '\\' => Some(key_sequence(43, false)),
        '|' => Some(key_sequence(41, false)),
        ',' => Some(key_sequence(51, false)),
        '<' => Some(key_sequence(51, true)),
        '.' => Some(key_sequence(52, false)),
        '>' => Some(key_sequence(52, true)),
        '/' => Some(key_sequence(86, false)),
        '?' => Some(key_sequence(12, true)),
        '!' => Some(key_sequence(2, true)),
        '@' => Some(key_sequence(3, true)),
        '#' => Some(key_sequence(4, true)),
        '$' => Some(key_sequence(5, true)),
        '%' => Some(key_sequence(6, true)),
        '^' => Some(key_sequence(7, true)),
        '&' => Some(key_sequence(8, true)),
        '*' => Some(key_sequence(9, true)),
        '(' => Some(key_sequence(10, true)),
        ')' => Some(key_sequence(11, true)),
        _ => None,
    }
}

/// The `ydotool key` arguments that type a character on the Norwegian layout, or `None`
/// for a character that the layout has no key for.
pub fn norwegian_sequence(ch: char) -> (r: Option<Vec<String>>)
    ensures
        match norwegian_key(ch) {
            Some((code, shifted, altgr)) => r is Some && arg_views(r->0@) == key_args(
                key_events(code, shifted, altgr),
            ),
            None => r is None,
        },
{
    match ch {
        '\n' => Some(key_sequence_with_mods(28, false, false)),
        '\t' => Some(key_sequence_with_mods(15, false, false)),
        ' ' => Some(key_sequence_with_mods(57, false, false)),
        'a' | 'A' => Some(letter_sequence(30, is_uppercase_letter(ch))),
        'b' | 'B' => Some(letter_sequence(48, is_uppercase_letter(ch))),
        'c' | 'C' => Some(letter_sequence(46, is_uppercase_letter(ch))),
        'd' | 'D' => Some(letter_sequence(32, is_uppercase_letter(ch))),
        'e' | 'E' => Some(letter_sequence(18, is_uppercase_letter(ch))),
        'f' | 'F' => Some(letter_sequence(33, is_uppercase_letter(ch))),
        'g' | 'G' => Some(letter_sequence(34, is_uppercase_letter(ch))),
        'h' | 'H' => Some(letter_sequence(35, is_uppercase_letter(ch))),
        'i' | 'I' => Some(letter_sequence(23, is_uppercase_letter(ch))),
        'j' | 'J' => Some(letter_sequence(36, is_uppercase_letter(ch))),
        'k' | 'K' => Some(letter_sequence(37, is_uppercase_letter(ch))),
        'l' | 'L' => Some(letter_sequence(38, is_uppercase_letter(ch))),
        'm' | 'M' => Some(letter_sequence(50, is_uppercase_letter(ch))),
        'n' | 'N' => Some(letter_sequence(49, is_uppercase_letter(ch))),
        'o' | 'O' => Some(letter_sequence(24, is_uppercase_letter(ch))),
        'p' | 'P' => Some(letter_sequence(25, is_uppercase_letter(ch))),
        'q' | 'Q' => Some(letter_sequence(16, is_uppercase_letter(ch))),
        'r' | 'R' => Some(letter_sequence(19, is_uppercase_letter(ch))),
        's' | 'S' => Some(letter_sequence(31, is_uppercase_letter(ch))),
        't' | 'T' => Some(letter_sequence(20, is_uppercase_letter(ch))),
        'u' | 'U' => Some(letter_sequence(22, is_uppercase_letter(ch))),
        'v' | 'V' => Some(letter_sequence(47, is_uppercase_letter(ch))),
        'w' | 'W' => Some(letter_sequence(17, is_uppercase_letter(ch))),
        'x' | 'X' => Some(letter_sequence(45, is_uppercase_letter(ch))),
        'y' | 'Y' => Some(letter_sequence(21, is_uppercase_letter(ch))),
        'z' | 'Z' => Some(letter_sequence(44, is_uppercase_letter(ch))),
        '1' => Some(key_sequence_with_mods(2, false, false)),
        '!' => Some(key_sequence_with_mods(2, true, false)),
        '2' => Some(key_sequence_with_mods(3, false, false)),
        '"' => Some(key_sequence_with_mods(3, true, false)),
        '@' => Some(key_sequence_with_mods(3, false, true)),
        '3' => Some(key_sequence_with_mods(4, false, false)),
        '#' => Some(key_sequence_with_mods(4, true, false)),
        '4' => Some(key_sequence_with_mods(5, false, false)),
        '$' => Some(key_sequence_with_mods(5, false, true)),
        '5' => Some(key_sequence_with_mods(6, false, false)),
        '%' => Some(key_sequence_with_mods(6, true, false)),
        '6' => Some(key_sequence_with_mods(7, false, false)),
        '&' => Some(key_sequence_with_mods(7, true, false)),
        '7' => Some(key_sequence_with_mods(8, false, false)),
        '/' => Some(key_sequence_with_mods(8, true, false)),
        '{' => Some(key_sequence_with_mods(8, false, true)),
        '8' => Some(key_sequence_with_mods(9, false, false)),
        '(' => Some(key_sequence_with_mods(9, true, false)),
        '[' => Some(key_sequence_with_mods(9, false, true)),
        '9' => Some(key_sequence_with_mods(10, false, false)),
        ')' => Some(key_sequence_with_mods(10, true, false)),
        ']' => Some(key_sequence_with_mods(10, false, true)),
        '0' => Some(key_sequence_with_mods(11, false, false)),
        '=' => Some(key_sequence_with_mods(11, true, false)),
        '}' => Some(key_sequence_with_mods(11, false, true)),
        '+' => Some(key_sequence_with_mods(12, false, false)),
        '?' => Some(key_sequence_with_mods(12, true, false)),
        '\\' => Some(key_sequence_with_mods(13, false, false)),
        '`' => Some(key_sequence_with_mods(13, true, false)),
        '\'' => Some(key_sequence_with_mods(43, false, false)),
        '*' => Some(key_sequence_with_mods(43, true, false)),
        '|' => Some(key_sequence_with_mods(41, false, false)),
        '§' => Some(key_sequence_with_mods(41, true, false)),
        ',' => Some(key_sequence_with_mods(51, false, false)),
        ';' => Some(key_sequence_with_mods(51, true, false)),
        '.' => Some(key_sequence_with_mods(52, false, false)),
        ':' => Some(key_sequence_with_mods(52, true, false)),
        '-' => Some(key_sequence_with_mods(53, false, false)),
        '_' => Some(key_sequence_with_mods(53, true, false)),
        '<' => Some(key_sequence_with_mods(86, false, false)),
        '>' => Some(key_sequence_with_mods(86, true, false)),
        'å' => Some(key_sequence_with_mods(26, false, false)),
        'Å' => Some(key_sequence_with_mods(26, true, false)),
        '^' => Some(key_sequence_with_mods(27, true, false)),
        '~' => Some(key_sequence_with_mods(27, false, true)),
        'ø' => Some(key_sequence_with_mods(39, false, false)),
        'Ø' => Some(key_sequence_with_mods(39, true, false)),
        'æ' => Some(key_sequence_with_mods(40, false, false)),
        'Æ' => Some(key_sequence_with_mods(40, true, false)),
        '€' => Some(key_sequence_with_mods(18, false, true)),
        _ => None,
    }
}


/// The arguments given to `ydotool` to type a character: `key` and the key events where
/// the layout has a key for it, else `type` and the character itself.
pub open spec fn ydotool_args(ch: char, layout: KeyboardLayout) -> Seq<Seq<char>> {
    match layout_events(ch, layout) {
        Some(events) => seq!["key"@] + key_args(events),
        None => seq!["type"@, seq![ch]],
    }
}

/// The `ydotool` arguments for a key sequence, or for typing `fallback` as text where
/// there is no sequence.
pub fn send_sequence(sequence: Option<Vec<String>>, fallback: char) -> (args: Vec<String>)
    ensures
        match sequence {
            Some(keys) => arg_views(args@) == seq!["key"@] + arg_views(keys@),
            None => arg_views(args@) == seq!["type"@, seq![fallback]],
        },
{
    match sequence {
        Some(keys) => {
            let ghost key_views = arg_views(keys@);
            let mut keys = keys;
            let mut args: Vec<String> = Vec::new();
            args.push(owned("key"));
            args.append(&mut keys);
            assert(arg_views(args@) =~= seq!["key"@] + key_views);
            args
        },
        None => {
            let mut text = String::new();
            push_char(&mut text, fallback);
            let mut args: Vec<String> = Vec::new();
            args.push(owned("type"));
            args.push(text);
            assert(arg_views(args@) =~= seq!["type"@, seq![fallback]]);
            args
        },
    }
}

/// The key sequence for a character on a layout.
pub fn layout_sequence(ch: char, layout: KeyboardLayout) -> (r: Option<Vec<String>>)
    ensures
        match layout_events(ch, layout) {
            Some(events) => r is Some && arg_views(r->0@) == key_args(events),
            None => r is None,
        },
{
    match layout {
        KeyboardLayout::Norwegian => norwegian_sequence(ch),
        KeyboardLayout::Us => us_sequence(ch),
    }
}

/// The `ydotool` arguments that type one character on a layout.
pub fn type_char(ch: char, layout: KeyboardLayout) -> (args: Vec<String>)
    ensures
        arg_views(args@) == ydotool_args(ch, layout),
{
    send_sequence(layout_sequence(ch, layout), ch)
}

/// Why typing a character failed, if it did.
pub open spec fn typing_error(outcome: CommandOutcome) -> Option<Seq<char>> {
    match outcome {
        CommandOutcome::NotStarted(err) => Some("failed to run ydotool: "@ + err@),
        CommandOutcome::Exited { success, status, stderr, .. } => if success {
            None
        } else {
            Some("ydotool exited with "@ + status@ + ": "@ + stderr_text(stderr@, status@))
        },
    }
}

/// Turns the outcome of running `ydotool` for one character into success or an error text.
pub fn type_char_result(outcome: &CommandOutcome) -> (r: Result<(), String>)
    ensures
        match typing_error(*outcome) {
            Some(err) => r is Err && r->Err_0@ == err,
            None => r is Ok,
        },
{
    match outcome {
        CommandOutcome::NotStarted(err) => {
            let mut msg = owned("failed to run ydotool: ");
            msg.append(err.as_str());
            Err(msg)
        },
        CommandOutcome::Exited { success, status, stderr, .. } => {
            if *success {
                Ok(())
            } else {
                let mut msg = owned("ydotool exited with ");
                msg.append(status.as_str());
                msg.append(": ");
                let summary = crate::command::command_stderr(stderr.as_str(), status.as_str());
                msg.append(summary.as_str());
                Err(msg)
            }
        },
    }
}

/// Characters typed between two progress reports.
pub const PROGRESS_EVERY: usize = 25;

/// `Stopped after <done> of <total> characters.`
pub open spec fn stopped_message(done: nat, total: nat) -> Seq<char> {
    "Stopped after "@ + decimal(done) + " of "@ + decimal(total) + " characters."@
}

/// `Typing <done> of <total> characters...`
pub open spec fn progress_message(done: nat, total: nat) -> Seq<char> {
    "Typing "@ + decimal(done) + " of "@ + decimal(total) + " characters..."@
}

/// `Done. Typed <total> characters.`
pub open spec fn done_message(total: nat) -> Seq<char> {
    "Done. Typed "@ + decimal(total) + " characters."@
}

/// `Error: <err>`
pub open spec fn error_message(err: Seq<char>) -> Seq<char> {
    "Error: "@ + err
}

/// Whether `event` reports the end of typing with the given status after `done` of
/// `total` characters.
pub open spec fn is_finished(event: UiEvent, status: Seq<char>, done: nat, total: nat) -> bool {
    &&& event matches UiEvent::Finished { status: s, done: d, total: t }
    &&& s@ == status
    &&& d == done
    &&& t == total
}

/// Whether `event` reports progress after `done` of `total` characters.
pub open spec fn is_progress(event: UiEvent, done: nat, total: nat) -> bool {
    &&& event matches UiEvent::Progress { done: d, total: t, status: s }
    &&& s@ == progress_message(done, total)
    &&& d == done
    &&& t == total
}

/// The event that reports a run stopped after `done` of `total` characters.
pub fn finish_stopped(done: usize, total: usize) -> (event: UiEvent)
    ensures
        is_finished(event, stopped_message(done as nat, total as nat), done as nat, total as nat),
{
    let mut status = owned("Stopped after ");
    push_decimal(&mut status, done as u128);
    status.append(" of ");
    push_decimal(&mut status, total as u128);
    status.append(" characters.");
    assert(status@ =~= stopped_message(done as nat, total as nat));
    UiEvent::Finished { status, done, total }
}

fn progress_event(done: usize, total: usize) -> (event: UiEvent)
    ensures
        is_progress(event, done as nat, total as nat),
{
    let mut status = owned("Typing ");
    push_decimal(&mut status, done as u128);
    status.append(" of ");
    push_decimal(&mut status, total as u128);
    status.append(" characters...");
    assert(status@ =~= progress_message(done as nat, total as nat));
    UiEvent::Progress { done, total, status }
}

fn finish_done(total: usize) -> (event: UiEvent)
    ensures
        is_finished(event, done_message(total as nat), total as nat, total as nat),
{
    let mut status = owned("Done. Typed ");
    push_decimal(&mut status, total as u128);
    status.append(" characters.");
    assert(status@ =~= done_message(total as nat));
    UiEvent::Finished { status, done: total, total }
}

fn finish_error(err: String, done: usize, total: usize) -> (event: UiEvent)
    ensures
        is_finished(event, error_message(err@), done as nat, total as nat),
{
    let mut status = owned("Error: ");
    status.append(err.as_str());
    UiEvent::Finished { status, done, total }
}

/// How long to wait after typing `ch`: the pause after Enter where `ch` is a line break and
/// that pause is the longer one, else the interval between characters.
pub open spec fn pause_after(ch: char, interval_nanos: u64, enter_pause_nanos: u64) -> u64 {
    if ch == '\n' && enter_pause_nanos > interval_nanos {
        enter_pause_nanos
    } else {
        interval_nanos
    }
}

/// The wait after typing `ch`, in nanoseconds.
pub fn pause_for(ch: char, interval_nanos: u64, enter_pause_nanos: u64) -> (pause: u64)
    ensures
        pause == pause_after(ch, interval_nanos, enter_pause_nanos),
{
    if ch == '\n' && enter_pause_nanos > interval_nanos {
        enter_pause_nanos
    } else {
        interval_nanos
    }
}

/// Whether progress is reported once `done` of `total` characters are typed.
pub open spec fn reports_progress(done: nat, total: nat) -> bool {
    done == total || done % (PROGRESS_EVERY as nat) == 0
}

/// Where a typing run stands: what it waits for next.
#[derive(Clone, Copy, Debug, PartialEq, Eq, Structural)]
pub enum TypingPhase {
    /// Waits for the start.
    NotStarted,
    /// Waits for the start delay to pass.
    Countdown,
    /// Waits to learn whether the run was cancelled before character `index` is typed.
    CheckingCancel { index: usize },
    /// Waits for the keystrokes of character `index` to be sent.
    Sending { index: usize },
    /// Waits for the pause after character `index` to pass.
    Pausing { index: usize },
    /// Waits for the progress report after `done` characters to be delivered.
    Reporting { done: usize },
    /// The run has ended after `done` characters; nothing more happens.
    Done { done: usize },
}

/// What happened outside since the last step of a typing run.
pub enum TypingEvent {
    /// The run is to begin.
    Started,
    /// A wait has ended, because its time passed or because the run was cancelled.
    Waited { cancelled: bool },
    /// Whether the run had been cancelled when it was asked.
    CancelChecked { cancelled: bool },
    /// The keystrokes of a character were handed to `ydotool`, with this outcome.
    Sent(CommandOutcome),
    /// A progress report has been delivered.
    Reported,
}

/// What a typing run asks to be done next.
pub enum TypingAction {
    /// Wait this many nanoseconds, or less if the run is cancelled meanwhile; during the
    /// start delay the remaining time is shown as a countdown.
    Wait { nanos: u64, countdown: bool },
    /// Find out whether the run has been cancelled.
    CheckCancel,
    /// Run `ydotool` with these arguments.
    Send(Vec<String>),
    /// Deliver this event to the window, then go on.
    Report(UiEvent),
    /// Deliver this event to the window; the run has ended.
    Finish(UiEvent),
    /// Nothing: the event did not fit where the run stands.
    Nothing,
}

/// A typing job: the text, the layout and the timing, and where the job stands.
pub struct TypingRun {
    /// The characters to type, in order.
    pub text: Vec<char>,
    /// The layout the target expects.
    pub layout: KeyboardLayout,
    /// Wait before the first character, in nanoseconds.
    pub delay_nanos: u64,
    /// Wait between characters, in nanoseconds.
    pub interval_nanos: u64,
    /// Wait after a line break, where it is longer than the interval, in nanoseconds.
    pub enter_pause_nanos: u64,
    /// Where the job stands.
    pub phase: TypingPhase,
}

/// The phase is consistent with a text of `total` characters.
pub open spec fn phase_wf(phase: TypingPhase, total: nat) -> bool {
    match phase {
        TypingPhase::CheckingCancel { index } => index < total,
        TypingPhase::Sending { index } => index < total,
        TypingPhase::Pausing { index } => index < total,
        TypingPhase::Reporting { done } => done <= total,
        TypingPhase::Done { done } => done <= total,
        _ => true,
    }
}

/// How many characters have been typed when the run stands in `phase`.
pub open spec fn typed_count(phase: TypingPhase) -> nat {
    match phase {
        TypingPhase::NotStarted => 0,
        TypingPhase::Countdown => 0,
        TypingPhase::CheckingCancel { index } => index as nat,
        TypingPhase::Sending { index } => index as nat,
        TypingPhase::Pausing { index } => index as nat + 1,
        TypingPhase::Reporting { done } => done as nat,
        TypingPhase::Done { done } => done as nat,
    }
}

/// Where the run goes once `next` characters are typed and nothing stops it: on to the
/// next character, or to its end once the text is typed.
pub open spec fn continue_phase(next: nat, total: nat) -> TypingPhase {
    if next >= total {
        TypingPhase::Done { done: total as usize }
    } else {
        TypingPhase::CheckingCancel { index: next as usize }
    }
}

/// The phase a run of `total` characters moves to on `event`.
pub open spec fn next_phase(phase: TypingPhase, total: nat, event: TypingEvent) -> TypingPhase {
    match (phase, event) {
        (TypingPhase::NotStarted, TypingEvent::Started) => TypingPhase::Countdown,
        (TypingPhase::Countdown, TypingEvent::Waited { cancelled }) => if cancelled {
            TypingPhase::Done { done: 0 }
        } else {
            continue_phase(0, total)
        },
        (TypingPhase::CheckingCancel { index }, TypingEvent::CancelChecked { cancelled }) => {
            if cancelled {
                TypingPhase::Done { done: index }
            } else {
                TypingPhase::Sending { index }
            }
        },
        (TypingPhase::Sending { index }, TypingEvent::Sent(outcome)) => {
            if typing_error(outcome) is Some {
                TypingPhase::Done { done: index }
            } else {
                TypingPhase::Pausing { index }
            }
        },
        (TypingPhase::Pausing { index }, TypingEvent::Waited { cancelled }) => if cancelled {
            TypingPhase::Done { done: (index + 1) as usize }
        } else if reports_progress(index as nat + 1, total) {
            TypingPhase::Reporting { done: (index + 1) as usize }
        } else {
            continue_phase(index as nat + 1, total)
        },
        (TypingPhase::Reporting { done }, TypingEvent::Reported) => continue_phase(
            done as nat,
            total,
        ),
        _ => phase,
    }
}

/// The action that goes with moving on to `continue_phase(next, total)`.
pub open spec fn continue_action(action: TypingAction, next: nat, total: nat) -> bool {
    if next >= total {
        action matches TypingAction::Finish(event) && is_finished(
            event,
            done_message(total),
            total,
            total,
        )
    } else {
        action is CheckCancel
    }
}

impl TypingRun {
    /// The number of characters in the text.
    pub open spec fn total(&self) -> nat {
        self.text@.len()
    }

    /// The run is well formed.
    pub open spec fn wf(&self) -> bool {
        phase_wf(self.phase, self.total())
    }

    /// The action that a run in `self` asks for on `event`.
    pub open spec fn action_fits(&self, event: TypingEvent, action: TypingAction) -> bool {
        let total = self.total();
        match (self.phase, event) {
            (TypingPhase::NotStarted, TypingEvent::Started) => action == TypingAction::Wait {
                nanos: self.delay_nanos,
                countdown: true,
            },
            (TypingPhase::Countdown, TypingEvent::Waited { cancelled }) => if cancelled {
                action matches TypingAction::Finish(e) && is_finished(
                    e,
                    stopped_message(0, total),
                    0,
                    total,
                )
            } else {
                continue_action(action, 0, total)
            },
            (TypingPhase::CheckingCancel { index }, TypingEvent::CancelChecked { cancelled }) => {
                if cancelled {
                    action matches TypingAction::Finish(e) && is_finished(
                        e,
                        stopped_message(index as nat, total),
                        index as nat,
                        total,
                    )
                } else {
                    action matches TypingAction::Send(args) && arg_views(args@) == ydotool_args(
                        self.text@[index as int],
                        self.layout,
                    )
                }
            },
            (TypingPhase::Sending { index }, TypingEvent::Sent(outcome)) => {
                match typing_error(outcome) {
                    Some(err) => action matches TypingAction::Finish(e) && is_finished(
                        e,
                        error_message(err),
                        index as nat,
                        total,
                    ),
                    None => action == TypingAction::Wait {
                        nanos: pause_after(
                            self.text@[index as int],
                            self.interval_nanos,
                            self.enter_pause_nanos,
                        ),
                        countdown: false,
                    },
                }
            },
            (TypingPhase::Pausing { index }, TypingEvent::Waited { cancelled }) => if cancelled {
                action matches TypingAction::Finish(e) && is_finished(
                    e,
                    stopped_message(index as nat + 1, total),
                    index as nat + 1,
                    total,
                )
            } else if reports_progress(index as nat + 1, total) {
                action matches TypingAction::Report(e) && is_progress(e, index as nat + 1, total)
            } else {
                continue_action(action, index as nat + 1, total)
            },
            (TypingPhase::Reporting { done }, TypingEvent::Reported) => continue_action(
                action,
                done as nat,
                total,
            ),
            _ => action is Nothing,
        }
    }

    /// A run of `text` that has not started yet.
    pub fn new(
        text: Vec<char>,
        layout: KeyboardLayout,
        delay_nanos: u64,
        interval_nanos: u64,
        enter_pause_nanos: u64,
    ) -> (run: TypingRun)
        ensures
            run.text == text,
            run.layout == layout,
            run.delay_nanos == delay_nanos,
            run.interval_nanos == interval_nanos,
            run.enter_pause_nanos == enter_pause_nanos,
            run.phase == TypingPhase::NotStarted,
            run.wf(),
    {
        TypingRun { text, layout, delay_nanos, interval_nanos, enter_pause_nanos, phase: TypingPhase::NotStarted }
    }

    /// Whether the run has ended.
    pub fn is_done(&self) -> (r: bool)
        ensures
            r == (self.phase is Done),
    {
        match self.phase {
            TypingPhase::Done { .. } => true,
            _ => false,
        }
    }

    fn continue_from(&mut self, next: usize) -> (action: TypingAction)
        requires
            next <= old(self).total(),
        ensures
            final(self).text == old(self).text,
            final(self).layout == old(self).layout,
            final(self).delay_nanos == old(self).delay_nanos,
            final(self).interval_nanos == old(self).interval_nanos,
            final(self).enter_pause_nanos == old(self).enter_pause_nanos,
            final(self).phase == continue_phase(next as nat, old(self).total()),
            continue_action(action, next as nat, old(self).total()),
    {
        let total = self.text.len();
        if next >= total {
            self.phase = TypingPhase::Done { done: total };
            TypingAction::Finish(finish_done(total))
        } else {
            self.phase = TypingPhase::CheckingCancel { index: next };
            TypingAction::CheckCancel
        }
    }
}

/// One step of a typing job: takes what happened outside, moves the job on and says what
/// to do next. The job waits out the start delay, then for each character checks for
/// cancellation, sends its keystrokes, waits the pause that follows it and reports
/// progress every `PROGRESS_EVERY` characters and at the end; it ends when the text is
/// typed, when it is cancelled or when sending keystrokes fails.
pub fn run_typing(run: &mut TypingRun, event: TypingEvent) -> (action: TypingAction)
    requires
        old(run).wf(),
    ensures
        final(run).wf(),
        final(run).text == old(run).text,
        final(run).layout == old(run).layout,
        final(run).delay_nanos == old(run).delay_nanos,
        final(run).interval_nanos == old(run).interval_nanos,
        final(run).enter_pause_nanos == old(run).enter_pause_nanos,
        final(run).phase == next_phase(old(run).phase, old(run).total(), event),
        old(run).action_fits(event, action),
{
    let total = run.text.len();
    match (run.phase, event) {
        (TypingPhase::NotStarted, TypingEvent::Started) => {
            run.phase = TypingPhase::Countdown;
            TypingAction::Wait { nanos: run.delay_nanos, countdown: true }
        },
        (TypingPhase::Countdown, TypingEvent::Waited { cancelled }) => {
            if cancelled {
                run.phase = TypingPhase::Done { done: 0 };
                TypingAction::Finish(finish_stopped(0, total))
            } else {
                run.continue_from(0)
            }
        },
        (TypingPhase::CheckingCancel { index }, TypingEvent::CancelChecked { cancelled }) => {
            if cancelled {
                run.phase = TypingPhase::Done { done: index };
                TypingAction::Finish(finish_stopped(index, total))
            } else {
                run.phase = TypingPhase::Sending { index };
                TypingAction::Send(type_char(run.text[index], run.layout))
            }
        },
        (TypingPhase::Sending { index }, TypingEvent::Sent(outcome)) => {
            match type_char_result(&outcome) {
                Err(err) => {
                    run.phase = TypingPhase::Done { done: index };
                    TypingAction::Finish(finish_error(err, index, total))
                },
                Ok(()) => {
                    run.phase = TypingPhase::Pausing { index };
                    let nanos = pause_for(run.text[index], run.interval_nanos, run.enter_pause_nanos);
                    TypingAction::Wait { nanos, countdown: false }
                },
            }
        },
        (TypingPhase::Pausing { index }, TypingEvent::Waited { cancelled }) => {
            let done = index + 1;
            if cancelled {
                run.phase = TypingPhase::Done { done };
                TypingAction::Finish(finish_stopped(done, total))
            } else if done == total || done % PROGRESS_EVERY == 0 {
                run.phase = TypingPhase::Reporting { done };
                TypingAction::Report(progress_event(done, total))
            } else {
                run.continue_from(done)
            }
        },
        (TypingPhase::Reporting { done }, TypingEvent::Reported) => run.continue_from(done),
        _ => TypingAction::Nothing,
    }
}

/// What one look at a cancellable wait decides.
#[derive(Clone, Copy, Debug, PartialEq, Eq, Structural)]
pub enum SleepStep {
    /// The run was cancelled: stop waiting.
    Cancelled,
    /// The wait is over.
    Elapsed,
    /// Report `remaining_nanos` still to wait, then sleep `sleep_nanos`.
    Sleep { remaining_nanos: u64, sleep_nanos: u64 },
}

/// The longest sleep between two looks at the cancel flag, in nanoseconds.
pub const SLEEP_SLICE_NANOS: u64 = 100_000_000;

/// One look at a cancellable wait, given whether the run was cancelled and how long is
/// left until the deadline (zero once it has passed): cancellation first, then the
/// deadline, else sleep the time left but at most `SLEEP_SLICE_NANOS`.
pub fn sleep_step(cancelled: bool, remaining_nanos: u64) -> (step: SleepStep)
    ensures
        cancelled ==> step == SleepStep::Cancelled,
        !cancelled && remaining_nanos == 0 ==> step == SleepStep::Elapsed,
        !cancelled && remaining_nanos > 0 ==> step == (SleepStep::Sleep {
            remaining_nanos,
            sleep_nanos: if remaining_nanos < SLEEP_SLICE_NANOS {
                remaining_nanos
            } else {
                SLEEP_SLICE_NANOS
            },
        }),
{
    if cancelled {
        SleepStep::Cancelled
    } else if remaining_nanos == 0 {
        SleepStep::Elapsed
    } else {
        let sleep_nanos = if remaining_nanos < SLEEP_SLICE_NANOS {
            remaining_nanos
        } else {
            SLEEP_SLICE_NANOS
        };
        SleepStep::Sleep { remaining_nanos, sleep_nanos }
    }
}

/// The events that type one key are balanced.
proof fn lemma_key_events_balanced(code: u32, shifted: bool, altgr: bool)
    ensures
        balanced(key_events(code, shifted, altgr)),
{
    let e = key_events(code, shifted, altgr);
    if altgr && shifted {
        assert(e =~= seq![(ALTGR_KEYCODE, true), (SHIFT_KEYCODE, true), (code, true), (code, false), (SHIFT_KEYCODE, false), (ALTGR_KEYCODE, false)]);
    } else if altgr {
        assert(e =~= seq![(ALTGR_KEYCODE, true), (code, true), (code, false), (ALTGR_KEYCODE, false)]);
    } else if shifted {
        assert(e =~= seq![(SHIFT_KEYCODE, true), (code, true), (code, false), (SHIFT_KEYCODE, false)]);
    } else {
        assert(e =~= seq![(code, true), (code, false)]);
    }
}

/// Typing a character never leaves a key held down: on either layout, every key that the
/// sequence presses is released again, in the reverse order of pressing.
pub proof fn lemma_key_sequences_balanced(ch: char, layout: KeyboardLayout)
    ensures
        layout_events(ch, layout) matches Some(events) ==> balanced(events),
{
    match layout {
        KeyboardLayout::Us => if let Some((code, shifted)) = us_key(ch) {
            lemma_key_events_balanced(code, shifted, false);
        },
        KeyboardLayout::Norwegian => if let Some((code, shifted, altgr)) = norwegian_key(ch) {
            lemma_key_events_balanced(code, shifted, altgr);
        },
    }
}

/// An upper-case ASCII letter is typed with the key of its lower-case letter and Shift
/// held, on both layouts; the lower-case letter is typed without Shift or AltGr.
pub proof fn lemma_upper_case_is_shifted_letter(c: char)
    requires
        'a' <= c <= 'z',
    ensures
        us_key(c) matches Some((code, false)) && us_key(crate::text::ascii_upper(c)) == Some((code, true)),
        norwegian_key(c) matches Some((code, false, false)) && norwegian_key(crate::text::ascii_upper(c)) == Some((code, true, false)),
{
    let u = crate::text::ascii_upper(c);
    assert(u == ((c as int) - 32) as char);
    if c == 'a' { assert(u == 'A'); } else if c == 'b' { assert(u == 'B'); }
    else if c == 'c' { assert(u == 'C'); } else if c == 'd' { assert(u == 'D'); }
    else if c == 'e' { assert(u == 'E'); } else if c == 'f' { assert(u == 'F'); }
    else if c == 'g' { assert(u == 'G'); } else if c == 'h' { assert(u == 'H'); }
    else if c == 'i' { assert(u == 'I'); } else if c == 'j' { assert(u == 'J'); }
    else if c == 'k' { assert(u == 'K'); } else if c == 'l' { assert(u == 'L'); }
    else if c == 'm' { assert(u == 'M'); } else if c == 'n' { assert(u == 'N'); }
    else if c == 'o' { assert(u == 'O'); } else if c == 'p' { assert(u == 'P'); }
    else if c == 'q' { assert(u == 'Q'); } else if c == 'r' { assert(u == 'R'); }
    else if c == 's' { assert(u == 'S'); } else if c == 't' { assert(u == 'T'); }
    else if c == 'u' { assert(u == 'U'); } else if c == 'v' { assert(u == 'V'); }
    else if c == 'w' { assert(u == 'W'); } else if c == 'x' { assert(u == 'X'); }
    else if c == 'y' { assert(u == 'Y'); } else { assert(c == 'z'); assert(u == 'Z'); }
}

/// The wait after a character is never shorter than the interval between characters,
/// and only a line break can make it longer.
pub proof fn lemma_pause_at_least_interval(ch: char, interval_nanos: u64, enter_pause_nanos: u64)
    ensures
        pause_after(ch, interval_nanos, enter_pause_nanos) >= interval_nanos,
        ch != '\n' ==> pause_after(ch, interval_nanos, enter_pause_nanos) == interval_nanos,
{
}

/// Every step keeps a run well formed, and the count of typed characters never falls,
/// grows by at most one per step and never passes the length of the text.
pub proof fn lemma_typing_progress(phase: TypingPhase, total: nat, event: TypingEvent)
    requires
        phase_wf(phase, total),
        total <= usize::MAX,
    ensures
        phase_wf(next_phase(phase, total, event), total),
        typed_count(phase) <= typed_count(next_phase(phase, total, event)) <= typed_count(phase) + 1,
        typed_count(next_phase(phase, total, event)) <= total,
{
}

/// A run that has ended stays ended and asks for nothing more, whatever happens.
pub proof fn lemma_done_is_final(run: TypingRun, event: TypingEvent, action: TypingAction)
    requires
        run.phase is Done,
        run.action_fits(event, action),
    ensures
        next_phase(run.phase, run.total(), event) == run.phase,
        action is Nothing,
{
}

/// A run ends only by reporting it: every step into the end finishes with an event whose
/// count is the run's count of typed characters, never above the text's length.
pub proof fn lemma_finish_reports_count(run: TypingRun, event: TypingEvent, action: TypingAction)
    requires
        run.wf(),
        run.action_fits(event, action),
        !(run.phase is Done),
        next_phase(run.phase, run.total(), event) is Done,
    ensures
        action matches TypingAction::Finish(UiEvent::Finished { done, total, .. }) && done as nat
            == typed_count(next_phase(run.phase, run.total(), event)) && total as nat == run.total()
            && done <= total,
{
}

/// An upper bound on the steps a run in `phase` still takes before it ends.
pub open spec fn steps_left(phase: TypingPhase, total: nat) -> int {
    match phase {
        TypingPhase::NotStarted => 4 * total as int + 2,
        TypingPhase::Countdown => 4 * total as int + 1,
        TypingPhase::CheckingCancel { index } => 4 * (total - index),
        TypingPhase::Sending { index } => 4 * (total - index) - 1,
        TypingPhase::Pausing { index } => 4 * (total - index) - 2,
        TypingPhase::Reporting { done } => 4 * (total - done) + 1,
        TypingPhase::Done { .. } => 0,
    }
}

/// A run always comes to an end: every event either does not fit where the run stands
/// and changes nothing, or brings the run strictly closer to its end, so a run of `total`
/// characters ends after at most `4 * total + 2` steps that move it.
pub proof fn lemma_typing_terminates(phase: TypingPhase, total: nat, event: TypingEvent)
    requires
        phase_wf(phase, total),
        total <= usize::MAX,
    ensures
        steps_left(phase, total) >= 0,
        next_phase(phase, total, event) == phase || steps_left(next_phase(phase, total, event), total)
            < steps_left(phase, total),
{
}

/// A run ends before the whole text is typed only when it is cancelled or sending
/// keystrokes fails; otherwise it ends with every character typed.
pub proof fn lemma_early_end_needs_cancel_or_error(phase: TypingPhase, total: nat, event: TypingEvent)
    requires
        phase_wf(phase, total),
        total <= usize::MAX,
        !(phase is Done),
        next_phase(phase, total, event) is Done,
    ensures
        typed_count(next_phase(phase, total, event)) < total ==> ({
            ||| event matches TypingEvent::Waited { cancelled: true }
            ||| event matches TypingEvent::CancelChecked { cancelled: true }
            ||| (event matches TypingEvent::Sent(outcome) && typing_error(outcome) is Some)
        }),
{
}

/// The US table can be read backwards: the key of a character gives the character back.
proof fn lemma_us_key_inverse(c: char)
    ensures
        us_key(c) matches Some((code, shifted)) ==> us_char(code, shifted) == Some(c),
{
}

/// The Norwegian table can be read backwards: the key of a character gives the character
/// back.
proof fn lemma_norwegian_key_inverse(c: char)
    ensures
        norwegian_key(c) matches Some((code, shifted, altgr)) ==> norwegian_char(code, shifted, altgr)
            == Some(c),
{
}

/// Different keys and modifier choices give different key events.
proof fn lemma_key_events_injective(c1: u32, s1: bool, a1: bool, c2: u32, s2: bool, a2: bool)
    requires
        key_events(c1, s1, a1) == key_events(c2, s2, a2),
    ensures
        c1 == c2 && s1 == s2 && a1 == a2,
{
    let e1 = key_events(c1, s1, a1);
    let e2 = key_events(c2, s2, a2);
    let m1: int = (if a1 { 1int } else { 0int }) + (if s1 { 1int } else { 0int });
    let m2: int = (if a2 { 1int } else { 0int }) + (if s2 { 1int } else { 0int });
    assert(e1.len() == 2 + 2 * m1);
    assert(e2.len() == 2 + 2 * m2);
    assert(m1 == m2);
    assert(e1[m1] == (c1, true));
    assert(e2[m2] == (c2, true));
    if a1 {
        assert(e1[0] == (ALTGR_KEYCODE, true));
    }
    if a2 {
        assert(e2[0] == (ALTGR_KEYCODE, true));
    }
    if s1 && !a1 {
        assert(e1[0] == (SHIFT_KEYCODE, true));
    }
    if s2 && !a2 {
        assert(e2[0] == (SHIFT_KEYCODE, true));
    }
}

/// Different characters are never typed with the same keystrokes, on either layout: where
/// a layout has a key for `c1`, any other character gets other key events or none.
pub proof fn lemma_layout_events_distinct(c1: char, c2: char, layout: KeyboardLayout)
    requires
        c1 != c2,
        layout_events(c1, layout) is Some,
    ensures
        layout_events(c1, layout) != layout_events(c2, layout),
{
    match layout {
        KeyboardLayout::Us => {
            lemma_us_key_inverse(c1);
            lemma_us_key_inverse(c2);
            if layout_events(c1, layout) == layout_events(c2, layout) {
                let (k1, s1) = us_key(c1)->0;
                let (k2, s2) = us_key(c2)->0;
                lemma_key_events_injective(k1, s1, false, k2, s2, false);
            }
        },
        KeyboardLayout::Norwegian => {
            lemma_norwegian_key_inverse(c1);
            lemma_norwegian_key_inverse(c2);
            if layout_events(c1, layout) == layout_events(c2, layout) {
                let (k1, s1, a1) = norwegian_key(c1)->0;
                let (k2, s2, a2) = norwegian_key(c2)->0;
                lemma_key_events_injective(k1, s1, a1, k2, s2, a2);
            }
        },
    }
}

/// The kind of an action, as far as the window sees it.
pub enum StepKind {
    /// The start-delay wait, during which the countdown is shown.
    Countdown,
    /// A progress report after `done` characters.
    Progress { done: nat },
    /// The report that ends the run.
    Finish,
    /// Any other action (waits between characters, cancel checks, keystrokes).
    Work,
    /// Nothing: the event did not fit.
    Nothing,
}

/// The kind of action a run of `total` characters in `phase` asks for on `event`.
pub open spec fn step_kind(phase: TypingPhase, total: nat, event: TypingEvent) -> StepKind {
    let next = next_phase(phase, total, event);
    if next == phase {
        StepKind::Nothing
    } else if phase is NotStarted {
        StepKind::Countdown
    } else if next is Done {
        StepKind::Finish
    } else if let TypingPhase::Reporting { done } = next {
        StepKind::Progress { done: done as nat }
    } else {
        StepKind::Work
    }
}

/// The action a step asks for is of the kind that `step_kind` gives: a countdown wait,
/// a progress report with its count, the finishing report, or nothing, exactly as the
/// kind says.
pub proof fn lemma_action_kind(run: TypingRun, event: TypingEvent, action: TypingAction)
    requires
        run.wf(),
        run.action_fits(event, action),
    ensures
        (action matches TypingAction::Wait { countdown: true, .. }) <==> step_kind(
            run.phase,
            run.total(),
            event,
        ) is Countdown,
        (action is Finish) <==> step_kind(run.phase, run.total(), event) is Finish,
        (action is Nothing) <==> step_kind(run.phase, run.total(), event) is Nothing,
        (action is Report) <==> step_kind(run.phase, run.total(), event) is Progress,
        action matches TypingAction::Report(e) ==> is_progress(
            e,
            step_kind(run.phase, run.total(), event)->done,
            run.total(),
        ),
{
}

/// The phases a run goes through on a sequence of events, after the starting phase.
pub open spec fn phases_after(phase: TypingPhase, total: nat, events: Seq<TypingEvent>) -> Seq<TypingPhase>
    decreases events.len(),
{
    if events.len() == 0 {
        Seq::empty()
    } else {
        let next = next_phase(phase, total, events[0]);
        seq![next] + phases_after(next, total, events.drop_first())
    }
}

/// The kinds of the actions a run asks for on a sequence of events.
pub open spec fn kinds_after(phase: TypingPhase, total: nat, events: Seq<TypingEvent>) -> Seq<StepKind>
    decreases events.len(),
{
    if events.len() == 0 {
        Seq::empty()
    } else {
        let next = next_phase(phase, total, events[0]);
        seq![step_kind(phase, total, events[0])] + kinds_after(next, total, events.drop_first())
    }
}

/// The smallest count a later progress report can carry.
pub open spec fn report_floor(phase: TypingPhase, total: nat) -> nat {
    match phase {
        TypingPhase::NotStarted => 1,
        TypingPhase::Countdown => 1,
        TypingPhase::CheckingCancel { index } => index as nat + 1,
        TypingPhase::Sending { index } => index as nat + 1,
        TypingPhase::Pausing { index } => index as nat + 1,
        TypingPhase::Reporting { done } => done as nat + 1,
        TypingPhase::Done { .. } => total + 1,
    }
}

proof fn lemma_step_floor(phase: TypingPhase, total: nat, event: TypingEvent)
    requires
        phase_wf(phase, total),
        total <= usize::MAX,
    ensures
        report_floor(phase, total) <= report_floor(next_phase(phase, total, event), total),
        step_kind(phase, total, event) matches StepKind::Progress { done } ==> report_floor(phase, total)
            <= done && done <= total && report_floor(next_phase(phase, total, event), total) == done
            + 1,
        !(phase is NotStarted) ==> !(step_kind(phase, total, event) is Countdown),
        phase is Done ==> step_kind(phase, total, event) is Nothing,
{
    lemma_typing_progress(phase, total, event);
}

/// Over any sequence of events, from a well-formed phase: once a run finishes, every later
/// step does nothing; the progress reports carry counts at least `report_floor(phase)`,
/// at most `total`, strictly increasing; and a countdown is asked for only from a run not
/// yet started.
proof fn lemma_trace(phase: TypingPhase, total: nat, events: Seq<TypingEvent>)
    requires
        phase_wf(phase, total),
        total <= usize::MAX,
    ensures
        kinds_after(phase, total, events).len() == events.len(),
        phase is Done ==> forall|j: int|
            0 <= j < events.len() ==> #[trigger] kinds_after(phase, total, events)[j] is Nothing,
        forall|i: int, j: int|
            0 <= i < j < events.len() && (#[trigger] kinds_after(phase, total, events)[i]) is Finish
                ==> #[trigger] kinds_after(phase, total, events)[j] is Nothing,
        forall|i: int|
            0 <= i < events.len() && (#[trigger] kinds_after(phase, total, events)[i]) is Progress
                ==> report_floor(phase, total) <= kinds_after(phase, total, events)[i]->done <= total,
        forall|i: int, j: int|
            0 <= i < j < events.len() && (#[trigger] kinds_after(phase, total, events)[i]) is Progress
                && (#[trigger] kinds_after(phase, total, events)[j]) is Progress
                ==> kinds_after(phase, total, events)[i]->done < kinds_after(
                phase,
                total,
                events,
            )[j]->done,
        !(phase is NotStarted) ==> forall|j: int|
            0 <= j < events.len() ==> !(#[trigger] kinds_after(phase, total, events)[j] is Countdown),
    decreases events.len(),
{
    if events.len() > 0 {
        let e = events[0];
        let next = next_phase(phase, total, e);
        let rest = events.drop_first();
        let ks = kinds_after(phase, total, events);
        let rs = kinds_after(next, total, rest);
        lemma_typing_progress(phase, total, e);
        lemma_step_floor(phase, total, e);
        lemma_trace(next, total, rest);
        assert(ks =~= seq![step_kind(phase, total, e)] + rs);
        assert forall|j: int| 0 < j < events.len() implies ks[j] == rs[j - 1] by {}
        if step_kind(phase, total, e) is Finish {
            assert(next is Done);
        }
        if !(step_kind(phase, total, e) is Nothing) && phase is Done {
            assert(false);
        }
        if !(phase is NotStarted) {
            assert(!(next is NotStarted));
        }
    }
}

/// Over a whole run: every run starts with at most one countdown, before anything else
/// it asks for; it asks for the finishing report at most once, and after it for nothing
/// more; and its progress reports count strictly upwards, from 1 to at most the length
/// of the text.
pub proof fn lemma_whole_run(run: TypingRun, events: Seq<TypingEvent>)
    requires
        run.phase == TypingPhase::NotStarted,
        run.total() <= usize::MAX,
    ensures
        ({
            let ks = kinds_after(run.phase, run.total(), events);
            &&& ks.len() == events.len()
            &&& forall|i: int, j: int|
                0 <= i < j < ks.len() && (#[trigger] ks[i]) is Finish ==> #[trigger] ks[j] is Nothing
            &&& forall|i: int|
                0 <= i < ks.len() && (#[trigger] ks[i]) is Progress ==> 1 <= ks[i]->done <= run.total()
            &&& forall|i: int, j: int|
                0 <= i < j < ks.len() && (#[trigger] ks[i]) is Progress && (#[trigger] ks[j]) is Progress
                    ==> ks[i]->done < ks[j]->done
            &&& forall|i: int, j: int|
                0 <= i < j < ks.len() && (#[trigger] ks[j]) is Countdown ==> #[trigger] ks[i] is Nothing
        }),
{
    let total = run.total();
    lemma_trace_countdown_first(run.phase, total, events);
    lemma_trace(run.phase, total, events);
}

/// From a run not yet started, a countdown comes only while nothing else has happened.
proof fn lemma_trace_countdown_first(phase: TypingPhase, total: nat, events: Seq<TypingEvent>)
    requires
        phase_wf(phase, total),
        total <= usize::MAX,
    ensures
        forall|i: int, j: int|
            0 <= i < j < events.len() && (#[trigger] kinds_after(phase, total, events)[j]) is Countdown
                ==> #[trigger] kinds_after(phase, total, events)[i] is Nothing,
    decreases events.len(),
{
    if events.len() > 0 {
        let e = events[0];
        let next = next_phase(phase, total, e);
        let rest = events.drop_first();
        let ks = kinds_after(phase, total, events);
        let rs = kinds_after(next, total, rest);
        lemma_typing_progress(phase, total, e);
        lemma_trace(next, total, rest);
        lemma_trace_countdown_first(next, total, rest);
        assert(ks =~= seq![step_kind(phase, total, e)] + rs);
        assert forall|j: int| 0 < j < events.len() implies ks[j] == rs[j - 1] by {}
        if !(step_kind(phase, total, e) is Nothing) {
            assert(!(next is NotStarted));
        }
    }
}

/// Every character of the Norwegian table is typed with the key that reads back as it: a
/// key that the table maps to a character is the key of that character.
pub proof fn lemma_norwegian_char_has_key(code: u32, shifted: bool, altgr: bool)
    ensures
        norwegian_char(code, shifted, altgr) matches Some(c) ==> norwegian_key(c) == Some(
            (code, shifted, altgr),
        ),
{
}

/// Every character of the US table is typed with the key that reads back as it.
pub proof fn lemma_us_char_has_key(code: u32, shifted: bool)
    ensures
        us_char(code, shifted) matches Some(c) ==> us_key(c) == Some((code, shifted)),
{
}

/// Both layouts have a key for every printable ASCII character, the tab and the line
/// break, so none of these falls back to `ydotool type`.
pub proof fn lemma_layouts_cover_ascii(c: char)
    requires
        c == '\n' || c == '\t' || (' ' <= c <= '~'),
    ensures
        us_key(c) is Some,
        norwegian_key(c) is Some,
        layout_events(c, KeyboardLayout::Us) is Some,
        layout_events(c, KeyboardLayout::Norwegian) is Some,
{
    let n = c as u32;
    assert(n == 10 || n == 9 || (32 <= n <= 126));
    assert(us_key(c) is Some && norwegian_key(c) is Some) by {
        if n == 10 { assert(c == '\n'); } else if n == 9 { assert(c == '\t'); }
        else if n == 32 { assert(c == ' '); } else if n == 33 { assert(c == '!'); }
        else if n == 34 { assert(c == '"'); } else if n == 35 { assert(c == '#'); }
        else if n == 36 { assert(c == '$'); } else if n == 37 { assert(c == '%'); }
        else if n == 38 { assert(c == '&'); } else if n == 39 { assert(c == '\''); }
        else if n == 40 { assert(c == '('); } else if n == 41 { assert(c == ')'); }
        else if n == 42 { assert(c == '*'); } else if n == 43 { assert(c == '+'); }
        else if n == 44 { assert(c == ','); } else if n == 45 { assert(c == '-'); }
        else if n == 46 { assert(c == '.'); } else if n == 47 { assert(c == '/'); }
        else if n == 48 { assert(c == '0'); } else if n == 49 { assert(c == '1'); }
        else if n == 50 { assert(c == '2'); } else if n == 51 { assert(c == '3'); }
        else if n == 52 { assert(c == '4'); } else if n == 53 { assert(c == '5'); }
        else if n == 54 { assert(c == '6'); } else if n == 55 { assert(c == '7'); }
        else if n == 56 { assert(c == '8'); } else if n == 57 { assert(c == '9'); }
        else if n == 58 { assert(c == ':'); } else if n == 59 { assert(c == ';'); }
        else if n == 60 { assert(c == '<'); } else if n == 61 { assert(c == '='); }
        else if n == 62 { assert(c == '>'); } else if n == 63 { assert(c == '?'); }
        else if n == 64 { assert(c == '@'); } else if n == 65 { assert(c == 'A'); }
        else if n == 66 { assert(c == 'B'); } else if n == 67 { assert(c == 'C'); }
        else if n == 68 { assert(c == 'D'); } else if n == 69 { assert(c == 'E'); }
        else if n == 70 { assert(c == 'F'); } else if n == 71 { assert(c == 'G'); }
        else if n == 72 { assert(c == 'H'); } else if n == 73 { assert(c == 'I'); }
        else if n == 74 { assert(c == 'J'); } else if n == 75 { assert(c == 'K'); }
        else if n == 76 { assert(c == 'L'); } else if n == 77 { assert(c == 'M'); }
        else if n == 78 { assert(c == 'N'); } else if n == 79 { assert(c == 'O'); }
        else if n == 80 { assert(c == 'P'); } else if n == 81 { assert(c == 'Q'); }
        else if n == 82 { assert(c == 'R'); } else if n == 83 { assert(c == 'S'); }
        else if n == 84 { assert(c == 'T'); } else if n == 85 { assert(c == 'U'); }
        else if n == 86 { assert(c == 'V'); } else if n == 87 { assert(c == 'W'); }
        else if n == 88 { assert(c == 'X'); } else if n == 89 { assert(c == 'Y'); }
        else if n == 90 { assert(c == 'Z'); } else if n == 91 { assert(c == '['); }
        else if n == 92 { assert(c == '\\'); } else if n == 93 { assert(c == ']'); }
        else if n == 94 { assert(c == '^'); } else if n == 95 { assert(c == '_'); }
        else if n == 96 { assert(c == '`'); } else if n == 97 { assert(c == 'a'); }
        else if n == 98 { assert(c == 'b'); } else if n == 99 { assert(c == 'c'); }
        else if n == 100 { assert(c == 'd'); } else if n == 101 { assert(c == 'e'); }
        else if n == 102 { assert(c == 'f'); } else if n == 103 { assert(c == 'g'); }
        else if n == 104 { assert(c == 'h'); } else if n == 105 { assert(c == 'i'); }
        else if n == 106 { assert(c == 'j'); } else if n == 107 { assert(c == 'k'); }
        else if n == 108 { assert(c == 'l'); } else if n == 109 { assert(c == 'm'); }
        else if n == 110 { assert(c == 'n'); } else if n == 111 { assert(c == 'o'); }
        else if n == 112 { assert(c == 'p'); } else if n == 113 { assert(c == 'q'); }
        else if n == 114 { assert(c == 'r'); } else if n == 115 { assert(c == 's'); }
        else if n == 116 { assert(c == 't'); } else if n == 117 { assert(c == 'u'); }
        else if n == 118 { assert(c == 'v'); } else if n == 119 { assert(c == 'w'); }
        else if n == 120 { assert(c == 'x'); } else if n == 121 { assert(c == 'y'); }
        else if n == 122 { assert(c == 'z'); } else if n == 123 { assert(c == '{'); }
        else if n == 124 { assert(c == '|'); } else if n == 125 { assert(c == '}'); }
        else { assert(c == '~'); }
    }
}

/// Letters, digits, the space, the tab and the line break sit on the same keys on both
/// layouts: a Norwegian run types them with exactly the key events of a US run.
pub proof fn lemma_layouts_agree_on_alphanumerics(c: char)
    requires
        ('a' <= c <= 'z') || ('A' <= c <= 'Z') || ('0' <= c <= '9') || c == ' ' || c == '\n'
            || c == '\t',
    ensures
        us_key(c) matches Some((code, shifted)) && norwegian_key(c) == Some((code, shifted, false)),
        layout_events(c, KeyboardLayout::Norwegian) == layout_events(c, KeyboardLayout::Us),
{
    let n = c as u32;
    assert(us_key(c) matches Some((code, shifted)) && norwegian_key(c) == Some((code, shifted, false))) by {
        if n == 10 { assert(c == '\n'); } else if n == 9 { assert(c == '\t'); }
        else if n == 32 { assert(c == ' '); } else if n == 48 { assert(c == '0'); }
        else if n == 49 { assert(c == '1'); } else if n == 50 { assert(c == '2'); }
        else if n == 51 { assert(c == '3'); } else if n == 52 { assert(c == '4'); }
        else if n == 53 { assert(c == '5'); } else if n == 54 { assert(c == '6'); }
        else if n == 55 { assert(c == '7'); } else if n == 56 { assert(c == '8'); }
        else if n == 57 { assert(c == '9'); } else if n == 65 { assert(c == 'A'); }
        else if n == 66 { assert(c == 'B'); } else if n == 67 { assert(c == 'C'); }
        else if n == 68 { assert(c == 'D'); } else if n == 69 { assert(c == 'E'); }
        else if n == 70 { assert(c == 'F'); } else if n == 71 { assert(c == 'G'); }
        else if n == 72 { assert(c == 'H'); } else if n == 73 { assert(c == 'I'); }
        else if n == 74 { assert(c == 'J'); } else if n == 75 { assert(c == 'K'); }
        else if n == 76 { assert(c == 'L'); } else if n == 77 { assert(c == 'M'); }
        else if n == 78 { assert(c == 'N'); } else if n == 79 { assert(c == 'O'); }
        else if n == 80 { assert(c == 'P'); } else if n == 81 { assert(c == 'Q'); }
        else if n == 82 { assert(c == 'R'); } else if n == 83 { assert(c == 'S'); }
        else if n == 84 { assert(c == 'T'); } else if n == 85 { assert(c == 'U'); }
        else if n == 86 { assert(c == 'V'); } else if n == 87 { assert(c == 'W'); }
        else if n == 88 { assert(c == 'X'); } else if n == 89 { assert(c == 'Y'); }
        else if n == 90 { assert(c == 'Z'); } else if n == 97 { assert(c == 'a'); }
        else if n == 98 { assert(c == 'b'); } else if n == 99 { assert(c == 'c'); }
        else if n == 100 { assert(c == 'd'); } else if n == 101 { assert(c == 'e'); }
        else if n == 102 { assert(c == 'f'); } else if n == 103 { assert(c == 'g'); }
        else if n == 104 { assert(c == 'h'); } else if n == 105 { assert(c == 'i'); }
        else if n == 106 { assert(c == 'j'); } else if n == 107 { assert(c == 'k'); }
        else if n == 108 { assert(c == 'l'); } else if n == 109 { assert(c == 'm'); }
        else if n == 110 { assert(c == 'n'); } else if n == 111 { assert(c == 'o'); }
        else if n == 112 { assert(c == 'p'); } else if n == 113 { assert(c == 'q'); }
        else if n == 114 { assert(c == 'r'); } else if n == 115 { assert(c == 's'); }
        else if n == 116 { assert(c == 't'); } else if n == 117 { assert(c == 'u'); }
        else if n == 118 { assert(c == 'v'); } else if n == 119 { assert(c == 'w'); }
        else if n == 120 { assert(c == 'x'); } else if n == 121 { assert(c == 'y'); }
        else { assert(c == 'z'); }
    }
}

/// The keystrokes a run sends for a character are those of the layout the run was made
/// with: from the Norwegian table for a Norwegian run and the US table for a US run, as
/// key events, or `type` with the character where that table has no key for it.
pub proof fn lemma_send_uses_run_layout(run: TypingRun, index: usize, action: TypingAction)
    requires
        run.wf(),
        run.phase == (TypingPhase::CheckingCancel { index }),
        run.action_fits(TypingEvent::CancelChecked { cancelled: false }, action),
    ensures
        action matches TypingAction::Send(args) && ({
            let c = run.text@[index as int];
            let sent = arg_views(args@);
            match run.layout {
                KeyboardLayout::Norwegian => match norwegian_key(c) {
                    Some((code, shifted, altgr)) => sent == seq!["key"@] + key_args(
                        key_events(code, shifted, altgr),
                    ),
                    None => sent == seq!["type"@, seq![c]],
                },
                KeyboardLayout::Us => match us_key(c) {
                    Some((code, shifted)) => sent == seq!["key"@] + key_args(
                        key_events(code, shifted, false),
                    ),
                    None => sent == seq!["type"@, seq![c]],
                },
            }
        }),
{
}

} // verus!
