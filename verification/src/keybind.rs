use vstd::prelude::*;
use crate::text::{
    is_white_space,
    ascii_lower, ascii_upper, lemma_case_keeps_white_space, lemma_lower_upper_lower,
    lemma_trimmed_ends, lemma_lower_idempotent, lemma_trimmed_lower, chars_eq_str, all_white_space,
    lemma_lower_upper, lemma_trimmed_padded, lemma_trimmed_upper, chars_of, lower, lower_chars, owned, string_of, trim_chars, trimmed, upper,
    upper_chars,
};

verus! {

/// GDK's bit for the Shift modifier in a modifier state.
pub const SHIFT_BIT: u32 = 0x1;

/// GDK's bit for the Control modifier in a modifier state.
pub const CONTROL_BIT: u32 = 0x4;

/// GDK's bit for the Alt modifier in a modifier state.
pub const ALT_BIT: u32 = 0x8;

/// GDK's bit for the Super modifier in a modifier state.
pub const SUPER_BIT: u32 = 0x4000000;

/// All bits of the modifiers that take part in a keybind.
pub const SHORTCUT_BITS: u32 = 0x400000d;

/// The modifiers that take part in a keybind.
#[derive(Clone, Copy, Debug, PartialEq, Eq, Structural)]
pub struct ModifierSet {
    pub control: bool,
    pub alt: bool,
    pub shift: bool,
    pub super_key: bool,
}

/// One keybind modifier.
#[derive(Clone, Copy, Debug, PartialEq, Eq, Structural)]
pub enum Modifier {
    Control,
    Alt,
    Shift,
    Super,
}

/// A key with the modifiers held with it.
#[derive(Debug)]
pub struct Keybind {
    /// The key's normalised name.
    pub key: String,
    /// The modifiers held.
    pub modifiers: ModifierSet,
}

/// The empty modifier set.
pub open spec fn no_modifiers() -> ModifierSet {
    ModifierSet { control: false, alt: false, shift: false, super_key: false }
}

/// A modifier set with one more modifier in it.
pub open spec fn with_modifier(set: ModifierSet, m: Modifier) -> ModifierSet {
    match m {
        Modifier::Control => ModifierSet { control: true, ..set },
        Modifier::Alt => ModifierSet { alt: true, ..set },
        Modifier::Shift => ModifierSet { shift: true, ..set },
        Modifier::Super => ModifierSet { super_key: true, ..set },
    }
}

/// The modifier a lower-case name stands for: `ctrl` or `control`, `alt` or `option`,
/// `shift`, and `super`, `cmd`, `win` or `windows`.
pub open spec fn modifier_named(name: Seq<char>) -> Option<Modifier> {
    if name == "ctrl"@ || name == "control"@ {
        Some(Modifier::Control)
    } else if name == "alt"@ || name == "option"@ {
        Some(Modifier::Alt)
    } else if name == "shift"@ {
        Some(Modifier::Shift)
    } else if name == "super"@ || name == "cmd"@ || name == "win"@ || name == "windows"@ {
        Some(Modifier::Super)
    } else {
        None
    }
}

/// The modifiers named in `names`, read case-insensitively in order; the lower-cased first
/// name that is no modifier where there is one.
pub open spec fn collect_modifiers(names: Seq<Seq<char>>) -> Result<ModifierSet, Seq<char>>
    decreases names.len(),
{
    if names.len() == 0 {
        Ok(no_modifiers())
    } else {
        match collect_modifiers(names.drop_last()) {
            Err(unknown) => Err(unknown),
            Ok(set) => match modifier_named(lower(names.last())) {
                Some(m) => Ok(with_modifier(set, m)),
                None => Err(lower(names.last())),
            },
        }
    }
}

/// The pieces of `s` between occurrences of `sep`, as `str::split` gives them.
pub open spec fn split_on(s: Seq<char>, sep: char) -> Seq<Seq<char>>
    decreases s.len(),
{
    if s.len() == 0 {
        seq![Seq::empty()]
    } else {
        let init = split_on(s.drop_last(), sep);
        if s.last() == sep {
            init.push(Seq::empty())
        } else {
            init.update(init.len() - 1, init.last().push(s.last()))
        }
    }
}

/// A piece trimmed, or nothing where it is blank.
pub open spec fn nonblank(piece: Seq<char>) -> Option<Seq<char>> {
    if trimmed(piece).len() > 0 {
        Some(trimmed(piece))
    } else {
        None
    }
}

/// The parts of a keybind text: its pieces between `+` signs, trimmed, blank ones left out.
pub open spec fn keybind_parts(value: Seq<char>) -> Seq<Seq<char>> {
    split_on(value, '+').filter_map(keep_nonblank())
}

/// `nonblank` as a function value.
pub open spec fn keep_nonblank() -> spec_fn(Seq<char>) -> Option<Seq<char>> {
    |p: Seq<char>| nonblank(p)
}

/// A key name normalised: trimmed and upper case, with `esc`, `return` and `space` in any
/// case read as `ESCAPE`, `ENTER` and `SPACE`.
pub open spec fn normalized_key(key: Seq<char>) -> Seq<char> {
    let l = lower(trimmed(key));
    if l == "esc"@ || l == "escape"@ {
        "ESCAPE"@
    } else if l == "return"@ || l == "enter"@ {
        "ENTER"@
    } else if l == "space"@ {
        "SPACE"@
    } else {
        upper(l)
    }
}

/// The message for a missing keybind.
pub open spec fn missing_keybind_message() -> Seq<char> {
    "Set a start/stop keybind, for example F8 or Ctrl+Alt+S."@
}

/// The message for a word before the key that is no modifier.
pub open spec fn unknown_modifier_message(unknown: Seq<char>) -> Seq<char> {
    "Unknown keybind modifier: "@ + unknown + "."@
}

/// What a keybind text means: the normalised key and the modifiers, or why it means
/// nothing. The last part is the key and the parts before it are modifiers.
pub open spec fn parse_keybind_spec(value: Seq<char>) -> Result<(Seq<char>, ModifierSet), Seq<char>> {
    let parts = keybind_parts(value);
    if parts.len() == 0 {
        Err(missing_keybind_message())
    } else {
        match collect_modifiers(parts.drop_last()) {
            Err(unknown) => Err(unknown_modifier_message(unknown)),
            Ok(set) => {
                let key = normalized_key(parts.last());
                if key.len() == 0 {
                    Err(missing_keybind_message())
                } else {
                    Ok((key, set))
                }
            },
        }
    }
}

/// The shortcut modifiers held in a GDK modifier state.
pub open spec fn shortcut_set(state: u32) -> ModifierSet {
    ModifierSet {
        control: state & CONTROL_BIT != 0,
        alt: state & ALT_BIT != 0,
        shift: state & SHIFT_BIT != 0,
        super_key: state & SUPER_BIT != 0,
    }
}

/// Normalises a key name: trimmed and upper case, with `esc`/`escape`, `return`/`enter`
/// and `space` in any case spelled `ESCAPE`, `ENTER` and `SPACE`.
pub fn normalize_key_name(key: &str) -> (r: String)
    ensures
        r@ == normalized_key(key@),
{
    let all = chars_of(key);
    let t = trim_chars(&all);
    let l = lower_chars(&t);
    if chars_eq_str(&l, "esc") || chars_eq_str(&l, "escape") {
        owned("ESCAPE")
    } else if chars_eq_str(&l, "return") || chars_eq_str(&l, "enter") {
        owned("ENTER")
    } else if chars_eq_str(&l, "space") {
        owned("SPACE")
    } else {
        string_of(&upper_chars(&l))
    }
}

/// The modifiers that take part in keybinds, out of a GDK modifier state.
pub fn shortcut_modifiers(state: u32) -> (r: ModifierSet)
    ensures
        r == shortcut_set(state),
{
    ModifierSet {
        control: state & CONTROL_BIT != 0,
        alt: state & ALT_BIT != 0,
        shift: state & SHIFT_BIT != 0,
        super_key: state & SUPER_BIT != 0,
    }
}

/// The modifier a lower-case name stands for.
fn modifier_from_name(name: &Vec<char>) -> (r: Option<Modifier>)
    ensures
        r == modifier_named(name@),
{
    if chars_eq_str(name, "ctrl") || chars_eq_str(name, "control") {
        Some(Modifier::Control)
    } else if chars_eq_str(name, "alt") || chars_eq_str(name, "option") {
        Some(Modifier::Alt)
    } else if chars_eq_str(name, "shift") {
        Some(Modifier::Shift)
    } else if chars_eq_str(name, "super") || chars_eq_str(name, "cmd") || chars_eq_str(name, "win")
        || chars_eq_str(name, "windows") {
        Some(Modifier::Super)
    } else {
        None
    }
}

fn add_modifier(set: ModifierSet, m: Modifier) -> (r: ModifierSet)
    ensures
        r == with_modifier(set, m),
{
    match m {
        Modifier::Control => ModifierSet { control: true, ..set },
        Modifier::Alt => ModifierSet { alt: true, ..set },
        Modifier::Shift => ModifierSet { shift: true, ..set },
        Modifier::Super => ModifierSet { super_key: true, ..set },
    }
}

/// The character sequences of a list of character vectors.
pub open spec fn piece_views(v: Seq<Vec<char>>) -> Seq<Seq<char>> {
    v.map_values(|p: Vec<char>| p@)
}

/// The parts of a keybind text: pieces between `+` signs, trimmed, blank ones left out.
fn split_keybind(value: &str) -> (parts: Vec<Vec<char>>)
    ensures
        piece_views(parts@) == keybind_parts(value@),
{
    let chars = chars_of(value);
    let n = chars.len();
    let mut parts: Vec<Vec<char>> = Vec::new();
    let mut cur: Vec<char> = Vec::new();
    let mut i: usize = 0;
    let ghost f = keep_nonblank();
    while i < n
        invariant
            n == chars.len(),
            chars@ == value@,
            i <= n,
            f == keep_nonblank(),
            split_on(chars@.take(i as int), '+').len() > 0,
            split_on(chars@.take(i as int), '+').last() == cur@,
            piece_views(parts@) == split_on(chars@.take(i as int), '+').drop_last().filter_map(f),
        decreases n - i,
    {
        let c = chars[i];
        let ghost before = split_on(chars@.take(i as int), '+');
        assert(chars@.take(i as int + 1).drop_last() =~= chars@.take(i as int));
        if c == '+' {
            let t = trim_chars(&cur);
            proof {
                let after = split_on(chars@.take(i as int + 1), '+');
                assert(after == before.push(Seq::empty()));
                assert(after.drop_last() =~= before);
                assert(before =~= before.drop_last().push(before.last()));
                assert(before.filter_map(f) == before.drop_last().filter_map(f) + (match f(
                    before.last(),
                ) {
                    Some(s) => seq![s],
                    None => Seq::empty(),
                }));
            }
            if t.len() > 0 {
                parts.push(t);
            }
            proof {
                let after = split_on(chars@.take(i as int + 1), '+');
                assert(piece_views(parts@) =~= after.drop_last().filter_map(f));
            }
            cur = Vec::new();
        } else {
            cur.push(c);
            proof {
                let after = split_on(chars@.take(i as int + 1), '+');
                assert(after.drop_last() =~= before.drop_last());
            }
        }
        i = i + 1;
    }
    let t = trim_chars(&cur);
    let ghost all = split_on(chars@.take(n as int), '+');
    proof {
        assert(chars@.take(n as int) =~= chars@);
        assert(all =~= all.drop_last().push(all.last()));
    }
    if t.len() > 0 {
        parts.push(t);
    }
    assert(piece_views(parts@) =~= all.filter_map(f));
    parts
}

/// Reads a keybind text such as `F8` or `Ctrl+Alt+S`: the last `+`-separated part is the
/// key, the parts before it are modifiers, blank parts are skipped.
pub fn parse_keybind(value: &str) -> (r: Result<Keybind, String>)
    ensures
        match parse_keybind_spec(value@) {
            Ok((key, set)) => r is Ok && r->Ok_0.key@ == key && r->Ok_0.modifiers == set,
            Err(msg) => r is Err && r->Err_0@ == msg,
        },
{
    let parts = split_keybind(value);
    let ghost views = piece_views(parts@);
    if parts.len() == 0 {
        return Err(owned("Set a start/stop keybind, for example F8 or Ctrl+Alt+S."));
    }
    let last = parts.len() - 1;
    let mut set = ModifierSet { control: false, alt: false, shift: false, super_key: false };
    let mut i: usize = 0;
    while i < last
        invariant
            last == parts.len() - 1,
            views == piece_views(parts@),
            views == keybind_parts(value@),
            i <= last,
            collect_modifiers(views.take(i as int)) == Ok::<ModifierSet, Seq<char>>(set),
        decreases last - i,
    {
        let name = lower_chars(&parts[i]);
        let ghost upto = views.take(i as int + 1);
        assert(upto.drop_last() =~= views.take(i as int));
        assert(upto.last() == parts@[i as int]@);
        assert(lower(upto.last()) == name@);
        match modifier_from_name(&name) {
            Some(m) => {
                set = add_modifier(set, m);
                assert(collect_modifiers(upto) == Ok::<ModifierSet, Seq<char>>(set));
            },
            None => {
                let mut msg = owned("Unknown keybind modifier: ");
                msg.append(string_of(&name).as_str());
                msg.append(".");
                proof {
                    let mods = views.drop_last();
                    assert(collect_modifiers(upto) == Err::<ModifierSet, Seq<char>>(name@));
                    assert(mods.take(i as int + 1) =~= upto);
                    lemma_collect_modifiers_prefix_err(mods, i as int + 1);
                    assert(msg@ =~= unknown_modifier_message(name@));
                    assert(collect_modifiers(mods) == Err::<ModifierSet, Seq<char>>(name@));
                    assert(parse_keybind_spec(value@) == Err::<(Seq<char>, ModifierSet), Seq<char>>(msg@));
                }
                return Err(msg);
            },
        }
        i = i + 1;
    }
    assert(views.take(last as int) =~= views.drop_last());
    let key = normalize_key_name(string_of(&parts[last]).as_str());
    if key.as_str().is_empty() {
        return Err(owned("Set a start/stop keybind, for example F8 or Ctrl+Alt+S."));
    }
    Ok(Keybind { key, modifiers: set })
}

/// An error in the first `k` names is the error of all of them.
proof fn lemma_collect_modifiers_prefix_err(names: Seq<Seq<char>>, k: int)
    requires
        0 <= k <= names.len(),
        collect_modifiers(names.take(k)) is Err,
    ensures
        collect_modifiers(names) == collect_modifiers(names.take(k)),
    decreases names.len() - k,
{
    if k < names.len() {
        assert(names.take(k + 1).drop_last() =~= names.take(k));
        lemma_collect_modifiers_prefix_err(names, k + 1);
    } else {
        assert(names.take(k) =~= names);
    }
}

/// The result of matching a keybind text against a pressed key: the error of the text, or
/// whether the key's normalised name and the shortcut modifiers held are those of the text.
pub open spec fn keybind_match_spec(
    configured: Seq<char>,
    pressed_key: Seq<char>,
    pressed_state: u32,
) -> Result<bool, Seq<char>> {
    match parse_keybind_spec(configured) {
        Err(msg) => Err(msg),
        Ok((key, set)) => Ok(key == normalized_key(pressed_key) && set == shortcut_set(
            pressed_state,
        )),
    }
}

/// Whether a key press matches the configured keybind. The key is given by its GDK name,
/// where it has one, and the modifiers by the GDK modifier state's bits.
pub fn keybind_matches(
    configured: &str,
    pressed_key_name: Option<&str>,
    pressed_state: u32,
) -> (r: Result<bool, String>)
    ensures
        match keybind_match_spec(
            configured@,
            match pressed_key_name {
                Some(name) => name@,
                None => Seq::empty(),
            },
            pressed_state,
        ) {
            Ok(b) => r == Ok::<bool, String>(b),
            Err(msg) => r is Err && r->Err_0@ == msg,
        },
{
    let configured = parse_keybind(configured)?;
    let pressed = Keybind {
        key: normalize_key_name(
            match pressed_key_name {
                Some(name) => name,
                None => "",
            },
        ),
        modifiers: shortcut_modifiers(pressed_state),
    };
    proof {
        let e = "";
        reveal_strlit("");
        assert(e@ =~= Seq::<char>::empty());
    }
    Ok(configured.key == pressed.key && configured.modifiers == pressed.modifiers)
}

/// Normalising a key name twice is normalising it once, so a name read back from a
/// keybind compares equal to itself.
pub proof fn lemma_normalize_idempotent(key: Seq<char>)
    ensures
        normalized_key(normalized_key(key)) == normalized_key(key),
{
    reveal_strlit("ESCAPE");
    reveal_strlit("ENTER");
    reveal_strlit("SPACE");
    reveal_strlit("esc");
    reveal_strlit("escape");
    reveal_strlit("return");
    reveal_strlit("enter");
    reveal_strlit("space");
    let y = normalized_key(key);
    let l = lower(trimmed(key));
    if l == "esc"@ || l == "escape"@ {
        lemma_trimmed_ends(y);
        assert(lower(y) =~= "escape"@);
    } else if l == "return"@ || l == "enter"@ {
        lemma_trimmed_ends(y);
        assert(lower(y) =~= "enter"@);
    } else if l == "space"@ {
        lemma_trimmed_ends(y);
        assert(lower(y) =~= "space"@);
    } else {
        assert(y == upper(l));
        lemma_trimmed_ends(key);
        if y.len() > 0 {
            let t = trimmed(key);
            lemma_case_keeps_white_space(t[0]);
            lemma_case_keeps_white_space(ascii_lower(t[0]));
            lemma_case_keeps_white_space(t.last());
            lemma_case_keeps_white_space(ascii_lower(t.last()));
            assert(y[0] == ascii_upper(ascii_lower(t[0])));
            assert(y.last() == ascii_upper(ascii_lower(t.last())));
        }
        lemma_trimmed_ends(y);
        lemma_lower_upper_lower(trimmed(key));
        assert(lower(trimmed(y)) == l);
    }
}

/// Whether a keybind matches never depends on modifiers other than Control, Alt, Shift
/// and Super: clearing every other bit of the modifier state (Caps Lock, mouse buttons
/// and so on) gives the same answer.
pub proof fn lemma_match_ignores_other_modifiers(configured: Seq<char>, pressed_key: Seq<char>, state: u32)
    ensures
        keybind_match_spec(configured, pressed_key, state) == keybind_match_spec(
            configured,
            pressed_key,
            state & SHORTCUT_BITS,
        ),
{
    assert(shortcut_set(state) == shortcut_set(state & SHORTCUT_BITS)) by {
        assert(state & 0x4u32 == (state & 0x400000du32) & 0x4u32) by (bit_vector);
        assert(state & 0x8u32 == (state & 0x400000du32) & 0x8u32) by (bit_vector);
        assert(state & 0x1u32 == (state & 0x400000du32) & 0x1u32) by (bit_vector);
        assert(state & 0x4000000u32 == (state & 0x400000du32) & 0x4000000u32) by (bit_vector);
    }
}

/// Every piece lower-cased.
pub open spec fn lower_all(pieces: Seq<Seq<char>>) -> Seq<Seq<char>> {
    pieces.map_values(|p: Seq<char>| lower(p))
}

proof fn lemma_split_on_nonempty(s: Seq<char>, sep: char)
    ensures
        split_on(s, sep).len() > 0,
    decreases s.len(),
{
    if s.len() > 0 {
        lemma_split_on_nonempty(s.drop_last(), sep);
    }
}

proof fn lemma_split_lower(s: Seq<char>)
    ensures
        split_on(lower(s), '+') == lower_all(split_on(s, '+')),
    decreases s.len(),
{
    assert(lower(Seq::<char>::empty()) =~= Seq::<char>::empty());
    if s.len() == 0 {
        assert(lower(s) =~= s);
        assert(lower_all(split_on(s, '+')) =~= seq![Seq::<char>::empty()]);
    } else {
        let c = s.last();
        assert(lower(s).drop_last() =~= lower(s.drop_last()));
        assert(lower(s).last() == ascii_lower(c));
        lemma_split_lower(s.drop_last());
        lemma_split_on_nonempty(s.drop_last(), '+');
        let init = split_on(s.drop_last(), '+');
        if c == '+' {
            assert(ascii_lower(c) == '+');
            assert(split_on(lower(s), '+') == lower_all(init).push(Seq::empty()));
            assert(split_on(lower(s), '+') =~= lower_all(split_on(s, '+')));
        } else {
            assert(ascii_lower(c) != '+');
            assert(lower(init.last().push(c)) =~= lower(init.last()).push(ascii_lower(c)));
            assert(split_on(lower(s), '+') =~= lower_all(split_on(s, '+')));
        }
    }
}

proof fn lemma_parts_lower(pieces: Seq<Seq<char>>)
    ensures
        lower_all(pieces).filter_map(keep_nonblank()) == lower_all(
            pieces.filter_map(keep_nonblank()),
        ),
    decreases pieces.len(),
{
    if pieces.len() > 0 {
        let p = pieces.last();
        lemma_parts_lower(pieces.drop_last());
        assert(lower_all(pieces).drop_last() =~= lower_all(pieces.drop_last()));
        lemma_trimmed_lower(p);
        let rest = pieces.drop_last().filter_map(keep_nonblank());
        if trimmed(p).len() > 0 {
            assert(lower_all(rest + seq![trimmed(p)]) =~= lower_all(rest) + seq![lower(trimmed(p))]);
        }
    } else {
        assert(lower_all(pieces) =~= pieces);
    }
}

proof fn lemma_collect_lower(names: Seq<Seq<char>>)
    ensures
        collect_modifiers(lower_all(names)) == collect_modifiers(names),
    decreases names.len(),
{
    if names.len() > 0 {
        assert(lower_all(names).drop_last() =~= lower_all(names.drop_last()));
        lemma_collect_lower(names.drop_last());
        lemma_lower_idempotent(names.last());
    }
}

/// A key name reads the same in any ASCII case.
pub proof fn lemma_normalized_key_lower(key: Seq<char>)
    ensures
        normalized_key(lower(key)) == normalized_key(key),
{
    lemma_trimmed_lower(key);
    lemma_lower_idempotent(trimmed(key));
}

/// Keybind texts are read case-insensitively: a text and its lower-case form mean the
/// same keybind, or fail with the same message; and the pressed key's name is compared
/// case-insensitively too.
pub proof fn lemma_keybind_case_insensitive(value: Seq<char>, pressed_key: Seq<char>, state: u32)
    ensures
        parse_keybind_spec(lower(value)) == parse_keybind_spec(value),
        keybind_match_spec(lower(value), pressed_key, state) == keybind_match_spec(
            value,
            pressed_key,
            state,
        ),
        keybind_match_spec(value, lower(pressed_key), state) == keybind_match_spec(
            value,
            pressed_key,
            state,
        ),
{
    lemma_split_lower(value);
    lemma_parts_lower(split_on(value, '+'));
    let parts = keybind_parts(value);
    assert(keybind_parts(lower(value)) == lower_all(parts));
    if parts.len() > 0 {
        assert(lower_all(parts).drop_last() =~= lower_all(parts.drop_last()));
        lemma_collect_lower(parts.drop_last());
        lemma_normalized_key_lower(parts.last());
    }
    lemma_normalized_key_lower(pressed_key);
}

/// A key name reads the same upper-cased, and with white space around it.
pub proof fn lemma_normalized_key_upper_padded(key: Seq<char>, before: Seq<char>, after: Seq<char>)
    requires
        all_white_space(before),
        all_white_space(after),
    ensures
        normalized_key(upper(key)) == normalized_key(key),
        normalized_key(before + key + after) == normalized_key(key),
{
    lemma_trimmed_upper(key);
    lemma_lower_upper(trimmed(key));
    lemma_trimmed_padded(before, key, after);
}

/// A normalised key name holds no ASCII lower-case letter and no white space at either
/// end.
pub proof fn lemma_normalized_key_shape(key: Seq<char>)
    ensures
        forall|i: int|
            0 <= i < normalized_key(key).len() ==> !('a' <= #[trigger] normalized_key(key)[i] <= 'z'),
        normalized_key(key).len() > 0 ==> !is_white_space(normalized_key(key)[0])
            && !is_white_space(normalized_key(key).last()),
{
    reveal_strlit("ESCAPE");
    reveal_strlit("ENTER");
    reveal_strlit("SPACE");
    let y = normalized_key(key);
    lemma_normalize_idempotent(key);
    lemma_trimmed_ends(y);
    lemma_trimmed_ends(trimmed(y));
    let l = lower(trimmed(key));
    if y == upper(l) {
        assert forall|i: int| 0 <= i < y.len() implies !('a' <= #[trigger] y[i] <= 'z') by {
            let c = l[i];
            if 'a' <= c <= 'z' {
                assert(ascii_upper(c) == ((c as int) - 32) as char);
            }
        }
    }
    assert(trimmed(trimmed(y)) == trimmed(y));
}

/// Whether one of the names, read case-insensitively, stands for `m`.
pub open spec fn names_mention(names: Seq<Seq<char>>, m: Modifier) -> bool {
    exists|i: int| 0 <= i < names.len() && modifier_named(lower(#[trigger] names[i])) == Some(m)
}

/// The names are all modifiers, and the set they give holds exactly the modifiers they
/// mention.
proof fn lemma_collect_modifiers_sets(names: Seq<Seq<char>>)
    ensures
        collect_modifiers(names) is Ok <==> (forall|i: int|
            0 <= i < names.len() ==> modifier_named(lower(#[trigger] names[i])) is Some),
        collect_modifiers(names) matches Ok(set) ==> {
            &&& set.control == names_mention(names, Modifier::Control)
            &&& set.alt == names_mention(names, Modifier::Alt)
            &&& set.shift == names_mention(names, Modifier::Shift)
            &&& set.super_key == names_mention(names, Modifier::Super)
        },
    decreases names.len(),
{
    if names.len() > 0 {
        let init = names.drop_last();
        lemma_collect_modifiers_sets(init);
        assert forall|i: int| 0 <= i < init.len() implies init[i] == names[i] by {}
        let last = names.len() - 1;
        assert(names[last] == names.last());
        if collect_modifiers(init) is Ok && modifier_named(lower(names.last())) is Some {
            let m = modifier_named(lower(names.last()))->0;
            assert forall|mm: Modifier| #![auto] names_mention(names, mm) == (names_mention(init, mm) || m == mm) by {
                if names_mention(names, mm) {
                    let i = choose|i: int| 0 <= i < names.len() && modifier_named(lower(#[trigger] names[i])) == Some(mm);
                    if i < last {
                        assert(init[i] == names[i]);
                    }
                }
                if names_mention(init, mm) {
                    let i = choose|i: int| 0 <= i < init.len() && modifier_named(lower(#[trigger] init[i])) == Some(mm);
                    assert(names[i] == init[i]);
                }
            }
            assert(names_mention(names, Modifier::Control) == (names_mention(init, Modifier::Control) || m == Modifier::Control));
            assert(names_mention(names, Modifier::Alt) == (names_mention(init, Modifier::Alt) || m == Modifier::Alt));
            assert(names_mention(names, Modifier::Shift) == (names_mention(init, Modifier::Shift) || m == Modifier::Shift));
            assert(names_mention(names, Modifier::Super) == (names_mention(init, Modifier::Super) || m == Modifier::Super));
        }
        if collect_modifiers(init) is Err {
            let k = choose|k: int| 0 <= k < init.len() && !(modifier_named(lower(#[trigger] init[k])) is Some);
            assert(names[k] == init[k]);
        }
    } else {
        assert(!names_mention(names, Modifier::Control));
        assert(!names_mention(names, Modifier::Alt));
        assert(!names_mention(names, Modifier::Shift));
        assert(!names_mention(names, Modifier::Super));
    }
}

/// Two lists of names hold the same names, up to ASCII case, order and repeats.
pub open spec fn same_names(a: Seq<Seq<char>>, b: Seq<Seq<char>>) -> bool {
    &&& forall|i: int| 0 <= i < a.len() ==> exists|j: int| 0 <= j < b.len() && lower(#[trigger] a[i]) == lower(#[trigger] b[j])
    &&& forall|j: int| 0 <= j < b.len() ==> exists|i: int| 0 <= i < a.len() && lower(#[trigger] a[i]) == lower(#[trigger] b[j])
}

/// Where every modifier name is known, the modifiers read depend only on which names are
/// given: not on their order, their case or how often they are repeated.
pub proof fn lemma_modifiers_ignore_order(a: Seq<Seq<char>>, b: Seq<Seq<char>>)
    requires
        same_names(a, b),
        collect_modifiers(a) is Ok,
    ensures
        collect_modifiers(b) == collect_modifiers(a),
{
    lemma_collect_modifiers_sets(a);
    lemma_collect_modifiers_sets(b);
    assert forall|j: int| 0 <= j < b.len() implies modifier_named(lower(#[trigger] b[j])) is Some by {
        let i = choose|i: int| 0 <= i < a.len() && lower(#[trigger] a[i]) == lower(#[trigger] b[j]);
        assert(modifier_named(lower(a[i])) is Some);
    }
    assert forall|m: Modifier| #![auto] names_mention(a, m) == names_mention(b, m) by {
        if names_mention(a, m) {
            let i = choose|i: int| 0 <= i < a.len() && modifier_named(lower(#[trigger] a[i])) == Some(m);
            let j = choose|j: int| 0 <= j < b.len() && lower(#[trigger] a[i]) == lower(#[trigger] b[j]);
            assert(modifier_named(lower(b[j])) == Some(m));
        }
        if names_mention(b, m) {
            let j = choose|j: int| 0 <= j < b.len() && modifier_named(lower(#[trigger] b[j])) == Some(m);
            let i = choose|i: int| 0 <= i < a.len() && lower(#[trigger] a[i]) == lower(#[trigger] b[j]);
            assert(modifier_named(lower(a[i])) == Some(m));
        }
    }
    assert(names_mention(a, Modifier::Control) == names_mention(b, Modifier::Control));
    assert(names_mention(a, Modifier::Alt) == names_mention(b, Modifier::Alt));
    assert(names_mention(a, Modifier::Shift) == names_mention(b, Modifier::Shift));
    assert(names_mention(a, Modifier::Super) == names_mention(b, Modifier::Super));
}

proof fn lemma_filter_map_nonblank_trimmed(pieces: Seq<Seq<char>>)
    ensures
        forall|i: int|
            0 <= i < pieces.filter_map(keep_nonblank()).len() ==> {
                let p = #[trigger] pieces.filter_map(keep_nonblank())[i];
                &&& p.len() > 0
                &&& trimmed(p) == p
            },
    decreases pieces.len(),
{
    if pieces.len() > 0 {
        let rest = pieces.drop_last();
        lemma_filter_map_nonblank_trimmed(rest);
        let p = pieces.last();
        lemma_trimmed_ends(p);
        lemma_trimmed_ends(trimmed(p));
        let r = rest.filter_map(keep_nonblank());
        if trimmed(p).len() > 0 {
            let all = r + seq![trimmed(p)];
            assert forall|i: int| 0 <= i < all.len() implies {
                let q = #[trigger] all[i];
                &&& q.len() > 0
                &&& trimmed(q) == q
            } by {
                if i < r.len() {
                    assert(all[i] == r[i]);
                }
            }
        }
    }
}

/// White space around the parts of a keybind text does not matter: every part is
/// non-blank and already trimmed.
pub proof fn lemma_keybind_parts_trimmed(value: Seq<char>)
    ensures
        forall|i: int|
            0 <= i < keybind_parts(value).len() ==> (#[trigger] keybind_parts(value)[i]).len() > 0
                && trimmed(keybind_parts(value)[i]) == keybind_parts(value)[i],
{
    lemma_filter_map_nonblank_trimmed(split_on(value, '+'));
}

/// Two keybind texts with the same key and the same modifier names, up to case, order
/// and repeats, mean the same keybind where one of them means one.
pub proof fn lemma_parse_ignores_modifier_order(v1: Seq<char>, v2: Seq<char>)
    requires
        keybind_parts(v1).len() > 0,
        keybind_parts(v2).len() > 0,
        normalized_key(keybind_parts(v1).last()) == normalized_key(keybind_parts(v2).last()),
        same_names(keybind_parts(v1).drop_last(), keybind_parts(v2).drop_last()),
        parse_keybind_spec(v1) is Ok,
    ensures
        parse_keybind_spec(v2) == parse_keybind_spec(v1),
{
    lemma_modifiers_ignore_order(keybind_parts(v1).drop_last(), keybind_parts(v2).drop_last());
}

proof fn lemma_split_no_sep(s: Seq<char>)
    requires
        !s.contains('+'),
    ensures
        split_on(s, '+') == seq![s],
    decreases s.len(),
{
    if s.len() > 0 {
        assert(!s.drop_last().contains('+')) by {
            if s.drop_last().contains('+') {
                let k = choose|k: int| 0 <= k < s.drop_last().len() && s.drop_last()[k] == '+';
                assert(s[k] == '+');
            }
        }
        lemma_split_no_sep(s.drop_last());
        assert(s.last() != '+') by {
            assert(s[s.len() - 1] == s.last());
        }
        assert(s.drop_last().push(s.last()) =~= s);
    } else {
        assert(s =~= Seq::<char>::empty());
    }
}

proof fn lemma_split_two(a: Seq<char>, b: Seq<char>)
    requires
        !a.contains('+'),
        !b.contains('+'),
    ensures
        split_on(a + seq!['+'] + b, '+') == seq![a, b],
    decreases b.len(),
{
    if b.len() == 0 {
        lemma_split_no_sep(a);
        assert((a + seq!['+'] + b).drop_last() =~= a);
        assert((a + seq!['+'] + b).last() == '+');
        assert(b =~= Seq::<char>::empty());
        assert(seq![a].push(Seq::<char>::empty()) =~= seq![a, b]);
    } else {
        let s = a + seq!['+'] + b;
        assert(!b.drop_last().contains('+')) by {
            if b.drop_last().contains('+') {
                let k = choose|k: int| 0 <= k < b.drop_last().len() && b.drop_last()[k] == '+';
                assert(b[k] == '+');
            }
        }
        lemma_split_two(a, b.drop_last());
        assert(s.drop_last() =~= a + seq!['+'] + b.drop_last());
        assert(s.last() == b.last());
        assert(b.last() != '+') by {
            assert(b[b.len() - 1] == b.last());
        }
        assert(b.drop_last().push(b.last()) =~= b);
        assert(split_on(s, '+') =~= seq![a, b]);
    }
}

/// A keybind text of one modifier name and a key reads as that modifier and the key, for
/// every spelling the tool accepts in any ASCII case: `ctrl` and `control` for Control,
/// `alt` and `option` for Alt, `shift` for Shift, and `super`, `cmd`, `win` and `windows`
/// for Super; `key` is any non-blank key name without a `+`.
pub proof fn lemma_modifier_names(name: Seq<char>, key: Seq<char>)
    requires
        !key.contains('+'),
        trimmed(key).len() > 0,
    ensures
        (lower(name) == "ctrl"@ || lower(name) == "control"@) ==> parse_keybind_spec(
            name + seq!['+'] + key,
        ) == Ok::<(Seq<char>, ModifierSet), Seq<char>>(
            (
                normalized_key(key),
                ModifierSet { control: true, alt: false, shift: false, super_key: false },
            ),
        ),
        (lower(name) == "alt"@ || lower(name) == "option"@) ==> parse_keybind_spec(
            name + seq!['+'] + key,
        ) == Ok::<(Seq<char>, ModifierSet), Seq<char>>(
            (
                normalized_key(key),
                ModifierSet { control: false, alt: true, shift: false, super_key: false },
            ),
        ),
        lower(name) == "shift"@ ==> parse_keybind_spec(name + seq!['+'] + key) == Ok::<
            (Seq<char>, ModifierSet),
            Seq<char>,
        >(
            (
                normalized_key(key),
                ModifierSet { control: false, alt: false, shift: true, super_key: false },
            ),
        ),
        (lower(name) == "super"@ || lower(name) == "cmd"@ || lower(name) == "win"@ || lower(name)
            == "windows"@) ==> parse_keybind_spec(name + seq!['+'] + key) == Ok::<
            (Seq<char>, ModifierSet),
            Seq<char>,
        >(
            (
                normalized_key(key),
                ModifierSet { control: false, alt: false, shift: false, super_key: true },
            ),
        ),
{
    reveal_strlit("ctrl");
    reveal_strlit("control");
    reveal_strlit("alt");
    reveal_strlit("option");
    reveal_strlit("shift");
    reveal_strlit("super");
    reveal_strlit("cmd");
    reveal_strlit("win");
    reveal_strlit("windows");
    let l = lower(name);
    let known = l == "ctrl"@ || l == "control"@ || l == "alt"@ || l == "option"@ || l == "shift"@
        || l == "super"@ || l == "cmd"@ || l == "win"@ || l == "windows"@;
    if known {
        assert(forall|i: int| 0 <= i < l.len() ==> 'a' <= #[trigger] l[i] <= 'z');
        assert(!name.contains('+')) by {
            if name.contains('+') {
                let k = choose|k: int| 0 <= k < name.len() && name[k] == '+';
                assert(l[k] == ascii_lower(name[k]));
            }
        }
        assert(l.len() == name.len());
        assert(name.len() > 0);
        assert(!is_white_space(name[0])) by {
            assert(l[0] == ascii_lower(name[0]));
            lemma_case_keeps_white_space(name[0]);
        }
        assert(!is_white_space(name.last())) by {
            assert(l[name.len() - 1] == ascii_lower(name.last()));
            lemma_case_keeps_white_space(name.last());
        }
        lemma_trimmed_ends(name);
        lemma_trimmed_ends(key);
        lemma_trimmed_ends(trimmed(key));
        lemma_split_two(name, key);
        let pieces = seq![name, key];
        let f = keep_nonblank();
        assert(pieces.drop_last() =~= seq![name]);
        assert(pieces.last() == key);
        assert(seq![name].drop_last() =~= Seq::<Seq<char>>::empty());
        assert(seq![name].last() == name);
        assert(f(name) == Some(trimmed(name)));
        assert(f(key) == Some(trimmed(key)));
        assert(Seq::<Seq<char>>::empty().filter_map(f) =~= Seq::<Seq<char>>::empty());
        assert(seq![name].filter_map(f) =~= seq![trimmed(name)]);
        assert(pieces.filter_map(f) =~= seq![trimmed(name), trimmed(key)]);
        assert(keybind_parts(name + seq!['+'] + key) =~= seq![name, trimmed(key)]);
        let parts = seq![name, trimmed(key)];
        assert(parts.drop_last() =~= seq![name]);
        assert(seq![name].drop_last() =~= Seq::<Seq<char>>::empty());
        assert(seq![name].last() == name);
        assert(collect_modifiers(Seq::<Seq<char>>::empty()) == Ok::<ModifierSet, Seq<char>>(no_modifiers()));
        if l == "super"@ || l == "cmd"@ || l == "win"@ || l == "windows"@ {
            if l == "super"@ {
                assert(l[1] == 'u');
                assert("shift"@[1] == 'h');
            }
            assert(l != "shift"@);
            assert(modifier_named(l) == Some(Modifier::Super));
        }
        assert(normalized_key(trimmed(key)) == normalized_key(key));
        lemma_normalize_idempotent(key);
        lemma_normalized_key_shape(key);
        assert(normalized_key(key).len() > 0) by {
            let t = trimmed(key);
            assert(lower(t).len() == t.len());
            let lt = lower(t);
            if !(lt == "esc"@ || lt == "escape"@ || lt == "return"@ || lt == "enter"@ || lt == "space"@) {
                assert(upper(lt).len() == lt.len());
            }
            reveal_strlit("ESCAPE");
            reveal_strlit("ENTER");
            reveal_strlit("SPACE");
        }
    }
}

} // verus!
