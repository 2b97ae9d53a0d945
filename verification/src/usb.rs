//! Typing text on the host as a USB keyboard with a German (QWERTZ) layout.
use vstd::prelude::*;

verus! {

/// No modifier key held.
pub const MODIFIER_NONE: u8 = 0x00;

/// Left Shift held.
pub const MODIFIER_SHIFT: u8 = 0x02;

/// AltGr (right Alt) held.
pub const MODIFIER_ALTGR: u8 = 0x40;

/// One key press as a boot-protocol keyboard reports it: the modifier keys held
/// and the usage code of the key.
#[derive(Debug, Clone, Copy, PartialEq, Eq, Structural)]
pub struct KeyStroke {
    pub modifier: u8,
    pub keycode: u8,
}

/// The key with no modifier.
pub open spec fn plain_key(keycode: u8) -> KeyStroke {
    KeyStroke { modifier: MODIFIER_NONE, keycode }
}

/// The key with Shift held.
pub open spec fn shifted_key(keycode: u8) -> KeyStroke {
    KeyStroke { modifier: MODIFIER_SHIFT, keycode }
}

/// The key with AltGr held.
pub open spec fn altgr_key(keycode: u8) -> KeyStroke {
    KeyStroke { modifier: MODIFIER_ALTGR, keycode }
}

/// The key that types a lower-case letter: the letters run in alphabetical
/// order from usage code 0x04, except that Y and Z swap places as on a German
/// keyboard.
pub open spec fn letter_keycode(lower: char) -> u8 {
    if lower == 'y' {
        0x1D
    } else if lower == 'z' {
        0x1C
    } else {
        (0x04 + (lower as u32 - 'a' as u32)) as u8
    }
}

/// The key press that types `c` on a German layout, or `None` for a character
/// the keyboard cannot type. Upper-case letters are their lower-case keys with
/// Shift; the digits 1 to 9 run from usage code 0x1E and 0 follows them.
/// The AltGr characters sit where a German keyboard has them; in particular
/// `@` is AltGr with the Q key (usage 0x14), not with N (0x11).
pub open spec fn keymap(c: char) -> Option<KeyStroke> {
    if 'a' as u32 <= c as u32 <= 'z' as u32 {
        Some(plain_key(letter_keycode(c)))
    } else if 'A' as u32 <= c as u32 <= 'Z' as u32 {
        Some(shifted_key(letter_keycode((c as u32 + 32) as char)))
    } else if '1' as u32 <= c as u32 <= '9' as u32 {
        Some(plain_key((0x1E + (c as u32 - '1' as u32)) as u8))
    } else {
        match c {
            '0' => Some(plain_key(0x27)),
            'ä' => Some(plain_key(0x34)),
            'Ä' => Some(shifted_key(0x34)),
            'ö' => Some(plain_key(0x33)),
            'Ö' => Some(shifted_key(0x33)),
            'ü' => Some(plain_key(0x2F)),
            'Ü' => Some(shifted_key(0x2F)),
            'ß' => Some(plain_key(0x2D)),
            ' ' => Some(plain_key(0x2C)),
            '\n' => Some(plain_key(0x28)),
            '\t' => Some(plain_key(0x2B)),
            '!' => Some(shifted_key(0x1E)),
            '"' => Some(shifted_key(0x1F)),
            '§' => Some(shifted_key(0x20)),
            '$' => Some(shifted_key(0x21)),
            '%' => Some(shifted_key(0x22)),
            '&' => Some(shifted_key(0x23)),
            '/' => Some(shifted_key(0x24)),
            '(' => Some(shifted_key(0x25)),
            ')' => Some(shifted_key(0x26)),
            '=' => Some(shifted_key(0x27)),
            '?' => Some(shifted_key(0x2D)),
            '-' => Some(plain_key(0x38)),
            '_' => Some(shifted_key(0x38)),
            '.' => Some(plain_key(0x37)),
            ',' => Some(plain_key(0x36)),
            ':' => Some(shifted_key(0x37)),
            ';' => Some(shifted_key(0x36)),
            '+' => Some(plain_key(0x30)),
            '*' => Some(shifted_key(0x30)),
            '#' => Some(plain_key(0x31)),
            '\'' => Some(shifted_key(0x31)),
            '\\' => Some(altgr_key(0x2D)),
            '@' => Some(altgr_key(0x14)),
            '€' => Some(altgr_key(0x08)),
            '~' => Some(altgr_key(0x30)),
            '{' => Some(altgr_key(0x24)),
            '[' => Some(altgr_key(0x25)),
            ']' => Some(altgr_key(0x26)),
            '}' => Some(altgr_key(0x27)),
            '|' => Some(altgr_key(0x64)),
            '<' => Some(plain_key(0x64)),
            '>' => Some(shifted_key(0x64)),
            _ => None,
        }
    }
}

fn normal(keycode: u8) -> (k: KeyStroke)
    ensures
        k == plain_key(keycode),
{
    KeyStroke { modifier: MODIFIER_NONE, keycode }
}

fn shift(keycode: u8) -> (k: KeyStroke)
    ensures
        k == shifted_key(keycode),
{
    KeyStroke { modifier: MODIFIER_SHIFT, keycode }
}

fn altgr(keycode: u8) -> (k: KeyStroke)
    ensures
        k == altgr_key(keycode),
{
    KeyStroke { modifier: MODIFIER_ALTGR, keycode }
}

/// The key press that types `c`, if the keyboard can type it.
pub fn key_for_char(c: char) -> (r: Option<KeyStroke>)
    ensures
        r == keymap(c),
{
    match c {
        'a' => Some(normal(0x04)),
        'b' => Some(normal(0x05)),
        'c' => Some(normal(0x06)),
        'd' => Some(normal(0x07)),
        'e' => Some(normal(0x08)),
        'f' => Some(normal(0x09)),
        'g' => Some(normal(0x0A)),
        'h' => Some(normal(0x0B)),
        'i' => Some(normal(0x0C)),
        'j' => Some(normal(0x0D)),
        'k' => Some(normal(0x0E)),
        'l' => Some(normal(0x0F)),
        'm' => Some(normal(0x10)),
        'n' => Some(normal(0x11)),
        'o' => Some(normal(0x12)),
        'p' => Some(normal(0x13)),
        'q' => Some(normal(0x14)),
        'r' => Some(normal(0x15)),
        's' => Some(normal(0x16)),
        't' => Some(normal(0x17)),
        'u' => Some(normal(0x18)),
        'v' => Some(normal(0x19)),
        'w' => Some(normal(0x1A)),
        'x' => Some(normal(0x1B)),
        'y' => Some(normal(0x1D)),
        'z' => Some(normal(0x1C)),
        'A' => Some(shift(0x04)),
        'B' => Some(shift(0x05)),
        'C' => Some(shift(0x06)),
        'D' => Some(shift(0x07)),
        'E' => Some(shift(0x08)),
        'F' => Some(shift(0x09)),
        'G' => Some(shift(0x0A)),
        'H' => Some(shift(0x0B)),
        'I' => Some(shift(0x0C)),
        'J' => Some(shift(0x0D)),
        'K' => Some(shift(0x0E)),
        'L' => Some(shift(0x0F)),
        'M' => Some(shift(0x10)),
        'N' => Some(shift(0x11)),
        'O' => Some(shift(0x12)),
        'P' => Some(shift(0x13)),
        'Q' => Some(shift(0x14)),
        'R' => Some(shift(0x15)),
        'S' => Some(shift(0x16)),
        'T' => Some(shift(0x17)),
        'U' => Some(shift(0x18)),
        'V' => Some(shift(0x19)),
        'W' => Some(shift(0x1A)),
        'X' => Some(shift(0x1B)),
        'Y' => Some(shift(0x1D)),
        'Z' => Some(shift(0x1C)),
        '1' => Some(normal(0x1E)),
        '2' => Some(normal(0x1F)),
        '3' => Some(normal(0x20)),
        '4' => Some(normal(0x21)),
        '5' => Some(normal(0x22)),
        '6' => Some(normal(0x23)),
        '7' => Some(normal(0x24)),
        '8' => Some(normal(0x25)),
        '9' => Some(normal(0x26)),
        '0' => Some(normal(0x27)),
        'ä' => Some(normal(0x34)),
        'Ä' => Some(shift(0x34)),
        'ö' => Some(normal(0x33)),
        'Ö' => Some(shift(0x33)),
        'ü' => Some(normal(0x2F)),
        'Ü' => Some(shift(0x2F)),
        'ß' => Some(normal(0x2D)),
        ' ' => Some(normal(0x2C)),
        '\n' => Some(normal(0x28)),
        '\t' => Some(normal(0x2B)),
        '!' => Some(shift(0x1E)),
        '"' => Some(shift(0x1F)),
        '§' => Some(shift(0x20)),
        '$' => Some(shift(0x21)),
        '%' => Some(shift(0x22)),
        '&' => Some(shift(0x23)),
        '/' => Some(shift(0x24)),
        '(' => Some(shift(0x25)),
        ')' => Some(shift(0x26)),
        '=' => Some(shift(0x27)),
        '?' => Some(shift(0x2D)),
        '-' => Some(normal(0x38)),
        '_' => Some(shift(0x38)),
        '.' => Some(normal(0x37)),
        ',' => Some(normal(0x36)),
        ':' => Some(shift(0x37)),
        ';' => Some(shift(0x36)),
        '+' => Some(normal(0x30)),
        '*' => Some(shift(0x30)),
        '#' => Some(normal(0x31)),
        '\'' => Some(shift(0x31)),
        '\\' => Some(altgr(0x2D)),
        '@' => Some(altgr(0x14)),
        '€' => Some(altgr(0x08)),
        '~' => Some(altgr(0x30)),
        '{' => Some(altgr(0x24)),
        '[' => Some(altgr(0x25)),
        ']' => Some(altgr(0x26)),
        '}' => Some(altgr(0x27)),
        '|' => Some(altgr(0x64)),
        '<' => Some(normal(0x64)),
        '>' => Some(shift(0x64)),
        _ => None,
    }
}

/// The German layout, key by key: every character the keyboard types, and the
/// key press that types it. `@` is AltGr with the Q key.
pub proof fn lemma_keymap_table()
    ensures
        keymap('a') == Some(plain_key(0x04)),
        keymap('b') == Some(plain_key(0x05)),
        keymap('c') == Some(plain_key(0x06)),
        keymap('d') == Some(plain_key(0x07)),
        keymap('e') == Some(plain_key(0x08)),
        keymap('f') == Some(plain_key(0x09)),
        keymap('g') == Some(plain_key(0x0A)),
        keymap('h') == Some(plain_key(0x0B)),
        keymap('i') == Some(plain_key(0x0C)),
        keymap('j') == Some(plain_key(0x0D)),
        keymap('k') == Some(plain_key(0x0E)),
        keymap('l') == Some(plain_key(0x0F)),
        keymap('m') == Some(plain_key(0x10)),
        keymap('n') == Some(plain_key(0x11)),
        keymap('o') == Some(plain_key(0x12)),
        keymap('p') == Some(plain_key(0x13)),
        keymap('q') == Some(plain_key(0x14)),
        keymap('r') == Some(plain_key(0x15)),
        keymap('s') == Some(plain_key(0x16)),
        keymap('t') == Some(plain_key(0x17)),
        keymap('u') == Some(plain_key(0x18)),
        keymap('v') == Some(plain_key(0x19)),
        keymap('w') == Some(plain_key(0x1A)),
        keymap('x') == Some(plain_key(0x1B)),
        keymap('y') == Some(plain_key(0x1D)),
        keymap('z') == Some(plain_key(0x1C)),
        keymap('A') == Some(shifted_key(0x04)),
        keymap('B') == Some(shifted_key(0x05)),
        keymap('C') == Some(shifted_key(0x06)),
        keymap('D') == Some(shifted_key(0x07)),
        keymap('E') == Some(shifted_key(0x08)),
        keymap('F') == Some(shifted_key(0x09)),
        keymap('G') == Some(shifted_key(0x0A)),
        keymap('H') == Some(shifted_key(0x0B)),
        keymap('I') == Some(shifted_key(0x0C)),
        keymap('J') == Some(shifted_key(0x0D)),
        keymap('K') == Some(shifted_key(0x0E)),
        keymap('L') == Some(shifted_key(0x0F)),
        keymap('M') == Some(shifted_key(0x10)),
        keymap('N') == Some(shifted_key(0x11)),
        keymap('O') == Some(shifted_key(0x12)),
        keymap('P') == Some(shifted_key(0x13)),
        keymap('Q') == Some(shifted_key(0x14)),
        keymap('R') == Some(shifted_key(0x15)),
        keymap('S') == Some(shifted_key(0x16)),
        keymap('T') == Some(shifted_key(0x17)),
        keymap('U') == Some(shifted_key(0x18)),
        keymap('V') == Some(shifted_key(0x19)),
        keymap('W') == Some(shifted_key(0x1A)),
        keymap('X') == Some(shifted_key(0x1B)),
        keymap('Y') == Some(shifted_key(0x1D)),
        keymap('Z') == Some(shifted_key(0x1C)),
        keymap('1') == Some(plain_key(0x1E)),
        keymap('2') == Some(plain_key(0x1F)),
        keymap('3') == Some(plain_key(0x20)),
        keymap('4') == Some(plain_key(0x21)),
        keymap('5') == Some(plain_key(0x22)),
        keymap('6') == Some(plain_key(0x23)),
        keymap('7') == Some(plain_key(0x24)),
        keymap('8') == Some(plain_key(0x25)),
        keymap('9') == Some(plain_key(0x26)),
        keymap('0') == Some(plain_key(0x27)),
        keymap('ä') == Some(plain_key(0x34)),
        keymap('Ä') == Some(shifted_key(0x34)),
        keymap('ö') == Some(plain_key(0x33)),
        keymap('Ö') == Some(shifted_key(0x33)),
        keymap('ü') == Some(plain_key(0x2F)),
        keymap('Ü') == Some(shifted_key(0x2F)),
        keymap('ß') == Some(plain_key(0x2D)),
        keymap(' ') == Some(plain_key(0x2C)),
        keymap('\n') == Some(plain_key(0x28)),
        keymap('\t') == Some(plain_key(0x2B)),
        keymap('!') == Some(shifted_key(0x1E)),
        keymap('"') == Some(shifted_key(0x1F)),
        keymap('§') == Some(shifted_key(0x20)),
        keymap('$') == Some(shifted_key(0x21)),
        keymap('%') == Some(shifted_key(0x22)),
        keymap('&') == Some(shifted_key(0x23)),
        keymap('/') == Some(shifted_key(0x24)),
        keymap('(') == Some(shifted_key(0x25)),
        keymap(')') == Some(shifted_key(0x26)),
        keymap('=') == Some(shifted_key(0x27)),
        keymap('?') == Some(shifted_key(0x2D)),
        keymap('-') == Some(plain_key(0x38)),
        keymap('_') == Some(shifted_key(0x38)),
        keymap('.') == Some(plain_key(0x37)),
        keymap(',') == Some(plain_key(0x36)),
        keymap(':') == Some(shifted_key(0x37)),
        keymap(';') == Some(shifted_key(0x36)),
        keymap('+') == Some(plain_key(0x30)),
        keymap('*') == Some(shifted_key(0x30)),
        keymap('#') == Some(plain_key(0x31)),
        keymap('\'') == Some(shifted_key(0x31)),
        keymap('\\') == Some(altgr_key(0x2D)),
        keymap('@') == Some(altgr_key(0x14)),
        keymap('€') == Some(altgr_key(0x08)),
        keymap('~') == Some(altgr_key(0x30)),
        keymap('{') == Some(altgr_key(0x24)),
        keymap('[') == Some(altgr_key(0x25)),
        keymap(']') == Some(altgr_key(0x26)),
        keymap('}') == Some(altgr_key(0x27)),
        keymap('|') == Some(altgr_key(0x64)),
        keymap('<') == Some(plain_key(0x64)),
        keymap('>') == Some(shifted_key(0x64)),
{
}

/// The keyboard types no character outside the German layout table above.
pub proof fn lemma_keymap_types_only_the_table(c: char)
    requires
        keymap(c) is Some,
    ensures
        c == 'a'
            || c == 'b'
            || c == 'c'
            || c == 'd'
            || c == 'e'
            || c == 'f'
            || c == 'g'
            || c == 'h'
            || c == 'i'
            || c == 'j'
            || c == 'k'
            || c == 'l'
            || c == 'm'
            || c == 'n'
            || c == 'o'
            || c == 'p'
            || c == 'q'
            || c == 'r'
            || c == 's'
            || c == 't'
            || c == 'u'
            || c == 'v'
            || c == 'w'
            || c == 'x'
            || c == 'y'
            || c == 'z'
            || c == 'A'
            || c == 'B'
            || c == 'C'
            || c == 'D'
            || c == 'E'
            || c == 'F'
            || c == 'G'
            || c == 'H'
            || c == 'I'
            || c == 'J'
            || c == 'K'
            || c == 'L'
            || c == 'M'
            || c == 'N'
            || c == 'O'
            || c == 'P'
            || c == 'Q'
            || c == 'R'
            || c == 'S'
            || c == 'T'
            || c == 'U'
            || c == 'V'
            || c == 'W'
            || c == 'X'
            || c == 'Y'
            || c == 'Z'
            || c == '1'
            || c == '2'
            || c == '3'
            || c == '4'
            || c == '5'
            || c == '6'
            || c == '7'
            || c == '8'
            || c == '9'
            || c == '0'
            || c == 'ä'
            || c == 'Ä'
            || c == 'ö'
            || c == 'Ö'
            || c == 'ü'
            || c == 'Ü'
            || c == 'ß'
            || c == ' '
            || c == '\n'
            || c == '\t'
            || c == '!'
            || c == '"'
            || c == '§'
            || c == '$'
            || c == '%'
            || c == '&'
            || c == '/'
            || c == '('
            || c == ')'
            || c == '='
            || c == '?'
            || c == '-'
            || c == '_'
            || c == '.'
            || c == ','
            || c == ':'
            || c == ';'
            || c == '+'
            || c == '*'
            || c == '#'
            || c == '\''
            || c == '\\'
            || c == '@'
            || c == '€'
            || c == '~'
            || c == '{'
            || c == '['
            || c == ']'
            || c == '}'
            || c == '|'
            || c == '<'
            || c == '>',
{
}

/// Every upper-case letter is typed with the key of its lower-case letter and
/// Shift.
pub proof fn lemma_capitals_are_shifted(lower: char)
    requires
        'a' as u32 <= lower as u32 <= 'z' as u32,
    ensures
        keymap(lower) matches Some(k) && keymap((lower as u32 - 32) as char) == Some(
            shifted_key(k.keycode),
        ),
{
    let upper = (lower as u32 - 32) as char;
    assert(upper as u32 == lower as u32 - 32);
    assert((upper as u32 + 32) as char == lower);
}

/// No two characters are typed with the same key press: what the keyboard
/// types determines the character.
pub proof fn lemma_keymap_is_unambiguous(c1: char, c2: char)
    requires
        keymap(c1) is Some,
        keymap(c1) == keymap(c2),
    ensures
        c1 == c2,
{
}

/// One report sent to the host: a key press, or the release of all keys.
#[derive(Debug, Clone, Copy, PartialEq, Eq, Structural)]
pub enum KeyReport {
    Press(KeyStroke),
    Release,
}

/// The reports that type `text`: each character is pressed and released, in
/// order, up to the first character the keyboard cannot type.
pub open spec fn typed_reports(text: Seq<char>) -> Seq<KeyReport>
    decreases text.len(),
{
    if text.len() == 0 {
        Seq::empty()
    } else {
        match keymap(text[0]) {
            Some(k) => seq![KeyReport::Press(k), KeyReport::Release] + typed_reports(
                text.drop_first(),
            ),
            None => Seq::empty(),
        }
    }
}

/// What typing a text sends, character by character: the reports come in
/// pairs, the `i`-th pair presses the key of the `i`-th character and then
/// releases it, every character before the last pair's end is typable, and the
/// reports stop exactly at the first character the keyboard cannot type.
pub proof fn lemma_typed_reports_press_and_release_each_character(text: Seq<char>)
    ensures
        typed_reports(text).len() % 2 == 0,
        typed_reports(text).len() / 2 <= text.len(),
        forall|i: int|
            0 <= i < typed_reports(text).len() / 2 ==> keymap(#[trigger] text[i]) is Some
                && typed_reports(text)[2 * i] == KeyReport::Press(keymap(text[i])->0)
                && typed_reports(text)[2 * i + 1] == KeyReport::Release,
        typed_reports(text).len() / 2 < text.len() ==> keymap(text[(typed_reports(text).len() / 2) as int])
            is None,
    decreases text.len(),
{
    if text.len() > 0 {
        if let Some(k) = keymap(text[0]) {
            let rest = text.drop_first();
            lemma_typed_reports_press_and_release_each_character(rest);
            let t = typed_reports(text);
            let r = typed_reports(rest);
            assert(t == seq![KeyReport::Press(k), KeyReport::Release] + r);
            assert forall|i: int| 0 <= i < t.len() / 2 implies keymap(#[trigger] text[i]) is Some
                && t[2 * i] == KeyReport::Press(keymap(text[i])->0) && t[2 * i + 1]
                == KeyReport::Release by {
                if i > 0 {
                    assert(text[i] == rest[i - 1]);
                    assert(t[2 * i] == r[2 * (i - 1)]);
                    assert(t[2 * i + 1] == r[2 * (i - 1) + 1]);
                }
            }
            if t.len() / 2 < text.len() {
                assert(text[(t.len() / 2) as int] == rest[(r.len() / 2) as int]);
            }
        }
    }
}

/// A text of typable characters is typed as one press and one release per
/// character, so it takes exactly twice as many reports as it has characters.
pub proof fn lemma_typable_text_takes_two_reports_per_character(text: Seq<char>)
    requires
        forall|i: int| 0 <= i < text.len() ==> #[trigger] keymap(text[i]) is Some,
    ensures
        typed_reports(text).len() == 2 * text.len(),
        forall|i: int|
            0 <= i < text.len() ==> typed_reports(text)[2 * i] == KeyReport::Press(
                keymap(#[trigger] text[i])->0,
            ) && typed_reports(text)[2 * i + 1] == KeyReport::Release,
{
    lemma_typed_reports_press_and_release_each_character(text);
    let n = (typed_reports(text).len() / 2) as int;
    if n < text.len() {
        assert(keymap(text[n]) is Some);
    }
}

/// `text` holds a character the keyboard cannot type.
pub open spec fn has_untypable(text: Seq<char>) -> bool {
    exists|i: int| 0 <= i < text.len() && #[trigger] keymap(text[i]) is None
}

/// The reports that type `text`, and whether typing stopped at a character
/// the keyboard cannot type.
pub fn text_reports(text: &str) -> (r: (Vec<KeyReport>, bool))
    ensures
        r.0@ == typed_reports(text@),
        r.1 == has_untypable(text@),
{
    let mut reports: Vec<KeyReport> = Vec::new();
    proof {
        assert(text@.skip(0) =~= text@);
        assert(reports@ + typed_reports(text@) =~= typed_reports(text@));
    }
    for c in it: text.chars()
        invariant
            it.seq() == text@,
            reports@ + typed_reports(text@.skip(it.index() as int)) == typed_reports(text@),
            forall|j: int| 0 <= j < it.index() ==> #[trigger] keymap(text@[j]) is Some,
    {
        let ghost i = it.index() as int;
        proof {
            assert(text@.skip(i)[0] == c);
            assert(text@.skip(i).drop_first() =~= text@.skip(i + 1));
        }
        match key_for_char(c) {
            Some(k) => {
                let ghost before = reports@;
                reports.push(KeyReport::Press(k));
                reports.push(KeyReport::Release);
                proof {
                    assert(reports@ =~= before + seq![KeyReport::Press(k), KeyReport::Release]);
                    assert(reports@ + typed_reports(text@.skip(i + 1)) =~= before + (seq![
                        KeyReport::Press(k),
                        KeyReport::Release,
                    ] + typed_reports(text@.skip(i + 1))));
                }
            },
            None => {
                proof {
                    assert(keymap(text@[i]) is None);
                    assert(reports@ =~= reports@ + typed_reports(text@.skip(i)));
                }
                return (reports, true);
            },
        }
    }
    proof {
        assert(text@.skip(text@.len() as int) =~= Seq::<char>::empty());
        assert(reports@ =~= reports@ + typed_reports(text@.skip(text@.len() as int)));
    }
    (reports, false)
}

/// The reports that enter a password: the password typed as far as the
/// keyboard can type it, then Enter pressed and released when all of it was
/// typed; and whether typing stopped at a character the keyboard cannot type.
pub fn password_reports(password: &str) -> (r: (Vec<KeyReport>, bool))
    ensures
        r.1 == has_untypable(password@),
        r.1 ==> r.0@ == typed_reports(password@),
        !r.1 ==> r.0@ == typed_reports(password@) + seq![
            KeyReport::Press(plain_key(0x28)),
            KeyReport::Release,
        ],
{
    let (mut reports, untypable) = text_reports(password);
    if !untypable {
        let ghost typed = reports@;
        reports.push(KeyReport::Press(normal(0x28)));
        reports.push(KeyReport::Release);
        proof {
            assert(reports@ =~= typed + seq![KeyReport::Press(plain_key(0x28)), KeyReport::Release]);
        }
    }
    (reports, untypable)
}

/// What the button task does after the button's falling edge.
#[derive(Debug, Clone, Copy, PartialEq, Eq, Structural)]
pub enum ButtonAction {
    /// Type the stored password into the host.
    TypePassword,
    /// Do nothing: the button no longer reads low.
    Ignore,
}

/// Decides what a falling edge of the button leads to: the password is typed
/// only while the button still reads low.
pub fn button_step(low: bool) -> (a: ButtonAction)
    ensures
        a == (if low {
            ButtonAction::TypePassword
        } else {
            ButtonAction::Ignore
        }),
{
    if low {
        ButtonAction::TypePassword
    } else {
        ButtonAction::Ignore
    }
}

/// An event that the USB stack reports to the device handler.
#[derive(Debug, Clone, Copy, PartialEq, Eq, Structural)]
pub enum HandlerEvent {
    Enabled(bool),
    Reset,
    Addressed(u8),
    Configured(bool),
}

/// Whether the device is configured after `event`, given whether it was before.
pub open spec fn configured_after(before: bool, event: HandlerEvent) -> bool {
    match event {
        HandlerEvent::Configured(configured) => configured,
        _ => false,
    }
}

/// Whether the device is configured after a new handler has seen `events`.
pub open spec fn configured_after_all(events: Seq<HandlerEvent>) -> bool
    decreases events.len(),
{
    if events.len() == 0 {
        false
    } else {
        configured_after(configured_after_all(events.drop_last()), events.last())
    }
}

/// Over any sequence of events, the device counts as configured exactly when
/// the last event configured it.
pub proof fn lemma_configured_only_by_last_event(events: Seq<HandlerEvent>)
    ensures
        configured_after_all(events) <==> (events.len() > 0 && events.last()
            == HandlerEvent::Configured(true)),
{
}

/// The state that the USB device handler keeps: whether the host has
/// configured the device.
pub struct MyDeviceHandler {
    configured: bool,
}

impl View for MyDeviceHandler {
    type V = bool;

    closed spec fn view(&self) -> bool {
        self.configured
    }
}

impl MyDeviceHandler {
    /// A handler for a device that is not configured yet.
    pub fn new() -> (h: Self)
        ensures
            !h@,
            h@ == configured_after_all(Seq::empty()),
    {
        MyDeviceHandler { configured: false }
    }

    /// The host enabled or disabled the device: it is no longer configured.
    pub fn enabled(&mut self, enabled: bool)
        ensures
            !final(self)@,
            final(self)@ == configured_after(old(self)@, HandlerEvent::Enabled(enabled)),
    {
        self.configured = false;
    }

    /// The bus was reset: the device is no longer configured.
    pub fn reset(&mut self)
        ensures
            !final(self)@,
            final(self)@ == configured_after(old(self)@, HandlerEvent::Reset),
    {
        self.configured = false;
    }

    /// The host gave the device an address: it is not configured yet.
    pub fn addressed(&mut self, addr: u8)
        ensures
            !final(self)@,
            final(self)@ == configured_after(old(self)@, HandlerEvent::Addressed(addr)),
    {
        self.configured = false;
    }

    /// The host configured or unconfigured the device.
    pub fn configured(&mut self, configured: bool)
        ensures
            final(self)@ == configured,
            final(self)@ == configured_after(old(self)@, HandlerEvent::Configured(configured)),
    {
        self.configured = configured;
    }

    /// Whether the host has configured the device.
    pub fn is_configured(&self) -> (r: bool)
        ensures
            r == self@,
    {
        self.configured
    }
}

} // verus!
