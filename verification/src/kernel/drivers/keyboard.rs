//! PS/2 keyboard: scancode decoding (US QWERTY) and modifier tracking.

use vstd::prelude::*;

verus! {

/// The keyboard's state: the last scancode and the modifier keys.
pub struct KeyboardState {
    scancode: u8,
    shift_pressed: bool,
    ctrl_pressed: bool,
    alt_pressed: bool,
    num_lock: bool,
}

/// The keyboard's state as the contracts see it.
pub struct KeyboardView {
    pub scancode: u8,
    pub shift: bool,
    pub ctrl: bool,
    pub alt: bool,
    pub num_lock: bool,
}

impl View for KeyboardState {
    type V = KeyboardView;

    closed spec fn view(&self) -> KeyboardView {
        KeyboardView {
            scancode: self.scancode,
            shift: self.shift_pressed,
            ctrl: self.ctrl_pressed,
            alt: self.alt_pressed,
            num_lock: self.num_lock,
        }
    }
}

/// The state before any key.
pub open spec fn keyboard_initial() -> KeyboardView {
    KeyboardView { scancode: 0, shift: false, ctrl: false, alt: false, num_lock: false }
}

pub fn new() -> (k: KeyboardState)
    ensures
        k@ == keyboard_initial(),
{
    KeyboardState { scancode: 0, shift_pressed: false, ctrl_pressed: false, alt_pressed: false, num_lock: false }
}

#[derive(Debug, Clone, Copy, PartialEq, Eq, Structural)]
pub struct KeyEvent {
    pub character: char,
    pub scancode: u8,
    pub shift_pressed: bool,
    pub ctrl_pressed: bool,
    pub alt_pressed: bool,
    pub num_lock: bool,
}

/// A scancode's key, without the release bit.
pub open spec fn key_of(scancode: u8) -> u8 {
    (scancode & 0x7F) as u8
}

/// The scancode is a key release.
pub open spec fn is_release(scancode: u8) -> bool {
    scancode & 0x80 != 0
}

/// The modifier keys after `scancode`: a shift, control or alt key sets its
/// modifier while it is down.
pub open spec fn modifiers_after(k: KeyboardView, scancode: u8) -> KeyboardView {
    let key = key_of(scancode);
    if key == 0x2A || key == 0x36 {
        KeyboardView { shift: !is_release(scancode), ..k }
    } else if key == 0x1D {
        KeyboardView { ctrl: !is_release(scancode), ..k }
    } else if key == 0x38 {
        KeyboardView { alt: !is_release(scancode), ..k }
    } else {
        k
    }
}

/// The character of a pressed key on a US QWERTY layout.
pub open spec fn scancode_char(scancode: u8, shift_pressed: bool, num_lock: bool) -> Option<char> {
    if scancode == 0x01 {
        Some('\u{001B}')
    } else if scancode == 0x02 {
        Some(if shift_pressed { '!' } else { '1' })
    } else if scancode == 0x03 {
        Some(if shift_pressed { '@' } else { '2' })
    } else if scancode == 0x04 {
        Some(if shift_pressed { '#' } else { '3' })
    } else if scancode == 0x05 {
        Some(if shift_pressed { '$' } else { '4' })
    } else if scancode == 0x06 {
        Some(if shift_pressed { '%' } else { '5' })
    } else if scancode == 0x07 {
        Some(if shift_pressed { '^' } else { '6' })
    } else if scancode == 0x08 {
        Some(if shift_pressed { '&' } else { '7' })
    } else if scancode == 0x09 {
        Some(if shift_pressed { '*' } else { '8' })
    } else if scancode == 0x0A {
        Some(if shift_pressed { '(' } else { '9' })
    } else if scancode == 0x0B {
        Some(if shift_pressed { ')' } else { '0' })
    } else if scancode == 0x0C {
        Some(if shift_pressed { '_' } else { '-' })
    } else if scancode == 0x0D {
        Some(if shift_pressed { '+' } else { '=' })
    } else if scancode == 0x0E {
        Some('\u{0008}')
    } else if scancode == 0x0F {
        Some('\t')
    } else if scancode == 0x10 {
        Some(if shift_pressed { 'Q' } else { 'q' })
    } else if scancode == 0x11 {
        Some(if shift_pressed { 'W' } else { 'w' })
    } else if scancode == 0x12 {
        Some(if shift_pressed { 'E' } else { 'e' })
    } else if scancode == 0x13 {
        Some(if shift_pressed { 'R' } else { 'r' })
    } else if scancode == 0x14 {
        Some(if shift_pressed { 'T' } else { 't' })
    } else if scancode == 0x15 {
        Some(if shift_pressed { 'Y' } else { 'y' })
    } else if scancode == 0x16 {
        Some(if shift_pressed { 'U' } else { 'u' })
    } else if scancode == 0x17 {
        Some(if shift_pressed { 'I' } else { 'i' })
    } else if scancode == 0x18 {
        Some(if shift_pressed { 'O' } else { 'o' })
    } else if scancode == 0x19 {
        Some(if shift_pressed { 'P' } else { 'p' })
    } else if scancode == 0x1A {
        Some(if shift_pressed { '{' } else { '[' })
    } else if scancode == 0x1B {
        Some(if shift_pressed { '}' } else { ']' })
    } else if scancode == 0x1C {
        Some('\n')
    } else if scancode == 0x1E {
        Some(if shift_pressed { 'A' } else { 'a' })
    } else if scancode == 0x1F {
        Some(if shift_pressed { 'S' } else { 's' })
    } else if scancode == 0x20 {
        Some(if shift_pressed { 'D' } else { 'd' })
    } else if scancode == 0x21 {
        Some(if shift_pressed { 'F' } else { 'f' })
    } else if scancode == 0x22 {
        Some(if shift_pressed { 'G' } else { 'g' })
    } else if scancode == 0x23 {
        Some(if shift_pressed { 'H' } else { 'h' })
    } else if scancode == 0x24 {
        Some(if shift_pressed { 'J' } else { 'j' })
    } else if scancode == 0x25 {
        Some(if shift_pressed { 'K' } else { 'k' })
    } else if scancode == 0x26 {
        Some(if shift_pressed { 'L' } else { 'l' })
    } else if scancode == 0x27 {
        Some(if shift_pressed { ':' } else { ';' })
    } else if scancode == 0x28 {
        Some(if shift_pressed { '"' } else { '\'' })
    } else if scancode == 0x29 {
        Some(if shift_pressed { '~' } else { '`' })
    } else if scancode == 0x2B {
        Some(if shift_pressed { '|' } else { '\\' })
    } else if scancode == 0x2C {
        Some(if shift_pressed { 'Z' } else { 'z' })
    } else if scancode == 0x2D {
        Some(if shift_pressed { 'X' } else { 'x' })
    } else if scancode == 0x2E {
        Some(if shift_pressed { 'C' } else { 'c' })
    } else if scancode == 0x2F {
        Some(if shift_pressed { 'V' } else { 'v' })
    } else if scancode == 0x30 {
        Some(if shift_pressed { 'B' } else { 'b' })
    } else if scancode == 0x31 {
        Some(if shift_pressed { 'N' } else { 'n' })
    } else if scancode == 0x32 {
        Some(if shift_pressed { 'M' } else { 'm' })
    } else if scancode == 0x33 {
        Some(if shift_pressed { '<' } else { ',' })
    } else if scancode == 0x34 {
        Some(if shift_pressed { '>' } else { '.' })
    } else if scancode == 0x35 {
        Some(if shift_pressed { '?' } else { '/' })
    } else if scancode == 0x39 {
        Some(' ')
    } else if scancode == 0x47 {
        Some(if num_lock { '7' } else { '7' })
    } else if scancode == 0x48 {
        Some(if num_lock { '8' } else { '8' })
    } else if scancode == 0x49 {
        Some(if num_lock { '9' } else { '9' })
    } else if scancode == 0x4A {
        Some(if shift_pressed { '-' } else { '-' })
    } else if scancode == 0x4B {
        Some(if num_lock { '4' } else { '4' })
    } else if scancode == 0x4C {
        Some(if num_lock { '5' } else { '5' })
    } else if scancode == 0x4D {
        Some(if num_lock { '6' } else { '6' })
    } else if scancode == 0x4E {
        Some(if shift_pressed { '+' } else { '+' })
    } else if scancode == 0x4F {
        Some(if num_lock { '1' } else { '1' })
    } else if scancode == 0x50 {
        Some(if num_lock { '2' } else { '2' })
    } else if scancode == 0x51 {
        Some(if num_lock { '3' } else { '3' })
    } else if scancode == 0x52 {
        Some(if num_lock { '0' } else { '0' })
    } else if scancode == 0x53 {
        Some(if num_lock { '.' } else { '.' })
    } else if scancode == 0x3A {
        Some(if shift_pressed { ':' } else { ';' })
    } else if scancode == 0x3B {
        Some(if shift_pressed { '+' } else { '=' })
    } else if scancode == 0x3C {
        Some(if shift_pressed { '<' } else { ',' })
    } else if scancode == 0x3D {
        Some(if shift_pressed { '-' } else { '-' })
    } else if scancode == 0x3E {
        Some(if shift_pressed { '>' } else { '.' })
    } else if scancode == 0x3F {
        Some(if shift_pressed { '?' } else { '/' })
    } else if scancode == 0x40 {
        Some(if shift_pressed { '@' } else { '\'' })
    } else if scancode == 0x41 {
        Some(if shift_pressed { '[' } else { '[' })
    } else if scancode == 0x42 {
        Some(if shift_pressed { ']' } else { ']' })
    } else if scancode == 0x43 {
        Some(if shift_pressed { '\\' } else { '\\' })
    } else {
        None
    }
}

/// The letter keys of a US QWERTY keyboard, row by row: the set-1
/// scancode of the row's leftmost key, then the row's letters from left
/// to right.
pub open spec fn qwerty_letter_rows() -> Seq<(u8, Seq<char>)> {
    seq![
        (0x10u8, seq!['q', 'w', 'e', 'r', 't', 'y', 'u', 'i', 'o', 'p']),
        (0x1Eu8, seq!['a', 's', 'd', 'f', 'g', 'h', 'j', 'k', 'l']),
        (0x2Cu8, seq!['z', 'x', 'c', 'v', 'b', 'n', 'm']),
    ]
}

/// The upper-case form of an ASCII lower-case letter.
pub open spec fn ascii_upper(c: char) -> char {
    ((c as int) - 32) as char
}

/// Each letter key types its letter of the QWERTY rows: the key `i`
/// places right of a row's leftmost key types the row's `i`-th letter,
/// and its upper-case form with shift.
pub proof fn lemma_letter_keys_follow_qwerty(row: int, i: int, num_lock: bool)
    requires
        0 <= row < qwerty_letter_rows().len(),
        0 <= i < qwerty_letter_rows()[row].1.len(),
    ensures
        ({
            let first = qwerty_letter_rows()[row].0;
            let letter = qwerty_letter_rows()[row].1[i];
            let s = (first + i) as u8;
            &&& typed_char(s, false, num_lock) == Some(letter)
            &&& typed_char(s, true, num_lock) == Some(ascii_upper(letter))
        }),
{
    let first = qwerty_letter_rows()[row].0;
    let s = (first + i) as u8;
    assert(s < 0x80);
    assert(s & 0x80 == 0) by (bit_vector)
        requires
            s < 0x80,
    ;
    if row == 0 {
        assert(i == 0 || i == 1 || i == 2 || i == 3 || i == 4 || i == 5 || i == 6 || i == 7 || i == 8 || i == 9);
    } else if row == 1 {
        assert(i == 0 || i == 1 || i == 2 || i == 3 || i == 4 || i == 5 || i == 6 || i == 7 || i == 8);
    } else if row == 2 {
        assert(i == 0 || i == 1 || i == 2 || i == 3 || i == 4 || i == 5 || i == 6);
    }
}

/// The number row of a US QWERTY keyboard from its leftmost digit key
/// (set-1 scancode 0x02): the digits it types, and what they type with
/// shift.
pub open spec fn qwerty_number_row() -> (Seq<char>, Seq<char>) {
    (
        seq!['1', '2', '3', '4', '5', '6', '7', '8', '9', '0'],
        seq!['!', '@', '#', '$', '%', '^', '&', '*', '(', ')'],
    )
}

/// The key `i` places right of the `1` key types the `i`-th digit of the
/// number row, and the `i`-th symbol above it with shift.
pub proof fn lemma_number_keys_follow_qwerty(i: int, num_lock: bool)
    requires
        0 <= i < 10,
    ensures
        typed_char((0x02 + i) as u8, false, num_lock) == Some(qwerty_number_row().0[i]),
        typed_char((0x02 + i) as u8, true, num_lock) == Some(qwerty_number_row().1[i]),
{
    let s = (0x02 + i) as u8;
    assert(s & 0x80 == 0) by (bit_vector)
        requires
            s < 0x80,
    ;
    assert(i == 0 || i == 1 || i == 2 || i == 3 || i == 4 || i == 5 || i == 6 || i == 7 || i == 8 || i == 9);
}

/// The scancode of the key that types a lower-case letter.
spec fn key_typing(c: char) -> u8 {
    if c == 'q' {
        0x10u8
    } else if c == 'w' {
        0x11u8
    } else if c == 'e' {
        0x12u8
    } else if c == 'r' {
        0x13u8
    } else if c == 't' {
        0x14u8
    } else if c == 'y' {
        0x15u8
    } else if c == 'u' {
        0x16u8
    } else if c == 'i' {
        0x17u8
    } else if c == 'o' {
        0x18u8
    } else if c == 'p' {
        0x19u8
    } else if c == 'a' {
        0x1Eu8
    } else if c == 's' {
        0x1Fu8
    } else if c == 'd' {
        0x20u8
    } else if c == 'f' {
        0x21u8
    } else if c == 'g' {
        0x22u8
    } else if c == 'h' {
        0x23u8
    } else if c == 'j' {
        0x24u8
    } else if c == 'k' {
        0x25u8
    } else if c == 'l' {
        0x26u8
    } else if c == 'z' {
        0x2Cu8
    } else if c == 'x' {
        0x2Du8
    } else if c == 'c' {
        0x2Eu8
    } else if c == 'v' {
        0x2Fu8
    } else if c == 'b' {
        0x30u8
    } else if c == 'n' {
        0x31u8
    } else if c == 'm' {
        0x32u8
    } else {
        0u8
    }
}

proof fn lemma_letter_from_key(s: u8, num_lock: bool)
    ensures
        match scancode_char(s, false, num_lock) {
            Some(c) => 'a' <= c <= 'z' ==> s == key_typing(c),
            None => true,
        },
{
}

/// No two keys type the same lower-case letter.
pub proof fn lemma_letter_keys_distinct(s1: u8, s2: u8, num_lock: bool)
    requires
        s1 != s2,
    ensures
        match scancode_char(s1, false, num_lock) {
            Some(c) => 'a' <= c <= 'z' ==> scancode_char(s2, false, num_lock) != Some(c),
            None => true,
        },
{
    lemma_letter_from_key(s1, num_lock);
    lemma_letter_from_key(s2, num_lock);
}

/// The character a scancode types: none for a release.
pub open spec fn typed_char(scancode: u8, shift_pressed: bool, num_lock: bool) -> Option<char> {
    if is_release(scancode) { None } else { scancode_char(scancode, shift_pressed, num_lock) }
}

impl KeyboardState {
    pub fn new() -> (k: Self)
        ensures
            k@ == keyboard_initial(),
    {
        KeyboardState { scancode: 0, shift_pressed: false, ctrl_pressed: false, alt_pressed: false, num_lock: false }
    }

    fn update_modifiers(&mut self, scancode: u8)
        ensures
            final(self)@ == modifiers_after(old(self)@, scancode),
    {
        let released = scancode & 0x80 != 0;
        let key = scancode & 0x7F;
        match key {
            0x2A | 0x36 => {
                self.shift_pressed = !released;
            },
            0x1D => {
                self.ctrl_pressed = !released;
            },
            0x38 => {
                self.alt_pressed = !released;
            },
            _ => {},
        }
    }
}

/// Map scancodes to ASCII characters (US QWERTY layout)
fn map_scancode(scancode: u8, shift_pressed: bool, num_lock: bool) -> (r: Option<char>)
    ensures
        r == typed_char(scancode, shift_pressed, num_lock),
{
    let released = scancode & 0x80 != 0;
    if released {
        return None;
    }
    match scancode {
        0x01 => Some('\u{001B}'),
        0x02 => Some(if shift_pressed { '!' } else { '1' }),
        0x03 => Some(if shift_pressed { '@' } else { '2' }),
        0x04 => Some(if shift_pressed { '#' } else { '3' }),
        0x05 => Some(if shift_pressed { '$' } else { '4' }),
        0x06 => Some(if shift_pressed { '%' } else { '5' }),
        0x07 => Some(if shift_pressed { '^' } else { '6' }),
        0x08 => Some(if shift_pressed { '&' } else { '7' }),
        0x09 => Some(if shift_pressed { '*' } else { '8' }),
        0x0A => Some(if shift_pressed { '(' } else { '9' }),
        0x0B => Some(if shift_pressed { ')' } else { '0' }),
        0x0C => Some(if shift_pressed { '_' } else { '-' }),
        0x0D => Some(if shift_pressed { '+' } else { '=' }),
        0x0E => Some('\u{0008}'),
        0x0F => Some('\t'),
        0x10 => Some(if shift_pressed { 'Q' } else { 'q' }),
        0x11 => Some(if shift_pressed { 'W' } else { 'w' }),
        0x12 => Some(if shift_pressed { 'E' } else { 'e' }),
        0x13 => Some(if shift_pressed { 'R' } else { 'r' }),
        0x14 => Some(if shift_pressed { 'T' } else { 't' }),
        0x15 => Some(if shift_pressed { 'Y' } else { 'y' }),
        0x16 => Some(if shift_pressed { 'U' } else { 'u' }),
        0x17 => Some(if shift_pressed { 'I' } else { 'i' }),
        0x18 => Some(if shift_pressed { 'O' } else { 'o' }),
        0x19 => Some(if shift_pressed { 'P' } else { 'p' }),
        0x1A => Some(if shift_pressed { '{' } else { '[' }),
        0x1B => Some(if shift_pressed { '}' } else { ']' }),
        0x1C => Some('\n'),
        0x1E => Some(if shift_pressed { 'A' } else { 'a' }),
        0x1F => Some(if shift_pressed { 'S' } else { 's' }),
        0x20 => Some(if shift_pressed { 'D' } else { 'd' }),
        0x21 => Some(if shift_pressed { 'F' } else { 'f' }),
        0x22 => Some(if shift_pressed { 'G' } else { 'g' }),
        0x23 => Some(if shift_pressed { 'H' } else { 'h' }),
        0x24 => Some(if shift_pressed { 'J' } else { 'j' }),
        0x25 => Some(if shift_pressed { 'K' } else { 'k' }),
        0x26 => Some(if shift_pressed { 'L' } else { 'l' }),
        0x27 => Some(if shift_pressed { ':' } else { ';' }),
        0x28 => Some(if shift_pressed { '"' } else { '\'' }),
        0x29 => Some(if shift_pressed { '~' } else { '`' }),
        0x2B => Some(if shift_pressed { '|' } else { '\\' }),
        0x2C => Some(if shift_pressed { 'Z' } else { 'z' }),
        0x2D => Some(if shift_pressed { 'X' } else { 'x' }),
        0x2E => Some(if shift_pressed { 'C' } else { 'c' }),
        0x2F => Some(if shift_pressed { 'V' } else { 'v' }),
        0x30 => Some(if shift_pressed { 'B' } else { 'b' }),
        0x31 => Some(if shift_pressed { 'N' } else { 'n' }),
        0x32 => Some(if shift_pressed { 'M' } else { 'm' }),
        0x33 => Some(if shift_pressed { '<' } else { ',' }),
        0x34 => Some(if shift_pressed { '>' } else { '.' }),
        0x35 => Some(if shift_pressed { '?' } else { '/' }),
        0x39 => Some(' '),
        0x47 => Some(if num_lock { '7' } else { '7' }),
        0x48 => Some(if num_lock { '8' } else { '8' }),
        0x49 => Some(if num_lock { '9' } else { '9' }),
        0x4A => Some(if shift_pressed { '-' } else { '-' }),
        0x4B => Some(if num_lock { '4' } else { '4' }),
        0x4C => Some(if num_lock { '5' } else { '5' }),
        0x4D => Some(if num_lock { '6' } else { '6' }),
        0x4E => Some(if shift_pressed { '+' } else { '+' }),
        0x4F => Some(if num_lock { '1' } else { '1' }),
        0x50 => Some(if num_lock { '2' } else { '2' }),
        0x51 => Some(if num_lock { '3' } else { '3' }),
        0x52 => Some(if num_lock { '0' } else { '0' }),
        0x53 => Some(if num_lock { '.' } else { '.' }),
        0x3A => Some(if shift_pressed { ':' } else { ';' }),
        0x3B => Some(if shift_pressed { '+' } else { '=' }),
        0x3C => Some(if shift_pressed { '<' } else { ',' }),
        0x3D => Some(if shift_pressed { '-' } else { '-' }),
        0x3E => Some(if shift_pressed { '>' } else { '.' }),
        0x3F => Some(if shift_pressed { '?' } else { '/' }),
        0x40 => Some(if shift_pressed { '@' } else { '\'' }),
        0x41 => Some(if shift_pressed { '[' } else { '[' }),
        0x42 => Some(if shift_pressed { ']' } else { ']' }),
        0x43 => Some(if shift_pressed { '\\' } else { '\\' }),
        _ => None,
    }
}

/// What the keyboard interrupt does with the scancode read from the port:
/// records it, updates the modifiers and yields the typed key, if any.
pub fn handle_scancode(state: &mut KeyboardState, scancode: u8) -> (r: Option<KeyEvent>)
    ensures
        final(state)@ == (KeyboardView { scancode, ..modifiers_after(old(state)@, scancode) }),
        match typed_char(scancode, final(state)@.shift, final(state)@.num_lock) {
            Some(c) => r == Some(KeyEvent {
                character: c,
                scancode,
                shift_pressed: final(state)@.shift,
                ctrl_pressed: final(state)@.ctrl,
                alt_pressed: final(state)@.alt,
                num_lock: final(state)@.num_lock,
            }),
            None => r is None,
        },
{
    state.scancode = scancode;
    state.update_modifiers(scancode);
    match map_scancode(scancode, state.shift_pressed, state.num_lock) {
        Some(key) => Some(KeyEvent {
            character: key,
            scancode,
            shift_pressed: state.shift_pressed,
            ctrl_pressed: state.ctrl_pressed,
            alt_pressed: state.alt_pressed,
            num_lock: state.num_lock,
        }),
        None => None,
    }
}

/// The last scancode received.
pub fn last_scancode(state: &KeyboardState) -> (r: u8)
    ensures
        r == state@.scancode,
{
    state.scancode
}

/// Whether the last scancode is the press of `scancode`.
pub fn is_key_pressed(state: &KeyboardState, scancode: u8) -> (r: bool)
    ensures
        r == (state@.scancode == scancode && state@.scancode & 0x80 == 0),
{
    state.scancode == scancode && state.scancode & 0x80 == 0
}

/// The shift, control and alt modifiers.
pub fn get_modifiers(state: &KeyboardState) -> (r: (bool, bool, bool))
    ensures
        r == (state@.shift, state@.ctrl, state@.alt),
{
    (state.shift_pressed, state.ctrl_pressed, state.alt_pressed)
}

} // verus!
