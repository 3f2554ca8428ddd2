//! Encoding of key presses and mouse reports into the byte sequences that a
//! program running in a PTY expects (xterm conventions).
use vstd::prelude::*;
use vstd::utf8::*;

verus! {

/// Modifier keys held during a key press.
#[derive(Clone, Copy, Debug, PartialEq, Eq)]
pub struct KeyModifiers {
    pub shift: bool,
    pub control: bool,
    pub alt: bool,
    pub super_key: bool,
    pub hyper: bool,
    pub meta: bool,
}

impl KeyModifiers {
    /// No modifier held.
    pub fn none() -> (m: Self)
        ensures
            !m.shift && !m.control && !m.alt && !m.super_key && !m.hyper && !m.meta,
    {
        KeyModifiers { shift: false, control: false, alt: false, super_key: false, hyper: false, meta: false }
    }

    /// Only the given ones of Shift, Control and Alt held.
    pub fn from_flags(shift: bool, control: bool, alt: bool) -> (m: Self)
        ensures
            m.shift == shift && m.control == control && m.alt == alt,
            !m.super_key && !m.hyper && !m.meta,
    {
        KeyModifiers { shift, control, alt, super_key: false, hyper: false, meta: false }
    }

    /// No modifier at all is held.
    pub fn is_empty(&self) -> (r: bool)
        ensures
            r == (!self.shift && !self.control && !self.alt && !self.super_key && !self.hyper
                && !self.meta),
    {
        !self.shift && !self.control && !self.alt && !self.super_key && !self.hyper && !self.meta
    }
}

/// The key of a key press.
#[derive(Clone, Copy, Debug, PartialEq, Eq)]
pub enum KeyCode {
    Char(char),
    Enter,
    Backspace,
    Tab,
    BackTab,
    Esc,
    Up,
    Down,
    Left,
    Right,
    Home,
    End,
    PageUp,
    PageDown,
    Delete,
    Insert,
    F(u8),
    /// Any other key (media keys, lock keys, ...).
    Other,
}

/// A key press.
#[derive(Clone, Copy, Debug, PartialEq, Eq)]
pub struct KeyInput {
    pub code: KeyCode,
    pub modifiers: KeyModifiers,
}

impl KeyInput {
    pub fn new(code: KeyCode, modifiers: KeyModifiers) -> (k: Self)
        ensures
            k.code == code && k.modifiers == modifiers,
    {
        KeyInput { code, modifiers }
    }
}

/// xterm modifier parameter: 1 + Shift + 2·Alt + 4·Control.
pub open spec fn spec_modifier_parameter(m: KeyModifiers) -> u8 {
    (1 + (if m.shift { 1int } else { 0 }) + (if m.alt { 2int } else { 0 }) + (if m.control {
        4int
    } else {
        0
    })) as u8
}

/// Shift, Alt and Control all released.
pub open spec fn no_encoding_modifier(m: KeyModifiers) -> bool {
    !m.shift && !m.alt && !m.control
}

/// Alt is the only one of Shift, Alt and Control held.
pub open spec fn alt_only(m: KeyModifiers) -> bool {
    !m.shift && m.alt && !m.control
}

/// Decimal digits of `n` in ASCII, most significant first.
pub open spec fn decimal(n: nat) -> Seq<u8>
    decreases n,
{
    if n < 10 {
        seq![(0x30 + n) as u8]
    } else {
        decimal(n / 10).push((0x30 + n % 10) as u8)
    }
}

pub open spec fn with_alt_prefix(m: KeyModifiers, bytes: Seq<u8>) -> Seq<u8> {
    if m.alt {
        seq![0x1bu8] + bytes
    } else {
        bytes
    }
}

/// A cursor key (`ESC [ final`), with the modifier parameter when needed.
pub open spec fn spec_csi_cursor_key(final_byte: u8, m: KeyModifiers) -> Seq<u8> {
    if no_encoding_modifier(m) {
        seq![0x1bu8, 0x5bu8, final_byte]
    } else if alt_only(m) {
        seq![0x1bu8, 0x1bu8, 0x5bu8, final_byte]
    } else {
        seq![0x1bu8, 0x5bu8, 0x31u8, 0x3bu8] + decimal(spec_modifier_parameter(m) as nat) + seq![
            final_byte,
        ]
    }
}

/// An editing key (`ESC [ code ~`), with the modifier parameter when needed.
pub open spec fn spec_csi_tilde_key(code: u8, m: KeyModifiers) -> Seq<u8> {
    if no_encoding_modifier(m) {
        seq![0x1bu8, 0x5bu8] + decimal(code as nat) + seq![0x7eu8]
    } else if alt_only(m) {
        seq![0x1bu8, 0x1bu8, 0x5bu8] + decimal(code as nat) + seq![0x7eu8]
    } else {
        seq![0x1bu8, 0x5bu8] + decimal(code as nat) + seq![0x3bu8] + decimal(
            spec_modifier_parameter(m) as nat,
        ) + seq![0x7eu8]
    }
}

/// The control byte that Control+`ch` sends.
pub open spec fn spec_control_byte(ch: char) -> u8 {
    if ch == '@' || ch == ' ' {
        0
    } else if 'a' <= ch <= 'z' {
        (ch as u32 - 'a' as u32 + 1) as u8
    } else if 'A' <= ch <= 'Z' {
        (ch as u32 - 'A' as u32 + 1) as u8
    } else if ch == '[' {
        27
    } else if ch == '\\' {
        28
    } else if ch == ']' {
        29
    } else if ch == '^' {
        30
    } else if ch == '_' {
        31
    } else if ch == '?' {
        127
    } else {
        ch as u8
    }
}

/// The bytes a key press sends to the PTY, if it sends any. Only Shift, Alt
/// and Control matter.
pub open spec fn spec_encode_key_event_bytes(key: KeyInput) -> Option<Seq<u8>> {
    let m = key.modifiers;
    match key.code {
        KeyCode::Char(ch) => Some(
            with_alt_prefix(
                m,
                if m.control {
                    seq![spec_control_byte(ch)]
                } else {
                    encode_utf8(seq![ch])
                },
            ),
        ),
        KeyCode::Enter => Some(with_alt_prefix(m, seq![0x0du8])),
        KeyCode::Backspace => Some(with_alt_prefix(m, seq![127u8])),
        KeyCode::Tab => Some(with_alt_prefix(m, seq![0x09u8])),
        KeyCode::Esc => Some(with_alt_prefix(m, seq![27u8])),
        KeyCode::Up => Some(spec_csi_cursor_key(0x41u8, m)),
        KeyCode::Down => Some(spec_csi_cursor_key(0x42u8, m)),
        KeyCode::Right => Some(spec_csi_cursor_key(0x43u8, m)),
        KeyCode::Left => Some(spec_csi_cursor_key(0x44u8, m)),
        KeyCode::Home => Some(spec_csi_cursor_key(0x48u8, m)),
        KeyCode::End => Some(spec_csi_cursor_key(0x46u8, m)),
        KeyCode::PageUp => Some(spec_csi_tilde_key(5, m)),
        KeyCode::PageDown => Some(spec_csi_tilde_key(6, m)),
        KeyCode::Delete => Some(spec_csi_tilde_key(3, m)),
        KeyCode::Insert => Some(spec_csi_tilde_key(2, m)),
        _ => None,
    }
}

fn modifier_parameter(modifiers: KeyModifiers) -> (param: u8)
    ensures
        param == spec_modifier_parameter(modifiers),
        1 <= param <= 8,
{
    let mut param: u8 = 1;
    if modifiers.shift {
        param = param + 1;
    }
    if modifiers.alt {
        param = param + 2;
    }
    if modifiers.control {
        param = param + 4;
    }
    param
}

/// Append the decimal digits of `n`.
fn push_decimal(out: &mut Vec<u8>, n: u16)
    ensures
        final(out)@ == old(out)@ + decimal(n as nat),
    decreases n,
{
    if n < 10 {
        out.push(0x30 + n as u8);
        assert(decimal(n as nat) == seq![(0x30 + n) as u8]);
    } else {
        push_decimal(out, n / 10);
        out.push(0x30 + (n % 10) as u8);
        assert(decimal(n as nat) == decimal((n / 10) as nat).push((0x30 + n % 10) as u8));
    }
}

/// `bytes` with an ESC in front.
pub fn prefix_with_escape(bytes: Vec<u8>) -> (prefixed: Vec<u8>)
    ensures
        prefixed@ == seq![0x1bu8] + bytes@,
{
    let mut prefixed: Vec<u8> = Vec::new();
    prefixed.push(0x1b);
    let mut k: usize = 0;
    while k < bytes.len()
        invariant
            k <= bytes@.len(),
            prefixed@ == seq![0x1bu8] + bytes@.subrange(0, k as int),
        decreases bytes.len() - k,
    {
        prefixed.push(bytes[k]);
        k += 1;
    }
    assert(bytes@.subrange(0, bytes@.len() as int) =~= bytes@);
    prefixed
}

fn alt_prefixed(m: KeyModifiers, bytes: Vec<u8>) -> (out: Vec<u8>)
    ensures
        out@ == with_alt_prefix(m, bytes@),
{
    if m.alt {
        prefix_with_escape(bytes)
    } else {
        bytes
    }
}

fn encode_csi_cursor_key(final_byte: u8, modifiers: KeyModifiers) -> (out: Vec<u8>)
    ensures
        out@ == spec_csi_cursor_key(final_byte, modifiers),
{
    let base = vec![0x1b, 0x5b, final_byte];
    if !modifiers.shift && !modifiers.alt && !modifiers.control {
        assert(base@ =~= seq![0x1bu8, 0x5bu8, final_byte]);
        return base;
    }
    if !modifiers.shift && modifiers.alt && !modifiers.control {
        let out = prefix_with_escape(base);
        assert(out@ =~= seq![0x1bu8, 0x1bu8, 0x5bu8, final_byte]);
        return out;
    }
    let mut out = vec![0x1b, 0x5b, 0x31, 0x3b];
    let ghost head = out@;
    push_decimal(&mut out, modifier_parameter(modifiers) as u16);
    out.push(final_byte);
    assert(out@ =~= seq![0x1bu8, 0x5bu8, 0x31u8, 0x3bu8] + decimal(
        spec_modifier_parameter(modifiers) as nat,
    ) + seq![final_byte]);
    out
}

fn encode_csi_tilde_key(code: u8, modifiers: KeyModifiers) -> (out: Vec<u8>)
    ensures
        out@ == spec_csi_tilde_key(code, modifiers),
{
    let mut body = vec![0x1b, 0x5b];
    push_decimal(&mut body, code as u16);
    if !modifiers.shift && !modifiers.alt && !modifiers.control {
        body.push(0x7e);
        assert(body@ =~= seq![0x1bu8, 0x5bu8] + decimal(code as nat) + seq![0x7eu8]);
        return body;
    }
    if !modifiers.shift && modifiers.alt && !modifiers.control {
        body.push(0x7e);
        let out = prefix_with_escape(body);
        assert(out@ =~= seq![0x1bu8, 0x1bu8, 0x5bu8] + decimal(code as nat) + seq![0x7eu8]);
        return out;
    }
    body.push(0x3b);
    push_decimal(&mut body, modifier_parameter(modifiers) as u16);
    body.push(0x7e);
    assert(body@ =~= seq![0x1bu8, 0x5bu8] + decimal(code as nat) + seq![0x3bu8] + decimal(
        spec_modifier_parameter(modifiers) as nat,
    ) + seq![0x7eu8]);
    body
}

/// The UTF-8 bytes of one character.
pub fn char_utf8_bytes(ch: char) -> (out: Vec<u8>)
    ensures
        out@ == encode_utf8(seq![ch]),
{
    let c = ch as u32;
    let mut out: Vec<u8> = Vec::new();
    if c <= 0x7f {
        out.push((c & 0x7f) as u8);
    } else if c <= 0x7ff {
        out.push(0xc0 | ((c >> 6) & 0x1f) as u8);
        out.push(0x80 | (c & 0x3f) as u8);
    } else if c <= 0xffff {
        out.push(0xe0 | ((c >> 12) & 0x0f) as u8);
        out.push(0x80 | ((c >> 6) & 0x3f) as u8);
        out.push(0x80 | (c & 0x3f) as u8);
    } else {
        out.push(0xf0 | ((c >> 18) & 0x7) as u8);
        out.push(0x80 | ((c >> 12) & 0x3f) as u8);
        out.push(0x80 | ((c >> 6) & 0x3f) as u8);
        out.push(0x80 | (c & 0x3f) as u8);
    }
    assert(seq![ch].drop_first() =~= Seq::<char>::empty());
    assert(encode_utf8(Seq::<char>::empty()) =~= Seq::<u8>::empty());
    assert(seq![ch][0] == ch);
    assert(encode_utf8(seq![ch]) =~= encode_scalar(c));
    assert(out@ =~= encode_scalar(c));
    out
}

fn control_byte(ch: char) -> (b: u8)
    ensures
        b == spec_control_byte(ch),
{
    if ch == '@' || ch == ' ' {
        0
    } else if 'a' <= ch && ch <= 'z' {
        (ch as u32 - 'a' as u32 + 1) as u8
    } else if 'A' <= ch && ch <= 'Z' {
        (ch as u32 - 'A' as u32 + 1) as u8
    } else if ch == '[' {
        27
    } else if ch == '\\' {
        28
    } else if ch == ']' {
        29
    } else if ch == '^' {
        30
    } else if ch == '_' {
        31
    } else if ch == '?' {
        127
    } else {
        ch as u8
    }
}

/// The bytes a key press sends to the PTY, or `None` for keys that send nothing.
pub fn encode_key_event_bytes(key: KeyInput) -> (r: Option<Vec<u8>>)
    ensures
        match r {
            Some(v) => spec_encode_key_event_bytes(key) == Some(v@),
            None => spec_encode_key_event_bytes(key) is None,
        },
{
    let modifiers = KeyModifiers::from_flags(key.modifiers.shift, key.modifiers.control, key.modifiers.alt);
    let bytes = match key.code {
        KeyCode::Char(ch) => {
            let out = if modifiers.control {
                vec![control_byte(ch)]
            } else {
                char_utf8_bytes(ch)
            };
            alt_prefixed(modifiers, out)
        },
        KeyCode::Enter => alt_prefixed(modifiers, vec![0x0d]),
        KeyCode::Backspace => alt_prefixed(modifiers, vec![127]),
        KeyCode::Tab => alt_prefixed(modifiers, vec![0x09]),
        KeyCode::Esc => alt_prefixed(modifiers, vec![27]),
        KeyCode::Up => encode_csi_cursor_key(0x41, modifiers),
        KeyCode::Down => encode_csi_cursor_key(0x42, modifiers),
        KeyCode::Right => encode_csi_cursor_key(0x43, modifiers),
        KeyCode::Left => encode_csi_cursor_key(0x44, modifiers),
        KeyCode::Home => encode_csi_cursor_key(0x48, modifiers),
        KeyCode::End => encode_csi_cursor_key(0x46, modifiers),
        KeyCode::PageUp => encode_csi_tilde_key(5, modifiers),
        KeyCode::PageDown => encode_csi_tilde_key(6, modifiers),
        KeyCode::Delete => encode_csi_tilde_key(3, modifiers),
        KeyCode::Insert => encode_csi_tilde_key(2, modifiers),
        _ => return None,
    };
    assert(spec_modifier_parameter(modifiers) == spec_modifier_parameter(key.modifiers));
    Some(bytes)
}

/// The bytes of the plain key encoding: Control+letter as the letter's
/// control code, other keys without modifier handling.
pub open spec fn spec_encode_key_event(key: KeyInput) -> Option<Seq<u8>> {
    match key.code {
        KeyCode::Char(c) => Some(
            if key.modifiers.control {
                if 'a' <= c <= 'z' {
                    seq![(c as u32 - 'a' as u32 + 1) as u8]
                } else if 'A' <= c <= 'Z' {
                    seq![(c as u32 - 'A' as u32 + 1) as u8]
                } else {
                    seq![c as u8]
                }
            } else {
                encode_utf8(seq![c])
            },
        ),
        KeyCode::Enter => Some(seq![0x0du8]),
        KeyCode::Backspace => Some(seq![127u8]),
        KeyCode::Tab => Some(seq![0x09u8]),
        KeyCode::Esc => Some(seq![27u8]),
        KeyCode::Up => Some(seq![0x1bu8, 0x5bu8, 0x41u8]),
        KeyCode::Down => Some(seq![0x1bu8, 0x5bu8, 0x42u8]),
        KeyCode::Right => Some(seq![0x1bu8, 0x5bu8, 0x43u8]),
        KeyCode::Left => Some(seq![0x1bu8, 0x5bu8, 0x44u8]),
        KeyCode::Home => Some(seq![0x1bu8, 0x5bu8, 0x48u8]),
        KeyCode::End => Some(seq![0x1bu8, 0x5bu8, 0x46u8]),
        KeyCode::PageUp => Some(seq![0x1bu8, 0x5bu8, 0x35u8, 0x7eu8]),
        KeyCode::PageDown => Some(seq![0x1bu8, 0x5bu8, 0x36u8, 0x7eu8]),
        KeyCode::Delete => Some(seq![0x1bu8, 0x5bu8, 0x33u8, 0x7eu8]),
        KeyCode::Insert => Some(seq![0x1bu8, 0x5bu8, 0x32u8, 0x7eu8]),
        _ => None,
    }
}

/// Plain key encoding: Control+letter sends the letter's control code, other
/// characters their UTF-8 bytes; cursor and editing keys send their VT
/// sequences without modifiers.
pub fn encode_key_event(key: KeyInput) -> (r: Option<Vec<u8>>)
    ensures
        match r {
            Some(v) => spec_encode_key_event(key) == Some(v@),
            None => spec_encode_key_event(key) is None,
        },
{
    let bytes = match key.code {
        KeyCode::Char(c) => {
            if key.modifiers.control {
                if 'a' <= c && c <= 'z' {
                    let b = (c as u32 - 'a' as u32 + 1) as u8;
                    vec![b]
                } else if 'A' <= c && c <= 'Z' {
                    let b = (c as u32 - 'A' as u32 + 1) as u8;
                    vec![b]
                } else {
                    vec![c as u8]
                }
            } else {
                char_utf8_bytes(c)
            }
        },
        KeyCode::Enter => vec![0x0d],
        KeyCode::Backspace => vec![127],
        KeyCode::Tab => vec![0x09],
        KeyCode::Esc => vec![27],
        KeyCode::Up => vec![0x1b, 0x5b, 0x41],
        KeyCode::Down => vec![0x1b, 0x5b, 0x42],
        KeyCode::Right => vec![0x1b, 0x5b, 0x43],
        KeyCode::Left => vec![0x1b, 0x5b, 0x44],
        KeyCode::Home => vec![0x1b, 0x5b, 0x48],
        KeyCode::End => vec![0x1b, 0x5b, 0x46],
        KeyCode::PageUp => vec![0x1b, 0x5b, 0x35, 0x7e],
        KeyCode::PageDown => vec![0x1b, 0x5b, 0x36, 0x7e],
        KeyCode::Delete => vec![0x1b, 0x5b, 0x33, 0x7e],
        KeyCode::Insert => vec![0x1b, 0x5b, 0x32, 0x7e],
        _ => return None,
    };
    assert(bytes@ =~= spec_encode_key_event(key).unwrap());
    Some(bytes)
}

/// How mouse reports are encoded for the program in the PTY.
#[derive(Clone, Copy, Debug, PartialEq, Eq)]
pub enum MouseProtocolEncoding {
    Default,
    Utf8,
    Sgr,
}

/// `v` clamped to `lo..=hi`.
pub open spec fn clamp_int(v: int, lo: int, hi: int) -> int {
    if v < lo {
        lo
    } else if v > hi {
        hi
    } else {
        v
    }
}

/// A mouse report: SGR `ESC [ < button ; col ; row M|m`, otherwise the legacy
/// X10 form `ESC [ M cb cx cy` with coordinates clamped to `1..=223`.
pub open spec fn spec_encode_mouse_event_bytes(
    encoding: MouseProtocolEncoding,
    button: u8,
    col: u16,
    row: u16,
    is_release: bool,
) -> Seq<u8> {
    match encoding {
        MouseProtocolEncoding::Sgr => seq![0x1bu8, 0x5bu8, 0x3cu8] + decimal(button as nat) + seq![0x3bu8]
            + decimal(col as nat) + seq![0x3bu8] + decimal(row as nat) + seq![
            if is_release {
                0x6du8
            } else {
                0x4du8
            },
        ],
        _ => seq![
            0x1bu8,
            0x5bu8,
            0x4du8,
            if is_release {
                35u8
            } else {
                if button + 32 > 255 {
                    255u8
                } else {
                    (button + 32) as u8
                }
            },
            (clamp_int(col as int, 1, 223) + 32) as u8,
            (clamp_int(row as int, 1, 223) + 32) as u8,
        ],
    }
}

/// Encode a mouse report for the program in the PTY.
pub fn encode_mouse_event_bytes(
    encoding: MouseProtocolEncoding,
    button: u8,
    col: u16,
    row: u16,
    is_release: bool,
) -> (out: Vec<u8>)
    ensures
        out@ == spec_encode_mouse_event_bytes(encoding, button, col, row, is_release),
{
    match encoding {
        MouseProtocolEncoding::Sgr => {
            let mut out = vec![0x1b, 0x5b, 0x3c];
            push_decimal(&mut out, button as u16);
            out.push(0x3b);
            push_decimal(&mut out, col);
            out.push(0x3b);
            push_decimal(&mut out, row);
            out.push(if is_release { 0x6d } else { 0x4d });
            assert(out@ =~= spec_encode_mouse_event_bytes(encoding, button, col, row, is_release));
            out
        },
        _ => {
            let clamped_col: u8 = if col < 1 { 1 } else if col > 223 { 223 } else { col as u8 };
            let clamped_row: u8 = if row < 1 { 1 } else if row > 223 { 223 } else { row as u8 };
            let cb: u8 = if is_release { 35 } else { button.saturating_add(32) };
            let out = vec![0x1b, 0x5b, 0x4d, cb, clamped_col + 32, clamped_row + 32];
            assert(out@ =~= spec_encode_mouse_event_bytes(encoding, button, col, row, is_release));
            out
        },
    }
}

/// Control with a letter sends the letter's control code: with Control held
/// (Alt released, Shift either way), `a`..`z` and `A`..`Z` send the single
/// byte 1..26 of their place in the alphabet (Ctrl+A is 1, Ctrl+C is 3),
/// with Alt the same byte after ESC, and the plain encoding agrees.
pub proof fn lemma_control_letter_bytes(c: char, m: KeyModifiers)
    requires
        m.control,
        ('a' <= c <= 'z') || ('A' <= c <= 'Z'),
    ensures
        ({
            let key = KeyInput { code: KeyCode::Char(c), modifiers: m };
            let code: int = if 'a' <= c <= 'z' { c as int - 'a' as int + 1 } else { c as int - 'A' as int + 1 };
            &&& 1 <= code <= 26
            &&& !m.alt ==> spec_encode_key_event_bytes(key) == Some(seq![code as u8])
            &&& m.alt ==> spec_encode_key_event_bytes(key) == Some(seq![0x1bu8, code as u8])
            &&& spec_encode_key_event(key) == Some(seq![code as u8])
        }),
{
    let key = KeyInput { code: KeyCode::Char(c), modifiers: m };
    if m.alt {
        assert(seq![0x1bu8] + seq![spec_control_byte(c)] =~= seq![0x1bu8, spec_control_byte(c)]);
    }
}

} // verus!
