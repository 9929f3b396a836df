//! The symbolic key/modifier vocabulary: platform-independent identifiers
//! for physical keys and modifier keys, the character-to-key translation,
//! and the per-platform tables of native key codes and modifier bits.

use vstd::prelude::*;
use vstd::string::StringExecFns;

use crate::json::escape_seq;
use crate::json::push_escaped;
use crate::peripherals::Error;
use crate::peripherals::ErrorCode;
use crate::peripherals::ErrorKind;
use crate::peripherals::is_error;
use crate::peripherals::NO_EQUIVALENT_KEY;
use crate::peripherals::UNSUPPORTED_ON_PLATFORM;

verus! {

/// The host operating system a native mapping is asked for. Selected by the
/// caller at startup; the tables below answer per platform.
#[derive(Copy, Clone, Debug, PartialEq, Eq, Structural)]
pub enum Platform {
    Windows,
    MacOS,
    Linux,
}

/// The momentary physical state of a key.
#[derive(Copy, Clone, Debug, PartialEq, Eq, Structural)]
pub enum KeyState {
    Up,
    Down,
}

impl Default for KeyState {
    fn default() -> (r: Self)
        ensures
            r == KeyState::Up,
    {
        KeyState::Up
    }
}

/// A symbolic identifier for a physical key. Platform-independent and
/// immutable; compared by variant.
#[derive(Copy, Clone, Debug, PartialEq, Eq, Structural)]
pub enum Key {
    Zero,
    One,
    Two,
    Three,
    Four,
    Five,
    Six,
    Seven,
    Eight,
    Nine,
    A,
    B,
    C,
    D,
    E,
    F,
    G,
    H,
    I,
    J,
    K,
    L,
    M,
    N,
    O,
    P,
    Q,
    R,
    S,
    T,
    U,
    V,
    W,
    X,
    Y,
    Z,
    Grave,
    Minus,
    Equals,
    RightBracket,
    LeftBracket,
    BackwardsSlash,
    Semicolon,
    Quote,
    Comma,
    Period,
    Slash,
    Space,
}

/// A symbolic identifier for a modifier key. `Alt` and `Windows` belong to
/// the Windows and Linux vocabularies, `OptionKey`, `Command` and `FnKey`
/// to the macOS one, and `NoRepeat` is the Windows flag that suppresses
/// repeated notifications; which of them have a native bit value is decided
/// per platform by `platform_bits`.
#[derive(Copy, Clone, Debug, PartialEq, Eq, Structural)]
pub enum Modifier {
    Alt,
    OptionKey,
    Control,
    Command,
    NoRepeat,
    Shift,
    Windows,
    FnKey,
}

/// The characters that can only be typed with the help of Shift or
/// CapsLock, other than upper-case letters. They are rejected by the
/// character-to-key translation.
pub open spec fn shifted_char(c: char) -> bool {
    ||| c == '~'
    ||| c == '!'
    ||| c == '#'
    ||| c == '$'
    ||| c == '%'
    ||| c == '^'
    ||| c == '&'
    ||| c == '*'
    ||| c == '('
    ||| c == ')'
    ||| c == '_'
    ||| c == '+'
    ||| c == '{'
    ||| c == '}'
    ||| c == '|'
    ||| c == ':'
    ||| c == '"'
    ||| c == '<'
    ||| c == '>'
    ||| c == '?'
}

/// The character-to-key translation table. Upper-case letters fold to the
/// key of their lower-case form; characters outside the table have no
/// equivalent key.
pub open spec fn spec_key_of_char(c: char) -> Option<Key> {
    if c == '0' {
        Some(Key::Zero)
    } else if c == '1' {
        Some(Key::One)
    } else if c == '2' {
        Some(Key::Two)
    } else if c == '3' {
        Some(Key::Three)
    } else if c == '4' {
        Some(Key::Four)
    } else if c == '5' {
        Some(Key::Five)
    } else if c == '6' {
        Some(Key::Six)
    } else if c == '7' {
        Some(Key::Seven)
    } else if c == '8' {
        Some(Key::Eight)
    } else if c == '9' {
        Some(Key::Nine)
    } else if c == 'a' || c == 'A' {
        Some(Key::A)
    } else if c == 'b' || c == 'B' {
        Some(Key::B)
    } else if c == 'c' || c == 'C' {
        Some(Key::C)
    } else if c == 'd' || c == 'D' {
        Some(Key::D)
    } else if c == 'e' || c == 'E' {
        Some(Key::E)
    } else if c == 'f' || c == 'F' {
        Some(Key::F)
    } else if c == 'g' || c == 'G' {
        Some(Key::G)
    } else if c == 'h' || c == 'H' {
        Some(Key::H)
    } else if c == 'i' || c == 'I' {
        Some(Key::I)
    } else if c == 'j' || c == 'J' {
        Some(Key::J)
    } else if c == 'k' || c == 'K' {
        Some(Key::K)
    } else if c == 'l' || c == 'L' {
        Some(Key::L)
    } else if c == 'm' || c == 'M' {
        Some(Key::M)
    } else if c == 'n' || c == 'N' {
        Some(Key::N)
    } else if c == 'o' || c == 'O' {
        Some(Key::O)
    } else if c == 'p' || c == 'P' {
        Some(Key::P)
    } else if c == 'q' || c == 'Q' {
        Some(Key::Q)
    } else if c == 'r' || c == 'R' {
        Some(Key::R)
    } else if c == 's' || c == 'S' {
        Some(Key::S)
    } else if c == 't' || c == 'T' {
        Some(Key::T)
    } else if c == 'u' || c == 'U' {
        Some(Key::U)
    } else if c == 'v' || c == 'V' {
        Some(Key::V)
    } else if c == 'w' || c == 'W' {
        Some(Key::W)
    } else if c == 'x' || c == 'X' {
        Some(Key::X)
    } else if c == 'y' || c == 'Y' {
        Some(Key::Y)
    } else if c == 'z' || c == 'Z' {
        Some(Key::Z)
    } else if c == '`' {
        Some(Key::Grave)
    } else if c == '-' {
        Some(Key::Minus)
    } else if c == '=' {
        Some(Key::Equals)
    } else if c == '[' {
        Some(Key::LeftBracket)
    } else if c == ']' {
        Some(Key::RightBracket)
    } else if c == '\\' {
        Some(Key::BackwardsSlash)
    } else if c == ';' {
        Some(Key::Semicolon)
    } else if c == '\'' {
        Some(Key::Quote)
    } else if c == ',' {
        Some(Key::Comma)
    } else if c == '.' {
        Some(Key::Period)
    } else if c == '/' {
        Some(Key::Slash)
    } else if c == ' ' {
        Some(Key::Space)
    } else {
        None
    }
}

/// The description of the error rejecting a character that needs Shift or
/// CapsLock.
pub open spec fn msg_shifted_char(c: char) -> Seq<char> {
    "No equivalent key exists for the character \""@ + seq![c]
        + "\". It seems like you are using a character generated with the help of a modifier key such as Shift or CapsLock. These characters are generally not supported with the exception of upper-case letters."@
}

/// The description of the error rejecting a character outside the
/// translation table.
pub open spec fn msg_no_equivalent_key(c: char) -> Seq<char> {
    "No equivalent key exists for the character \""@ + seq![c] + "\"."@
}

impl Key {
    /// Maps a single character to its corresponding physical key. Only
    /// characters producible without an auxiliary modifier key are
    /// supported, with upper-case letters accepted as an explicit exception
    /// and folded to the key of their lower-case form.
    pub fn from_char(c: char) -> (r: Result<Key, Error>)
        ensures
            shifted_char(c) ==> (r matches Err(e) && is_error(
                e,
                ErrorKind::OSAgnostic,
                NO_EQUIVALENT_KEY,
                msg_shifted_char(c),
            )),
            !shifted_char(c) && spec_key_of_char(c) is Some ==> r == Ok::<Key, Error>(
                spec_key_of_char(c).unwrap(),
            ),
            !shifted_char(c) && spec_key_of_char(c) is None ==> (r matches Err(e) && is_error(
                e,
                ErrorKind::OSAgnostic,
                NO_EQUIVALENT_KEY,
                msg_no_equivalent_key(c),
            )),
    {
        match c {
            '~' | '!' | '#' | '$' | '%' | '^' | '&' | '*' | '(' | ')' | '_' | '+' | '{' | '}'
                | '|' | ':' | '"' | '<' | '>' | '?' => {
                let mut d = String::from_str("No equivalent key exists for the character \"");
                d.push(c);
                d.append(
                    "\". It seems like you are using a character generated with the help of a modifier key such as Shift or CapsLock. These characters are generally not supported with the exception of upper-case letters.",
                );
                proof {
                    assert(d@ =~= msg_shifted_char(c));
                }
                Err(Error::new(ErrorKind::OSAgnostic, ErrorCode(NO_EQUIVALENT_KEY), d))
            },
            '0' => Ok(Key::Zero),
            '1' => Ok(Key::One),
            '2' => Ok(Key::Two),
            '3' => Ok(Key::Three),
            '4' => Ok(Key::Four),
            '5' => Ok(Key::Five),
            '6' => Ok(Key::Six),
            '7' => Ok(Key::Seven),
            '8' => Ok(Key::Eight),
            '9' => Ok(Key::Nine),
            'a' | 'A' => Ok(Key::A),
            'b' | 'B' => Ok(Key::B),
            'c' | 'C' => Ok(Key::C),
            'd' | 'D' => Ok(Key::D),
            'e' | 'E' => Ok(Key::E),
            'f' | 'F' => Ok(Key::F),
            'g' | 'G' => Ok(Key::G),
            'h' | 'H' => Ok(Key::H),
            'i' | 'I' => Ok(Key::I),
            'j' | 'J' => Ok(Key::J),
            'k' | 'K' => Ok(Key::K),
            'l' | 'L' => Ok(Key::L),
            'm' | 'M' => Ok(Key::M),
            'n' | 'N' => Ok(Key::N),
            'o' | 'O' => Ok(Key::O),
            'p' | 'P' => Ok(Key::P),
            'q' | 'Q' => Ok(Key::Q),
            'r' | 'R' => Ok(Key::R),
            's' | 'S' => Ok(Key::S),
            't' | 'T' => Ok(Key::T),
            'u' | 'U' => Ok(Key::U),
            'v' | 'V' => Ok(Key::V),
            'w' | 'W' => Ok(Key::W),
            'x' | 'X' => Ok(Key::X),
            'y' | 'Y' => Ok(Key::Y),
            'z' | 'Z' => Ok(Key::Z),
            '`' => Ok(Key::Grave),
            '-' => Ok(Key::Minus),
            '=' => Ok(Key::Equals),
            '[' => Ok(Key::LeftBracket),
            ']' => Ok(Key::RightBracket),
            '\\' => Ok(Key::BackwardsSlash),
            ';' => Ok(Key::Semicolon),
            '\'' => Ok(Key::Quote),
            ',' => Ok(Key::Comma),
            '.' => Ok(Key::Period),
            '/' => Ok(Key::Slash),
            ' ' => Ok(Key::Space),
            _ => {
                let mut d = String::from_str("No equivalent key exists for the character \"");
                d.push(c);
                d.append("\".");
                proof {
                    assert(d@ =~= msg_no_equivalent_key(c));
                }
                Err(Error::new(ErrorKind::OSAgnostic, ErrorCode(NO_EQUIVALENT_KEY), d))
            },
        }
    }
}

/// The printable characters producible without an auxiliary modifier key:
/// lower-case letters, digits, space, and the baseline punctuation of the
/// translation table.
pub open spec fn unshifted_printable(c: char) -> bool {
    ||| 'a' <= c && c <= 'z'
    ||| '0' <= c && c <= '9'
    ||| c == ' '
    ||| c == '`'
    ||| c == '-'
    ||| c == '='
    ||| c == '['
    ||| c == ']'
    ||| c == '\\'
    ||| c == ';'
    ||| c == '\''
    ||| c == ','
    ||| c == '.'
    ||| c == '/'
}

/// Character-to-key translation succeeds on every printable character that
/// needs no auxiliary modifier key; being a function of the character alone,
/// it yields the same key however often it is asked.
pub proof fn lemma_from_char_total_on_unshifted(c: char)
    requires
        unshifted_printable(c),
    ensures
        !shifted_char(c),
        spec_key_of_char(c) is Some,
{
}

/// An upper-case letter folds to the same physical key as its lower-case
/// form: case is an artifact of the typed character, not of the key.
pub proof fn lemma_case_folds(c: char)
    requires
        'A' <= c && c <= 'Z',
    ensures
        !shifted_char(c),
        spec_key_of_char(c) is Some,
        spec_key_of_char(c) == spec_key_of_char(((c as int) + 32) as char),
{
}

/// The name of a key, as it appears in serialized output.
pub open spec fn spec_key_name(k: Key) -> Seq<char> {
    match k {
        Key::Zero => "Zero"@,
        Key::One => "One"@,
        Key::Two => "Two"@,
        Key::Three => "Three"@,
        Key::Four => "Four"@,
        Key::Five => "Five"@,
        Key::Six => "Six"@,
        Key::Seven => "Seven"@,
        Key::Eight => "Eight"@,
        Key::Nine => "Nine"@,
        Key::A => "A"@,
        Key::B => "B"@,
        Key::C => "C"@,
        Key::D => "D"@,
        Key::E => "E"@,
        Key::F => "F"@,
        Key::G => "G"@,
        Key::H => "H"@,
        Key::I => "I"@,
        Key::J => "J"@,
        Key::K => "K"@,
        Key::L => "L"@,
        Key::M => "M"@,
        Key::N => "N"@,
        Key::O => "O"@,
        Key::P => "P"@,
        Key::Q => "Q"@,
        Key::R => "R"@,
        Key::S => "S"@,
        Key::T => "T"@,
        Key::U => "U"@,
        Key::V => "V"@,
        Key::W => "W"@,
        Key::X => "X"@,
        Key::Y => "Y"@,
        Key::Z => "Z"@,
        Key::Grave => "Grave"@,
        Key::Minus => "Minus"@,
        Key::Equals => "Equals"@,
        Key::RightBracket => "RightBracket"@,
        Key::LeftBracket => "LeftBracket"@,
        Key::BackwardsSlash => "BackwardsSlash"@,
        Key::Semicolon => "Semicolon"@,
        Key::Quote => "Quote"@,
        Key::Comma => "Comma"@,
        Key::Period => "Period"@,
        Key::Slash => "Slash"@,
        Key::Space => "Space"@,
    }
}

/// The name of a key state, as it appears in serialized output.
pub open spec fn spec_state_name(s: KeyState) -> Seq<char> {
    match s {
        KeyState::Up => "Up"@,
        KeyState::Down => "Down"@,
    }
}

impl KeyState {
    /// The state's name.
    pub fn name(&self) -> (r: String)
        ensures
            r@ == spec_state_name(*self),
    {
        match self {
            KeyState::Up => String::from_str("Up"),
            KeyState::Down => String::from_str("Down"),
        }
    }
}

/// The native key code of a key on Windows (the Win32 virtual-key code), or
/// `None` for a key without an entry in the mapping table.
pub open spec fn spec_windows_code(k: Key) -> Option<u16> {
    match k {
        Key::Zero => Some(0x30u16),
        Key::One => Some(0x31u16),
        Key::Two => Some(0x32u16),
        Key::Three => Some(0x33u16),
        Key::Four => Some(0x34u16),
        Key::Five => Some(0x35u16),
        Key::Six => Some(0x36u16),
        Key::Seven => Some(0x37u16),
        Key::Eight => Some(0x38u16),
        Key::Nine => Some(0x39u16),
        Key::A => Some(0x41u16),
        Key::B => Some(0x42u16),
        Key::C => Some(0x43u16),
        Key::D => Some(0x44u16),
        Key::E => Some(0x45u16),
        Key::F => Some(0x46u16),
        Key::G => Some(0x47u16),
        Key::H => Some(0x48u16),
        Key::I => Some(0x49u16),
        Key::J => Some(0x4Au16),
        Key::K => Some(0x4Bu16),
        Key::L => Some(0x4Cu16),
        Key::M => Some(0x4Du16),
        Key::N => Some(0x4Eu16),
        Key::O => Some(0x4Fu16),
        Key::P => Some(0x50u16),
        Key::Q => Some(0x51u16),
        Key::R => Some(0x52u16),
        Key::S => Some(0x53u16),
        Key::T => Some(0x54u16),
        Key::U => Some(0x55u16),
        Key::V => Some(0x56u16),
        Key::W => Some(0x57u16),
        Key::X => Some(0x58u16),
        Key::Y => Some(0x59u16),
        Key::Z => Some(0x5Au16),
        Key::Minus => Some(0xBDu16),
        Key::Comma => Some(0xBCu16),
        Key::Period => Some(0xBEu16),
        Key::Space => Some(0x20u16),
        _ => None,
    }
}

/// The native key code of a key on the given platform, or `None` where the
/// platform's mapping table has no entry. Only the Windows table is
/// populated; the macOS and Linux tables are absent.
pub open spec fn spec_platform_code(k: Key, p: Platform) -> Option<u16> {
    match p {
        Platform::Windows => spec_windows_code(k),
        Platform::MacOS => None,
        Platform::Linux => None,
    }
}

/// The description of the error for a key without a native code on the
/// selected platform.
pub open spec fn msg_unsupported_key(k: Key) -> Seq<char> {
    "No native key code exists for the key \""@ + spec_key_name(k) + "\" on this platform."@
}

impl Key {
    /// The key's name.
    pub fn name(&self) -> (r: String)
        ensures
            r@ == spec_key_name(*self),
    {
        match self {
            Key::Zero => String::from_str("Zero"),
            Key::One => String::from_str("One"),
            Key::Two => String::from_str("Two"),
            Key::Three => String::from_str("Three"),
            Key::Four => String::from_str("Four"),
            Key::Five => String::from_str("Five"),
            Key::Six => String::from_str("Six"),
            Key::Seven => String::from_str("Seven"),
            Key::Eight => String::from_str("Eight"),
            Key::Nine => String::from_str("Nine"),
            Key::A => String::from_str("A"),
            Key::B => String::from_str("B"),
            Key::C => String::from_str("C"),
            Key::D => String::from_str("D"),
            Key::E => String::from_str("E"),
            Key::F => String::from_str("F"),
            Key::G => String::from_str("G"),
            Key::H => String::from_str("H"),
            Key::I => String::from_str("I"),
            Key::J => String::from_str("J"),
            Key::K => String::from_str("K"),
            Key::L => String::from_str("L"),
            Key::M => String::from_str("M"),
            Key::N => String::from_str("N"),
            Key::O => String::from_str("O"),
            Key::P => String::from_str("P"),
            Key::Q => String::from_str("Q"),
            Key::R => String::from_str("R"),
            Key::S => String::from_str("S"),
            Key::T => String::from_str("T"),
            Key::U => String::from_str("U"),
            Key::V => String::from_str("V"),
            Key::W => String::from_str("W"),
            Key::X => String::from_str("X"),
            Key::Y => String::from_str("Y"),
            Key::Z => String::from_str("Z"),
            Key::Grave => String::from_str("Grave"),
            Key::Minus => String::from_str("Minus"),
            Key::Equals => String::from_str("Equals"),
            Key::RightBracket => String::from_str("RightBracket"),
            Key::LeftBracket => String::from_str("LeftBracket"),
            Key::BackwardsSlash => String::from_str("BackwardsSlash"),
            Key::Semicolon => String::from_str("Semicolon"),
            Key::Quote => String::from_str("Quote"),
            Key::Comma => String::from_str("Comma"),
            Key::Period => String::from_str("Period"),
            Key::Slash => String::from_str("Slash"),
            Key::Space => String::from_str("Space"),
        }
    }

    /// The native key code table, by platform.
    fn code_entry(&self, platform: Platform) -> (r: Option<u16>)
        ensures
            r == spec_platform_code(*self, platform),
    {
        match platform {
            Platform::Windows => match self {
                Key::Zero => Some(0x30),
                Key::One => Some(0x31),
                Key::Two => Some(0x32),
                Key::Three => Some(0x33),
                Key::Four => Some(0x34),
                Key::Five => Some(0x35),
                Key::Six => Some(0x36),
                Key::Seven => Some(0x37),
                Key::Eight => Some(0x38),
                Key::Nine => Some(0x39),
                Key::A => Some(0x41),
                Key::B => Some(0x42),
                Key::C => Some(0x43),
                Key::D => Some(0x44),
                Key::E => Some(0x45),
                Key::F => Some(0x46),
                Key::G => Some(0x47),
                Key::H => Some(0x48),
                Key::I => Some(0x49),
                Key::J => Some(0x4A),
                Key::K => Some(0x4B),
                Key::L => Some(0x4C),
                Key::M => Some(0x4D),
                Key::N => Some(0x4E),
                Key::O => Some(0x4F),
                Key::P => Some(0x50),
                Key::Q => Some(0x51),
                Key::R => Some(0x52),
                Key::S => Some(0x53),
                Key::T => Some(0x54),
                Key::U => Some(0x55),
                Key::V => Some(0x56),
                Key::W => Some(0x57),
                Key::X => Some(0x58),
                Key::Y => Some(0x59),
                Key::Z => Some(0x5A),
                Key::Minus => Some(0xBD),
                Key::Comma => Some(0xBC),
                Key::Period => Some(0xBE),
                Key::Space => Some(0x20),
                _ => None,
            },
            Platform::MacOS => None,
            Platform::Linux => None,
        }
    }

    /// The OS-native key code of this key on the given platform. A key
    /// without an entry in the platform's mapping table is reported as an
    /// explicit "unsupported on this platform" error.
    pub fn platform_code(&self, platform: Platform) -> (r: Result<u16, Error>)
        ensures
            spec_platform_code(*self, platform) matches Some(code) ==> r == Ok::<u16, Error>(
                code,
            ),
            spec_platform_code(*self, platform) is None ==> (r matches Err(e) && is_error(
                e,
                ErrorKind::OSAgnostic,
                UNSUPPORTED_ON_PLATFORM,
                msg_unsupported_key(*self),
            )),
    {
        match self.code_entry(platform) {
            Some(code) => Ok(code),
            None => {
                let mut d = String::from_str("No native key code exists for the key \"");
                let name = self.name();
                d.append(name.as_str());
                d.append("\" on this platform.");
                proof {
                    assert(d@ =~= msg_unsupported_key(*self));
                }
                Err(Error::new(ErrorKind::OSAgnostic, ErrorCode(UNSUPPORTED_ON_PLATFORM), d))
            },
        }
    }

    /// The momentary state of this key, read from the answer of the native
    /// key-state query: `Some(down)` where the platform capability answered,
    /// `None` where it is absent. Absence deterministically reads as `Up`.
    pub fn state(&self, native_down: Option<bool>) -> (r: KeyState)
        ensures
            r == KeyState::Down <==> native_down == Some(true),
    {
        match native_down {
            Some(true) => KeyState::Down,
            _ => KeyState::Up,
        }
    }

    /// The structured serialized form `{name, state}` of this key with the
    /// given momentary state.
    pub fn json(&self, state: KeyState) -> (r: String)
        ensures
            r@ == json_of_key(*self, state),
    {
        let mut s = String::new();
        s.append("{\"name\":\"");
        let name = self.name();
        push_escaped(&mut s, name.as_str());
        s.append("\",\"state\":\"");
        let st = state.name();
        push_escaped(&mut s, st.as_str());
        s.append("\"}");
        proof {
            assert(s@ =~= json_of_key(*self, state));
        }
        s
    }
}

/// The serialized form of a key query: a JSON object with the fields `name`
/// and `state`.
pub open spec fn json_of_key(k: Key, st: KeyState) -> Seq<char> {
    "{\"name\":\""@ + escape_seq(spec_key_name(k)) + "\",\"state\":\""@ + escape_seq(
        spec_state_name(st),
    ) + "\"}"@
}

/// The native bitmask contribution of a modifier on Windows (the Win32
/// hotkey modifier flags), or `None` for a modifier outside the Windows
/// vocabulary.
pub open spec fn spec_windows_bits(m: Modifier) -> Option<u32> {
    match m {
        Modifier::Alt => Some(0x0001u32),
        Modifier::Control => Some(0x0002u32),
        Modifier::Shift => Some(0x0004u32),
        Modifier::Windows => Some(0x0008u32),
        Modifier::NoRepeat => Some(0x4000u32),
        _ => None,
    }
}

/// The native bitmask contribution of a modifier on the given platform, or
/// `None` where the platform's mapping table has no entry. Only the Windows
/// table is populated; the macOS and Linux tables are absent.
pub open spec fn spec_platform_bits(m: Modifier, p: Platform) -> Option<u32> {
    match p {
        Platform::Windows => spec_windows_bits(m),
        Platform::MacOS => None,
        Platform::Linux => None,
    }
}

/// The name of a modifier.
pub open spec fn spec_modifier_name(m: Modifier) -> Seq<char> {
    match m {
        Modifier::Alt => "Alt"@,
        Modifier::OptionKey => "OptionKey"@,
        Modifier::Control => "Control"@,
        Modifier::Command => "Command"@,
        Modifier::NoRepeat => "NoRepeat"@,
        Modifier::Shift => "Shift"@,
        Modifier::Windows => "Windows"@,
        Modifier::FnKey => "FnKey"@,
    }
}

/// The description of the error for a modifier without a native bit value
/// on the selected platform.
pub open spec fn msg_unsupported_modifier(m: Modifier) -> Seq<char> {
    "No native bit value exists for the modifier \""@ + spec_modifier_name(m)
        + "\" on this platform."@
}

impl Modifier {
    /// The modifier's name.
    pub fn name(&self) -> (r: String)
        ensures
            r@ == spec_modifier_name(*self),
    {
        match self {
            Modifier::Alt => String::from_str("Alt"),
            Modifier::OptionKey => String::from_str("OptionKey"),
            Modifier::Control => String::from_str("Control"),
            Modifier::Command => String::from_str("Command"),
            Modifier::NoRepeat => String::from_str("NoRepeat"),
            Modifier::Shift => String::from_str("Shift"),
            Modifier::Windows => String::from_str("Windows"),
            Modifier::FnKey => String::from_str("FnKey"),
        }
    }

    /// The native bitmask table, by platform.
    pub(crate) fn bits_entry(&self, platform: Platform) -> (r: Option<u32>)
        ensures
            r == spec_platform_bits(*self, platform),
    {
        match platform {
            Platform::Windows => match self {
                Modifier::Alt => Some(0x0001),
                Modifier::Control => Some(0x0002),
                Modifier::Shift => Some(0x0004),
                Modifier::Windows => Some(0x0008),
                Modifier::NoRepeat => Some(0x4000),
                _ => None,
            },
            Platform::MacOS => None,
            Platform::Linux => None,
        }
    }

    /// The native bitmask contribution of this modifier on the given
    /// platform. A modifier without an entry in the platform's mapping
    /// table is reported as an explicit "unsupported on this platform"
    /// error.
    pub fn platform_bits(&self, platform: Platform) -> (r: Result<u32, Error>)
        ensures
            spec_platform_bits(*self, platform) matches Some(bits) ==> r == Ok::<u32, Error>(
                bits,
            ),
            spec_platform_bits(*self, platform) is None ==> (r matches Err(e) && is_error(
                e,
                ErrorKind::OSAgnostic,
                UNSUPPORTED_ON_PLATFORM,
                msg_unsupported_modifier(*self),
            )),
    {
        match self.bits_entry(platform) {
            Some(bits) => Ok(bits),
            None => {
                let mut d = String::from_str("No native bit value exists for the modifier \"");
                let name = self.name();
                d.append(name.as_str());
                d.append("\" on this platform.");
                proof {
                    assert(d@ =~= msg_unsupported_modifier(*self));
                }
                Err(Error::new(ErrorKind::OSAgnostic, ErrorCode(UNSUPPORTED_ON_PLATFORM), d))
            },
        }
    }

    /// Whether two modifiers are equal in the sense that matters when
    /// forming a bitmask: their native bit values on the given platform
    /// coincide. Fails where either modifier has no native bit value there.
    pub fn same_bits(&self, other: &Modifier, platform: Platform) -> (r: Result<bool, Error>)
        ensures
            spec_platform_bits(*self, platform) matches Some(a) ==> (spec_platform_bits(
                *other,
                platform,
            ) matches Some(b) ==> r == Ok::<bool, Error>(a == b)),
            spec_platform_bits(*self, platform) is None ==> (r matches Err(e) && is_error(
                e,
                ErrorKind::OSAgnostic,
                UNSUPPORTED_ON_PLATFORM,
                msg_unsupported_modifier(*self),
            )),
            spec_platform_bits(*self, platform) is Some && spec_platform_bits(*other, platform)
                is None ==> (r matches Err(e) && is_error(
                e,
                ErrorKind::OSAgnostic,
                UNSUPPORTED_ON_PLATFORM,
                msg_unsupported_modifier(*other),
            )),
    {
        let a = match self.platform_bits(platform) {
            Ok(a) => a,
            Err(e) => {
                return Err(e);
            },
        };
        let b = match other.platform_bits(platform) {
            Ok(b) => b,
            Err(e) => {
                return Err(e);
            },
        };
        Ok(a == b)
    }
}

/// The largest admissible number of modifiers in one registration, per
/// platform.
pub open spec fn spec_max_modifiers(p: Platform) -> int {
    if p == Platform::MacOS {
        5
    } else {
        6
    }
}

/// The largest admissible number of modifiers in one registration on the
/// given platform.
pub fn max_modifiers(platform: Platform) -> (n: usize)
    ensures
        n == spec_max_modifiers(platform),
{
    match platform {
        Platform::MacOS => 5,
        _ => 6,
    }
}

} // verus!
