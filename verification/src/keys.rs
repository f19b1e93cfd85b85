//! Symbolic key names and their fixed byte sequences.
//!
//! The table is a compatibility contract: each key maps to one deterministic
//! sequence.  Enter depends on the protocol (`\r` for Telnet, `\n` for SSH);
//! everything else is protocol-independent.

use vstd::prelude::*;

use crate::errors::ApiResult;

verus! {

/// Transport protocol of a session.
#[derive(Debug, Clone, Copy, PartialEq, Eq, Structural)]
pub enum Protocol {
    Ssh,
    Telnet,
}

/// Symbolic keys a caller can send without spelling escape sequences.
#[derive(Debug, Clone, Copy, PartialEq, Eq, Structural)]
pub enum SessionKey {
    Enter,
    Tab,
    Backspace,
    Delete,
    Home,
    End,
    CtrlC,
    CtrlD,
    CtrlZ,
    CtrlBackslash,
    CtrlA,
    CtrlE,
    CtrlK,
    CtrlU,
    CtrlL,
    Esc,
    ArrowUp,
    ArrowDown,
    ArrowLeft,
    ArrowRight,
    PageUp,
    PageDown,
}

/// The exact bytes sent for each key: C0 controls for the Ctrl chords,
/// CSI escapes for cursor movement, 0x7f for Backspace, ESC for Esc.
pub open spec fn key_bytes_spec(protocol: Protocol, key: SessionKey) -> Seq<u8> {
    match key {
        SessionKey::Enter => match protocol {
            Protocol::Telnet => seq![13u8],
            Protocol::Ssh => seq![10u8],
        },
        SessionKey::Tab => seq![9u8],
        SessionKey::Backspace => seq![0x7fu8],
        SessionKey::Delete => seq![0x1bu8, 91u8, 51u8, 126u8],
        SessionKey::Home => seq![0x1bu8, 91u8, 72u8],
        SessionKey::End => seq![0x1bu8, 91u8, 70u8],
        SessionKey::CtrlC => seq![0x03u8],
        SessionKey::CtrlD => seq![0x04u8],
        SessionKey::CtrlZ => seq![0x1au8],
        SessionKey::CtrlBackslash => seq![0x1cu8],
        SessionKey::CtrlA => seq![0x01u8],
        SessionKey::CtrlE => seq![0x05u8],
        SessionKey::CtrlK => seq![0x0bu8],
        SessionKey::CtrlU => seq![0x15u8],
        SessionKey::CtrlL => seq![0x0cu8],
        SessionKey::Esc => seq![0x1bu8],
        SessionKey::ArrowUp => seq![0x1bu8, 91u8, 65u8],
        SessionKey::ArrowDown => seq![0x1bu8, 91u8, 66u8],
        SessionKey::ArrowLeft => seq![0x1bu8, 91u8, 68u8],
        SessionKey::ArrowRight => seq![0x1bu8, 91u8, 67u8],
        SessionKey::PageUp => seq![0x1bu8, 91u8, 53u8, 126u8],
        SessionKey::PageDown => seq![0x1bu8, 91u8, 54u8, 126u8],
    }
}

/// Translate a symbolic key to its byte sequence.  Every key translates;
/// the result is always `Ok` and matches `key_bytes_spec` exactly.
pub fn key_bytes(protocol: Protocol, key: SessionKey) -> (r: ApiResult<Vec<u8>>)
    ensures
        r is Ok,
        r.unwrap()@ == key_bytes_spec(protocol, key),
{
    let bytes: Vec<u8> = match key {
        SessionKey::Enter => match protocol {
            Protocol::Telnet => vec![13u8],
            Protocol::Ssh => vec![10u8],
        },
        SessionKey::Tab => vec![9u8],
        SessionKey::Backspace => vec![0x7fu8],
        SessionKey::Delete => vec![0x1bu8, 91u8, 51u8, 126u8],
        SessionKey::Home => vec![0x1bu8, 91u8, 72u8],
        SessionKey::End => vec![0x1bu8, 91u8, 70u8],
        SessionKey::CtrlC => vec![0x03u8],
        SessionKey::CtrlD => vec![0x04u8],
        SessionKey::CtrlZ => vec![0x1au8],
        SessionKey::CtrlBackslash => vec![0x1cu8],
        SessionKey::CtrlA => vec![0x01u8],
        SessionKey::CtrlE => vec![0x05u8],
        SessionKey::CtrlK => vec![0x0bu8],
        SessionKey::CtrlU => vec![0x15u8],
        SessionKey::CtrlL => vec![0x0cu8],
        SessionKey::Esc => vec![0x1bu8],
        SessionKey::ArrowUp => vec![0x1bu8, 91u8, 65u8],
        SessionKey::ArrowDown => vec![0x1bu8, 91u8, 66u8],
        SessionKey::ArrowLeft => vec![0x1bu8, 91u8, 68u8],
        SessionKey::ArrowRight => vec![0x1bu8, 91u8, 67u8],
        SessionKey::PageUp => vec![0x1bu8, 91u8, 53u8, 126u8],
        SessionKey::PageDown => vec![0x1bu8, 91u8, 54u8, 126u8],
    };
    Ok(bytes)
}

} // verus!
