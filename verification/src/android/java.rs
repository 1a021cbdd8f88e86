//! What the services of the Java side are asked for, and what their answers mean.

use crate::clipboard::{ClipboardEntry, joined_text};
use crate::text::joined;
use vstd::prelude::*;

verus! {

/// `char::from_u32` of std: the character with a code point; there is none for a surrogate
/// and none beyond the last code point.
pub assume_specification[ char::from_u32 ](i: u32) -> (c: Option<char>)
    ensures
        match c {
            Some(c) => c as u32 == i,
            None => 0xD800 <= i <= 0xDFFF || i > 0x10FFFF,
        },
;

/// A text that may be missing: nothing for none.
pub fn string_of(string: Option<String>) -> (text: String)
    ensures
        text@ == (match string {
            Some(string) => string@,
            None => Seq::empty(),
        }),
{
    match string {
        Some(string) => string,
        None => String::new(),
    }
}

/// The kinds of insets that are asked for: the bars of the system, the software keyboard
/// and a display cutout.
pub const INSETS_MASK: i32 = 0x8f;

/// The version from which insets can be asked for.
pub const INSETS_SDK_VERSION: i32 = 30;

/// The insets to ask for, where the system can tell them.
pub fn insets_mask(sdk_version: i32) -> (mask: Option<i32>)
    ensures
        mask == if sdk_version < INSETS_SDK_VERSION {
            None
        } else {
            Some(INSETS_MASK)
        },
        sdk_version < 30 ==> mask is None,
        sdk_version >= 30 ==> mask == Some(0x8fi32),
{
    if sdk_version < INSETS_SDK_VERSION {
        None
    } else {
        Some(INSETS_MASK)
    }
}

/// The character that a value of a key character map stands for. The sign marks a dead key,
/// which stands for its accent; zero stands for none.
pub open spec fn mapped_character(value: i32) -> Option<char> {
    let code: int = if value < 0 {
        value + 0x8000_0000
    } else {
        value as int
    };
    if code == 0 || 0xD800 <= code <= 0xDFFF || code > 0x10FFFF {
        None
    } else {
        Some(code as char)
    }
}

pub fn key_character(value: i32) -> (character: Option<char>)
    ensures
        character == mapped_character(value),
{
    let code: u32 = if value < 0 {
        (value as i64 + 0x8000_0000) as u32
    } else {
        value as u32
    };
    match char::from_u32(code) {
        Some(c) => {
            proof {
                vstd::utf8::char_is_scalar(c);
                vstd::utf8::char_u32_cast(c, code);
            }
            if c == '\0' {
                None
            } else {
                Some(c)
            }
        },
        None => None,
    }
}

/// The flag that starts an activity in a task of its own.
pub const FLAG_ACTIVITY_NEW_TASK: i32 = 0x1000_0000;

/// How the credentials key is made.
#[derive(Clone, Copy, Debug, PartialEq, Eq)]
pub struct KeyParameters {
    pub alias: &'static str,
    pub algorithm: &'static str,
    pub provider: &'static str,
    /// Encrypting and decrypting.
    pub purposes: i32,
    pub block_mode: &'static str,
    pub padding: &'static str,
    pub bits: i32,
}

/// What to do for the credentials key.
#[derive(Clone, Copy, Debug, PartialEq, Eq)]
pub enum KeyStep {
    /// The store holds it.
    Use,
    /// It is generated, on first use.
    Generate(KeyParameters),
}

/// The parameters of the credentials key.
pub open spec fn is_credentials_key(parameters: KeyParameters) -> bool {
    &&& parameters.alias@ == "gpui.credentials"@
    &&& parameters.algorithm@ == "AES"@
    &&& parameters.provider@ == "AndroidKeyStore"@
    &&& parameters.purposes == 3
    &&& parameters.block_mode@ == "GCM"@
    &&& parameters.padding@ == "NoPadding"@
    &&& parameters.bits == 256
}

pub fn key_parameters() -> (parameters: KeyParameters)
    ensures
        is_credentials_key(parameters),
{
    KeyParameters {
        alias: "gpui.credentials",
        algorithm: "AES",
        provider: "AndroidKeyStore",
        purposes: 3,
        block_mode: "GCM",
        padding: "NoPadding",
        bits: 256,
    }
}

/// The credentials key: the one in the store, or a new one that never leaves it.
pub fn key(stored: bool) -> (step: KeyStep)
    ensures
        stored ==> step is Use,
        !stored ==> (step matches KeyStep::Generate(parameters) && is_credentials_key(parameters)),
{
    if stored {
        KeyStep::Use
    } else {
        KeyStep::Generate(key_parameters())
    }
}

/// The cipher that a key is used with: its algorithm, block mode and padding.
pub fn cipher(parameters: &KeyParameters) -> (transformation: String)
    ensures
        transformation@ == parameters.algorithm@ + "/"@ + parameters.block_mode@ + "/"@
            + parameters.padding@,
{
    let algorithm = joined(parameters.algorithm, "/");
    let mode = joined(algorithm.as_str(), parameters.block_mode);
    let slashed = joined(mode.as_str(), "/");
    joined(slashed.as_str(), parameters.padding)
}

/// The text that goes on the clipboard: only text does, so images are left out.
pub fn clipboard_text(entries: &Vec<ClipboardEntry>) -> (text: String)
    ensures
        text@ == crate::clipboard::texts(entries@),
{
    joined_text(entries)
}

} // verus!
