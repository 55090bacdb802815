//! Message boxes: the style word handed to the system and how its answer is read.
use vstd::prelude::*;

use crate::{Error, Result};

verus! {

/// The icon a message box shows.
#[derive(PartialEq, Eq, Structural, Clone, Copy, Debug)]
pub enum MessageType {
    Info,
    Warning,
    Error,
}

/// A message box with a single OK button.
pub struct MessageAlert<'a> {
    pub title: &'a str,
    pub text: &'a str,
    pub typ: MessageType,
}

/// A message box that asks a yes/no question.
pub struct MessageConfirm<'a> {
    pub title: &'a str,
    pub text: &'a str,
    pub typ: MessageType,
}

/// Style bit: an OK button.
pub const MB_OK: u32 = 0x0;

/// Style bit: Yes and No buttons.
pub const MB_YESNO: u32 = 0x4;

/// Style bit: the error icon.
pub const MB_ICONERROR: u32 = 0x10;

/// Style bit: the warning icon.
pub const MB_ICONWARNING: u32 = 0x30;

/// Style bit: the information icon.
pub const MB_ICONINFORMATION: u32 = 0x40;

/// The answer code for the Yes button.
pub const IDYES: i32 = 6;

/// What the system is asked to show.
pub struct MessageBoxParams<'a> {
    pub title: &'a str,
    pub text: &'a str,
    pub typ: MessageType,
    pub ask: bool,
}

/// The icon bit of a message type.
pub open spec fn icon_bits(typ: MessageType) -> u32 {
    match typ {
        MessageType::Info => MB_ICONINFORMATION,
        MessageType::Warning => MB_ICONWARNING,
        MessageType::Error => MB_ICONERROR,
    }
}

/// The button bits: Yes/No for a question, OK otherwise.
pub open spec fn button_bits(ask: bool) -> u32 {
    if ask {
        MB_YESNO
    } else {
        MB_OK
    }
}

impl<'a> MessageAlert<'a> {
    /// The request an alert makes: its own text, and no question.
    pub fn params(&self) -> (r: MessageBoxParams<'a>)
        ensures
            r.title == self.title,
            r.text == self.text,
            r.typ == self.typ,
            !r.ask,
    {
        MessageBoxParams { title: self.title, text: self.text, typ: self.typ, ask: false }
    }
}

impl<'a> MessageConfirm<'a> {
    /// The request a confirmation makes: its own text, as a question.
    pub fn params(&self) -> (r: MessageBoxParams<'a>)
        ensures
            r.title == self.title,
            r.text == self.text,
            r.typ == self.typ,
            r.ask,
    {
        MessageBoxParams { title: self.title, text: self.text, typ: self.typ, ask: true }
    }
}

impl<'a> MessageBoxParams<'a> {
    /// The style word: the icon of the type, and the buttons that fit the question.
    pub fn style(&self) -> (r: u32)
        ensures
            r == icon_bits(self.typ) | button_bits(self.ask),
    {
        let icon: u32 = match self.typ {
            MessageType::Info => MB_ICONINFORMATION,
            MessageType::Warning => MB_ICONWARNING,
            MessageType::Error => MB_ICONERROR,
        };
        let buttons: u32 = if self.ask {
            MB_YESNO
        } else {
            MB_OK
        };
        icon | buttons
    }
}

/// Reads the system's answer code: zero means the call failed, with `last_error`
/// as the reason; otherwise the answer is whether Yes was pressed.
pub fn message_box_outcome(ret: i32, last_error: std::io::Error) -> (r: Result<bool>)
    ensures
        ret == 0 ==> r == Err::<bool, Error>(Error::IoFailure(last_error)),
        ret != 0 ==> r == Ok::<bool, Error>(ret == IDYES),
{
    if ret == 0 {
        Err(Error::IoFailure(last_error))
    } else {
        Ok(ret == IDYES)
    }
}

/// An alert has no answer: only whether it could be shown.
pub fn alert_outcome(answer: Result<bool>) -> (r: Result<()>)
    ensures
        answer matches Ok(_) ==> r is Ok,
        answer matches Err(e) ==> r == Err::<(), Error>(e),
{
    match answer {
        Ok(_) => Ok(()),
        Err(e) => Err(e),
    }
}

} // verus!
