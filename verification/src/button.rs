//! Module with all supported buttons.
//!
//! Button means an inline button attached to a message; pressing it sends its data back.

use crate::message::TelegramMessage;
use crate::text::{owned, str_eq};
use vstd::prelude::*;

verus! {

/// "Delete" button kind.
#[derive(Debug, Copy, Clone, PartialEq, Eq, Structural)]
pub struct Delete;

/// "Yes" button kind.
#[derive(Debug, Copy, Clone, PartialEq, Eq, Structural)]
pub struct Yes;

/// "No" button kind.
#[derive(Debug, Copy, Clone, PartialEq, Eq, Structural)]
pub struct No;

/// "Show" button kind.
#[derive(Debug, Copy, Clone, PartialEq, Eq, Structural)]
pub struct Show;

/// Text (and callback data) of the "Delete" button.
pub open spec fn delete_text() -> Seq<char> {
    "🗑 Delete"@
}

/// Text (and callback data) of the "Yes" button.
pub open spec fn yes_text() -> Seq<char> {
    "✅ Yes"@
}

/// Text (and callback data) of the "No" button.
pub open spec fn no_text() -> Seq<char> {
    "❌ No"@
}

/// Text of the "Show" button.
pub open spec fn show_text() -> Seq<char> {
    "👀 Show"@
}

impl Delete {
    /// The text of this button.
    pub fn text() -> (text: String)
        ensures
            text@ == delete_text(),
    {
        owned("🗑 Delete")
    }
}

impl Yes {
    /// The text of this button.
    pub fn text() -> (text: String)
        ensures
            text@ == yes_text(),
    {
        owned("✅ Yes")
    }
}

impl No {
    /// The text of this button.
    pub fn text() -> (text: String)
        ensures
            text@ == no_text(),
    {
        owned("❌ No")
    }
}

impl Show {
    /// The text of this button.
    pub fn text() -> (text: String)
        ensures
            text@ == show_text(),
    {
        owned("👀 Show")
    }
}

/// Button generic over button kind.
#[derive(Debug, Clone)]
pub struct Button<K> {
    /// Message the button is attached to.
    pub message: TelegramMessage,
    /// Button kind.
    pub kind: K,
}

/// Enum with all possible buttons.
#[derive(Debug, Clone)]
pub enum ButtonBox {
    /// "Delete" button.
    Delete(Button<Delete>),
    /// "Yes" button.
    Yes(Button<Yes>),
    /// "No" button.
    No(Button<No>),
    /// "Show" button.
    Show(Button<Show>),
}

/// Error for button data that matches no button.
#[derive(Debug, Copy, Clone, PartialEq, Eq, Structural)]
pub struct UnexpectedButtonData;

impl UnexpectedButtonData {
    /// The error's text: "Unexpected button data".
    pub fn message(&self) -> (text: String)
        ensures
            text@ == "Unexpected button data"@,
    {
        crate::text::owned("Unexpected button data")
    }
}

impl ButtonBox {
    /// Create new [`ButtonBox`] from the [`TelegramMessage`] the button is attached to and
    /// the button's `data`.
    ///
    /// # Errors
    ///
    /// Fails if `data` does not correspond to any button kind.
    pub fn new(message: TelegramMessage, data: &str) -> (button: Result<Self, UnexpectedButtonData>)
        ensures
            if data@ == delete_text() {
                button matches Ok(ButtonBox::Delete(b)) && b.message == message
            } else if data@ == yes_text() {
                button matches Ok(ButtonBox::Yes(b)) && b.message == message
            } else if data@ == no_text() {
                button matches Ok(ButtonBox::No(b)) && b.message == message
            } else if data@ == show_text() {
                button matches Ok(ButtonBox::Show(b)) && b.message == message
            } else {
                button == Err::<Self, UnexpectedButtonData>(UnexpectedButtonData)
            },
    {
        if str_eq(data, "🗑 Delete") {
            Ok(ButtonBox::Delete(Button { message, kind: Delete }))
        } else if str_eq(data, "✅ Yes") {
            Ok(ButtonBox::Yes(Button { message, kind: Yes }))
        } else if str_eq(data, "❌ No") {
            Ok(ButtonBox::No(Button { message, kind: No }))
        } else if str_eq(data, "👀 Show") {
            Ok(ButtonBox::Show(Button { message, kind: Show }))
        } else {
            Err(UnexpectedButtonData)
        }
    }

    /// A "Delete" button attached to a default message.
    pub fn delete() -> (button: Self)
        ensures
            button matches ButtonBox::Delete(b) && b.message.id == crate::message::MessageId(0)
                && b.message.kind is Other,
    {
        ButtonBox::Delete(Button { message: TelegramMessage::default(), kind: Delete })
    }

    /// A "Yes" button attached to a default message.
    pub fn yes() -> (button: Self)
        ensures
            button matches ButtonBox::Yes(b) && b.message.id == crate::message::MessageId(0)
                && b.message.kind is Other,
    {
        ButtonBox::Yes(Button { message: TelegramMessage::default(), kind: Yes })
    }

    /// A "No" button attached to a default message.
    pub fn no() -> (button: Self)
        ensures
            button matches ButtonBox::No(b) && b.message.id == crate::message::MessageId(0)
                && b.message.kind is Other,
    {
        ButtonBox::No(Button { message: TelegramMessage::default(), kind: No })
    }

    /// A "Show" button attached to a default message.
    pub fn show() -> (button: Self)
        ensures
            button matches ButtonBox::Show(b) && b.message.id == crate::message::MessageId(0)
                && b.message.kind is Other,
    {
        ButtonBox::Show(Button { message: TelegramMessage::default(), kind: Show })
    }
}

} // verus!
