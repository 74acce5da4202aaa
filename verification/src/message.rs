//! Strongly-typed messages the user can send, and the incoming Telegram message they are
//! read from.

use crate::text::{owned, str_eq};
use vstd::prelude::*;

verus! {

/// Identifier of a Telegram message within its chat.
#[derive(Debug, Copy, Clone, PartialEq, Eq, Structural)]
pub struct MessageId(pub i32);

/// Data sent from a Web App: the payload and the text of the button that opened it.
#[derive(Debug, Clone, PartialEq, Eq)]
pub struct WebAppData {
    /// Payload sent by the Web App.
    pub data: String,
    /// Text of the keyboard button that opened the Web App.
    pub button_text: String,
}

/// What an incoming Telegram message holds, as far as the bot reads it.
#[derive(Debug, Clone)]
pub enum MessageKind {
    /// Data sent by a Web App.
    WebAppData(WebAppData),
    /// A plain text message.
    Text(String),
    /// Any other kind of message.
    Other,
}

/// An incoming Telegram message.
#[derive(Debug, Clone)]
pub struct TelegramMessage {
    /// Message identifier.
    pub id: MessageId,
    /// Message content.
    pub kind: MessageKind,
}

impl TelegramMessage {
    /// Get message id.
    pub fn id(&self) -> (id: MessageId)
        ensures
            id == self.id,
    {
        self.id
    }

    /// Take message kind.
    pub fn take_kind(self) -> (kind: MessageKind)
        ensures
            kind == self.kind,
    {
        self.kind
    }
}

impl Default for TelegramMessage {
    fn default() -> (message: Self)
        ensures
            message.id == MessageId(0),
            message.kind is Other,
    {
        TelegramMessage { id: MessageId(0), kind: MessageKind::Other }
    }
}

/// Message from a Web App.
#[derive(Debug, Clone)]
pub struct WebApp(pub WebAppData);

/// "Add" message.
#[derive(Debug, Copy, Clone, PartialEq, Eq, Structural)]
pub struct Add;

/// "List" message.
#[derive(Debug, Copy, Clone, PartialEq, Eq, Structural)]
pub struct List;

/// Any arbitrary message.
#[derive(Debug, Clone)]
pub struct Arbitrary(pub String);

/// Text of the "Add" message.
pub open spec fn add_text() -> Seq<char> {
    "🆕 Add"@
}

/// Text of the "List" message.
pub open spec fn list_text() -> Seq<char> {
    "🗒 List"@
}

impl Add {
    /// The text of this message.
    pub fn text() -> (text: String)
        ensures
            text@ == add_text(),
    {
        owned("🆕 Add")
    }
}

impl List {
    /// The text of this message.
    pub fn text() -> (text: String)
        ensures
            text@ == list_text(),
    {
        owned("🗒 List")
    }
}

/// Message generic over message kind.
#[derive(Debug, Clone)]
pub struct Message<K> {
    /// Identifier of the Telegram message it was read from.
    pub id: MessageId,
    /// Message kind.
    pub kind: K,
}

impl<K> Message<K> {
    /// Construct new [`Message`].
    pub fn new(id: MessageId, kind: K) -> (message: Self)
        ensures
            message.id == id,
            message.kind == kind,
    {
        Message { id, kind }
    }
}

/// Enum with all possible messages.
#[derive(Debug, Clone)]
pub enum MessageBox {
    /// Message from a Web App.
    WebApp(Message<WebApp>),
    /// "Add" message.
    Add(Message<Add>),
    /// "List" message.
    List(Message<List>),
    /// Any arbitrary text message. Parsing falls back to this if nothing else matched.
    Arbitrary(Message<Arbitrary>),
}

/// What an incoming message of the given kind and id reads as.
pub open spec fn read_message(id: MessageId, kind: MessageKind) -> Option<MessageBox> {
    match kind {
        MessageKind::WebAppData(data) => Some(MessageBox::WebApp(Message { id, kind: WebApp(data) })),
        MessageKind::Text(text) => if text@ == add_text() {
            Some(MessageBox::Add(Message { id, kind: Add }))
        } else if text@ == list_text() {
            Some(MessageBox::List(Message { id, kind: List }))
        } else {
            Some(MessageBox::Arbitrary(Message { id, kind: Arbitrary(text) }))
        },
        MessageKind::Other => None,
    }
}

impl MessageBox {
    /// Construct new [`MessageBox`] from a Telegram message.
    ///
    /// Returns [`None`] if the message is of an unsupported kind.
    pub fn new(msg: TelegramMessage) -> (message: Option<Self>)
        ensures
            message == read_message(msg.id, msg.kind),
    {
        let id = msg.id();
        match msg.take_kind() {
            MessageKind::WebAppData(data) => Some(MessageBox::WebApp(Message::new(id, WebApp(data)))),
            MessageKind::Text(text) => {
                if str_eq(text.as_str(), "🆕 Add") {
                    Some(MessageBox::Add(Message::new(id, Add)))
                } else if str_eq(text.as_str(), "🗒 List") {
                    Some(MessageBox::List(Message::new(id, List)))
                } else {
                    Some(MessageBox::Arbitrary(Message::new(id, Arbitrary(text))))
                }
            },
            MessageKind::Other => None,
        }
    }

    /// A Web App message with the given data and button text.
    pub fn web_app(data: String, button_text: String) -> (message: Self)
        ensures
            message == MessageBox::WebApp(
                Message { id: MessageId(0), kind: WebApp(WebAppData { data, button_text }) },
            ),
    {
        MessageBox::WebApp(Message::new(MessageId(0), WebApp(WebAppData { data, button_text })))
    }

    /// A "List" message.
    pub fn list() -> (message: Self)
        ensures
            message == MessageBox::List(Message { id: MessageId(0), kind: List }),
    {
        MessageBox::List(Message::new(MessageId(0), List))
    }

    /// An "Add" message.
    pub fn add() -> (message: Self)
        ensures
            message == MessageBox::Add(Message { id: MessageId(0), kind: Add }),
    {
        MessageBox::Add(Message::new(MessageId(0), Add))
    }

    /// An arbitrary text message.
    pub fn arbitrary(text: &str) -> (message: Self)
        ensures
            message matches MessageBox::Arbitrary(m) && m.id == MessageId(0) && m.kind.0@ == text@,
    {
        MessageBox::Arbitrary(Message::new(MessageId(0), Arbitrary(owned(text))))
    }
}

} // verus!
