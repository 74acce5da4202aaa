//! Keyboards and reply markups the bot attaches to its messages.

use base64::engine::general_purpose::URL_SAFE;
use base64::Engine;
use crate::button::{delete_text, no_text, show_text, yes_text, Delete, No, Show, Yes};
use crate::grpc::Record;
use crate::message::{add_text, list_text, Add, List};
use crate::text::{join, owned};
use vstd::prelude::*;

verus! {

/// A button of a reply keyboard; pressing it sends its text, or opens a Web App.
#[derive(Debug, Clone, PartialEq, Eq)]
pub struct KeyboardButton {
    /// Text of the button.
    pub text: String,
    /// URL of the Web App the button opens, if any.
    pub web_app: Option<String>,
}

/// A button of an inline keyboard.
#[derive(Debug, Clone, PartialEq, Eq)]
pub enum InlineKeyboardButton {
    /// Sends `data` back to the bot when pressed.
    Callback {
        /// Text of the button.
        text: String,
        /// Data sent back.
        data: String,
    },
    /// Opens a Web App at `url`.
    WebApp {
        /// Text of the button.
        text: String,
        /// URL of the Web App.
        url: String,
    },
}

/// Markup attached to a message.
#[derive(Debug, Clone, PartialEq, Eq)]
pub enum ReplyMarkup {
    /// A reply keyboard, row by row.
    Keyboard {
        /// Rows of buttons.
        rows: Vec<Vec<KeyboardButton>>,
        /// Whether the client should fit the keyboard to its buttons.
        resize: bool,
    },
    /// An inline keyboard attached to the message, row by row.
    Inline(Vec<Vec<InlineKeyboardButton>>),
    /// Removes the current reply keyboard.
    Remove,
}

/// The URL that joining `path` onto the base URL `base` gives, if both parse.
pub uninterp spec fn url_joined(base: Seq<char>, path: Seq<char>) -> Option<Seq<char>>;

/// The digit of the URL-safe base64 alphabet with value `v` (0 to 63): `A`-`Z`, `a`-`z`,
/// `0`-`9`, `-`, `_`.
pub open spec fn base64_url_safe_digit(v: int) -> char {
    if v < 26 {
        ('A' as int + v) as char
    } else if v < 52 {
        ('a' as int + (v - 26)) as char
    } else if v < 62 {
        ('0' as int + (v - 52)) as char
    } else if v == 62 {
        '-'
    } else {
        '_'
    }
}

/// The URL-safe base64 encoding of `bytes` (RFC 4648, section 5), with padding: each three
/// bytes become four digits of six bits each, and a last one or two bytes become two or
/// three digits followed by `=` up to four characters.
pub open spec fn base64_url_safe_text(bytes: Seq<u8>) -> Seq<char>
    decreases bytes.len(),
{
    if bytes.len() == 0 {
        Seq::empty()
    } else if bytes.len() == 1 {
        seq![
            base64_url_safe_digit(bytes[0] as int / 4),
            base64_url_safe_digit((bytes[0] % 4) * 16),
            '=',
            '=',
        ]
    } else if bytes.len() == 2 {
        seq![
            base64_url_safe_digit(bytes[0] as int / 4),
            base64_url_safe_digit((bytes[0] % 4) * 16 + bytes[1] / 16),
            base64_url_safe_digit((bytes[1] % 16) * 4),
            '=',
        ]
    } else {
        seq![
            base64_url_safe_digit(bytes[0] as int / 4),
            base64_url_safe_digit((bytes[0] % 4) * 16 + bytes[1] / 16),
            base64_url_safe_digit((bytes[1] % 16) * 4 + bytes[2] / 64),
            base64_url_safe_digit(bytes[2] as int % 64),
        ] + base64_url_safe_text(bytes.skip(3))
    }
}

/// Calls `url::Url::join` on `base` read as a URL (`url::Url::parse`): the result, as text,
/// is a function of the two texts alone, and there is none when either does not parse.
#[verifier::external_body]
fn url_join(base: &str, path: &str) -> (joined: Option<String>)
    ensures
        match joined {
            Some(u) => url_joined(base@, path@) == Some(u@),
            None => url_joined(base@, path@) is None,
        },
{
    url::Url::parse(base).and_then(|url| url.join(path)).ok().map(|url| url.to_string())
}

/// Calls `base64::Engine::encode` of the `URL_SAFE` engine: the result is the URL-safe base64
/// text of `bytes`, with padding.
#[verifier::external_body]
fn base64_url_safe(bytes: &[u8]) -> (text: String)
    ensures
        text@ == base64_url_safe_text(bytes@),
{
    URL_SAFE.encode(bytes)
}

/// A keyboard button that only sends its text.
pub open spec fn is_text_button(button: KeyboardButton, text: Seq<char>) -> bool {
    button.text@ == text && button.web_app is None
}

/// The main menu keyboard: a "List" button and an "Add" button opening the Web App's
/// `/submit` page.
pub open spec fn is_main_menu_keyboard(markup: ReplyMarkup, web_app_url: Seq<char>) -> bool {
    &&& url_joined(web_app_url, "/submit"@) is Some
    &&& markup matches ReplyMarkup::Keyboard { rows, resize }
    &&& resize
    &&& rows@.len() == 2
    &&& rows@[0]@.len() == 1
    &&& is_text_button(rows@[0]@[0], list_text())
    &&& rows@[1]@.len() == 1
    &&& rows@[1]@[0].text@ == add_text()
    &&& rows@[1]@[0].web_app matches Some(url)
    &&& Some(url@) == url_joined(web_app_url, "/submit"@)
}

/// Text of the button offering a resource.
pub open spec fn resource_button_text(name: Seq<char>) -> Seq<char> {
    "🔑 "@ + name
}

/// A keyboard with one row per resource name, in order.
pub open spec fn is_resources_keyboard(markup: ReplyMarkup, names: Seq<String>) -> bool {
    &&& markup matches ReplyMarkup::Keyboard { rows, resize }
    &&& resize
    &&& rows@.len() == names.len()
    &&& forall|i: int|
        0 <= i < names.len() ==> #[trigger] rows@[i]@.len() == 1 && is_text_button(
            rows@[i]@[0],
            resource_button_text(names[i]@),
        )
}

/// The query of the Web App's `/show` page for a record.
pub open spec fn show_query(record: Record) -> Seq<char> {
    let name_param = match record.resource {
        Some(resource) => "resource_name="@ + resource.name@ + "&"@,
        None => Seq::empty(),
    };
    "/show?"@ + name_param + "payload="@ + base64_url_safe_text(record.encrypted_payload@)
        + "&salt="@ + base64_url_safe_text(record.salt@)
}

/// An inline callback button whose text and data are both `text`.
pub open spec fn is_callback(button: InlineKeyboardButton, text: Seq<char>) -> bool {
    button matches InlineKeyboardButton::Callback { text: t, data: d } && t@ == text && d@ == text
}

/// The actions keyboard of a record: a "Delete" button and a "Show" button opening the
/// Web App page that shows the record.
pub open spec fn is_actions_keyboard(markup: ReplyMarkup, record: Record, web_app_url: Seq<char>) -> bool {
    &&& url_joined(web_app_url, show_query(record)) is Some
    &&& markup matches ReplyMarkup::Inline(rows)
    &&& rows@.len() == 1
    &&& rows@[0]@.len() == 2
    &&& is_callback(rows@[0]@[0], delete_text())
    &&& rows@[0]@[1] matches InlineKeyboardButton::WebApp { text, url }
    &&& text@ == show_text()
    &&& Some(url@) == url_joined(web_app_url, show_query(record))
}

/// The confirmation keyboard: "Yes" and "No" buttons.
pub open spec fn is_confirmation_keyboard(markup: ReplyMarkup) -> bool {
    &&& markup matches ReplyMarkup::Inline(rows)
    &&& rows@.len() == 1
    &&& rows@[0]@.len() == 2
    &&& is_callback(rows@[0]@[0], yes_text())
    &&& is_callback(rows@[0]@[1], no_text())
}

/// The main menu keyboard; `None` when the Web App URL cannot be joined with `/submit`.
pub fn main_menu_keyboard(web_app_url: &str) -> (markup: Option<ReplyMarkup>)
    ensures
        markup is Some <==> url_joined(web_app_url@, "/submit"@) is Some,
        markup matches Some(m) ==> is_main_menu_keyboard(m, web_app_url@),
{
    match url_join(web_app_url, "/submit") {
        None => None,
        Some(submit_url) => {
            let mut first = Vec::new();
            first.push(KeyboardButton { text: List::text(), web_app: None });
            let mut second = Vec::new();
            second.push(KeyboardButton { text: Add::text(), web_app: Some(submit_url) });
            let mut rows = Vec::new();
            rows.push(first);
            rows.push(second);
            Some(ReplyMarkup::Keyboard { rows, resize: true })
        },
    }
}

/// A keyboard with one button per resource name.
pub fn resources_keyboard(names: &Vec<String>) -> (markup: ReplyMarkup)
    ensures
        is_resources_keyboard(markup, names@),
{
    let mut rows: Vec<Vec<KeyboardButton>> = Vec::new();
    let mut i: usize = 0;
    while i < names.len()
        invariant
            i <= names@.len(),
            rows@.len() == i,
            forall|j: int|
                0 <= j < i ==> #[trigger] rows@[j]@.len() == 1 && is_text_button(
                    rows@[j]@[0],
                    resource_button_text(names@[j]@),
                ),
        decreases names@.len() - i,
    {
        let mut row = Vec::new();
        row.push(KeyboardButton { text: join(owned("🔑 "), names[i].as_str()), web_app: None });
        rows.push(row);
        i = i + 1;
    }
    ReplyMarkup::Keyboard { rows, resize: true }
}

/// The Web App query showing `record`.
fn show_path(record: &Record) -> (path: String)
    ensures
        path@ == show_query(*record),
{
    let payload = base64_url_safe(record.encrypted_payload.as_slice());
    let salt = base64_url_safe(record.salt.as_slice());
    let mut path = owned("/show?");
    match &record.resource {
        Some(resource) => {
            path = join(join(join(path, "resource_name="), resource.name.as_str()), "&");
        },
        None => {},
    }
    path = join(join(join(join(path, "payload="), payload.as_str()), "&salt="), salt.as_str());
    assert(path@ =~= show_query(*record));
    path
}

/// The actions keyboard of `record`; `None` when the Web App URL cannot be joined with the
/// record's `/show` query.
pub fn actions_keyboard(record: &Record, web_app_url: &str) -> (markup: Option<ReplyMarkup>)
    ensures
        markup is Some <==> url_joined(web_app_url@, show_query(*record)) is Some,
        markup matches Some(m) ==> is_actions_keyboard(m, *record, web_app_url@),
{
    let path = show_path(record);
    match url_join(web_app_url, path.as_str()) {
        None => None,
        Some(show_url) => {
            let mut row = Vec::new();
            row.push(InlineKeyboardButton::Callback { text: Delete::text(), data: Delete::text() });
            row.push(InlineKeyboardButton::WebApp { text: Show::text(), url: show_url });
            let mut rows = Vec::new();
            rows.push(row);
            Some(ReplyMarkup::Inline(rows))
        },
    }
}

/// The keyboard asking to confirm a deletion.
pub fn confirmation_keyboard() -> (markup: ReplyMarkup)
    ensures
        is_confirmation_keyboard(markup),
{
    let mut row = Vec::new();
    row.push(InlineKeyboardButton::Callback { text: Yes::text(), data: Yes::text() });
    row.push(InlineKeyboardButton::Callback { text: No::text(), data: No::text() });
    let mut rows = Vec::new();
    rows.push(row);
    ReplyMarkup::Inline(rows)
}

} // verus!
