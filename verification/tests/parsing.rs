use telepass::button::ButtonBox;
use telepass::command::{Command, CommandParseError};
use telepass::message::{MessageBox, MessageId, MessageKind, TelegramMessage, WebAppData};

fn text_tg_message(text: String) -> TelegramMessage {
    TelegramMessage {
        id: MessageId(0),
        kind: MessageKind::Text(text),
    }
}

#[test]
fn parse_delete() {
    let message = TelegramMessage::default();
    let data = "🗑 Delete";

    let button = ButtonBox::new(message, data).unwrap();
    assert!(matches!(button, ButtonBox::Delete(_)));
}

#[test]
fn parse_yes() {
    let message = TelegramMessage::default();
    let data = "✅ Yes";

    let button = ButtonBox::new(message, data).unwrap();
    assert!(matches!(button, ButtonBox::Yes(_)));
}

#[test]
fn parse_no() {
    let message = TelegramMessage::default();
    let data = "❌ No";

    let button = ButtonBox::new(message, data).unwrap();
    assert!(matches!(button, ButtonBox::No(_)));
}

#[test]
fn parse_show() {
    let message = TelegramMessage::default();
    let data = "👀 Show";

    let button = ButtonBox::new(message, data).unwrap();
    assert!(matches!(button, ButtonBox::Show(_)));
}

#[test]
fn parse_unknown_button_fails() {
    let message = TelegramMessage::default();
    let error = ButtonBox::new(message, "🗑 delete").unwrap_err();
    assert_eq!(error.message(), "Unexpected button data");
}

#[test]
fn parse_help() {
    let command = Command::parse("/help", "test_bot_name").unwrap();
    assert!(matches!(command, Command::Help(_)));
}

#[test]
fn parse_start() {
    let command = Command::parse("/start", "test_bot_name").unwrap();
    assert!(matches!(command, Command::Start(_)));
}

#[test]
fn parse_cancel() {
    let command = Command::parse("/cancel", "test_bot_name").unwrap();
    assert!(matches!(command, Command::Cancel(_)));
}

#[test]
fn parse_command_addressed_to_this_bot() {
    let command = Command::parse("/help@Test_Bot_Name", "test_bot_name").unwrap();
    assert!(matches!(command, Command::Help(_)));
}

#[test]
fn parse_command_addressed_to_another_bot_fails() {
    let error = Command::parse("/help@other_bot", "test_bot_name").unwrap_err();
    assert!(matches!(error, CommandParseError::WrongBotName(_)));
}

#[test]
fn parse_unknown_command_fails() {
    let error = Command::parse("/list", "test_bot_name").unwrap_err();
    assert!(matches!(error, CommandParseError::UnknownCommand(_)));
}

#[test]
fn command_descriptions_list_every_command() {
    assert_eq!(
        Command::descriptions(),
        "These commands are supported:\n\n/help — display this text\n/start — command to start the bot\n/cancel — cancel current operation"
    );
}

#[test]
fn parse_web_app() {
    let data = WebAppData {
        data: String::from("test_data"),
        button_text: String::from("test_button"),
    };
    let tg_message = TelegramMessage {
        id: MessageId(0),
        kind: MessageKind::WebAppData(data.clone()),
    };

    let message = MessageBox::new(tg_message);
    assert!(matches!(message, Some(MessageBox::WebApp(m)) if m.kind.0 == data));
}

#[test]
fn parse_add() {
    let tg_message = text_tg_message("🆕 Add".to_owned());

    let message = MessageBox::new(tg_message);
    assert!(matches!(message, Some(MessageBox::Add(_))));
}

#[test]
fn parse_list() {
    let tg_message = text_tg_message("🗒 List".to_owned());

    let message = MessageBox::new(tg_message);
    assert!(matches!(message, Some(MessageBox::List(_))));
}

#[test]
fn parse_arbitrary() {
    let tg_message = text_tg_message("Any random string here".to_owned());

    let message = MessageBox::new(tg_message);
    assert!(matches!(message, Some(MessageBox::Arbitrary(_))));
}

#[test]
fn parse_other_message_kind_gives_nothing() {
    assert!(MessageBox::new(TelegramMessage::default()).is_none());
}
