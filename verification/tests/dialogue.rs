use telepass::button::ButtonBox;
use telepass::command::Command;
use telepass::dialogue::{start, Event, Reply, Request, Step, TransitionFailureReason};
use telepass::keyboard::{KeyboardButton, ReplyMarkup};
use telepass::markdown::{bold, escape};
use telepass::message::{MessageBox, MessageId};
use telepass::state::State;

const URL: &str = "https://example.com";

fn perform(step: Step) -> (telepass::dialogue::Transition, Request) {
    match step {
        Step::Perform(t, r) => (t, r),
        Step::Finished(_) => panic!("expected a request"),
    }
}

fn finished(step: Step) -> Result<State, telepass::dialogue::FailedTransition> {
    match step {
        Step::Finished(result) => result,
        Step::Perform(_, request) => panic!("unexpected request {request:?}"),
    }
}

#[test]
fn start_shows_the_main_menu() {
    let (t, request) = perform(start(State::default(), Event::Command(Command::start()), None, URL));
    let Request::SendMessage { text, markdown, markup } = request else {
        panic!("expected a message");
    };
    assert_eq!(text, "🏠 Welcome to the main menu.");
    assert!(!markdown);
    let Some(ReplyMarkup::Keyboard { rows, resize }) = markup else {
        panic!("expected a keyboard");
    };
    assert!(resize);
    assert_eq!(rows[0], vec![KeyboardButton { text: String::from("🗒 List"), web_app: None }]);
    assert_eq!(
        rows[1],
        vec![KeyboardButton {
            text: String::from("🆕 Add"),
            web_app: Some(String::from("https://example.com/submit"))
        }]
    );
    let next = finished(t.step(Reply::MessageSent(MessageId(1)), URL)).unwrap();
    assert_eq!(next, State::main_menu());
}

#[test]
fn help_keeps_the_state() {
    let (t, request) = perform(start(State::main_menu(), Event::Command(Command::help()), None, URL));
    let Request::SendMessage { text, .. } = request else {
        panic!("expected a message");
    };
    assert_eq!(text, Command::descriptions());
    assert_eq!(finished(t.step(Reply::MessageSent(MessageId(2)), URL)).unwrap(), State::main_menu());
}

#[test]
fn unavailable_command_fails_for_the_user() {
    let failure = finished(start(State::main_menu(), Event::Command(Command::start()), None, URL))
        .unwrap_err();
    assert_eq!(failure.target, State::main_menu());
    assert_eq!(
        failure.reason,
        TransitionFailureReason::User(String::from("Unavailable command in the current state."))
    );
}

#[test]
fn unexpected_button_fails_for_the_user() {
    let failure =
        finished(start(State::main_menu(), Event::Button(ButtonBox::yes()), None, URL)).unwrap_err();
    assert_eq!(failure.target, State::main_menu());
    assert_eq!(
        failure.reason,
        TransitionFailureReason::User(String::from("Unexpected button action in the current state."))
    );
}

#[test]
fn list_shows_the_stored_resources() {
    let (t, request) = perform(start(State::main_menu(), Event::Message(MessageBox::list()), None, URL));
    assert!(matches!(request, Request::ListResources));
    let (t, request) = perform(t.step(
        Reply::Resources(vec![String::from("a.com"), String::from("b.com")]),
        URL,
    ));
    let Request::SendMessage { text, markup, .. } = request else {
        panic!("expected a message");
    };
    assert_eq!(text, "👉 Choose a resource or type for search.\n\nType /cancel to go back.");
    let Some(ReplyMarkup::Keyboard { rows, .. }) = markup else {
        panic!("expected a keyboard");
    };
    assert_eq!(rows.len(), 2);
    assert_eq!(rows[1][0].text, "🔑 b.com");
    assert_eq!(finished(t.step(Reply::MessageSent(MessageId(3)), URL)).unwrap(), State::resources_list());
}

#[test]
fn list_with_nothing_stored_fails_for_the_user() {
    let (t, _) = perform(start(State::main_menu(), Event::Message(MessageBox::list()), None, URL));
    let failure = finished(t.step(Reply::Resources(Vec::new()), URL)).unwrap_err();
    assert_eq!(failure.target, State::main_menu());
    assert_eq!(
        failure.reason,
        TransitionFailureReason::User(String::from("❎ There are no stored passwords yet."))
    );
}

#[test]
fn failed_listing_is_internal() {
    let (t, _) = perform(start(State::main_menu(), Event::Message(MessageBox::list()), None, URL));
    let failure = finished(t.step(Reply::Failed(String::from("storage down")), URL)).unwrap_err();
    assert_eq!(failure.target, State::main_menu());
    assert!(matches!(failure.reason, TransitionFailureReason::Internal(_)));
}

#[test]
fn markdown_escaping() {
    assert_eq!(escape("test.resource.com"), "test\\.resource\\.com");
    assert_eq!(escape("a_b*c[d]e(f)g~h`i>j#k+l-m=n|o{p}q.r!s\\"), "a\\_b\\*c\\[d\\]e\\(f\\)g\\~h\\`i\\>j\\#k\\+l\\-m\\=n\\|o\\{p\\}q\\.r\\!s\\\\");
    assert_eq!(bold("x"), "*x*");
}
