use telepass::button::ButtonBox;
use telepass::command::Command;
use telepass::dialogue::{start, Event, Reply, Request, Step, TransitionFailureReason};
use telepass::message::{MessageBox, MessageId};
use telepass::state::State;

const URL: &str = "https://example.com";

/// `/help` sends the command descriptions and leaves the state as it was.
fn help_keeps(state: impl Fn() -> State) {
    let Step::Perform(transition, request) =
        start(state(), Event::Command(Command::help()), None, URL)
    else {
        panic!("expected a request");
    };
    let Request::SendMessage { text, .. } = request else {
        panic!("expected a message");
    };
    assert_eq!(text, Command::descriptions());
    let Step::Finished(result) = transition.step(Reply::MessageSent(MessageId(1)), URL) else {
        panic!("expected the transition to finish");
    };
    assert_eq!(result.unwrap(), state());
}

/// `event` is refused in `state` with the user-facing `reason`, and the state stays.
fn fails_for_user(state: State, event: Event, reason: &str) {
    let Step::Finished(result) = start(state.clone(), event, None, URL) else {
        panic!("expected the transition to finish");
    };
    let failure = result.unwrap_err();
    assert_eq!(failure.reason, TransitionFailureReason::User(reason.to_owned()));
    assert_eq!(failure.target, state);
}

#[test]
fn default_help_success() {
    help_keeps(|| State::default());
}

#[test]
fn default_cancel_failure() {
    fails_for_user(State::default(), Event::Command(Command::cancel()), "Unavailable command in the current state.");
}

#[test]
fn default_web_app_failure() {
    fails_for_user(State::default(), Event::Message(MessageBox::web_app("data".to_owned(), "button_text".to_owned())), "Unexpected message in the current state.");
}

#[test]
fn default_add_failure() {
    fails_for_user(State::default(), Event::Message(MessageBox::add()), "Unexpected message in the current state.");
}

#[test]
fn default_list_failure() {
    fails_for_user(State::default(), Event::Message(MessageBox::list()), "Unexpected message in the current state.");
}

#[test]
fn default_arbitrary_failure() {
    fails_for_user(State::default(), Event::Message(MessageBox::arbitrary("Test arbitrary message")), "Unexpected message in the current state.");
}

#[test]
fn default_delete_failure() {
    fails_for_user(State::default(), Event::Button(ButtonBox::delete()), "Unexpected button action in the current state.");
}

#[test]
fn default_yes_failure() {
    fails_for_user(State::default(), Event::Button(ButtonBox::yes()), "Unexpected button action in the current state.");
}

#[test]
fn default_no_failure() {
    fails_for_user(State::default(), Event::Button(ButtonBox::no()), "Unexpected button action in the current state.");
}

#[test]
fn default_show_failure() {
    fails_for_user(State::default(), Event::Button(ButtonBox::show()), "Unexpected button action in the current state.");
}

#[test]
fn delete_confirmation_help_success() {
    help_keeps(|| State::delete_confirmation());
}

#[test]
fn delete_confirmation_start_failure() {
    fails_for_user(State::delete_confirmation(), Event::Command(Command::start()), "Unavailable command in the current state.");
}

#[test]
fn delete_confirmation_web_app_failure() {
    fails_for_user(State::delete_confirmation(), Event::Message(MessageBox::web_app("data".to_owned(), "button_text".to_owned())), "Unexpected message in the current state.");
}

#[test]
fn delete_confirmation_list_failure() {
    fails_for_user(State::delete_confirmation(), Event::Message(MessageBox::list()), "Unexpected message in the current state.");
}

#[test]
fn delete_confirmation_add_failure() {
    fails_for_user(State::delete_confirmation(), Event::Message(MessageBox::add()), "Unexpected message in the current state.");
}

#[test]
fn delete_confirmation_arbitrary_failure() {
    fails_for_user(State::delete_confirmation(), Event::Message(MessageBox::arbitrary("Test arbitrary message")), "Unexpected message in the current state.");
}

#[test]
fn delete_confirmation_show_failure() {
    fails_for_user(State::delete_confirmation(), Event::Button(ButtonBox::show()), "Unexpected button action in the current state.");
}

#[test]
fn delete_confirmation_delete_failure() {
    fails_for_user(State::delete_confirmation(), Event::Button(ButtonBox::delete()), "Unexpected button action in the current state.");
}

#[test]
fn main_menu_help_success() {
    help_keeps(|| State::main_menu());
}

#[test]
fn main_menu_start_failure() {
    fails_for_user(State::main_menu(), Event::Command(Command::start()), "Unavailable command in the current state.");
}

#[test]
fn main_menu_cancel_failure() {
    fails_for_user(State::main_menu(), Event::Command(Command::cancel()), "Unavailable command in the current state.");
}

#[test]
fn main_menu_add_failure() {
    fails_for_user(State::main_menu(), Event::Message(MessageBox::add()), "Unexpected message in the current state.");
}

#[test]
fn main_menu_arbitrary_failure() {
    fails_for_user(State::main_menu(), Event::Message(MessageBox::arbitrary("Test arbitrary message")), "Unexpected message in the current state.");
}

#[test]
fn main_menu_delete_failure() {
    fails_for_user(State::main_menu(), Event::Button(ButtonBox::delete()), "Unexpected button action in the current state.");
}

#[test]
fn main_menu_yes_failure() {
    fails_for_user(State::main_menu(), Event::Button(ButtonBox::yes()), "Unexpected button action in the current state.");
}

#[test]
fn main_menu_no_failure() {
    fails_for_user(State::main_menu(), Event::Button(ButtonBox::no()), "Unexpected button action in the current state.");
}

#[test]
fn main_menu_show_failure() {
    fails_for_user(State::main_menu(), Event::Button(ButtonBox::show()), "Unexpected button action in the current state.");
}

#[test]
fn resource_actions_help_success() {
    help_keeps(|| State::resource_actions());
}

#[test]
fn resource_actions_start_failure() {
    fails_for_user(State::resource_actions(), Event::Command(Command::start()), "Unavailable command in the current state.");
}

#[test]
fn resource_actions_web_app_failure() {
    fails_for_user(State::resource_actions(), Event::Message(MessageBox::web_app("data".to_owned(), "button_text".to_owned())), "Unexpected message in the current state.");
}

#[test]
fn resource_actions_list_failure() {
    fails_for_user(State::resource_actions(), Event::Message(MessageBox::list()), "Unexpected message in the current state.");
}

#[test]
fn resource_actions_add_failure() {
    fails_for_user(State::resource_actions(), Event::Message(MessageBox::add()), "Unexpected message in the current state.");
}

#[test]
fn resource_actions_arbitrary_failure() {
    fails_for_user(State::resource_actions(), Event::Message(MessageBox::arbitrary("Test arbitrary message")), "Unexpected message in the current state.");
}

#[test]
fn resource_actions_show_failure() {
    fails_for_user(State::resource_actions(), Event::Button(ButtonBox::show()), "Unexpected button action in the current state.");
}

#[test]
fn resource_actions_yes_failure() {
    fails_for_user(State::resource_actions(), Event::Button(ButtonBox::yes()), "Unexpected button action in the current state.");
}

#[test]
fn resource_actions_no_failure() {
    fails_for_user(State::resource_actions(), Event::Button(ButtonBox::no()), "Unexpected button action in the current state.");
}

#[test]
fn resources_list_help_success() {
    help_keeps(|| State::resources_list());
}

#[test]
fn resources_list_start_failure() {
    fails_for_user(State::resources_list(), Event::Command(Command::start()), "Unavailable command in the current state.");
}

#[test]
fn resources_list_web_app_failure() {
    fails_for_user(State::resources_list(), Event::Message(MessageBox::web_app("data".to_owned(), "button_text".to_owned())), "Unexpected message in the current state.");
}

#[test]
fn resources_list_list_failure() {
    fails_for_user(State::resources_list(), Event::Message(MessageBox::list()), "Unexpected message in the current state.");
}

#[test]
fn resources_list_add_failure() {
    fails_for_user(State::resources_list(), Event::Message(MessageBox::add()), "Unexpected message in the current state.");
}

#[test]
fn resources_list_show_failure() {
    fails_for_user(State::resources_list(), Event::Button(ButtonBox::show()), "Unexpected button action in the current state.");
}

#[test]
fn resources_list_delete_failure() {
    fails_for_user(State::resources_list(), Event::Button(ButtonBox::delete()), "Unexpected button action in the current state.");
}

#[test]
fn resources_list_yes_failure() {
    fails_for_user(State::resources_list(), Event::Button(ButtonBox::yes()), "Unexpected button action in the current state.");
}

#[test]
fn resources_list_no_failure() {
    fails_for_user(State::resources_list(), Event::Button(ButtonBox::no()), "Unexpected button action in the current state.");
}
