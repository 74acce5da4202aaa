use telepass::command::Command;
use telepass::dialogue::TransitionFailureReason;
use telepass::keyboard::{KeyboardButton, ReplyMarkup};
use telepass::sign_in::{
    start_sign_in, SignInEvent, SignInReply, SignInRequest, SignInState, SignInStep,
    SignInTransition,
};
use telepass::unauthorized::{SecretPhrasePrompt, Start, Unauthorized, UnauthorizedBox};

const URL: &str = "https://example.com";

fn default() -> UnauthorizedBox {
    UnauthorizedBox::Default(Unauthorized {
        admin_token: String::from("test"),
        kind: telepass::unauthorized::Default,
    })
}

fn start() -> UnauthorizedBox {
    UnauthorizedBox::Start(Unauthorized { admin_token: String::from("test"), kind: Start })
}

fn secret_phrase_prompt() -> UnauthorizedBox {
    UnauthorizedBox::SecretPhrasePrompt(Unauthorized {
        admin_token: String::from("test"),
        kind: SecretPhrasePrompt,
    })
}

fn perform(step: SignInStep) -> (SignInTransition, SignInRequest) {
    match step {
        SignInStep::Perform(t, r) => (t, r),
        SignInStep::Finished(result) => panic!("unexpected end {result:?}"),
    }
}

fn sent_text(request: &SignInRequest) -> &str {
    match request {
        SignInRequest::SendMessage { text, .. } => text,
        SignInRequest::GetMe => panic!("expected a message"),
    }
}

fn help_success(state: UnauthorizedBox) {
    let (t, request) = perform(start_sign_in(state.clone(), SignInEvent::Help));
    assert_eq!(sent_text(&request), Command::descriptions());
    assert_eq!(
        t.step(SignInReply::Sent, URL),
        SignInStep::Finished(Ok(SignInState::Unauthorized(state)))
    );
}

fn refused(state: UnauthorizedBox, event: SignInEvent, reason: &str) {
    let SignInStep::Finished(Err(failure)) = start_sign_in(state.clone(), event) else {
        panic!("expected a failure");
    };
    assert_eq!(failure.target, state);
    assert_eq!(failure.reason, TransitionFailureReason::User(reason.to_owned()));
}

fn sign_in_keyboard() -> Option<ReplyMarkup> {
    Some(ReplyMarkup::Keyboard {
        rows: vec![vec![KeyboardButton { text: String::from("🔐 Sign in"), web_app: None }]],
        resize: true,
    })
}

#[test]
fn unauthorized_default_help_success() {
    help_success(default());
}

#[test]
fn unauthorized_default_start_success() {
    let (t, request) = perform(start_sign_in(default(), SignInEvent::Start));
    assert_eq!(request, SignInRequest::GetMe);
    let (t, request) = perform(t.step(SignInReply::Me { full_name: String::from("Test") }, URL));
    assert_eq!(
        sent_text(&request),
        "👋🤖 Welcome to Test bot!\n\nI'll help you to manage your passwords."
    );
    let (t, request) = perform(t.step(SignInReply::Sent, URL));
    assert_eq!(
        request,
        SignInRequest::SendMessage {
            text: String::from("Please, sign in 🔐"),
            markup: sign_in_keyboard()
        }
    );
    assert_eq!(
        t.step(SignInReply::Sent, URL),
        SignInStep::Finished(Ok(SignInState::Unauthorized(start())))
    );
}

#[test]
fn unauthorized_default_cancel_failure() {
    refused(default(), SignInEvent::Cancel, "Unavailable command in the current state.");
}

#[test]
fn start_help_success() {
    help_success(start());
}

#[test]
fn start_start_success() {
    let (t, request) = perform(start_sign_in(start(), SignInEvent::Start));
    assert_eq!(sent_text(&request), "Please, sign in 🔐");
    assert_eq!(
        t.step(SignInReply::Sent, URL),
        SignInStep::Finished(Ok(SignInState::Unauthorized(start())))
    );
}

#[test]
fn start_cancel_failure() {
    refused(start(), SignInEvent::Cancel, "Unavailable command in the current state.");
}

#[test]
fn secret_phrase_prompt_help_success() {
    help_success(secret_phrase_prompt());
}

#[test]
fn secret_phrase_prompt_start_failure() {
    refused(
        secret_phrase_prompt(),
        SignInEvent::Start,
        "Unavailable command in the current state.",
    );
}

#[test]
fn secret_phrase_prompt_cancel_success() {
    let (t, request) = perform(start_sign_in(secret_phrase_prompt(), SignInEvent::Cancel));
    assert_eq!(sent_text(&request), "Please, sign in 🔐");
    assert_eq!(
        t.step(SignInReply::Sent, URL),
        SignInStep::Finished(Ok(SignInState::Unauthorized(start())))
    );
}

#[test]
fn default_sign_in_failure() {
    refused(default(), SignInEvent::SignIn, "Unexpected message in the current state.");
}

#[test]
fn unauthorized_default_list_failure() {
    refused(default(), SignInEvent::List, "Unexpected message in the current state.");
}

#[test]
fn unauthorized_default_arbitrary_failure() {
    refused(
        default(),
        SignInEvent::from_text(String::from("Test arbitrary message")),
        "Unexpected message in the current state.",
    );
}

#[test]
fn start_sign_in_success() {
    let (t, request) = perform(start_sign_in(start(), SignInEvent::from_text(String::from("🔐 Sign in"))));
    assert_eq!(
        request,
        SignInRequest::SendMessage {
            text: String::from(
                "Please, enter the admin token spawned in the server logs.\n\nType /cancel to go back."
            ),
            markup: Some(ReplyMarkup::Remove)
        }
    );
    assert_eq!(
        t.step(SignInReply::Sent, URL),
        SignInStep::Finished(Ok(SignInState::Unauthorized(secret_phrase_prompt())))
    );
}

#[test]
fn start_list_failure() {
    refused(start(), SignInEvent::from_text(String::from("🗒 List")), "Unexpected message in the current state.");
}

#[test]
fn start_arbitrary_failure() {
    refused(
        start(),
        SignInEvent::Arbitrary(String::from("Test arbitrary message")),
        "Unexpected message in the current state.",
    );
}

#[test]
fn secret_phrase_prompt_sign_in_failure() {
    refused(secret_phrase_prompt(), SignInEvent::SignIn, "Unexpected message in the current state.");
}

#[test]
fn secret_phrase_prompt_list_failure() {
    refused(secret_phrase_prompt(), SignInEvent::List, "Unexpected message in the current state.");
}

#[test]
fn secret_phrase_prompt_wrong_arbitrary_failure() {
    refused(
        secret_phrase_prompt(),
        SignInEvent::Arbitrary(String::from("Wrong test phrase")),
        "❎ Invalid token. Please, try again.",
    );
}

#[test]
fn secret_phrase_prompt_right_arbitrary_success() {
    let (t, request) =
        perform(start_sign_in(secret_phrase_prompt(), SignInEvent::Arbitrary(String::from("test"))));
    assert_eq!(sent_text(&request), "✅ You've successfully signed in!");
    let (t, request) = perform(t.step(SignInReply::Sent, URL));
    assert_eq!(sent_text(&request), "🏠 Welcome to the main menu.");
    let SignInStep::Finished(Ok(SignInState::Authorized(_))) = t.step(SignInReply::Sent, URL) else {
        panic!("expected the main menu");
    };
}

#[test]
fn failed_send_keeps_the_state() {
    let (t, _) = perform(start_sign_in(start(), SignInEvent::SignIn));
    let SignInStep::Finished(Err(failure)) = t.step(SignInReply::Failed(String::from("offline")), URL)
    else {
        panic!("expected a failure");
    };
    assert_eq!(failure.target, start());
    assert_eq!(failure.reason, TransitionFailureReason::Internal(String::from("offline")));
}

#[test]
fn commands_become_sign_in_events() {
    assert_eq!(SignInEvent::from_command(Command::help()), SignInEvent::Help);
    assert_eq!(SignInEvent::from_command(Command::start()), SignInEvent::Start);
    assert_eq!(SignInEvent::from_command(Command::cancel()), SignInEvent::Cancel);
}
