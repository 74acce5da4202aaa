use telepass::authorized::{Authorized, AuthorizedBox, MainMenu};
use telepass::message::MessageId;
use telepass::unauthorized::{
    admin_token_prompt, sign_in_prompt, signed_in, welcome, Unauthorized, UnauthorizedBox,
};

#[test]
fn authorized_test_states() {
    assert_eq!(AuthorizedBox::main_menu(), AuthorizedBox::MainMenu(Authorized { kind: MainMenu }));
    assert!(matches!(AuthorizedBox::resources_list(), AuthorizedBox::ResourcesList(_)));
    let AuthorizedBox::ResourceActions(actions) = AuthorizedBox::resource_actions() else {
        panic!("expected resource actions");
    };
    assert_eq!(actions.kind.0.resource_name, "test.resource.com");
    assert_eq!(actions.kind.0.resource_message_id, MessageId(0));
    assert!(matches!(
        AuthorizedBox::delete_confirmation(),
        AuthorizedBox::DeleteConfirmation(_)
    ));
}

#[test]
fn sign_in_with_the_admin_token_succeeds() {
    let prompt = Unauthorized::new().start().sign_in();
    assert_eq!(
        prompt.submit_token("qwerty"),
        Ok(Authorized { kind: MainMenu })
    );
}

#[test]
fn sign_in_with_another_token_fails_and_keeps_the_state() {
    let prompt = Unauthorized::new().start().sign_in();
    let refused = prompt.clone().submit_token("qwerty ").unwrap_err();
    assert_eq!(refused.target, prompt);
    assert_eq!(refused.message, "❎ Invalid token. Please, try again.");
}

#[test]
fn cancel_and_restart_keep_the_admin_token() {
    let start = Unauthorized::new().start().restart();
    let again = start.clone().sign_in().cancel();
    assert_eq!(again, start);
    assert_eq!(again.admin_token, "qwerty");
    assert_eq!(UnauthorizedBox::new().admin_token(), "qwerty");
}

#[test]
fn unauthorized_texts() {
    assert_eq!(sign_in_prompt(), "Please, sign in 🔐");
    assert_eq!(
        admin_token_prompt(),
        "Please, enter the admin token spawned in the server logs.\n\nType /cancel to go back."
    );
    assert_eq!(signed_in(), "✅ You've successfully signed in!");
    assert_eq!(
        welcome("Test"),
        "👋🤖 Welcome to Test bot!\n\nI'll help you to manage your passwords."
    );
}
