//! States of the dialogue before the user has proven to be the admin, and the sign-in
//! that ends them.
//!
//! The user signs in by sending the admin token printed in the server logs.

use crate::authorized::{Authorized, MainMenu};
use crate::text::{join, owned, str_eq};
use vstd::prelude::*;

verus! {

/// Before the start of the dialogue; the first `/start` leads to [`Start`].
#[derive(Debug, Clone, Copy, PartialEq, Eq, Structural)]
pub struct Default;

/// Start of the dialogue: waiting for the user to sign in.
#[derive(Debug, Clone, Copy, PartialEq, Eq, Structural)]
pub struct Start;

/// Waiting for the user to enter the admin token.
#[derive(Debug, Clone, Copy, PartialEq, Eq, Structural)]
pub struct SecretPhrasePrompt;

/// An unauthorized state of kind `K`, holding the admin token the user must send.
#[derive(Debug, Clone, PartialEq, Eq)]
pub struct Unauthorized<K> {
    /// Secret token the user copies from the server logs to prove that they are the admin.
    pub admin_token: String,
    /// Kind of the state.
    pub kind: K,
}

/// All unauthorized states.
#[derive(Debug, Clone, PartialEq, Eq)]
pub enum UnauthorizedBox {
    /// Before the start.
    Default(Unauthorized<Default>),
    /// Waiting for the user to sign in.
    Start(Unauthorized<Start>),
    /// Waiting for the admin token.
    SecretPhrasePrompt(Unauthorized<SecretPhrasePrompt>),
}

/// The admin token of a fresh dialogue.
pub open spec fn default_admin_token() -> Seq<char> {
    "qwerty"@
}

impl Unauthorized<Default> {
    /// The state before the start of a fresh dialogue.
    pub fn new() -> (state: Self)
        ensures
            state.admin_token@ == default_admin_token(),
    {
        Unauthorized { admin_token: owned("qwerty"), kind: Default }
    }

    /// `/start`: the dialogue starts and waits for the user to sign in.
    pub fn start(self) -> (next: Unauthorized<Start>)
        ensures
            next.admin_token == self.admin_token,
    {
        Unauthorized { admin_token: self.admin_token, kind: Start }
    }
}

impl UnauthorizedBox {
    /// The state before the start of a fresh dialogue.
    pub fn new() -> (state: Self)
        ensures
            state matches UnauthorizedBox::Default(inner) && inner.admin_token@
                == default_admin_token(),
    {
        UnauthorizedBox::Default(Unauthorized::<Default>::new())
    }

    /// The admin token the state holds.
    pub fn admin_token(&self) -> (token: &String)
        ensures
            *token == admin_token_of(*self),
    {
        match self {
            UnauthorizedBox::Default(state) => &state.admin_token,
            UnauthorizedBox::Start(state) => &state.admin_token,
            UnauthorizedBox::SecretPhrasePrompt(state) => &state.admin_token,
        }
    }
}

/// The admin token an unauthorized state holds.
pub open spec fn admin_token_of(state: UnauthorizedBox) -> String {
    match state {
        UnauthorizedBox::Default(inner) => inner.admin_token,
        UnauthorizedBox::Start(inner) => inner.admin_token,
        UnauthorizedBox::SecretPhrasePrompt(inner) => inner.admin_token,
    }
}

impl Unauthorized<Start> {
    /// `/start` again: the dialogue waits for the user to sign in, as before.
    pub fn restart(self) -> (next: Unauthorized<Start>)
        ensures
            next.admin_token == self.admin_token,
    {
        Unauthorized { admin_token: self.admin_token, kind: Start }
    }

    /// The user asks to sign in: the dialogue waits for the admin token.
    pub fn sign_in(self) -> (next: Unauthorized<SecretPhrasePrompt>)
        ensures
            next.admin_token == self.admin_token,
    {
        Unauthorized { admin_token: self.admin_token, kind: SecretPhrasePrompt }
    }
}

/// A refused admin token: the state stays and the user is told why.
#[derive(Debug, Clone, PartialEq, Eq)]
pub struct InvalidToken {
    /// The state the dialogue stays in.
    pub target: Unauthorized<SecretPhrasePrompt>,
    /// The message for the user.
    pub message: String,
}

impl Unauthorized<SecretPhrasePrompt> {
    /// `/cancel`: back to waiting for the user to sign in.
    pub fn cancel(self) -> (next: Unauthorized<Start>)
        ensures
            next.admin_token == self.admin_token,
    {
        Unauthorized { admin_token: self.admin_token, kind: Start }
    }

    /// The user sends `candidate` as the admin token: they become authorized, in the main
    /// menu, exactly when it is the admin token.
    pub fn submit_token(self, candidate: &str) -> (outcome: Result<Authorized<MainMenu>, InvalidToken>)
        ensures
            candidate@ == self.admin_token@ ==> outcome == Ok::<Authorized<MainMenu>, InvalidToken>(
                Authorized { kind: MainMenu },
            ),
            candidate@ != self.admin_token@ ==> (outcome matches Err(refused) && refused.target == self
                && refused.message@ == invalid_token_text()),
    {
        if str_eq(candidate, self.admin_token.as_str()) {
            Ok(Authorized::<MainMenu>::main_menu())
        } else {
            Err(InvalidToken { target: self, message: owned("❎ Invalid token. Please, try again.") })
        }
    }
}

/// The answer to a wrong admin token.
pub open spec fn invalid_token_text() -> Seq<char> {
    "❎ Invalid token. Please, try again."@
}

/// The message that asks the user to sign in.
pub open spec fn sign_in_prompt_text() -> Seq<char> {
    "Please, sign in 🔐"@
}

/// The message that asks for the admin token.
pub open spec fn admin_token_prompt_text() -> Seq<char> {
    "Please, enter the admin token spawned in the server logs.\n\nType /cancel to go back."@
}

/// The message that confirms the sign-in.
pub open spec fn signed_in_text() -> Seq<char> {
    "✅ You've successfully signed in!"@
}

/// The welcome message of the bot named `bot_name`.
pub open spec fn welcome_text(bot_name: Seq<char>) -> Seq<char> {
    "👋🤖 Welcome to "@ + bot_name + " bot!\n\nI'll help you to manage your passwords."@
}

/// The message that asks the user to sign in.
pub fn sign_in_prompt() -> (text: String)
    ensures
        text@ == sign_in_prompt_text(),
{
    owned("Please, sign in 🔐")
}

/// The message that asks for the admin token.
pub fn admin_token_prompt() -> (text: String)
    ensures
        text@ == admin_token_prompt_text(),
{
    owned("Please, enter the admin token spawned in the server logs.\n\nType /cancel to go back.")
}

/// The message that confirms the sign-in.
pub fn signed_in() -> (text: String)
    ensures
        text@ == signed_in_text(),
{
    owned("✅ You've successfully signed in!")
}

/// The welcome message of the bot named `bot_name`.
pub fn welcome(bot_name: &str) -> (text: String)
    ensures
        text@ == welcome_text(bot_name@),
{
    join(join(owned("👋🤖 Welcome to "), bot_name), " bot!\n\nI'll help you to manage your passwords.")
}

} // verus!
