//! The transitions of the dialogue before the user is authorized.
//!
//! As in [`crate::dialogue`], a transition is a short conversation with the outside world:
//! [`start_sign_in`] reads the state and the event and either finishes at once or asks for a
//! first [`SignInRequest`]; the [`SignInReply`] to it goes to [`SignInTransition::step`], and
//! so on until the transition finishes with the new state or a failure that keeps the old one.

use crate::authorized::{Authorized, MainMenu};
use crate::command::Command;
use crate::dialogue::{help_text, main_menu_text, url_join_failure_text, TransitionFailureReason};
use crate::keyboard::{is_main_menu_keyboard, main_menu_keyboard, url_joined, KeyboardButton, ReplyMarkup};
use crate::message::list_text;
use crate::text::{owned, str_eq};
use crate::unauthorized::{
    admin_token_of, admin_token_prompt, admin_token_prompt_text, invalid_token_text,
    sign_in_prompt, sign_in_prompt_text, signed_in, signed_in_text, welcome, welcome_text,
    SecretPhrasePrompt, Start, Unauthorized, UnauthorizedBox,
};
use vstd::prelude::*;

verus! {

/// Text of the button that asks to sign in.
pub open spec fn sign_in_button_text() -> Seq<char> {
    "🔐 Sign in"@
}

/// What the user did, as far as the unauthorized dialogue tells events apart.
#[derive(Debug, Clone, PartialEq, Eq)]
pub enum SignInEvent {
    /// `/help`.
    Help,
    /// `/start`.
    Start,
    /// `/cancel`.
    Cancel,
    /// The "Sign in" button's text.
    SignIn,
    /// The "List" button's text.
    List,
    /// Any other text.
    Arbitrary(String),
}

/// The event a text message is.
pub open spec fn text_event(text: String) -> SignInEvent {
    if text@ == sign_in_button_text() {
        SignInEvent::SignIn
    } else if text@ == list_text() {
        SignInEvent::List
    } else {
        SignInEvent::Arbitrary(text)
    }
}

impl SignInEvent {
    /// The event of a command.
    pub fn from_command(command: Command) -> (event: SignInEvent)
        ensures
            command is Help ==> event == SignInEvent::Help,
            command is Start ==> event == SignInEvent::Start,
            command is Cancel ==> event == SignInEvent::Cancel,
    {
        match command {
            Command::Help(_) => SignInEvent::Help,
            Command::Start(_) => SignInEvent::Start,
            Command::Cancel(_) => SignInEvent::Cancel,
        }
    }

    /// The event of a text message.
    pub fn from_text(text: String) -> (event: SignInEvent)
        ensures
            event == text_event(text),
    {
        if str_eq(text.as_str(), "🔐 Sign in") {
            SignInEvent::SignIn
        } else if str_eq(text.as_str(), "🗒 List") {
            SignInEvent::List
        } else {
            SignInEvent::Arbitrary(text)
        }
    }
}

/// Something the outside world is asked to do for a transition.
#[derive(Debug, Clone, PartialEq, Eq)]
pub enum SignInRequest {
    /// Ask Telegram who the bot is.
    GetMe,
    /// Send a message to the chat.
    SendMessage {
        /// Text of the message.
        text: String,
        /// Markup attached to the message.
        markup: Option<ReplyMarkup>,
    },
}

/// The outcome of a [`SignInRequest`].
#[derive(Debug, Clone, PartialEq, Eq)]
pub enum SignInReply {
    /// Who the bot is.
    Me {
        /// The bot's full name.
        full_name: String,
    },
    /// The message was sent.
    Sent,
    /// The request failed; holds a description of the error.
    Failed(String),
}

/// Where an unfinished transition stands.
#[derive(Debug, Clone, Copy, PartialEq, Eq, Structural)]
pub enum SignInPending {
    /// The help text was sent.
    HelpSent,
    /// Telegram was asked who the bot is, to greet the user.
    FetchingMe,
    /// The welcome message was sent.
    WelcomeSent,
    /// The message asking to sign in was sent.
    SignInPromptSent,
    /// The message asking for the admin token was sent.
    TokenPromptSent,
    /// The confirmation of the sign-in was sent.
    SignedInSent,
    /// The main menu was sent.
    MainMenuSent,
}

/// An unfinished transition.
#[derive(Debug, Clone, PartialEq, Eq)]
pub struct SignInTransition {
    /// The state the transition started from.
    pub from: UnauthorizedBox,
    /// Where it stands.
    pub pending: SignInPending,
}

/// The state of the dialogue after a successful transition.
#[derive(Debug, Clone, PartialEq, Eq)]
pub enum SignInState {
    /// Still unauthorized.
    Unauthorized(UnauthorizedBox),
    /// Signed in, in the main menu.
    Authorized(Authorized<MainMenu>),
}

/// A failed transition: the state the dialogue stays in and the reason.
#[derive(Debug, Clone, PartialEq, Eq)]
pub struct SignInFailure {
    /// State of the dialogue after the failure.
    pub target: UnauthorizedBox,
    /// Failure reason.
    pub reason: TransitionFailureReason,
}

/// The result of starting or continuing a transition.
#[derive(Debug, PartialEq, Eq)]
pub enum SignInStep {
    /// Perform the request and continue the transition with the reply.
    Perform(SignInTransition, SignInRequest),
    /// The transition is over.
    Finished(Result<SignInState, SignInFailure>),
}

/// The keyboard with the single "Sign in" button.
pub open spec fn is_sign_in_keyboard(markup: ReplyMarkup) -> bool {
    &&& markup matches ReplyMarkup::Keyboard { rows, resize }
    &&& resize
    &&& rows@.len() == 1
    &&& rows@[0]@.len() == 1
    &&& rows@[0]@[0].text@ == sign_in_button_text()
    &&& rows@[0]@[0].web_app is None
}

/// `request` sends `text`.
pub open spec fn sends_text(request: SignInRequest, text: Seq<char>) -> bool {
    request matches SignInRequest::SendMessage { text: t, .. } && t@ == text
}

/// The markup `request` attaches, if it sends a message.
pub open spec fn attached(request: SignInRequest) -> Option<ReplyMarkup> {
    match request {
        SignInRequest::SendMessage { markup, .. } => markup,
        SignInRequest::GetMe => None,
    }
}

/// `step` asks for `request`-like work, continuing from `from` at `pending`.
pub open spec fn asks(step: SignInStep, from: UnauthorizedBox, pending: SignInPending) -> bool {
    step matches SignInStep::Perform(t, _) && t.from == from && t.pending == pending
}

/// The request of a step that asks for one.
pub open spec fn request_of(step: SignInStep) -> SignInRequest {
    match step {
        SignInStep::Perform(_, r) => r,
        SignInStep::Finished(_) => SignInRequest::GetMe,
    }
}

/// `step` asks to send the message that asks the user to sign in, with its keyboard.
pub open spec fn prompts_sign_in(step: SignInStep, from: UnauthorizedBox) -> bool {
    &&& asks(step, from, SignInPending::SignInPromptSent)
    &&& sends_text(request_of(step), sign_in_prompt_text())
    &&& attached(request_of(step)) matches Some(m) && is_sign_in_keyboard(m)
}

/// `step` fails for the user with `text`, staying in `from`.
pub open spec fn refuses(step: SignInStep, from: UnauthorizedBox, text: Seq<char>) -> bool {
    &&& step matches SignInStep::Finished(Err(f))
    &&& f.target == from
    &&& f.reason matches TransitionFailureReason::User(m) && m@ == text
}

/// `step` fails internally, staying in `from`.
pub open spec fn breaks(step: SignInStep, from: UnauthorizedBox) -> bool {
    &&& step matches SignInStep::Finished(Err(f))
    &&& f.target == from
    &&& f.reason is Internal
}

/// `step` ends in `state`.
pub open spec fn ends(step: SignInStep, state: SignInState) -> bool {
    step == SignInStep::Finished(Ok(state))
}

/// How a transition from `from` by `event` starts.
pub open spec fn sign_in_starts(from: UnauthorizedBox, event: SignInEvent, step: SignInStep) -> bool {
    match event {
        SignInEvent::Help => {
            &&& asks(step, from, SignInPending::HelpSent)
            &&& sends_text(request_of(step), help_text())
            &&& attached(request_of(step)) is None
        },
        SignInEvent::Start => match from {
            UnauthorizedBox::Default(_) => asks(step, from, SignInPending::FetchingMe) && request_of(
                step,
            ) == SignInRequest::GetMe,
            UnauthorizedBox::Start(_) => prompts_sign_in(step, from),
            UnauthorizedBox::SecretPhrasePrompt(_) => refuses(
                step,
                from,
                "Unavailable command in the current state."@,
            ),
        },
        SignInEvent::Cancel => match from {
            UnauthorizedBox::SecretPhrasePrompt(_) => prompts_sign_in(step, from),
            _ => refuses(step, from, "Unavailable command in the current state."@),
        },
        SignInEvent::SignIn => match from {
            UnauthorizedBox::Start(_) => {
                &&& asks(step, from, SignInPending::TokenPromptSent)
                &&& sends_text(request_of(step), admin_token_prompt_text())
                &&& attached(request_of(step)) == Some(ReplyMarkup::Remove)
            },
            _ => refuses(step, from, "Unexpected message in the current state."@),
        },
        SignInEvent::List => refuses(step, from, "Unexpected message in the current state."@),
        SignInEvent::Arbitrary(candidate) => match from {
            UnauthorizedBox::SecretPhrasePrompt(prompt) => if candidate@ == prompt.admin_token@ {
                &&& asks(step, from, SignInPending::SignedInSent)
                &&& sends_text(request_of(step), signed_in_text())
                &&& attached(request_of(step)) is None
            } else {
                refuses(step, from, invalid_token_text())
            },
            _ => refuses(step, from, "Unexpected message in the current state."@),
        },
    }
}

/// How a transition continues with `reply`.
pub open spec fn sign_in_continues(
    t: SignInTransition,
    reply: SignInReply,
    web_app_url: Seq<char>,
    step: SignInStep,
) -> bool {
    let from = t.from;
    let token = admin_token_of(from);
    match t.pending {
        SignInPending::FetchingMe => match reply {
            SignInReply::Me { full_name } => {
                &&& asks(step, from, SignInPending::WelcomeSent)
                &&& sends_text(request_of(step), welcome_text(full_name@))
                &&& attached(request_of(step)) is None
            },
            _ => breaks(step, from),
        },
        _ => if reply is Sent {
            match t.pending {
                SignInPending::HelpSent => ends(step, SignInState::Unauthorized(from)),
                SignInPending::WelcomeSent => prompts_sign_in(step, from),
                SignInPending::SignInPromptSent => ends(
                    step,
                    SignInState::Unauthorized(
                        UnauthorizedBox::Start(Unauthorized { admin_token: token, kind: Start }),
                    ),
                ),
                SignInPending::TokenPromptSent => ends(
                    step,
                    SignInState::Unauthorized(
                        UnauthorizedBox::SecretPhrasePrompt(
                            Unauthorized { admin_token: token, kind: SecretPhrasePrompt },
                        ),
                    ),
                ),
                SignInPending::SignedInSent => if url_joined(web_app_url, "/submit"@) is Some {
                    &&& asks(step, from, SignInPending::MainMenuSent)
                    &&& sends_text(request_of(step), main_menu_text())
                    &&& attached(request_of(step)) matches Some(m) && is_main_menu_keyboard(
                        m,
                        web_app_url,
                    )
                } else {
                    &&& breaks(step, from)
                    &&& step matches SignInStep::Finished(Err(f)) && f.reason matches TransitionFailureReason::Internal(
                        m,
                    ) && m@ == url_join_failure_text()
                },
                SignInPending::MainMenuSent => ends(
                    step,
                    SignInState::Authorized(Authorized { kind: MainMenu }),
                ),
                SignInPending::FetchingMe => false,
            }
        } else {
            breaks(step, from)
        },
    }
}

/// An unfinished transition that can only have come from [`start_sign_in`] and
/// [`SignInTransition::step`]: signing in is under way only from the admin token prompt.
pub open spec fn is_consistent(t: SignInTransition) -> bool {
    (t.pending == SignInPending::SignedInSent || t.pending == SignInPending::MainMenuSent)
        ==> t.from is SecretPhrasePrompt
}

fn refuse(from: UnauthorizedBox, text: &str) -> (step: SignInStep)
    ensures
        refuses(step, from, text@),
{
    SignInStep::Finished(Err(SignInFailure { target: from, reason: TransitionFailureReason::User(owned(text)) }))
}

fn fail_internally(from: UnauthorizedBox, text: String) -> (step: SignInStep)
    ensures
        breaks(step, from),
        step matches SignInStep::Finished(Err(f)) && f.reason == TransitionFailureReason::Internal(text),
{
    SignInStep::Finished(Err(SignInFailure { target: from, reason: TransitionFailureReason::Internal(text) }))
}

fn sign_in_keyboard() -> (markup: ReplyMarkup)
    ensures
        is_sign_in_keyboard(markup),
{
    let mut row = Vec::new();
    row.push(KeyboardButton { text: owned("🔐 Sign in"), web_app: None });
    let mut rows = Vec::new();
    rows.push(row);
    ReplyMarkup::Keyboard { rows, resize: true }
}

fn prompt_sign_in(from: UnauthorizedBox) -> (step: SignInStep)
    ensures
        prompts_sign_in(step, from),
        step matches SignInStep::Perform(t, _) && is_consistent(t),
{
    SignInStep::Perform(
        SignInTransition { from, pending: SignInPending::SignInPromptSent },
        SignInRequest::SendMessage { text: sign_in_prompt(), markup: Some(sign_in_keyboard()) },
    )
}

/// Start a transition from `from` by `event`.
pub fn start_sign_in(from: UnauthorizedBox, event: SignInEvent) -> (step: SignInStep)
    ensures
        sign_in_starts(from, event, step),
        step matches SignInStep::Perform(t, _) ==> is_consistent(t),
{
    match event {
        SignInEvent::Help => SignInStep::Perform(
            SignInTransition { from, pending: SignInPending::HelpSent },
            SignInRequest::SendMessage { text: Command::descriptions(), markup: None },
        ),
        SignInEvent::Start => match from {
            UnauthorizedBox::Default(_) => SignInStep::Perform(
                SignInTransition { from, pending: SignInPending::FetchingMe },
                SignInRequest::GetMe,
            ),
            UnauthorizedBox::Start(_) => prompt_sign_in(from),
            UnauthorizedBox::SecretPhrasePrompt(_) => refuse(
                from,
                "Unavailable command in the current state.",
            ),
        },
        SignInEvent::Cancel => match from {
            UnauthorizedBox::SecretPhrasePrompt(_) => prompt_sign_in(from),
            _ => refuse(from, "Unavailable command in the current state."),
        },
        SignInEvent::SignIn => match from {
            UnauthorizedBox::Start(_) => SignInStep::Perform(
                SignInTransition { from, pending: SignInPending::TokenPromptSent },
                SignInRequest::SendMessage { text: admin_token_prompt(), markup: Some(ReplyMarkup::Remove) },
            ),
            _ => refuse(from, "Unexpected message in the current state."),
        },
        SignInEvent::List => refuse(from, "Unexpected message in the current state."),
        SignInEvent::Arbitrary(candidate) => match from {
            UnauthorizedBox::SecretPhrasePrompt(prompt) => {
                if str_eq(candidate.as_str(), prompt.admin_token.as_str()) {
                    SignInStep::Perform(
                        SignInTransition {
                            from: UnauthorizedBox::SecretPhrasePrompt(prompt),
                            pending: SignInPending::SignedInSent,
                        },
                        SignInRequest::SendMessage { text: signed_in(), markup: None },
                    )
                } else {
                    refuse(UnauthorizedBox::SecretPhrasePrompt(prompt), "❎ Invalid token. Please, try again.")
                }
            },
            _ => refuse(from, "Unexpected message in the current state."),
        },
    }
}

/// Description of a reply that was not the one expected.
fn describe(reply: SignInReply) -> (text: String)
    ensures
        reply matches SignInReply::Failed(d) ==> text == d,
{
    match reply {
        SignInReply::Failed(description) => description,
        _ => owned("Unexpected reply to the request."),
    }
}

impl SignInTransition {
    /// Continue the transition with the reply to its last request.
    pub fn step(self, reply: SignInReply, web_app_url: &str) -> (step: SignInStep)
        requires
            is_consistent(self),
        ensures
            sign_in_continues(self, reply, web_app_url@, step),
            step matches SignInStep::Perform(t, _) ==> is_consistent(t),
    {
        let from = self.from;
        match self.pending {
            SignInPending::FetchingMe => match reply {
                SignInReply::Me { full_name } => SignInStep::Perform(
                    SignInTransition { from, pending: SignInPending::WelcomeSent },
                    SignInRequest::SendMessage { text: welcome(full_name.as_str()), markup: None },
                ),
                _ => fail_internally(from, describe(reply)),
            },
            pending => {
                let sent = match reply {
                    SignInReply::Sent => true,
                    _ => false,
                };
                if !sent {
                    return fail_internally(from, describe(reply));
                }
                match pending {
                    SignInPending::HelpSent => SignInStep::Finished(Ok(SignInState::Unauthorized(from))),
                    SignInPending::WelcomeSent => prompt_sign_in(from),
                    SignInPending::SignInPromptSent => {
                        let token = take_token(from);
                        SignInStep::Finished(
                            Ok(
                                SignInState::Unauthorized(
                                    UnauthorizedBox::Start(Unauthorized { admin_token: token, kind: Start }),
                                ),
                            ),
                        )
                    },
                    SignInPending::TokenPromptSent => {
                        let token = take_token(from);
                        SignInStep::Finished(
                            Ok(
                                SignInState::Unauthorized(
                                    UnauthorizedBox::SecretPhrasePrompt(
                                        Unauthorized { admin_token: token, kind: SecretPhrasePrompt },
                                    ),
                                ),
                            ),
                        )
                    },
                    SignInPending::SignedInSent => match main_menu_keyboard(web_app_url) {
                        Some(markup) => SignInStep::Perform(
                            SignInTransition { from, pending: SignInPending::MainMenuSent },
                            SignInRequest::SendMessage {
                                text: owned("🏠 Welcome to the main menu."),
                                markup: Some(markup),
                            },
                        ),
                        None => fail_internally(from, owned("Failed to join Web App url with `/show`")),
                    },
                    SignInPending::MainMenuSent => SignInStep::Finished(
                        Ok(SignInState::Authorized(Authorized::<MainMenu>::main_menu())),
                    ),
                    SignInPending::FetchingMe => fail_internally(from, describe(reply)),
                }
            },
        }
    }
}

/// The admin token of an unauthorized state, taken out of it.
fn take_token(state: UnauthorizedBox) -> (token: String)
    ensures
        token == admin_token_of(state),
{
    match state {
        UnauthorizedBox::Default(s) => s.admin_token,
        UnauthorizedBox::Start(s) => s.admin_token,
        UnauthorizedBox::SecretPhrasePrompt(s) => s.admin_token,
    }
}

/// A failed transition leaves the dialogue in the state it started from, both when it
/// fails at once and when it fails on a reply.
pub proof fn law_sign_in_failure_keeps_state(
    from: UnauthorizedBox,
    event: SignInEvent,
    first: SignInStep,
    t: SignInTransition,
    reply: SignInReply,
    web_app_url: Seq<char>,
    next: SignInStep,
)
    requires
        sign_in_starts(from, event, first),
        sign_in_continues(t, reply, web_app_url, next),
    ensures
        first matches SignInStep::Finished(Err(f)) ==> f.target == from,
        next matches SignInStep::Finished(Err(f)) ==> f.target == t.from,
{
}

/// No unauthorized transition changes the admin token, and `/help` keeps the state.
pub proof fn law_sign_in_keeps_admin_token(
    t: SignInTransition,
    reply: SignInReply,
    web_app_url: Seq<char>,
    next: SignInStep,
)
    requires
        sign_in_continues(t, reply, web_app_url, next),
    ensures
        next matches SignInStep::Finished(Ok(SignInState::Unauthorized(s))) ==> admin_token_of(s)
            == admin_token_of(t.from),
        t.pending == SignInPending::HelpSent ==> (next matches SignInStep::Finished(Ok(s)) ==> s
            == SignInState::Unauthorized(t.from)),
{
}

/// The dialogue is authorized only at the end of a transition that started from the admin
/// token prompt by a message equal to the admin token.
pub proof fn law_authorized_only_by_admin_token(
    from: UnauthorizedBox,
    event: SignInEvent,
    first: SignInStep,
    t: SignInTransition,
    reply: SignInReply,
    web_app_url: Seq<char>,
    next: SignInStep,
)
    requires
        sign_in_starts(from, event, first),
        sign_in_continues(t, reply, web_app_url, next),
    ensures
        (first matches SignInStep::Perform(t1, _) && t1.pending == SignInPending::SignedInSent) ==> (
        from matches UnauthorizedBox::SecretPhrasePrompt(prompt) && event matches SignInEvent::Arbitrary(
            candidate,
        ) && candidate@ == prompt.admin_token@),
        next matches SignInStep::Finished(Ok(SignInState::Authorized(_))) ==> t.pending
            == SignInPending::MainMenuSent,
        (next matches SignInStep::Perform(t2, _) && t2.pending == SignInPending::MainMenuSent)
            ==> t.pending == SignInPending::SignedInSent,
{
}

} // verus!
