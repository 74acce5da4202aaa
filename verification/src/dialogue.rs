//! The dialogue's transitions: how an event moves the dialogue from one state to another.
//!
//! A transition is a short conversation with the outside world. [`start`] reads the state and
//! the event and either finishes at once or asks for a first [`Request`] (send a message, ask
//! the password storage, ...). Whoever performs the request hands the [`Reply`] to
//! [`Transition::step`], which finishes or asks for the next request, and so on. A finished
//! transition gives the new state, or a [`FailedTransition`] holding the state the dialogue
//! stays in and the reason.

use crate::button::ButtonBox;
use crate::command::Command;
use crate::data_model::NewRecord;
use crate::grpc::{Record, Resource};
use crate::keyboard::{
    actions_keyboard, confirmation_keyboard, is_actions_keyboard, is_confirmation_keyboard,
    is_main_menu_keyboard, is_resources_keyboard, main_menu_keyboard, resources_keyboard,
    show_query, url_joined, ReplyMarkup,
};
use crate::markdown::{bold, emboldened, escape, escaped};
use crate::message::{add_text, MessageBox, MessageId};
use crate::state::{
    DeleteConfirmation, DisplayedResourceData, MainMenu, ResourceActions, ResourcesList, State,
};
use crate::text::{join, owned, str_eq, strip_prefix, without_prefix};
use vstd::prelude::*;

verus! {

/// Something that happened in the chat and may move the dialogue.
#[derive(Debug, Clone)]
pub enum Event {
    /// The user sent a command.
    Command(Command),
    /// The user sent a message.
    Message(MessageBox),
    /// The user pressed an inline button.
    Button(ButtonBox),
}

/// Kind of an event, without its content.
#[derive(Debug, Copy, Clone, PartialEq, Eq, Structural)]
pub enum EventKind {
    Help,
    Start,
    Cancel,
    WebApp,
    Add,
    List,
    Arbitrary,
    Delete,
    Yes,
    No,
    Show,
}

/// Kind of a state, without its content.
#[derive(Debug, Copy, Clone, PartialEq, Eq, Structural)]
pub enum StateKind {
    Default,
    MainMenu,
    ResourcesList,
    ResourceActions,
    DeleteConfirmation,
}

/// Kind of an event.
pub open spec fn event_kind(event: Event) -> EventKind {
    match event {
        Event::Command(Command::Help(_)) => EventKind::Help,
        Event::Command(Command::Start(_)) => EventKind::Start,
        Event::Command(Command::Cancel(_)) => EventKind::Cancel,
        Event::Message(MessageBox::WebApp(_)) => EventKind::WebApp,
        Event::Message(MessageBox::Add(_)) => EventKind::Add,
        Event::Message(MessageBox::List(_)) => EventKind::List,
        Event::Message(MessageBox::Arbitrary(_)) => EventKind::Arbitrary,
        Event::Button(ButtonBox::Delete(_)) => EventKind::Delete,
        Event::Button(ButtonBox::Yes(_)) => EventKind::Yes,
        Event::Button(ButtonBox::No(_)) => EventKind::No,
        Event::Button(ButtonBox::Show(_)) => EventKind::Show,
    }
}

/// Kind of a state.
pub open spec fn state_kind(state: State) -> StateKind {
    match state {
        State::Default(_) => StateKind::Default,
        State::MainMenu(_) => StateKind::MainMenu,
        State::ResourcesList(_) => StateKind::ResourcesList,
        State::ResourceActions(_) => StateKind::ResourceActions,
        State::DeleteConfirmation(_) => StateKind::DeleteConfirmation,
    }
}

/// The edges of the dialogue: a successful transition from a state of kind `from` by an
/// event of kind `by` ends in a state of kind `to`.
pub open spec fn is_edge(from: StateKind, by: EventKind, to: StateKind) -> bool {
    ||| by == EventKind::Help && to == from
    ||| from == StateKind::Default && by == EventKind::Start && to == StateKind::MainMenu
    ||| from == StateKind::ResourcesList && by == EventKind::Cancel && to == StateKind::MainMenu
    ||| from == StateKind::ResourceActions && by == EventKind::Cancel && to
        == StateKind::ResourcesList
    ||| from == StateKind::DeleteConfirmation && by == EventKind::Cancel && to
        == StateKind::ResourcesList
    ||| from == StateKind::MainMenu && by == EventKind::List && to == StateKind::ResourcesList
    ||| from == StateKind::MainMenu && by == EventKind::WebApp && to == StateKind::MainMenu
    ||| from == StateKind::ResourcesList && by == EventKind::Arbitrary && (to
        == StateKind::ResourceActions || to == StateKind::ResourcesList)
    ||| from == StateKind::ResourceActions && by == EventKind::Delete && to
        == StateKind::DeleteConfirmation
    ||| from == StateKind::DeleteConfirmation && by == EventKind::Yes && to == StateKind::MainMenu
    ||| from == StateKind::DeleteConfirmation && by == EventKind::No && to
        == StateKind::ResourceActions
}

/// Reason of a failed transition.
#[derive(Debug, Clone, PartialEq, Eq)]
pub enum TransitionFailureReason {
    /// User mistake; the text is shown to the user.
    User(String),
    /// Internal error; the text describes it.
    Internal(String),
}

/// A failed transition: the state the dialogue stays in and the reason of failure.
#[derive(Debug, Clone)]
pub struct FailedTransition {
    /// State of the dialogue after the failure.
    pub target: State,
    /// Failure reason.
    pub reason: TransitionFailureReason,
}

impl TransitionFailureReason {
    /// A user mistake, shown to the user as `reason`.
    pub fn user(reason: &str) -> (r: Self)
        ensures
            r matches TransitionFailureReason::User(m) && m@ == reason@,
    {
        TransitionFailureReason::User(owned(reason))
    }

    /// An internal error described by `reason`.
    pub fn internal(reason: String) -> (r: Self)
        ensures
            r == TransitionFailureReason::Internal(reason),
    {
        TransitionFailureReason::Internal(reason)
    }
}

impl FailedTransition {
    /// A failure by a user mistake, shown as `reason`, staying in `target`.
    pub fn user(target: State, reason: &str) -> (failed: Self)
        ensures
            failed.target == target,
            failed.reason matches TransitionFailureReason::User(m) && m@ == reason@,
    {
        FailedTransition { target, reason: TransitionFailureReason::user(reason) }
    }

    /// A failure by an internal error described by `reason`, staying in `target`.
    pub fn internal(target: State, reason: String) -> (failed: Self)
        ensures
            failed.target == target,
            failed.reason == TransitionFailureReason::Internal(reason),
    {
        FailedTransition { target, reason: TransitionFailureReason::internal(reason) }
    }
}

/// The message shown to the user after a failed transition: the user mistake's own text,
/// or, for an internal error, a notice to look at the server logs.
pub open spec fn failure_notice(reason: TransitionFailureReason) -> Seq<char> {
    match reason {
        TransitionFailureReason::User(text) => text@,
        TransitionFailureReason::Internal(_) => "Internal error occurred, check the server logs."@,
    }
}

impl TransitionFailureReason {
    /// The message shown to the user for this failure.
    pub fn notice(&self) -> (text: String)
        ensures
            text@ == failure_notice(*self),
    {
        match self {
            TransitionFailureReason::User(text) => owned(text.as_str()),
            TransitionFailureReason::Internal(_) => owned(
                "Internal error occurred, check the server logs.",
            ),
        }
    }
}

/// Something the outside world is asked to do for a transition.
#[derive(Debug, Clone)]
pub enum Request {
    /// Send a message to the chat.
    SendMessage {
        /// Text of the message.
        text: String,
        /// Whether the text is in `MarkdownV2`.
        markdown: bool,
        /// Markup attached to the message.
        markup: Option<ReplyMarkup>,
    },
    /// Replace the text of a sent message (in `MarkdownV2`).
    EditMessageText {
        /// The message to edit.
        message_id: MessageId,
        /// New text.
        text: String,
    },
    /// Replace the inline keyboard of a sent message.
    EditMessageReplyMarkup {
        /// The message to edit.
        message_id: MessageId,
        /// New keyboard.
        markup: ReplyMarkup,
    },
    /// Delete a message from the chat.
    DeleteMessage(MessageId),
    /// Ask the storage for the names of all stored resources.
    ListResources,
    /// Ask the storage to store a record.
    AddRecord(Record),
    /// Ask the storage for the record of a resource.
    GetRecord(Resource),
    /// Ask the storage for resources matching a query.
    SearchResources(Resource),
    /// Ask the storage to delete the record of a resource.
    DeleteRecord(Resource),
}

/// The outcome of a [`Request`].
#[derive(Debug, Clone)]
pub enum Reply {
    /// A message was sent or edited; holds its id.
    MessageSent(MessageId),
    /// A message was deleted, or the storage stored or deleted a record.
    Done,
    /// The storage returned a record.
    Record(Record),
    /// The storage returned resource names.
    Resources(Vec<String>),
    /// The storage has no record of the requested resource.
    NotFound,
    /// The request failed; holds a description of the error.
    Failed(String),
}

/// Where an unfinished transition stands: what the last request was for.
#[derive(Debug, Clone)]
pub enum Pending {
    /// The help text was sent.
    HelpSent,
    /// The main menu was sent; `destroy` if the previous state's messages are to be deleted.
    MainMenuShown { destroy: bool },
    /// The stored resources were requested.
    Listing { destroy: bool },
    /// The list of resources was sent.
    ListShown { destroy: bool },
    /// A record was sent to the storage.
    RecordAdded,
    /// The record of a resource was requested.
    Fetching {
        /// The user's message naming the resource.
        request_id: MessageId,
        /// The resource name.
        name: String,
    },
    /// A search for resources was requested.
    Searching {
        /// The search query.
        name: String,
    },
    /// The search results were sent.
    SearchShown,
    /// The `/cancel` hint was sent for a fetched record.
    CancelHintShown {
        /// The fetched record.
        record: Record,
        /// The user's message naming the resource.
        request_id: MessageId,
        /// The resource name.
        name: String,
        /// Actions keyboard of the record.
        keyboard: ReplyMarkup,
    },
    /// The actions message was sent for a fetched record.
    ActionsShown {
        /// The fetched record.
        record: Record,
        /// The user's message naming the resource.
        request_id: MessageId,
        /// The `/cancel` hint message.
        cancel_id: MessageId,
        /// The resource name.
        name: String,
    },
    /// The resource message now asks to confirm the deletion.
    DeletePromptShown,
    /// The resource message now has the confirmation buttons.
    ConfirmationShown,
    /// The deletion was sent to the storage.
    Deleting,
    /// The notice about the deletion was sent.
    DeletionNoticeShown,
    /// The resource message shows the actions text again.
    ActionsTextRestored {
        /// Actions keyboard of the record.
        keyboard: ReplyMarkup,
    },
    /// The resource message has the actions buttons again.
    ActionsRestored,
    /// The transition succeeded with `next`; the previous state's messages are being deleted
    /// and `deleted` of them have been asked for.
    Cleanup { next: State, deleted: usize },
}

/// An unfinished transition.
#[derive(Debug, Clone)]
pub struct Transition {
    /// The state the transition started from.
    pub from: State,
    /// The kind of the event that started it.
    pub by: EventKind,
    /// Where it stands.
    pub pending: Pending,
}

/// The result of starting or continuing a transition.
#[derive(Debug)]
pub enum Step {
    /// Perform the request and continue the transition with the reply.
    Perform(Transition, Request),
    /// The transition is over.
    Finished(Result<State, FailedTransition>),
}

/// Text sent on `/help`.
pub open spec fn help_text() -> Seq<char> {
    "These commands are supported:\n\n/help — display this text\n/start — command to start the bot\n/cancel — cancel current operation"@
}

/// Text of the main menu message.
pub open spec fn main_menu_text() -> Seq<char> {
    "🏠 Welcome to the main menu."@
}

/// Text of the resources list message.
pub open spec fn list_prompt_text() -> Seq<char> {
    "👉 Choose a resource or type for search.\n\nType /cancel to go back."@
}

/// Text of the search results message.
pub open spec fn search_prompt_text() -> Seq<char> {
    "👉 The following resources were found, choose one of them or type for a new search.\n\nType /cancel to go back."@
}

/// Text of the `/cancel` hint.
pub open spec fn cancel_hint_text() -> Seq<char> {
    "Type /cancel to go back."@
}

/// Prefix of the resource buttons.
pub open spec fn key_prefix() -> Seq<char> {
    "🔑 "@
}

/// Text of the message with the actions for a resource (`MarkdownV2`).
pub open spec fn choose_action_text(name: Seq<char>) -> Seq<char> {
    "🔑 "@ + emboldened(escaped(name)) + "\n\nChoose an action:"@
}

/// Text asking to confirm the deletion of a resource (`MarkdownV2`).
pub open spec fn delete_prompt_text(name: Seq<char>) -> Seq<char> {
    "🗑 Delete "@ + emboldened(escaped(name)) + " forever?"@
}

/// Text telling that a resource was deleted (`MarkdownV2`).
pub open spec fn deleted_text(name: Seq<char>) -> Seq<char> {
    "✅ "@ + emboldened(escaped(name)) + " deleted\\."@
}

/// User failure: command not available in the state.
pub open spec fn unavailable_command_text() -> Seq<char> {
    "Unavailable command in the current state."@
}

/// User failure: message not expected in the state.
pub open spec fn unexpected_message_text() -> Seq<char> {
    "Unexpected message in the current state."@
}

/// User failure: button not expected in the state.
pub open spec fn unexpected_button_text() -> Seq<char> {
    "Unexpected button action in the current state."@
}

/// User failure: Web App data from another button than "Add".
pub open spec fn unexpected_web_app_text() -> Seq<char> {
    "Unexpected WebApp button text."@
}

/// User failure: Web App data that is not a new record.
pub open spec fn invalid_record_text() -> Seq<char> {
    "Failed to parse a new record, your Telegram Client is probably invalid."@
}

/// User failure: nothing stored.
pub open spec fn nothing_stored_text() -> Seq<char> {
    "❎ There are no stored passwords yet."@
}

/// User failure: nothing found.
pub open spec fn nothing_found_text() -> Seq<char> {
    "❎ No passwords found for a given query."@
}

/// Internal failure: the Web App URL cannot be joined with a page.
pub open spec fn url_join_failure_text() -> Seq<char> {
    "Failed to join Web App url with `/show`"@
}

/// Internal failure: a fetched record without a resource.
pub open spec fn missing_resource_text() -> Seq<char> {
    "Record doesn't contain a resource"@
}

/// Internal failure: listing failed.
pub open spec fn list_failure_text() -> Seq<char> {
    "Failed to retrieve the list of stored passwords"@
}

/// Internal failure: searching failed.
pub open spec fn search_failure_text(name: Seq<char>) -> Seq<char> {
    "Failed to search for `"@ + name + "`"@
}

/// Description of a failed reply.
pub open spec fn failure_text(reply: Reply) -> Seq<char> {
    match reply {
        Reply::Failed(description) => description@,
        _ => "Unexpected reply to the request."@,
    }
}

/// The reply reports a sent or edited message.
pub open spec fn is_sent(reply: Reply) -> bool {
    reply is MessageSent
}

/// The state shows messages of a resource.
pub open spec fn displays_resource(state: State) -> bool {
    state is ResourceActions || state is DeleteConfirmation
}

/// Messages shown for the resource of the state.
pub open spec fn displayed(state: State) -> DisplayedResourceData {
    match state {
        State::ResourceActions(s) => s.displayed_resource_data,
        State::DeleteConfirmation(s) => s.displayed_resource_data,
        _ => arbitrary(),
    }
}

/// Ids of the messages shown for the resource of the state, in the order they are deleted.
pub open spec fn displayed_ids(state: State) -> Seq<MessageId> {
    let d = displayed(state);
    seq![d.resource_request_message_id, d.cancel_message_id, d.resource_message_id]
}

/// The step finishes with the state `state`.
pub open spec fn finishes_with(step: Step, state: State) -> bool {
    step matches Step::Finished(Ok(s)) && s == state
}

/// The step fails with a user mistake described by `text`, staying in `from`.
pub open spec fn fails_for_user(step: Step, from: State, text: Seq<char>) -> bool {
    &&& step matches Step::Finished(Err(f))
    &&& f.target == from
    &&& f.reason matches TransitionFailureReason::User(m)
    &&& m@ == text
}

/// The step fails with an internal error described by `text`, staying in `from`.
pub open spec fn fails_internally(step: Step, from: State, text: Seq<char>) -> bool {
    &&& step matches Step::Finished(Err(f))
    &&& f.target == from
    &&& f.reason matches TransitionFailureReason::Internal(m)
    &&& m@ == text
}

/// The step asks for `request` and continues from `from`, started by `by`.
pub open spec fn performs(step: Step, from: State, by: EventKind) -> bool {
    step matches Step::Perform(t, _) && t.from == from && t.by == by
}

/// The pending part of a step that performs a request.
pub open spec fn pending_of(step: Step) -> Pending {
    match step {
        Step::Perform(t, _) => t.pending,
        _ => arbitrary(),
    }
}

/// The request of a step that performs one.
pub open spec fn request_of(step: Step) -> Request {
    match step {
        Step::Perform(_, r) => r,
        _ => arbitrary(),
    }
}

/// The request sends `text` with the given markdown flag.
pub open spec fn sends(request: Request, text: Seq<char>, markdown: bool) -> bool {
    request matches Request::SendMessage { text: t, markdown: md, .. } && t@ == text && md
        == markdown
}

/// Markup of a send request.
pub open spec fn markup_of(request: Request) -> Option<ReplyMarkup> {
    match request {
        Request::SendMessage { markup, .. } => markup,
        _ => None,
    }
}

/// The step shows the main menu after a transition from `from` by `by`; the previous state's
/// messages are deleted afterwards when `destroy`.
pub open spec fn shows_main_menu(
    step: Step,
    from: State,
    by: EventKind,
    destroy: bool,
    web_app_url: Seq<char>,
) -> bool {
    if url_joined(web_app_url, "/submit"@) is Some {
        &&& performs(step, from, by)
        &&& pending_of(step) == Pending::MainMenuShown { destroy }
        &&& sends(request_of(step), main_menu_text(), false)
        &&& markup_of(request_of(step)) matches Some(m) && is_main_menu_keyboard(m, web_app_url)
    } else {
        fails_internally(step, from, url_join_failure_text())
    }
}

/// The step asks the storage for all resources.
pub open spec fn lists_resources(step: Step, from: State, by: EventKind, destroy: bool) -> bool {
    &&& performs(step, from, by)
    &&& pending_of(step) == Pending::Listing { destroy }
    &&& request_of(step) is ListResources
}

/// How the dialogue starts a transition from `state` by `event`. `record` is what the data of
/// a Web App event reads as, when it is a new record.
pub open spec fn starts(
    state: State,
    event: Event,
    record: Option<NewRecord>,
    web_app_url: Seq<char>,
    step: Step,
) -> bool {
    let by = event_kind(event);
    match event {
        Event::Command(Command::Help(_)) => {
            &&& performs(step, state, by)
            &&& pending_of(step) == Pending::HelpSent
            &&& sends(request_of(step), help_text(), false)
            &&& markup_of(request_of(step)) is None
        },
        Event::Command(Command::Start(_)) => if state is Default {
            shows_main_menu(step, state, by, false, web_app_url)
        } else {
            fails_for_user(step, state, unavailable_command_text())
        },
        Event::Command(Command::Cancel(_)) => if state is ResourcesList {
            shows_main_menu(step, state, by, false, web_app_url)
        } else if displays_resource(state) {
            lists_resources(step, state, by, true)
        } else {
            fails_for_user(step, state, unavailable_command_text())
        },
        Event::Message(MessageBox::List(_)) => if state is MainMenu {
            lists_resources(step, state, by, false)
        } else {
            fails_for_user(step, state, unexpected_message_text())
        },
        Event::Message(MessageBox::WebApp(m)) => if state is MainMenu {
            if m.kind.0.button_text@ != add_text() {
                fails_for_user(step, state, unexpected_web_app_text())
            } else {
                match record {
                    None => fails_for_user(step, state, invalid_record_text()),
                    Some(r) => {
                        &&& performs(step, state, by)
                        &&& pending_of(step) == Pending::RecordAdded
                        &&& request_of(step) matches Request::AddRecord(added)
                        &&& added.resource == Some(Resource { name: r.resource_name })
                        &&& added.encrypted_payload == r.encryption_output.encrypted_payload
                        &&& added.salt@ == r.encryption_output.salt@
                    },
                }
            }
        } else {
            fails_for_user(step, state, unexpected_message_text())
        },
        Event::Message(MessageBox::Arbitrary(m)) => if state is ResourcesList {
            &&& performs(step, state, by)
            &&& pending_of(step) matches Pending::Fetching { request_id, name }
            &&& request_id == m.id
            &&& name@ == without_prefix(m.kind.0@, key_prefix())
            &&& request_of(step) matches Request::GetRecord(resource)
            &&& resource.name@ == name@
        } else {
            fails_for_user(step, state, unexpected_message_text())
        },
        Event::Message(_) => fails_for_user(step, state, unexpected_message_text()),
        Event::Button(ButtonBox::Delete(_)) => if state is ResourceActions {
            &&& performs(step, state, by)
            &&& pending_of(step) == Pending::DeletePromptShown
            &&& request_of(step) matches Request::EditMessageText { message_id, text }
            &&& message_id == displayed(state).resource_message_id
            &&& text@ == delete_prompt_text(displayed(state).resource_name@)
        } else {
            fails_for_user(step, state, unexpected_button_text())
        },
        Event::Button(ButtonBox::Yes(_)) => if state is DeleteConfirmation {
            &&& performs(step, state, by)
            &&& pending_of(step) == Pending::Deleting
            &&& request_of(step) matches Request::DeleteRecord(resource)
            &&& resource.name == displayed(state).resource_name
        } else {
            fails_for_user(step, state, unexpected_button_text())
        },
        Event::Button(ButtonBox::No(_)) => match state {
            State::DeleteConfirmation(dc) => if url_joined(web_app_url, show_query(dc.record)) is Some {
                &&& performs(step, state, by)
                &&& pending_of(step) matches Pending::ActionsTextRestored { keyboard }
                &&& is_actions_keyboard(keyboard, dc.record, web_app_url)
                &&& request_of(step) matches Request::EditMessageText { message_id, text }
                &&& message_id == displayed(state).resource_message_id
                &&& text@ == choose_action_text(displayed(state).resource_name@)
            } else {
                fails_internally(step, state, url_join_failure_text())
            },
            _ => fails_for_user(step, state, unexpected_button_text()),
        },
        Event::Button(ButtonBox::Show(_)) => fails_for_user(step, state, unexpected_button_text()),
    }
}

/// The transition `t` ends successfully in `next`: at once, or, when the messages of the
/// state it leaves are to be deleted, after asking to delete the first of them.
pub open spec fn ends_in(step: Step, t: Transition, next: State, destroy: bool) -> bool {
    if destroy {
        &&& performs(step, t.from, t.by)
        &&& pending_of(step) == Pending::Cleanup { next, deleted: 1 }
        &&& request_of(step) == Request::DeleteMessage(displayed_ids(t.from)[0])
    } else {
        finishes_with(step, next)
    }
}

/// How the transition `t` continues after `reply`.
pub open spec fn continues(t: Transition, reply: Reply, web_app_url: Seq<char>, step: Step) -> bool {
    let from = t.from;
    let by = t.by;
    match t.pending {
        Pending::HelpSent => if is_sent(reply) {
            finishes_with(step, from)
        } else {
            fails_internally(step, from, failure_text(reply))
        },
        Pending::MainMenuShown { destroy } => if is_sent(reply) {
            ends_in(step, t, State::MainMenu(MainMenu(())), destroy)
        } else {
            fails_internally(step, from, failure_text(reply))
        },
        Pending::Listing { destroy } => match reply {
            Reply::Resources(names) => if names@.len() == 0 {
                fails_for_user(step, from, nothing_stored_text())
            } else {
                &&& performs(step, from, by)
                &&& pending_of(step) == Pending::ListShown { destroy }
                &&& sends(request_of(step), list_prompt_text(), false)
                &&& markup_of(request_of(step)) matches Some(m) && is_resources_keyboard(
                    m,
                    names@,
                )
            },
            _ => fails_internally(step, from, list_failure_text()),
        },
        Pending::ListShown { destroy } => if is_sent(reply) {
            ends_in(step, t, State::ResourcesList(ResourcesList(())), destroy)
        } else {
            fails_internally(step, from, failure_text(reply))
        },
        Pending::RecordAdded => if reply is Done {
            finishes_with(step, from)
        } else {
            fails_internally(step, from, failure_text(reply))
        },
        Pending::Fetching { request_id, name } => match reply {
            Reply::Record(record) => if url_joined(web_app_url, show_query(record)) is None {
                fails_internally(step, from, url_join_failure_text())
            } else if record.resource is None {
                fails_internally(step, from, missing_resource_text())
            } else {
                &&& performs(step, from, by)
                &&& pending_of(step) matches Pending::CancelHintShown {
                    record: r,
                    request_id: q,
                    name: n,
                    keyboard,
                }
                &&& r == record
                &&& q == request_id
                &&& Some(Resource { name: n }) == record.resource
                &&& is_actions_keyboard(keyboard, record, web_app_url)
                &&& sends(request_of(step), cancel_hint_text(), false)
                &&& markup_of(request_of(step)) == Some(ReplyMarkup::Remove)
            },
            Reply::NotFound => {
                &&& performs(step, from, by)
                &&& pending_of(step) matches Pending::Searching { name: n }
                &&& n@ == name@
                &&& request_of(step) matches Request::SearchResources(resource)
                &&& resource.name@ == name@
            },
            _ => fails_internally(step, from, failure_text(reply)),
        },
        Pending::Searching { name } => match reply {
            Reply::Resources(names) => if names@.len() == 0 {
                fails_for_user(step, from, nothing_found_text())
            } else {
                &&& performs(step, from, by)
                &&& pending_of(step) == Pending::SearchShown
                &&& sends(request_of(step), search_prompt_text(), false)
                &&& markup_of(request_of(step)) matches Some(m) && is_resources_keyboard(
                    m,
                    names@,
                )
            },
            _ => fails_internally(step, from, search_failure_text(name@)),
        },
        Pending::SearchShown => if is_sent(reply) {
            finishes_with(step, State::ResourcesList(ResourcesList(())))
        } else {
            fails_internally(step, from, failure_text(reply))
        },
        Pending::CancelHintShown { record, request_id, name, keyboard } => match reply {
            Reply::MessageSent(cancel_id) => {
                &&& performs(step, from, by)
                &&& pending_of(step) == Pending::ActionsShown { record, request_id, cancel_id, name }
                &&& sends(request_of(step), choose_action_text(name@), true)
                &&& markup_of(request_of(step)) == Some(keyboard)
            },
            _ => fails_internally(step, from, failure_text(reply)),
        },
        Pending::ActionsShown { record, request_id, cancel_id, name } => match reply {
            Reply::MessageSent(resource_id) => finishes_with(
                step,
                State::ResourceActions(
                    ResourceActions {
                        record,
                        displayed_resource_data: DisplayedResourceData {
                            resource_request_message_id: request_id,
                            cancel_message_id: cancel_id,
                            resource_message_id: resource_id,
                            resource_name: name,
                        },
                    },
                ),
            ),
            _ => fails_internally(step, from, failure_text(reply)),
        },
        Pending::DeletePromptShown => if is_sent(reply) {
            &&& performs(step, from, by)
            &&& pending_of(step) == Pending::ConfirmationShown
            &&& request_of(step) matches Request::EditMessageReplyMarkup { message_id, markup }
            &&& message_id == displayed(from).resource_message_id
            &&& is_confirmation_keyboard(markup)
        } else {
            fails_internally(step, from, failure_text(reply))
        },
        Pending::ConfirmationShown => if is_sent(reply) {
            match from {
                State::ResourceActions(ra) => finishes_with(
                    step,
                    State::DeleteConfirmation(
                        DeleteConfirmation {
                            record: ra.record,
                            displayed_resource_data: ra.displayed_resource_data,
                        },
                    ),
                ),
                _ => false,
            }
        } else {
            fails_internally(step, from, failure_text(reply))
        },
        Pending::Deleting => if reply is Done {
            &&& performs(step, from, by)
            &&& pending_of(step) == Pending::DeletionNoticeShown
            &&& sends(request_of(step), deleted_text(displayed(from).resource_name@), true)
            &&& markup_of(request_of(step)) is None
        } else {
            fails_internally(step, from, failure_text(reply))
        },
        Pending::DeletionNoticeShown => if is_sent(reply) {
            shows_main_menu(step, from, by, true, web_app_url)
        } else {
            fails_internally(step, from, failure_text(reply))
        },
        Pending::ActionsTextRestored { keyboard } => if is_sent(reply) {
            &&& performs(step, from, by)
            &&& pending_of(step) == Pending::ActionsRestored
            &&& request_of(step) == Request::EditMessageReplyMarkup {
                message_id: displayed(from).resource_message_id,
                markup: keyboard,
            }
        } else {
            fails_internally(step, from, failure_text(reply))
        },
        Pending::ActionsRestored => if is_sent(reply) {
            match from {
                State::DeleteConfirmation(dc) => finishes_with(
                    step,
                    State::ResourceActions(
                        ResourceActions {
                            record: dc.record,
                            displayed_resource_data: dc.displayed_resource_data,
                        },
                    ),
                ),
                _ => false,
            }
        } else {
            fails_internally(step, from, failure_text(reply))
        },
        Pending::Cleanup { next, deleted } => if reply is Done && deleted < 3 {
            &&& performs(step, from, by)
            &&& pending_of(step) == Pending::Cleanup { next, deleted: (deleted + 1) as usize }
            &&& request_of(step) == Request::DeleteMessage(displayed_ids(from)[deleted as int])
        } else {
            finishes_with(step, next)
        },
    }
}

/// The transition is consistent: where it stands fits the state it started from and the
/// event that started it.
pub open spec fn is_consistent(t: Transition) -> bool {
    let from = state_kind(t.from);
    let by = t.by;
    match t.pending {
        Pending::HelpSent => by == EventKind::Help,
        Pending::MainMenuShown { destroy } => {
            ||| from == StateKind::Default && by == EventKind::Start && !destroy
            ||| from == StateKind::ResourcesList && by == EventKind::Cancel && !destroy
            ||| from == StateKind::DeleteConfirmation && by == EventKind::Yes && destroy
        },
        Pending::Listing { destroy } | Pending::ListShown { destroy } => {
            ||| from == StateKind::MainMenu && by == EventKind::List && !destroy
            ||| displays_resource(t.from) && by == EventKind::Cancel && destroy
        },
        Pending::RecordAdded => from == StateKind::MainMenu && by == EventKind::WebApp,
        Pending::Fetching { .. }
        | Pending::Searching { .. }
        | Pending::SearchShown
        | Pending::CancelHintShown { .. }
        | Pending::ActionsShown { .. } => from == StateKind::ResourcesList && by
            == EventKind::Arbitrary,
        Pending::DeletePromptShown | Pending::ConfirmationShown => from
            == StateKind::ResourceActions && by == EventKind::Delete,
        Pending::Deleting | Pending::DeletionNoticeShown => from == StateKind::DeleteConfirmation
            && by == EventKind::Yes,
        Pending::ActionsTextRestored { .. } | Pending::ActionsRestored => from
            == StateKind::DeleteConfirmation && by == EventKind::No,
        Pending::Cleanup { next, deleted } => {
            &&& 1 <= deleted <= 3
            &&& displays_resource(t.from)
            &&& is_edge(from, by, state_kind(next))
        },
    }
}

/// Kind of the event.
fn kind_of(event: &Event) -> (kind: EventKind)
    ensures
        kind == event_kind(*event),
{
    match event {
        Event::Command(Command::Help(_)) => EventKind::Help,
        Event::Command(Command::Start(_)) => EventKind::Start,
        Event::Command(Command::Cancel(_)) => EventKind::Cancel,
        Event::Message(MessageBox::WebApp(_)) => EventKind::WebApp,
        Event::Message(MessageBox::Add(_)) => EventKind::Add,
        Event::Message(MessageBox::List(_)) => EventKind::List,
        Event::Message(MessageBox::Arbitrary(_)) => EventKind::Arbitrary,
        Event::Button(ButtonBox::Delete(_)) => EventKind::Delete,
        Event::Button(ButtonBox::Yes(_)) => EventKind::Yes,
        Event::Button(ButtonBox::No(_)) => EventKind::No,
        Event::Button(ButtonBox::Show(_)) => EventKind::Show,
    }
}

/// Fail with a user mistake, staying in `from`.
fn user_failure(from: State, text: &str) -> (step: Step)
    ensures
        fails_for_user(step, from, text@),
{
    Step::Finished(Err(FailedTransition::user(from, text)))
}

/// Fail with an internal error, staying in `from`.
fn internal_failure(from: State, text: String) -> (step: Step)
    ensures
        fails_internally(step, from, text@),
{
    Step::Finished(Err(FailedTransition::internal(from, text)))
}

/// Description of a failed reply.
fn describe_failure(reply: Reply) -> (description: String)
    ensures
        description@ == failure_text(reply),
{
    match reply {
        Reply::Failed(description) => description,
        _ => owned("Unexpected reply to the request."),
    }
}

/// A message request without markdown.
fn plain_message(text: String, markup: Option<ReplyMarkup>) -> (request: Request)
    ensures
        sends(request, text@, false),
        markup_of(request) == markup,
{
    Request::SendMessage { text, markdown: false, markup }
}

/// Show the main menu after a transition from `from` by `by`.
fn show_main_menu(from: State, by: EventKind, destroy: bool, web_app_url: &str) -> (step: Step)
    ensures
        shows_main_menu(step, from, by, destroy, web_app_url@),
{
    match main_menu_keyboard(web_app_url) {
        Some(keyboard) => Step::Perform(
            Transition { from, by, pending: Pending::MainMenuShown { destroy } },
            plain_message(owned("🏠 Welcome to the main menu."), Some(keyboard)),
        ),
        None => internal_failure(from, owned("Failed to join Web App url with `/show`")),
    }
}

/// The text with the actions for a resource.
fn choose_action(name: &str) -> (text: String)
    ensures
        text@ == choose_action_text(name@),
{
    let text = join(join(owned("🔑 "), bold(escape(name).as_str()).as_str()), "\n\nChoose an action:");
    text
}

/// Id of the `k`-th message shown for the resource of the state.
fn displayed_id(state: &State, k: usize) -> (id: MessageId)
    requires
        displays_resource(*state),
        k < 3,
    ensures
        id == displayed_ids(*state)[k as int],
{
    let data = match state {
        State::ResourceActions(s) => &s.displayed_resource_data,
        State::DeleteConfirmation(s) => &s.displayed_resource_data,
        _ => {
            proof {
                assert(false);
            }
            return MessageId(0);
        },
    };
    if k == 0 {
        data.resource_request_message_id
    } else if k == 1 {
        data.cancel_message_id
    } else {
        data.resource_message_id
    }
}

/// End a transition from `from` by `by` in `next`, first deleting the messages of `from` when
/// `destroy`.
fn end_in(from: State, by: EventKind, next: State, destroy: bool) -> (step: Step)
    requires
        destroy ==> displays_resource(from),
    ensures
        ends_in(step, (Transition { from, by, pending: Pending::HelpSent }), next, destroy),
        step matches Step::Perform(t, _) ==> t.pending == (Pending::Cleanup { next, deleted: 1 }),
{
    if destroy {
        let first = displayed_id(&from, 0);
        Step::Perform(
            Transition { from, by, pending: Pending::Cleanup { next, deleted: 1 } },
            Request::DeleteMessage(first),
        )
    } else {
        Step::Finished(Ok(next))
    }
}

/// A `MarkdownV2` message request.
fn markdown_message(text: String, markup: Option<ReplyMarkup>) -> (request: Request)
    ensures
        sends(request, text@, true),
        markup_of(request) == markup,
{
    Request::SendMessage { text, markdown: true, markup }
}

impl Transition {
    /// Continue the transition with the `reply` to its last request.
    pub fn step(self, reply: Reply, web_app_url: &str) -> (step: Step)
        requires
            is_consistent(self),
        ensures
            continues(self, reply, web_app_url@, step),
            step matches Step::Perform(t, _) ==> is_consistent(t),
    {
        let ghost t = self;
        let Transition { from, by, pending } = self;
        match pending {
            Pending::HelpSent => match reply {
                Reply::MessageSent(_) => Step::Finished(Ok(from)),
                _ => internal_failure(from, describe_failure(reply)),
            },
            Pending::MainMenuShown { destroy } => match reply {
                Reply::MessageSent(_) => end_in(from, by, State::MainMenu(MainMenu(())), destroy),
                _ => internal_failure(from, describe_failure(reply)),
            },
            Pending::Listing { destroy } => match reply {
                Reply::Resources(names) => {
                    if names.len() == 0 {
                        user_failure(from, "❎ There are no stored passwords yet.")
                    } else {
                        let keyboard = resources_keyboard(&names);
                        Step::Perform(
                            Transition { from, by, pending: Pending::ListShown { destroy } },
                            plain_message(
                                owned(
                                    "👉 Choose a resource or type for search.\n\nType /cancel to go back.",
                                ),
                                Some(keyboard),
                            ),
                        )
                    }
                },
                _ => internal_failure(from, owned("Failed to retrieve the list of stored passwords")),
            },
            Pending::ListShown { destroy } => match reply {
                Reply::MessageSent(_) => end_in(
                    from,
                    by,
                    State::ResourcesList(ResourcesList(())),
                    destroy,
                ),
                _ => internal_failure(from, describe_failure(reply)),
            },
            Pending::RecordAdded => match reply {
                Reply::Done => Step::Finished(Ok(from)),
                _ => internal_failure(from, describe_failure(reply)),
            },
            Pending::Fetching { request_id, name } => match reply {
                Reply::Record(record) => {
                    match actions_keyboard(&record, web_app_url) {
                        None => internal_failure(
                            from,
                            owned("Failed to join Web App url with `/show`"),
                        ),
                        Some(keyboard) => {
                            let resource_name = match &record.resource {
                                Some(resource) => Some(resource.name.clone()),
                                None => None,
                            };
                            match resource_name {
                                None => internal_failure(
                                    from,
                                    owned("Record doesn't contain a resource"),
                                ),
                                Some(name) => Step::Perform(
                                    Transition {
                                        from,
                                        by,
                                        pending: Pending::CancelHintShown {
                                            record,
                                            request_id,
                                            name,
                                            keyboard,
                                        },
                                    },
                                    plain_message(
                                        owned("Type /cancel to go back."),
                                        Some(ReplyMarkup::Remove),
                                    ),
                                ),
                            }
                        },
                    }
                },
                Reply::NotFound => {
                    let resource = Resource { name: name.clone() };
                    Step::Perform(
                        Transition { from, by, pending: Pending::Searching { name } },
                        Request::SearchResources(resource),
                    )
                },
                _ => internal_failure(from, describe_failure(reply)),
            },
            Pending::Searching { name } => match reply {
                Reply::Resources(names) => {
                    if names.len() == 0 {
                        user_failure(from, "❎ No passwords found for a given query.")
                    } else {
                        let keyboard = resources_keyboard(&names);
                        Step::Perform(
                            Transition { from, by, pending: Pending::SearchShown },
                            plain_message(
                                owned(
                                    "👉 The following resources were found, choose one of them or type for a new search.\n\nType /cancel to go back.",
                                ),
                                Some(keyboard),
                            ),
                        )
                    }
                },
                _ => internal_failure(
                    from,
                    join(join(owned("Failed to search for `"), name.as_str()), "`"),
                ),
            },
            Pending::SearchShown => match reply {
                Reply::MessageSent(_) => Step::Finished(Ok(State::ResourcesList(ResourcesList(())))),
                _ => internal_failure(from, describe_failure(reply)),
            },
            Pending::CancelHintShown { record, request_id, name, keyboard } => match reply {
                Reply::MessageSent(cancel_id) => {
                    let text = choose_action(name.as_str());
                    Step::Perform(
                        Transition {
                            from,
                            by,
                            pending: Pending::ActionsShown { record, request_id, cancel_id, name },
                        },
                        markdown_message(text, Some(keyboard)),
                    )
                },
                _ => internal_failure(from, describe_failure(reply)),
            },
            Pending::ActionsShown { record, request_id, cancel_id, name } => match reply {
                Reply::MessageSent(resource_id) => Step::Finished(
                    Ok(
                        State::ResourceActions(
                            ResourceActions {
                                record,
                                displayed_resource_data: DisplayedResourceData::new(
                                    request_id,
                                    cancel_id,
                                    resource_id,
                                    name,
                                ),
                            },
                        ),
                    ),
                ),
                _ => internal_failure(from, describe_failure(reply)),
            },
            Pending::DeletePromptShown => match reply {
                Reply::MessageSent(_) => {
                    let message_id = displayed_id(&from, 2);
                    Step::Perform(
                        Transition { from, by, pending: Pending::ConfirmationShown },
                        Request::EditMessageReplyMarkup {
                            message_id,
                            markup: confirmation_keyboard(),
                        },
                    )
                },
                _ => internal_failure(from, describe_failure(reply)),
            },
            Pending::ConfirmationShown => match reply {
                Reply::MessageSent(_) => match from {
                    State::ResourceActions(ra) => Step::Finished(
                        Ok(
                            State::DeleteConfirmation(
                                DeleteConfirmation {
                                    record: ra.record,
                                    displayed_resource_data: ra.displayed_resource_data,
                                },
                            ),
                        ),
                    ),
                    _ => {
                        proof {
                            assert(false);
                        }
                        Step::Finished(Ok(from))
                    },
                },
                _ => internal_failure(from, describe_failure(reply)),
            },
            Pending::Deleting => match reply {
                Reply::Done => {
                    let text = match &from {
                        State::DeleteConfirmation(dc) => {
                            let name = dc.displayed_resource_data.resource_name.as_str();
                            join(join(owned("✅ "), bold(escape(name).as_str()).as_str()), " deleted\\.")
                        },
                        _ => {
                            proof {
                                assert(false);
                            }
                            owned("")
                        },
                    };
                    Step::Perform(
                        Transition { from, by, pending: Pending::DeletionNoticeShown },
                        markdown_message(text, None),
                    )
                },
                _ => internal_failure(from, describe_failure(reply)),
            },
            Pending::DeletionNoticeShown => match reply {
                Reply::MessageSent(_) => show_main_menu(from, by, true, web_app_url),
                _ => internal_failure(from, describe_failure(reply)),
            },
            Pending::ActionsTextRestored { keyboard } => match reply {
                Reply::MessageSent(_) => {
                    let message_id = displayed_id(&from, 2);
                    Step::Perform(
                        Transition { from, by, pending: Pending::ActionsRestored },
                        Request::EditMessageReplyMarkup { message_id, markup: keyboard },
                    )
                },
                _ => internal_failure(from, describe_failure(reply)),
            },
            Pending::ActionsRestored => match reply {
                Reply::MessageSent(_) => match from {
                    State::DeleteConfirmation(dc) => Step::Finished(
                        Ok(
                            State::ResourceActions(
                                ResourceActions {
                                    record: dc.record,
                                    displayed_resource_data: dc.displayed_resource_data,
                                },
                            ),
                        ),
                    ),
                    _ => {
                        proof {
                            assert(false);
                        }
                        Step::Finished(Ok(from))
                    },
                },
                _ => internal_failure(from, describe_failure(reply)),
            },
            Pending::Cleanup { next, deleted } => match reply {
                Reply::Done => {
                    if deleted < 3 {
                        let id = displayed_id(&from, deleted);
                        Step::Perform(
                            Transition {
                                from,
                                by,
                                pending: Pending::Cleanup { next, deleted: deleted + 1 },
                            },
                            Request::DeleteMessage(id),
                        )
                    } else {
                        Step::Finished(Ok(next))
                    }
                },
                _ => Step::Finished(Ok(next)),
            },
        }
    }
}

/// Start a transition from `state` by `event`. `record` is what the data of a Web App event
/// reads as, when it is a new record (it is not read for other events).
pub fn start(state: State, event: Event, record: Option<NewRecord>, web_app_url: &str) -> (step:
    Step)
    ensures
        starts(state, event, record, web_app_url@, step),
        step matches Step::Perform(t, _) ==> is_consistent(t),
{
    let by = kind_of(&event);
    match event {
        Event::Command(Command::Help(_)) => Step::Perform(
            Transition { from: state, by, pending: Pending::HelpSent },
            plain_message(crate::command::Command::descriptions(), None),
        ),
        Event::Command(Command::Start(_)) => match state {
            State::Default(_) => show_main_menu(state, by, false, web_app_url),
            _ => user_failure(state, "Unavailable command in the current state."),
        },
        Event::Command(Command::Cancel(_)) => match state {
            State::ResourcesList(_) => show_main_menu(state, by, false, web_app_url),
            State::ResourceActions(_) | State::DeleteConfirmation(_) => Step::Perform(
                Transition { from: state, by, pending: Pending::Listing { destroy: true } },
                Request::ListResources,
            ),
            _ => user_failure(state, "Unavailable command in the current state."),
        },
        Event::Message(MessageBox::List(_)) => match state {
            State::MainMenu(_) => Step::Perform(
                Transition { from: state, by, pending: Pending::Listing { destroy: false } },
                Request::ListResources,
            ),
            _ => user_failure(state, "Unexpected message in the current state."),
        },
        Event::Message(MessageBox::WebApp(message)) => match state {
            State::MainMenu(_) => {
                if !str_eq(message.kind.0.button_text.as_str(), "🆕 Add") {
                    user_failure(state, "Unexpected WebApp button text.")
                } else {
                    match record {
                        None => user_failure(
                            state,
                            "Failed to parse a new record, your Telegram Client is probably invalid.",
                        ),
                        Some(new_record) => Step::Perform(
                            Transition { from: state, by, pending: Pending::RecordAdded },
                            Request::AddRecord(Record::from_new_record(new_record)),
                        ),
                    }
                }
            },
            _ => user_failure(state, "Unexpected message in the current state."),
        },
        Event::Message(MessageBox::Arbitrary(message)) => match state {
            State::ResourcesList(_) => {
                let name = strip_prefix(message.kind.0.as_str(), "🔑 ");
                let resource = Resource { name: name.clone() };
                Step::Perform(
                    Transition {
                        from: state,
                        by,
                        pending: Pending::Fetching { request_id: message.id, name },
                    },
                    Request::GetRecord(resource),
                )
            },
            _ => user_failure(state, "Unexpected message in the current state."),
        },
        Event::Message(_) => user_failure(state, "Unexpected message in the current state."),
        Event::Button(ButtonBox::Delete(_)) => match state {
            State::ResourceActions(ra) => {
                let message_id = ra.displayed_resource_data.resource_message_id;
                let name = ra.displayed_resource_data.resource_name.as_str();
                let text = join(
                    join(owned("🗑 Delete "), bold(escape(name).as_str()).as_str()),
                    " forever?",
                );
                Step::Perform(
                    Transition {
                        from: State::ResourceActions(ra),
                        by,
                        pending: Pending::DeletePromptShown,
                    },
                    Request::EditMessageText { message_id, text },
                )
            },
            _ => user_failure(state, "Unexpected button action in the current state."),
        },
        Event::Button(ButtonBox::Yes(_)) => match state {
            State::DeleteConfirmation(dc) => {
                let resource = Resource { name: dc.displayed_resource_data.resource_name.clone() };
                Step::Perform(
                    Transition {
                        from: State::DeleteConfirmation(dc),
                        by,
                        pending: Pending::Deleting,
                    },
                    Request::DeleteRecord(resource),
                )
            },
            _ => user_failure(state, "Unexpected button action in the current state."),
        },
        Event::Button(ButtonBox::No(_)) => match state {
            State::DeleteConfirmation(dc) => {
                let message_id = dc.displayed_resource_data.resource_message_id;
                let text = choose_action(dc.displayed_resource_data.resource_name.as_str());
                match actions_keyboard(&dc.record, web_app_url) {
                    Some(keyboard) => Step::Perform(
                        Transition {
                            from: State::DeleteConfirmation(dc),
                            by,
                            pending: Pending::ActionsTextRestored { keyboard },
                        },
                        Request::EditMessageText { message_id, text },
                    ),
                    None => internal_failure(
                        State::DeleteConfirmation(dc),
                        owned("Failed to join Web App url with `/show`"),
                    ),
                }
            },
            _ => user_failure(state, "Unexpected button action in the current state."),
        },
        Event::Button(ButtonBox::Show(_)) => user_failure(
            state,
            "Unexpected button action in the current state.",
        ),
    }
}

/// A transition that fails leaves the dialogue in the state it started from, whether it fails
/// at once or after some requests; and a transition never ends successfully before performing
/// at least one request.
pub proof fn law_failure_keeps_state(
    state: State,
    event: Event,
    record: Option<NewRecord>,
    web_app_url: Seq<char>,
    first: Step,
    t: Transition,
    reply: Reply,
    next: Step,
)
    requires
        starts(state, event, record, web_app_url, first),
        continues(t, reply, web_app_url, next),
    ensures
        first matches Step::Finished(Err(f)) ==> f.target == state,
        !(first matches Step::Finished(Ok(_))),
        first matches Step::Perform(t1, _) ==> t1.from == state && t1.by == event_kind(event),
        next matches Step::Finished(Err(f)) ==> f.target == t.from,
        next matches Step::Perform(t2, _) ==> t2.from == t.from && t2.by == t.by,
{
}

/// `/help` is answered with the list of commands in every state, and once that message is
/// sent the dialogue is back in the same state.
pub proof fn law_help_keeps_state(
    state: State,
    help: crate::command::Help,
    web_app_url: Seq<char>,
    first: Step,
    message_id: MessageId,
    next: Step,
)
    requires
        starts(state, Event::Command(Command::Help(help)), None, web_app_url, first),
        first matches Step::Perform(t, _) && continues(
            t,
            Reply::MessageSent(message_id),
            web_app_url,
            next,
        ),
    ensures
        sends(request_of(first), help_text(), false),
        finishes_with(next, state),
{
}

/// A successful transition follows an edge of the dialogue: from the kind of state it started
/// in, by the kind of event that started it, to the kind of state it ends in.
pub proof fn law_moves_along_edges(t: Transition, reply: Reply, web_app_url: Seq<char>, next: Step)
    requires
        is_consistent(t),
        continues(t, reply, web_app_url, next),
    ensures
        next matches Step::Finished(Ok(s)) ==> is_edge(state_kind(t.from), t.by, state_kind(s)),
{
}

/// Once a transition has succeeded and is deleting the messages of the state it left, it ends
/// in the new state whatever the replies: the messages are asked to be deleted one after the
/// other, and a failed deletion ends the cleanup.
pub proof fn law_cleanup_cannot_fail(
    t: Transition,
    next_state: State,
    deleted: usize,
    reply: Reply,
    web_app_url: Seq<char>,
    next: Step,
)
    requires
        t.pending == (Pending::Cleanup { next: next_state, deleted }),
        continues(t, reply, web_app_url, next),
    ensures
        next matches Step::Finished(result) ==> result == Ok::<State, FailedTransition>(next_state),
        next matches Step::Perform(t2, request) ==> request == Request::DeleteMessage(
            displayed_ids(t.from)[deleted as int],
        ),
{
}

/// The transition of a step that performs a request.
pub open spec fn transition_of(step: Step) -> Transition {
    match step {
        Step::Perform(t, _) => t,
        _ => arbitrary(),
    }
}

/// Pressing "Delete" on a displayed resource and then "No" on the confirmation, with every
/// request succeeding, leads back to the very same state: same record and same displayed
/// messages. Going back only edits the resource message: first its text, to the actions
/// text, then its keyboard, to the actions keyboard; nothing is sent or deleted.
pub proof fn law_delete_then_no_restores(
    ra: ResourceActions,
    delete: Event,
    no: Event,
    record: Option<NewRecord>,
    web_app_url: Seq<char>,
    s1: Step,
    r1: Reply,
    s2: Step,
    r2: Reply,
    s3: Step,
    s4: Step,
    r4: Reply,
    s5: Step,
    r5: Reply,
    s6: Step,
)
    requires
        delete matches Event::Button(ButtonBox::Delete(_)),
        no matches Event::Button(ButtonBox::No(_)),
        starts(State::ResourceActions(ra), delete, record, web_app_url, s1),
        s1 is Perform,
        continues(transition_of(s1), r1, web_app_url, s2),
        s2 is Perform,
        continues(transition_of(s2), r2, web_app_url, s3),
        s3 matches Step::Finished(Ok(_)),
        starts(s3->Finished_0->Ok_0, no, record, web_app_url, s4),
        s4 is Perform,
        continues(transition_of(s4), r4, web_app_url, s5),
        s5 is Perform,
        continues(transition_of(s5), r5, web_app_url, s6),
        s6 matches Step::Finished(Ok(_)),
    ensures
        s6->Finished_0->Ok_0 == State::ResourceActions(ra),
        request_of(s4) matches Request::EditMessageText { message_id, text } && message_id
            == ra.displayed_resource_data.resource_message_id && text@ == choose_action_text(
            ra.displayed_resource_data.resource_name@,
        ),
        request_of(s5) matches Request::EditMessageReplyMarkup { message_id, markup }
            && message_id == ra.displayed_resource_data.resource_message_id && is_actions_keyboard(
            markup,
            ra.record,
            web_app_url,
        ),
{
}

/// Choosing a resource from the list asks the storage for the resource that the tapped
/// button names: in the resources list, a message whose text is the text of the `j`-th button
/// of a keyboard listing `names` asks for the record of `names[j]`, and of nothing else.
pub proof fn law_list_button_fetches_its_resource(
    markup: ReplyMarkup,
    names: Seq<String>,
    j: int,
    message: crate::message::Message<crate::message::Arbitrary>,
    record: Option<NewRecord>,
    web_app_url: Seq<char>,
    step: Step,
)
    requires
        is_resources_keyboard(markup, names),
        0 <= j < names.len(),
        markup matches ReplyMarkup::Keyboard { rows, .. } && message.kind.0@ == rows@[j]@[0].text@,
        starts(
            State::ResourcesList(ResourcesList(())),
            Event::Message(MessageBox::Arbitrary(message)),
            record,
            web_app_url,
            step,
        ),
    ensures
        request_of(step) matches Request::GetRecord(resource) && resource.name@ == names[j]@,
        pending_of(step) matches Pending::Fetching { request_id, name } && name@ == names[j]@
            && request_id == message.id,
{
    let n = names[j]@;
    let text = message.kind.0@;
    let rows = markup->Keyboard_rows;
    assert(rows@[j]@.len() == 1);
    assert(text == crate::keyboard::resource_button_text(n));
    assert(text.take(key_prefix().len() as int) =~= key_prefix());
    assert(text.skip(key_prefix().len() as int) =~= n);
}

/// Deleting asks for confirmation on the resource message itself: the keyboard with the
/// confirmation buttons goes on the very message whose text was just edited into the delete
/// prompt, which is the message showing the resource.
pub proof fn law_confirmation_on_prompted_message(
    ra: ResourceActions,
    delete: Event,
    record: Option<NewRecord>,
    web_app_url: Seq<char>,
    first: Step,
    sent: MessageId,
    second: Step,
)
    requires
        delete matches Event::Button(ButtonBox::Delete(_)),
        starts(State::ResourceActions(ra), delete, record, web_app_url, first),
        continues(transition_of(first), Reply::MessageSent(sent), web_app_url, second),
    ensures
        request_of(first) matches Request::EditMessageText { message_id: prompted, .. }
            && request_of(second) matches Request::EditMessageReplyMarkup { message_id, markup }
            && message_id == prompted && prompted == ra.displayed_resource_data.resource_message_id
            && is_confirmation_keyboard(markup),
{
}

/// Web App data sent from the main menu's Web App button is taken as a new record: for any
/// main menu keyboard, a Web App message whose button text is the text of that keyboard's
/// Web App button and whose data reads as a record asks the storage to add that record.
pub proof fn law_main_menu_web_app_adds(
    markup: ReplyMarkup,
    message: crate::message::Message<crate::message::WebApp>,
    new_record: NewRecord,
    web_app_url: Seq<char>,
    step: Step,
)
    requires
        is_main_menu_keyboard(markup, web_app_url),
        markup matches ReplyMarkup::Keyboard { rows, .. } && rows@[1]@[0].web_app is Some
            && message.kind.0.button_text@ == rows@[1]@[0].text@,
        starts(
            State::MainMenu(MainMenu(())),
            Event::Message(MessageBox::WebApp(message)),
            Some(new_record),
            web_app_url,
            step,
        ),
    ensures
        pending_of(step) == Pending::RecordAdded,
        request_of(step) matches Request::AddRecord(added) && added.resource == Some(
            Resource { name: new_record.resource_name },
        ) && added.encrypted_payload == new_record.encryption_output.encrypted_payload
            && added.salt@ == new_record.encryption_output.salt@,
{
}

/// Leaving a displayed resource deletes each of its three messages once, in order: the first
/// deletion is asked for when the transition ends, and with every deletion done the cleanup
/// asks for the second, then the third, and then finishes in the state the transition
/// reached.
pub proof fn law_cleanup_deletes_every_message(
    t: Transition,
    next: State,
    web_app_url: Seq<char>,
    s1: Step,
    s2: Step,
    s3: Step,
)
    requires
        t.pending == (Pending::Cleanup { next, deleted: 1 }),
        continues(t, Reply::Done, web_app_url, s1),
        continues(transition_of(s1), Reply::Done, web_app_url, s2),
        continues(transition_of(s2), Reply::Done, web_app_url, s3),
    ensures
        s1 is Perform && request_of(s1) == Request::DeleteMessage(displayed_ids(t.from)[1]),
        s2 is Perform && request_of(s2) == Request::DeleteMessage(displayed_ids(t.from)[2]),
        transition_of(s2).from == t.from,
        finishes_with(s3, next),
{
}

/// A transition that succeeds and leaves a displayed resource starts the cleanup by asking to
/// delete the first of its messages.
pub proof fn law_cleanup_starts_with_first_message(step: Step, t: Transition, next: State)
    requires
        ends_in(step, t, next, true),
    ensures
        request_of(step) == Request::DeleteMessage(displayed_ids(t.from)[0]),
        transition_of(step).pending == (Pending::Cleanup { next, deleted: 1 }),
        transition_of(step).from == t.from,
{
}

} // verus!
