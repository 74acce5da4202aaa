//! Strongly-typed states of the dialogue with the user.

use crate::grpc::{Record, Resource};
use crate::message::MessageId;
use crate::text::owned;
use vstd::prelude::*;

verus! {

/// State when the bot is waiting for the user to start it.
#[derive(Debug, Copy, Clone, PartialEq, Eq, Structural)]
pub struct Default;

/// Main menu state: waits for the user to choose an action.
#[derive(Debug, Copy, Clone, PartialEq, Eq)]
pub struct MainMenu(pub ());

impl MainMenu {
    /// A main menu state.
    pub fn test() -> (main_menu: Self)
        ensures
            main_menu == MainMenu(()),
    {
        MainMenu(())
    }
}

/// State when the bot is waiting for the user to choose a resource from a list, or to type
/// a search query.
#[derive(Debug, Copy, Clone, PartialEq, Eq)]
pub struct ResourcesList(pub ());

impl ResourcesList {
    /// A resources list state.
    pub fn test() -> (resources_list: Self)
        ensures
            resources_list == ResourcesList(()),
    {
        ResourcesList(())
    }
}

/// Messages displayed for a chosen resource, deleted when the dialogue leaves it.
#[derive(Debug, Clone, PartialEq, Eq)]
pub struct DisplayedResourceData {
    /// Message sent by the user containing the exact resource request.
    pub resource_request_message_id: MessageId,
    /// Displayed message with the hint about the `/cancel` command.
    pub cancel_message_id: MessageId,
    /// Displayed message with the resource name and attached buttons.
    pub resource_message_id: MessageId,
    /// Name of the requested resource.
    pub resource_name: String,
}

impl DisplayedResourceData {
    /// Construct new [`DisplayedResourceData`].
    pub fn new(
        resource_request_message_id: MessageId,
        cancel_message_id: MessageId,
        resource_message_id: MessageId,
        resource_name: String,
    ) -> (data: Self)
        ensures
            data == (DisplayedResourceData {
                resource_request_message_id,
                cancel_message_id,
                resource_message_id,
                resource_name,
            }),
    {
        DisplayedResourceData {
            resource_request_message_id,
            cancel_message_id,
            resource_message_id,
            resource_name,
        }
    }
}

/// State when the bot is waiting for the user to press an inline button with an action for
/// the displayed resource.
#[derive(Debug, Clone, PartialEq, Eq)]
pub struct ResourceActions {
    /// Record of the displayed resource.
    pub record: Record,
    /// Messages displayed for the resource.
    pub displayed_resource_data: DisplayedResourceData,
}

/// State when the bot is waiting for the user to confirm the deletion of a resource, or to
/// cancel it.
#[derive(Debug, Clone, PartialEq, Eq)]
pub struct DeleteConfirmation {
    /// Record of the displayed resource.
    pub record: Record,
    /// Messages displayed for the resource.
    pub displayed_resource_data: DisplayedResourceData,
}

/// State of the dialogue.
#[derive(Debug, Clone, PartialEq, Eq)]
pub enum State {
    /// Waiting for `/start`.
    Default(Default),
    /// Main menu.
    MainMenu(MainMenu),
    /// Choosing a resource.
    ResourcesList(ResourcesList),
    /// Choosing an action for a resource.
    ResourceActions(ResourceActions),
    /// Confirming a deletion.
    DeleteConfirmation(DeleteConfirmation),
}

/// Messages displayed for the test resource `test.resource.com`, all with id 0.
pub open spec fn is_test_displayed_data(data: DisplayedResourceData) -> bool {
    &&& data.resource_request_message_id == MessageId(0)
    &&& data.cancel_message_id == MessageId(0)
    &&& data.resource_message_id == MessageId(0)
    &&& data.resource_name@ == "test.resource.com"@
}

fn test_displayed_data() -> (data: DisplayedResourceData)
    ensures
        is_test_displayed_data(data),
{
    DisplayedResourceData::new(MessageId(0), MessageId(0), MessageId(0), owned("test.resource.com"))
}

/// A record of the resource `resource_name` with the payload and salt `unused`.
fn test_record(resource_name: String) -> (record: Record)
    ensures
        record.resource == Some(Resource { name: resource_name }),
        record.encrypted_payload@ == "unused"@.map_values(|c: char| c as u8),
        record.salt@ == "unused"@.map_values(|c: char| c as u8),
{
    proof {
        reveal_strlit("unused");
    }
    let mut unused: Vec<u8> = Vec::new();
    unused.push(117u8);
    unused.push(110u8);
    unused.push(117u8);
    unused.push(115u8);
    unused.push(101u8);
    unused.push(100u8);
    let mut salt: Vec<u8> = Vec::new();
    salt.push(117u8);
    salt.push(110u8);
    salt.push(117u8);
    salt.push(115u8);
    salt.push(101u8);
    salt.push(100u8);
    assert(unused@ =~= "unused"@.map_values(|c: char| c as u8));
    assert(salt@ =~= "unused"@.map_values(|c: char| c as u8));
    Record { resource: Some(Resource { name: resource_name }), encrypted_payload: unused, salt }
}

impl ResourceActions {
    /// A resource actions state for the given displayed messages, with a record of the
    /// resource `Test` whose payload and salt are `unused`.
    pub fn test(displayed_resource_data: DisplayedResourceData) -> (state: Self)
        ensures
            state.displayed_resource_data == displayed_resource_data,
            state.record.resource matches Some(r) && r.name@ == "Test"@,
    {
        ResourceActions { record: test_record(owned("Test")), displayed_resource_data }
    }
}

impl DeleteConfirmation {
    /// A delete confirmation state for the given displayed messages, with a record of the
    /// displayed resource whose payload and salt are `unused`.
    pub fn test(displayed_resource_data: DisplayedResourceData) -> (state: Self)
        ensures
            state.displayed_resource_data == displayed_resource_data,
            state.record.resource matches Some(r) && r.name@
                == displayed_resource_data.resource_name@,
    {
        let name = displayed_resource_data.resource_name.clone();
        DeleteConfirmation { record: test_record(name), displayed_resource_data }
    }

    /// Get record.
    pub fn record(&self) -> (record: &Record)
        ensures
            *record == self.record,
    {
        &self.record
    }

    /// Take record.
    pub fn take_record(self) -> (record: Record)
        ensures
            record == self.record,
    {
        self.record
    }

    /// Get displayed resource data.
    pub fn displayed_resource_data(&self) -> (data: &DisplayedResourceData)
        ensures
            *data == self.displayed_resource_data,
    {
        &self.displayed_resource_data
    }
}

impl ResourceActions {
    /// Take record.
    pub fn take_record(self) -> (record: Record)
        ensures
            record == self.record,
    {
        self.record
    }

    /// Get displayed resource data.
    pub fn displayed_resource_data(&self) -> (data: &DisplayedResourceData)
        ensures
            *data == self.displayed_resource_data,
    {
        &self.displayed_resource_data
    }
}

impl State {
    /// The default state: waiting for `/start`.
    pub fn default() -> (state: Self)
        ensures
            state == State::Default(Default),
    {
        State::Default(Default)
    }

    /// A main menu state.
    pub fn main_menu() -> (state: Self)
        ensures
            state == State::MainMenu(MainMenu(())),
    {
        State::MainMenu(MainMenu::test())
    }

    /// A resources list state.
    pub fn resources_list() -> (state: Self)
        ensures
            state == State::ResourcesList(ResourcesList(())),
    {
        State::ResourcesList(ResourcesList::test())
    }

    /// A resource actions state for the test resource `test.resource.com`.
    pub fn resource_actions() -> (state: Self)
        ensures
            state matches State::ResourceActions(s) && is_test_displayed_data(
                s.displayed_resource_data,
            ),
    {
        State::ResourceActions(ResourceActions::test(test_displayed_data()))
    }

    /// A delete confirmation state for the test resource `test.resource.com`.
    pub fn delete_confirmation() -> (state: Self)
        ensures
            state matches State::DeleteConfirmation(s) && is_test_displayed_data(
                s.displayed_resource_data,
            ),
    {
        State::DeleteConfirmation(DeleteConfirmation::test(test_displayed_data()))
    }
}

} // verus!
