//! States of the dialogue after the user has signed in as the admin.

use crate::message::MessageId;
use crate::state::DisplayedResourceData;
use crate::text::owned;
use vstd::prelude::*;

verus! {

/// Main menu: waiting for the user to choose an action.
#[derive(Debug, Clone, Copy, PartialEq, Eq, Structural)]
pub struct MainMenu;

/// Waiting for the user to choose a resource from the list.
#[derive(Debug, Clone, Copy, PartialEq, Eq, Structural)]
pub struct ResourcesList;

/// Waiting for the user to press an inline button with an action for the displayed resource.
#[derive(Debug, Clone, PartialEq, Eq)]
pub struct ResourceActions(pub DisplayedResourceData);

/// Waiting for the user to confirm the deletion of the displayed resource, or to cancel it.
#[derive(Debug, Clone, PartialEq, Eq)]
pub struct DeleteConfirmation(pub DisplayedResourceData);

/// An authorized state of kind `K`.
#[derive(Debug, Clone, PartialEq, Eq)]
pub struct Authorized<K> {
    /// Kind of the state.
    pub kind: K,
}

/// Keeps [`Marker`] to the authorized states of this module.
pub trait Sealed {}

/// Marks the authorized states.
pub trait Marker: Sealed {}

impl Sealed for Authorized<MainMenu> {}

impl Sealed for Authorized<ResourcesList> {}

impl Sealed for Authorized<ResourceActions> {}

impl Sealed for Authorized<DeleteConfirmation> {}

impl Marker for Authorized<MainMenu> {}

impl Marker for Authorized<ResourcesList> {}

impl Marker for Authorized<ResourceActions> {}

impl Marker for Authorized<DeleteConfirmation> {}

/// All authorized states.
#[derive(Debug, Clone, PartialEq, Eq)]
pub enum AuthorizedBox {
    /// Main menu.
    MainMenu(Authorized<MainMenu>),
    /// Choosing a resource.
    ResourcesList(Authorized<ResourcesList>),
    /// Choosing an action for a resource.
    ResourceActions(Authorized<ResourceActions>),
    /// Confirming a deletion.
    DeleteConfirmation(Authorized<DeleteConfirmation>),
}

impl Authorized<MainMenu> {
    /// The main menu state.
    pub fn main_menu() -> (state: Self)
        ensures
            state == (Authorized { kind: MainMenu }),
    {
        Authorized { kind: MainMenu }
    }
}

/// Messages displayed for the test resource `test.resource.com`, all with id 0.
pub open spec fn is_test_display(data: DisplayedResourceData) -> bool {
    &&& data.resource_request_message_id == MessageId(0)
    &&& data.cancel_message_id == MessageId(0)
    &&& data.resource_message_id == MessageId(0)
    &&& data.resource_name@ == "test.resource.com"@
}

fn test_display() -> (data: DisplayedResourceData)
    ensures
        is_test_display(data),
{
    DisplayedResourceData::new(MessageId(0), MessageId(0), MessageId(0), owned("test.resource.com"))
}

impl AuthorizedBox {
    /// The main menu state.
    pub fn main_menu() -> (state: Self)
        ensures
            state == AuthorizedBox::MainMenu(Authorized { kind: MainMenu }),
    {
        AuthorizedBox::MainMenu(Authorized { kind: MainMenu })
    }

    /// The resources list state.
    pub fn resources_list() -> (state: Self)
        ensures
            state == AuthorizedBox::ResourcesList(Authorized { kind: ResourcesList }),
    {
        AuthorizedBox::ResourcesList(Authorized { kind: ResourcesList })
    }

    /// The state choosing an action for the test resource `test.resource.com`, whose
    /// messages all have id 0.
    pub fn resource_actions() -> (state: Self)
        ensures
            state matches AuthorizedBox::ResourceActions(inner) && is_test_display(inner.kind.0),
    {
        AuthorizedBox::ResourceActions(Authorized { kind: ResourceActions(test_display()) })
    }

    /// The state confirming the deletion of the test resource `test.resource.com`, whose
    /// messages all have id 0.
    pub fn delete_confirmation() -> (state: Self)
        ensures
            state matches AuthorizedBox::DeleteConfirmation(inner) && is_test_display(
                inner.kind.0,
            ),
    {
        AuthorizedBox::DeleteConfirmation(Authorized { kind: DeleteConfirmation(test_display()) })
    }
}

} // verus!
