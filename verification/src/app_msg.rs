//! Messages the keyboard router hands to the application, and what a
//! focused surface answers when it is offered a key.
use vstd::prelude::*;
use crate::frontend::UserIntent;

verus! {

/// One application-level message.
#[derive(Debug, Clone, PartialEq, Eq)]
pub enum AppMsg {
    /// Run a user command.
    Intent(UserIntent),
    /// Move focus to the next (`true`) or previous (`false`) surface.
    CycleFocus(bool),
    /// Open the command palette.
    OpenPalette,
    /// Activate the plugin registered under this tag.
    ActivatePlugin(String),
}

impl AppMsg {
    /// An equal copy of this message.
    pub fn duplicate(&self) -> (r: AppMsg)
        ensures
            r == *self,
    {
        match self {
            AppMsg::Intent(i) => AppMsg::Intent(*i),
            AppMsg::CycleFocus(f) => AppMsg::CycleFocus(*f),
            AppMsg::OpenPalette => AppMsg::OpenPalette,
            AppMsg::ActivatePlugin(tag) => AppMsg::ActivatePlugin(tag.clone()),
        }
    }
}

/// What the focused surface did with a key.
#[derive(Debug, Clone, PartialEq, Eq)]
pub enum KeyDelivery {
    /// The surface used the key; nothing else sees it.
    Consumed,
    /// The surface asks for this message to run.
    Run(AppMsg),
    /// The surface passed the key on.
    Passthrough,
}

} // verus!
