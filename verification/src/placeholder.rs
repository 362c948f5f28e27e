use vstd::prelude::*;

verus! {

/// What the user does in the placeholder window.
#[derive(Clone, Copy, Debug, PartialEq, Eq, Structural)]
pub enum Message {
    Close,
}

/// A window whose content is still to come.
#[derive(Clone, Copy, Debug, Default, PartialEq, Eq, Structural)]
pub struct PlaceholderWindow;

impl PlaceholderWindow {
    /// Takes a message and changes nothing.
    pub fn update(&mut self, msg: Message)
        ensures
            *final(self) == *old(self),
    {
    }
}

} // verus!
