use vstd::prelude::*;

verus! {

/// What the user does in the About window.
#[derive(Clone, Copy, Debug, PartialEq, Eq, Structural)]
pub enum Message {
    /// The OK button was pressed.
    Close,
    /// The source code button was pressed.
    Homepage,
    /// The pointer entered (`true`) or left (`false`) button `id`.
    Hover(usize, bool),
}

/// The work the About window asks its caller to do.
#[derive(Debug)]
pub enum Effect {
    /// Nothing.
    Nothing,
    /// Open this address in the web browser.
    OpenUrl(String),
}

/// The address of the project's source code.
pub open spec fn homepage() -> Seq<char> {
    "https://github.com/S1nF0x/zippery"@
}

/// How one message changes the About window `pre` into `post` and what it
/// asks for.
pub open spec fn about_update_post(pre: About, msg: Message, post: About, eff: Effect) -> bool {
    match msg {
        Message::Hover(id, true) => post.hovered == Some(id) && eff is Nothing,
        Message::Hover(_, false) => post.hovered is None && eff is Nothing,
        Message::Homepage => post == pre && (eff matches Effect::OpenUrl(u) && u@ == homepage()),
        Message::Close => post == pre && eff is Nothing,
    }
}

/// The state of the About window: which of its buttons is under the pointer.
#[derive(Clone, Copy, Debug, PartialEq, Eq, Structural)]
pub struct About {
    pub hovered: Option<usize>,
}

impl About {
    /// The About window with no button under the pointer.
    pub fn new() -> (r: Self)
        ensures
            r.hovered is None,
    {
        About { hovered: None }
    }

    /// Applies one message: entering a button marks it, leaving any button
    /// clears the mark, the source code button asks to open the homepage and
    /// the OK button does nothing here.
    pub fn update(&mut self, msg: Message) -> (eff: Effect)
        ensures
            about_update_post(*old(self), msg, *final(self), eff),
    {
        match msg {
            Message::Hover(id, true) => {
                self.hovered = Some(id);
                Effect::Nothing
            },
            Message::Hover(_, false) => {
                self.hovered = None;
                Effect::Nothing
            },
            Message::Homepage => {
                proof {
                    reveal_strlit("https://github.com/S1nF0x/zippery");
                }
                Effect::OpenUrl("https://github.com/S1nF0x/zippery".to_string())
            },
            Message::Close => Effect::Nothing,
        }
    }

    /// Whether button `id` is under the pointer.
    pub fn is_hovered(&self, id: usize) -> (r: bool)
        ensures
            r == (self.hovered == Some(id)),
    {
        self.hovered == Some(id)
    }
}

/// Entering a button and leaving it again leaves no button marked.
pub proof fn lemma_about_hover_then_leave(
    a0: About,
    id: usize,
    a1: About,
    e1: Effect,
    a2: About,
    e2: Effect,
)
    requires
        about_update_post(a0, Message::Hover(id, true), a1, e1),
        about_update_post(a1, Message::Hover(id, false), a2, e2),
    ensures
        a1.hovered == Some(id),
        a2.hovered is None,
{
}

} // verus!
