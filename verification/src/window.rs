use vstd::prelude::*;

use crate::about;
use crate::about::{About, about_update_post};
use crate::config::Config;
use crate::file::{FileItem, stable_sort_of};
use crate::launch::LaunchMode;
use crate::manager;
use crate::manager::{Effect, Manager, Message, update_post};
use crate::paths::opt_view;

verus! {

/// A window of the application.
#[derive(Debug)]
pub enum Window {
    Manager(Manager),
    About(About),
}

/// The kind of a window, which decides how it is placed on the screen.
#[derive(Clone, Copy, Debug, PartialEq, Eq, Structural)]
pub enum WindowKind {
    Manager,
    About,
}

/// What a window asks of the application.
#[derive(Debug)]
pub enum Request {
    /// Open this window.
    OpenWindow(Window),
    /// Close the window that asks.
    CloseWindow,
}

/// A message addressed to one window.
#[derive(Debug)]
pub enum WindowMessage {
    Request(Request),
    About(about::Message),
    Manager(Message),
}

/// The work a window asks for after a message.
#[derive(Debug)]
pub enum WindowEffect {
    /// Nothing.
    Nothing,
    /// Hand this request back to the window as a message.
    Request(Request),
    /// The work the file manager asks for.
    Manager(Effect),
    /// The work the About window asks for.
    About(about::Effect),
}

/// How message `msg` changes window `pre` into `post` and what it asks for:
/// the file manager's request for the About window asks to open a fresh one,
/// another file manager message goes to a file manager window, the OK button
/// of the About window asks to close it, another About message goes to an
/// About window, and anything else is ignored.
pub open spec fn window_update_post(pre: Window, msg: WindowMessage, post: Window, eff: WindowEffect) -> bool {
    match msg {
        WindowMessage::Manager(x) => match pre {
            Window::Manager(_) if x == Message::Request(manager::Request::OpenAbout) => {
                &&& post == pre
                &&& eff matches WindowEffect::Request(r) && r matches Request::OpenWindow(w) && w
                    matches Window::About(a) && a.hovered is None
            },
            Window::Manager(m) => {
                &&& post matches Window::Manager(m2)
                &&& eff matches WindowEffect::Manager(e)
                &&& update_post(m@, x, m2@, e)
            },
            Window::About(_) => post == pre && eff is Nothing,
        },
        WindowMessage::About(x) => match pre {
            Window::About(a) => if x == about::Message::Close {
                post == pre && (eff matches WindowEffect::Request(r) && r is CloseWindow)
            } else {
                &&& post matches Window::About(a2)
                &&& eff matches WindowEffect::About(e)
                &&& about_update_post(a, x, a2, e)
            },
            Window::Manager(_) => post == pre && eff is Nothing,
        },
        WindowMessage::Request(_) => post == pre && eff is Nothing,
    }
}

/// The title of window `w`.
pub open spec fn title_of(w: Window) -> Seq<char> {
    match w {
        Window::Manager(_) => "Zippery"@,
        Window::About(_) => "About"@,
    }
}

impl Window {
    /// The first window for launch mode `mode`: browsing opens the file
    /// manager on `current_dir` with entries `files` and settings `config`.
    /// The other modes are not available yet.
    pub fn from_mode(mode: LaunchMode, config: Config, current_dir: String, files: Vec<FileItem>) -> (r: (Window, WindowEffect))
        requires
            mode is Browse,
        ensures
            r.0 matches Window::Manager(m) && {
                &&& m@.sort == config.sort
                &&& m@.bg_cache == opt_view(config.ui.bg_cache)
                &&& m@.theme == config.ui.theme
                &&& m@.current_dir == current_dir@
                &&& stable_sort_of(files@, m@.files, config.sort)
                &&& m@.hovered is None
                &&& m@.selected.len() == 0
                &&& m@.renaming is None
                &&& m@.buffer.len() == 0
                &&& m@.error is None
            },
            r.1 matches WindowEffect::Manager(e) && match config.ui.bg_cache {
                Some(p) => e matches Effect::LoadBackground(q) && q@ == p@,
                None => e is Nothing,
            },
    {
        let (m, e) = Manager::new(config, current_dir, files);
        (Window::Manager(m), WindowEffect::Manager(e))
    }

    /// The kind of this window.
    pub fn kind(&self) -> (r: WindowKind)
        ensures
            r == match self {
                Window::Manager(_) => WindowKind::Manager,
                Window::About(_) => WindowKind::About,
            },
    {
        match self {
            Window::Manager(_) => WindowKind::Manager,
            Window::About(_) => WindowKind::About,
        }
    }

    /// The title of this window.
    pub fn title(&self) -> (r: String)
        ensures
            r@ == title_of(*self),
    {
        match self {
            Window::Manager(_) => "Zippery".to_string(),
            Window::About(_) => "About".to_string(),
        }
    }

    /// Passes a message to this window.
    pub fn update(&mut self, msg: WindowMessage) -> (eff: WindowEffect)
        ensures
            window_update_post(*old(self), msg, *final(self), eff),
    {
        match msg {
            WindowMessage::Manager(manager::Message::Request(manager::Request::OpenAbout)) => match self {
                Window::Manager(_) => WindowEffect::Request(Request::OpenWindow(Window::About(About::new()))),
                Window::About(_) => WindowEffect::Nothing,
            },
            WindowMessage::Manager(x) => match self {
                Window::Manager(m) => WindowEffect::Manager(m.update(x)),
                Window::About(_) => WindowEffect::Nothing,
            },
            WindowMessage::About(x) => match self {
                Window::About(a) => {
                    if x == about::Message::Close {
                        WindowEffect::Request(Request::CloseWindow)
                    } else {
                        WindowEffect::About(a.update(x))
                    }
                },
                Window::Manager(_) => WindowEffect::Nothing,
            },
            WindowMessage::Request(_) => WindowEffect::Nothing,
        }
    }
}

} // verus!
