use vstd::prelude::*;

use crate::config::ThemeKind;
use crate::window::{
    Request, Window, WindowEffect, WindowKind, WindowMessage, title_of, window_update_post,
};

verus! {

/// What happens to the application's windows. `K` numbers stand for the
/// windows, in the order they were created; `H` is the caller's handle of
/// the same window.
#[derive(Debug)]
pub enum Event<H> {
    /// A message for window `K`.
    Window(u64, H, WindowMessage),
    /// Window `K` has opened.
    Opened(u64, H),
    /// Window `K` has closed.
    Closed(u64, H),
}

/// The work the application asks its caller to do.
#[derive(Debug)]
pub enum Action<H> {
    /// Nothing.
    Nothing,
    /// Open a new window of this kind; it will report `Event::Opened`.
    OpenWindow(WindowKind),
    /// Close this window, and leave the application too when `exit` is set.
    Close { window: H, exit: bool },
    /// Leave the application.
    Exit,
    /// Bring this window to the front.
    Focus(H),
    /// Do this work for this window.
    Run(H, WindowEffect),
}

/// The windows of the application: those on screen, by number, and those
/// asked for that have not opened yet, with the work each asks for once it
/// is open. The windows on screen are always listed by increasing number.
#[derive(Debug)]
pub struct Desktop<H> {
    set: WindowSet<H>,
}

/// The content of a `Desktop`, which its operations work on.
#[derive(Debug)]
struct WindowSet<H> {
    windows: Vec<(u64, H, Window)>,
    pending: Vec<(Window, WindowEffect)>,
    theme: ThemeKind,
}

/// The mathematical value of the application's windows.
pub struct DesktopModel<H> {
    pub windows: Seq<(u64, H, Window)>,
    pub pending: Seq<(Window, WindowEffect)>,
    pub theme: ThemeKind,
}

impl<H> View for WindowSet<H> {
    type V = DesktopModel<H>;

    closed spec fn view(&self) -> DesktopModel<H> {
        DesktopModel { windows: self.windows@, pending: self.pending@, theme: self.theme }
    }
}

impl<H> View for Desktop<H> {
    type V = DesktopModel<H>;

    closed spec fn view(&self) -> DesktopModel<H> {
        self.set@
    }
}

impl<H> Desktop<H> {
    /// The windows on screen are listed by increasing number.
    #[verifier::type_invariant]
    spec fn windows_in_order(self) -> bool {
        desktop_wf(self.set@)
    }
}

/// The windows on screen are listed by increasing number.
pub open spec fn desktop_wf<H>(d: DesktopModel<H>) -> bool {
    forall|i: int, j: int|
        0 <= i < j < d.windows.len() ==> #[trigger] d.windows[i].0 < #[trigger] d.windows[j].0
}

/// Window number `k` is on screen.
pub open spec fn has_key<H>(ws: Seq<(u64, H, Window)>, k: u64) -> bool {
    exists|i: int| 0 <= i < ws.len() && (#[trigger] ws[i]).0 == k
}

/// `post` is `ws` without window number `k`.
pub open spec fn removed<H>(ws: Seq<(u64, H, Window)>, k: u64, post: Seq<(u64, H, Window)>) -> bool {
    if has_key(ws, k) {
        exists|i: int| 0 <= i < ws.len() && (#[trigger] ws[i]).0 == k && post == ws.remove(i)
    } else {
        post == ws
    }
}

/// `post` is `ws` with window `w` under number `k` and handle `h`, in place
/// of the window that had that number, if any.
pub open spec fn inserted<H>(
    ws: Seq<(u64, H, Window)>,
    k: u64,
    h: H,
    w: Window,
    post: Seq<(u64, H, Window)>,
) -> bool {
    if has_key(ws, k) {
        exists|i: int| 0 <= i < ws.len() && (#[trigger] ws[i]).0 == k && post == ws.update(i, (k, h, w))
    } else {
        exists|pos: int|
            0 <= pos <= ws.len() && (forall|i: int| 0 <= i < pos ==> (#[trigger] ws[i]).0 < k) && (
            forall|i: int| pos <= i < ws.len() ==> (#[trigger] ws[i]).0 > k) && post == ws.insert(
                pos,
                (k, h, w),
            )
    }
}

/// The kind of window `w`.
pub open spec fn kind_of(w: Window) -> WindowKind {
    match w {
        Window::Manager(_) => WindowKind::Manager,
        Window::About(_) => WindowKind::About,
    }
}

/// How event `ev` changes the windows `pre` into `post` and what it asks for.
///
/// A window's request to open another queues it and asks for a new window;
/// its request to close removes it, and the application ends with its last
/// window. Any other message goes only to the topmost window, the one with
/// the highest number: a message for another window brings the topmost one
/// to the front instead. An opened window takes the oldest queued one; a
/// closed window is removed, and the application ends with its last window.
pub open spec fn desktop_post<H>(pre: DesktopModel<H>, ev: Event<H>, post: DesktopModel<H>, act: Action<H>) -> bool {
    match ev {
        Event::Window(k, h, msg) => match msg {
            WindowMessage::Request(Request::OpenWindow(w)) => {
                &&& post == DesktopModel {
                    pending: pre.pending.push((w, WindowEffect::Nothing)),
                    ..pre
                }
                &&& act matches Action::OpenWindow(kind) && kind == kind_of(w)
            },
            WindowMessage::Request(Request::CloseWindow) => {
                &&& post.pending == pre.pending
                &&& post.theme == pre.theme
                &&& removed(pre.windows, k, post.windows)
                &&& act matches Action::Close { window, exit } && window == h && exit == (
                post.windows.len() == 0)
            },
            other => if pre.windows.len() == 0 {
                post == pre && act is Nothing
            } else {
                let last = pre.windows.len() - 1;
                let top = pre.windows[last];
                if top.0 != k {
                    post == pre && act == Action::Focus(top.1)
                } else {
                    &&& post.pending == pre.pending
                    &&& post.theme == pre.theme
                    &&& post.windows.len() == pre.windows.len()
                    &&& post.windows.take(last) == pre.windows.take(last)
                    &&& post.windows[last].0 == top.0
                    &&& post.windows[last].1 == top.1
                    &&& act matches Action::Run(hh, eff) && hh == h && window_update_post(
                        top.2,
                        other,
                        post.windows[last].2,
                        eff,
                    )
                }
            },
        },
        Event::Opened(k, h) => if pre.pending.len() == 0 {
            post == pre && act is Nothing
        } else {
            &&& post.pending == pre.pending.drop_first()
            &&& post.theme == pre.theme
            &&& inserted(pre.windows, k, h, pre.pending[0].0, post.windows)
            &&& act == Action::Run(h, pre.pending[0].1)
        },
        Event::Closed(k, h) => {
            &&& post.pending == pre.pending
            &&& post.theme == pre.theme
            &&& removed(pre.windows, k, post.windows)
            &&& if post.windows.len() == 0 {
                act is Exit
            } else {
                act is Nothing
            }
        },
    }
}

impl<H: Copy> WindowSet<H> {
    /// The application with theme `theme` and no window yet on screen; the
    /// first window `first` is queued with the work `first_effect` it asks
    /// for once open, and a window is asked for.
    fn new(theme: ThemeKind, first: Window, first_effect: WindowEffect) -> (r: (WindowSet<H>, Action<H>))
        ensures
            r.0@.windows.len() == 0,
            r.0@.pending == seq![(first, first_effect)],
            r.0@.theme == theme,
            desktop_wf(r.0@),
            r.1 matches Action::OpenWindow(kind) && kind == kind_of(first),
    {
        let kind = first.kind();
        let mut pending = Vec::new();
        pending.push((first, first_effect));
        let d = WindowSet { windows: Vec::new(), pending, theme };
        assert(d.pending@ =~= seq![(first, first_effect)]);
        (d, Action::OpenWindow(kind))
    }

    /// The theme of the windows.
    fn theme(&self) -> (r: ThemeKind)
        ensures
            r == self@.theme,
    {
        self.theme
    }

    /// Where window number `k` is listed, if it is on screen.
    fn position(&self, k: u64) -> (r: Option<usize>)
        ensures
            match r {
                Some(i) => i < self@.windows.len() && self@.windows[i as int].0 == k,
                None => !has_key(self@.windows, k),
            },
    {
        let mut i: usize = 0;
        while i < self.windows.len()
            invariant
                i <= self.windows@.len(),
                forall|j: int| 0 <= j < i ==> (#[trigger] self.windows@[j]).0 != k,
            decreases self.windows@.len() - i,
        {
            if self.windows[i].0 == k {
                return Some(i);
            }
            i = i + 1;
        }
        None
    }

    /// Window number `k`, if it is on screen.
    fn window(&self, k: u64) -> (r: Option<&Window>)
        ensures
            match r {
                Some(w) => exists|i: int|
                    0 <= i < self@.windows.len() && (#[trigger] self@.windows[i]).0 == k && self@.windows[i].2
                        == *w,
                None => !has_key(self@.windows, k),
            },
    {
        match self.position(k) {
            Some(i) => Some(&self.windows[i].2),
            None => None,
        }
    }

    /// The title of window number `k`, or the empty string when it is not on
    /// screen.
    fn title(&self, k: u64) -> (r: String)
        ensures
            !has_key(self@.windows, k) ==> r@ == Seq::<char>::empty(),
            has_key(self@.windows, k) ==> exists|i: int|
                0 <= i < self@.windows.len() && (#[trigger] self@.windows[i]).0 == k && r@ == title_of(
                    self@.windows[i].2,
                ),
    {
        match self.position(k) {
            Some(i) => self.windows[i].2.title(),
            None => String::new(),
        }
    }

    fn remove_key(&mut self, k: u64)
        requires
            desktop_wf(old(self)@),
        ensures
            removed(old(self)@.windows, k, final(self)@.windows),
            final(self)@.pending == old(self)@.pending,
            final(self)@.theme == old(self)@.theme,
            desktop_wf(final(self)@),
    {
        match self.position(k) {
            Some(i) => {
                let ghost before = self.windows@;
                let _ = self.windows.remove(i);
                assert(self.windows@ == before.remove(i as int));
                assert forall|a: int, b: int| 0 <= a < b < self.windows@.len() implies #[trigger] self.windows@[a].0
                    < #[trigger] self.windows@[b].0 by {
                    let sa = if a < i { a } else { a + 1 };
                    let sb = if b < i { b } else { b + 1 };
                    assert(self.windows@[a] == before[sa]);
                    assert(self.windows@[b] == before[sb]);
                    assert(before[sa].0 < before[sb].0);
                };
            },
            None => {},
        }
    }

    fn insert_key(&mut self, k: u64, h: H, w: Window)
        requires
            desktop_wf(old(self)@),
        ensures
            inserted(old(self)@.windows, k, h, w, final(self)@.windows),
            final(self)@.pending == old(self)@.pending,
            final(self)@.theme == old(self)@.theme,
            desktop_wf(final(self)@),
    {
        let ghost before = self.windows@;
        assert(self@.windows == self.windows@);
        assert(desktop_wf(self@));
        assert(forall|a: int, b: int|
            0 <= a < b < before.len() ==> #[trigger] before[a].0 < #[trigger] before[b].0);
        let mut pos: usize = 0;
        while pos < self.windows.len() && self.windows[pos].0 < k
            invariant
                pos <= self.windows@.len(),
                self.windows@ == before,
                forall|a: int, b: int|
                    0 <= a < b < before.len() ==> #[trigger] before[a].0 < #[trigger] before[b].0,
                forall|i: int| 0 <= i < pos ==> (#[trigger] before[i]).0 < k,
            decreases self.windows@.len() - pos,
        {
            pos = pos + 1;
        }
        if pos < self.windows.len() && self.windows[pos].0 == k {
            self.windows.set(pos, (k, h, w));
            assert(has_key(before, k));
            assert forall|a: int, b: int| 0 <= a < b < self.windows@.len() implies #[trigger] self.windows@[a].0
                < #[trigger] self.windows@[b].0 by {
                assert(before[a].0 < before[b].0);
            };
        } else {
            assert forall|i: int| pos <= i < before.len() implies (#[trigger] before[i]).0 > k by {
                if i > pos {
                    assert(before[pos as int].0 < before[i].0);
                }
            };
            assert(!has_key(before, k)) by {
                if has_key(before, k) {
                    let j = choose|j: int| 0 <= j < before.len() && (#[trigger] before[j]).0 == k;
                    assert(before[j].0 == k);
                }
            };
            self.windows.insert(pos, (k, h, w));
            assert forall|a: int, b: int| 0 <= a < b < self.windows@.len() implies #[trigger] self.windows@[a].0
                < #[trigger] self.windows@[b].0 by {
                let p = pos as int;
                if a < p && b < p {
                    assert(before[a].0 < before[b].0);
                } else if a < p && b == p {
                    assert(before[a].0 < k);
                } else if a < p && b > p {
                    assert(before[a].0 < k);
                    assert(before[b - 1].0 > k);
                } else if a == p {
                    assert(before[b - 1].0 > k);
                } else {
                    assert(before[a - 1].0 < before[b - 1].0);
                }
            };
        }
    }

    /// Applies one event and says what work it asks for.
    fn update(&mut self, ev: Event<H>) -> (act: Action<H>)
        requires
            desktop_wf(old(self)@),
        ensures
            desktop_post(old(self)@, ev, final(self)@, act),
            desktop_wf(final(self)@),
    {
        match ev {
            Event::Window(k, h, msg) => match msg {
                WindowMessage::Request(Request::OpenWindow(w)) => {
                    let kind = w.kind();
                    self.pending.push((w, WindowEffect::Nothing));
                    Action::OpenWindow(kind)
                },
                WindowMessage::Request(Request::CloseWindow) => {
                    self.remove_key(k);
                    let exit = self.windows.len() == 0;
                    Action::Close { window: h, exit }
                },
                other => {
                    let n = self.windows.len();
                    if n == 0 {
                        return Action::Nothing;
                    }
                    if self.windows[n - 1].0 != k {
                        return Action::Focus(self.windows[n - 1].1);
                    }
                    let ghost before = self.windows@;
                    assert(before == old(self)@.windows);
                    let (kk, hh, mut w) = self.windows.pop().unwrap();
                    let eff = w.update(other);
                    self.windows.push((kk, hh, w));
                    assert(self.windows@.take(n - 1) =~= before.take(n - 1));
                    assert forall|a: int, b: int| 0 <= a < b < self.windows@.len() implies #[trigger] self.windows@[a].0
                        < #[trigger] self.windows@[b].0 by {
                        assert(before[a].0 < before[b].0);
                    };
                    Action::Run(h, eff)
                },
            },
            Event::Opened(k, h) => {
                if self.pending.len() == 0 {
                    Action::Nothing
                } else {
                    let ghost before = self.windows@;
                    assert(old(self)@.windows == before);
                    let (w, eff) = self.pending.remove(0);
                    assert(self.windows@ == before);
                    assert(self@.windows == before);
                    assert(desktop_wf(self@));
                    self.insert_key(k, h, w);
                    Action::Run(h, eff)
                }
            },
            Event::Closed(k, _h) => {
                self.remove_key(k);
                if self.windows.len() == 0 {
                    Action::Exit
                } else {
                    Action::Nothing
                }
            },
        }
    }
}

impl<H: Copy> Desktop<H> {
    /// The application with theme `theme` and no window yet on screen; the
    /// first window `first` is queued with the work `first_effect` it asks
    /// for once open, and a window is asked for.
    pub fn new(theme: ThemeKind, first: Window, first_effect: WindowEffect) -> (r: (Desktop<H>, Action<H>))
        ensures
            r.0@.windows.len() == 0,
            r.0@.pending == seq![(first, first_effect)],
            r.0@.theme == theme,
            desktop_wf(r.0@),
            r.1 matches Action::OpenWindow(kind) && kind == kind_of(first),
    {
        let (set, action) = WindowSet::new(theme, first, first_effect);
        (Desktop { set }, action)
    }

    /// The theme of the windows.
    pub fn theme(&self) -> (r: ThemeKind)
        ensures
            r == self@.theme,
    {
        self.set.theme()
    }

    /// Window number `k`, if it is on screen.
    pub fn window(&self, k: u64) -> (r: Option<&Window>)
        ensures
            match r {
                Some(w) => exists|i: int|
                    0 <= i < self@.windows.len() && (#[trigger] self@.windows[i]).0 == k && self@.windows[i].2
                        == *w,
                None => !has_key(self@.windows, k),
            },
    {
        self.set.window(k)
    }

    /// The title of window number `k`, or the empty string when it is not on
    /// screen.
    pub fn title(&self, k: u64) -> (r: String)
        ensures
            !has_key(self@.windows, k) ==> r@ == Seq::<char>::empty(),
            has_key(self@.windows, k) ==> exists|i: int|
                0 <= i < self@.windows.len() && (#[trigger] self@.windows[i]).0 == k && r@ == title_of(
                    self@.windows[i].2,
                ),
    {
        self.set.title(k)
    }

    /// Applies one event and says what work it asks for.
    pub fn update(&mut self, ev: Event<H>) -> (act: Action<H>)
        ensures
            desktop_post(old(self)@, ev, final(self)@, act),
            desktop_wf(final(self)@),
    {
        proof {
            use_type_invariant(&*self);
        }
        let mut set = WindowSet { windows: Vec::new(), pending: Vec::new(), theme: self.set.theme };
        std::mem::swap(&mut set, &mut self.set);
        let act = set.update(ev);
        self.set = set;
        act
    }
}

/// Windows open in the order they were asked for: with nothing queued, two
/// requests to open windows followed by an opened window show the first
/// window asked for, and leave the second queued.
pub proof fn lemma_windows_open_in_order<H>(
    s0: DesktopModel<H>,
    k1: u64,
    h1: H,
    w1: Window,
    s1: DesktopModel<H>,
    a1: Action<H>,
    k2: u64,
    h2: H,
    w2: Window,
    s2: DesktopModel<H>,
    a2: Action<H>,
    n: u64,
    g: H,
    s3: DesktopModel<H>,
    a3: Action<H>,
)
    requires
        s0.pending.len() == 0,
        desktop_post(s0, Event::Window(k1, h1, WindowMessage::Request(Request::OpenWindow(w1))), s1, a1),
        desktop_post(s1, Event::Window(k2, h2, WindowMessage::Request(Request::OpenWindow(w2))), s2, a2),
        desktop_post(s2, Event::Opened(n, g), s3, a3),
    ensures
        has_key(s3.windows, n),
        exists|i: int| 0 <= i < s3.windows.len() && (#[trigger] s3.windows[i]) == (n, g, w1),
        s3.pending == seq![(w2, WindowEffect::Nothing)],
        a3 == Action::Run(g, WindowEffect::Nothing),
{
    assert(s2.pending =~= seq![(w1, WindowEffect::Nothing), (w2, WindowEffect::Nothing)]);
    assert(s3.pending =~= seq![(w2, WindowEffect::Nothing)]);
    if has_key(s2.windows, n) {
        let i = choose|i: int| 0 <= i < s2.windows.len() && (#[trigger] s2.windows[i]).0 == n && s3.windows == s2.windows.update(i, (n, g, w1));
        assert(s3.windows[i] == (n, g, w1));
    } else {
        let pos = choose|pos: int|
            0 <= pos <= s2.windows.len() && (forall|i: int| 0 <= i < pos ==> (#[trigger] s2.windows[i]).0 < n) && (
            forall|i: int| pos <= i < s2.windows.len() ==> (#[trigger] s2.windows[i]).0 > n) && s3.windows == s2.windows.insert(
                pos,
                (n, g, w1),
            );
        assert(s3.windows[pos] == (n, g, w1));
    }
}

/// A message for a window that is not the topmost one changes nothing and
/// brings the topmost window to the front.
pub proof fn lemma_only_topmost_listens<H>(
    pre: DesktopModel<H>,
    k: u64,
    h: H,
    msg: WindowMessage,
    post: DesktopModel<H>,
    act: Action<H>,
)
    requires
        !(msg is Request),
        pre.windows.len() > 0,
        pre.windows.last().0 != k,
        desktop_post(pre, Event::Window(k, h, msg), post, act),
    ensures
        post == pre,
        act == Action::Focus(pre.windows.last().1),
{
}

/// Closing the only window on screen, by the system or by its own request,
/// ends the application when nothing else is on screen.
pub proof fn lemma_last_window_ends<H>(
    pre: DesktopModel<H>,
    k: u64,
    h: H,
    ev: Event<H>,
    post: DesktopModel<H>,
    act: Action<H>,
)
    requires
        pre.windows.len() == 1,
        pre.windows[0].0 == k,
        (ev == Event::Closed(k, h)) || (ev == Event::Window(k, h, WindowMessage::Request(Request::CloseWindow))),
        desktop_post(pre, ev, post, act),
    ensures
        post.windows.len() == 0,
        act is Exit || act == (Action::Close { window: h, exit: true }),
{
    assert(has_key(pre.windows, k)) by {
        assert(pre.windows[0].0 == k);
    };
}

} // verus!
