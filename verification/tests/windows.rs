use zippery::about::{About, Effect as AboutEffect, Message as AboutMessage};
use zippery::config::{Config, ThemeKind};
use zippery::desktop::{Action, Desktop, Event};
use zippery::file::FileItem;
use zippery::launch::LaunchMode;
use zippery::manager::{Effect, Message, Request as ManagerRequest};
use zippery::placeholder::{Message as PlaceholderMessage, PlaceholderWindow};
use zippery::window::{Request, Window, WindowEffect, WindowKind, WindowMessage};

fn manager_window() -> Window {
    let files = vec![FileItem { path: "/d/a".to_string(), is_dir: false, size: Some(1), modified: None }];
    Window::from_mode(LaunchMode::Browse, Config::default(), "/d".to_string(), files).0
}

#[test]
fn about_hover_and_buttons() {
    let mut a = About::new();
    assert_eq!(a.hovered, None);
    assert!(matches!(a.update(AboutMessage::Hover(1, true)), AboutEffect::Nothing));
    assert!(a.is_hovered(1));
    assert!(!a.is_hovered(0));
    a.update(AboutMessage::Hover(0, false));
    assert_eq!(a.hovered, None);
    match a.update(AboutMessage::Homepage) {
        AboutEffect::OpenUrl(u) => assert_eq!(u, "https://github.com/S1nF0x/zippery"),
        other => panic!("unexpected {:?}", other),
    }
    assert!(matches!(a.update(AboutMessage::Close), AboutEffect::Nothing));
}

#[test]
fn placeholder_ignores_messages() {
    let mut p = PlaceholderWindow::default();
    p.update(PlaceholderMessage::Close);
    assert_eq!(p, PlaceholderWindow);
}

#[test]
fn window_routing() {
    let mut w = manager_window();
    assert_eq!(w.kind(), WindowKind::Manager);
    assert_eq!(w.title(), "Zippery");
    assert!(matches!(w.update(WindowMessage::Manager(Message::PickBackground)), WindowEffect::Manager(Effect::PickBackground)));
    assert!(matches!(w.update(WindowMessage::About(AboutMessage::Homepage)), WindowEffect::Nothing));
    assert!(matches!(w.update(WindowMessage::Request(Request::CloseWindow)), WindowEffect::Nothing));

    let mut a = Window::About(About::new());
    assert_eq!(a.kind(), WindowKind::About);
    assert_eq!(a.title(), "About");
    assert!(matches!(a.update(WindowMessage::About(AboutMessage::Close)), WindowEffect::Request(Request::CloseWindow)));
    assert!(matches!(a.update(WindowMessage::About(AboutMessage::Hover(0, true))), WindowEffect::About(AboutEffect::Nothing)));
    assert!(matches!(a.update(WindowMessage::Manager(Message::Goup)), WindowEffect::Nothing));
}

#[test]
fn from_mode_asks_for_the_cached_background() {
    let mut c = Config::default();
    c.ui.bg_cache = Some("/bg.png".to_string());
    let (_w, e) = Window::from_mode(LaunchMode::Browse, c, "/".to_string(), vec![]);
    match e {
        WindowEffect::Manager(Effect::LoadBackground(p)) => assert_eq!(p, "/bg.png"),
        other => panic!("unexpected {:?}", other),
    }
}

#[test]
fn first_window_opens_and_runs_its_work() {
    let (mut d, a): (Desktop<u32>, Action<u32>) = Desktop::new(ThemeKind::Dark, manager_window(), WindowEffect::Nothing);
    assert!(matches!(a, Action::OpenWindow(WindowKind::Manager)));
    assert_eq!(d.theme(), ThemeKind::Dark);
    assert!(d.window(1).is_none());
    assert_eq!(d.title(1), "");
    assert!(matches!(d.update(Event::Opened(1, 100)), Action::Run(100, WindowEffect::Nothing)));
    assert!(d.window(1).is_some());
    assert_eq!(d.title(1), "Zippery");
    assert!(matches!(d.update(Event::Opened(2, 200)), Action::Nothing));
}

#[test]
fn windows_open_in_the_order_asked() {
    let (mut d, _): (Desktop<u32>, Action<u32>) = Desktop::new(ThemeKind::Light, manager_window(), WindowEffect::Nothing);
    d.update(Event::Opened(1, 100));
    let a = d.update(Event::Window(1, 100, WindowMessage::Request(Request::OpenWindow(Window::About(About::new())))));
    assert!(matches!(a, Action::OpenWindow(WindowKind::About)));
    let b = d.update(Event::Window(1, 100, WindowMessage::Request(Request::OpenWindow(manager_window()))));
    assert!(matches!(b, Action::OpenWindow(WindowKind::Manager)));
    d.update(Event::Opened(2, 200));
    assert_eq!(d.title(2), "About");
    d.update(Event::Opened(3, 300));
    assert_eq!(d.title(3), "Zippery");
}

#[test]
fn only_the_topmost_window_listens() {
    let (mut d, _): (Desktop<u32>, Action<u32>) = Desktop::new(ThemeKind::Light, manager_window(), WindowEffect::Nothing);
    d.update(Event::Opened(1, 100));
    d.update(Event::Window(1, 100, WindowMessage::Request(Request::OpenWindow(Window::About(About::new())))));
    d.update(Event::Opened(2, 200));
    assert!(matches!(d.update(Event::Window(1, 100, WindowMessage::Manager(Message::Goup))), Action::Focus(200)));
    match d.update(Event::Window(2, 200, WindowMessage::About(AboutMessage::Close))) {
        Action::Run(200, WindowEffect::Request(Request::CloseWindow)) => {}
        other => panic!("unexpected {:?}", other),
    }
    assert!(matches!(d.update(Event::Window(2, 200, WindowMessage::Request(Request::CloseWindow))), Action::Close { window: 200, exit: false }));
    assert!(d.window(2).is_none());
    match d.update(Event::Window(1, 100, WindowMessage::Manager(Message::Goup))) {
        Action::Run(100, WindowEffect::Manager(Effect::ReadDir(p))) => assert_eq!(p, "/"),
        other => panic!("unexpected {:?}", other),
    }
}

#[test]
fn closing_the_last_window_exits() {
    let (mut d, _): (Desktop<u32>, Action<u32>) = Desktop::new(ThemeKind::Light, manager_window(), WindowEffect::Nothing);
    d.update(Event::Opened(1, 100));
    d.update(Event::Window(1, 100, WindowMessage::Request(Request::OpenWindow(Window::About(About::new())))));
    d.update(Event::Opened(2, 200));
    assert!(matches!(d.update(Event::Closed(1, 100)), Action::Nothing));
    assert!(matches!(d.update(Event::Closed(2, 200)), Action::Exit));
}

#[test]
fn close_request_of_the_last_window_exits() {
    let (mut d, _): (Desktop<u32>, Action<u32>) = Desktop::new(ThemeKind::Light, manager_window(), WindowEffect::Nothing);
    d.update(Event::Opened(1, 100));
    assert!(matches!(d.update(Event::Window(1, 100, WindowMessage::Request(Request::CloseWindow))), Action::Close { window: 100, exit: true }));
}

#[test]
fn messages_without_windows_do_nothing() {
    let (mut d, _): (Desktop<u32>, Action<u32>) = Desktop::new(ThemeKind::Light, manager_window(), WindowEffect::Nothing);
    assert!(matches!(d.update(Event::Window(5, 1, WindowMessage::Manager(Message::Goup))), Action::Nothing));
}

#[test]
fn the_file_manager_asks_for_the_about_window() {
    let mut w = manager_window();
    match w.update(WindowMessage::Manager(Message::Request(ManagerRequest::OpenAbout))) {
        WindowEffect::Request(Request::OpenWindow(Window::About(a))) => assert_eq!(a.hovered, None),
        other => panic!("unexpected {:?}", other),
    }
    assert_eq!(w.kind(), WindowKind::Manager);
    let mut a = Window::About(About::new());
    assert!(matches!(a.update(WindowMessage::Manager(Message::Request(ManagerRequest::OpenAbout))), WindowEffect::Nothing));
}

#[test]
fn the_about_request_opens_an_about_window_on_the_desktop() {
    let (mut d, _): (Desktop<u32>, Action<u32>) = Desktop::new(ThemeKind::Light, manager_window(), WindowEffect::Nothing);
    d.update(Event::Opened(1, 100));
    let req = match d.update(Event::Window(1, 100, WindowMessage::Manager(Message::Request(ManagerRequest::OpenAbout)))) {
        Action::Run(100, WindowEffect::Request(req)) => req,
        other => panic!("unexpected {:?}", other),
    };
    assert!(matches!(d.update(Event::Window(1, 100, WindowMessage::Request(req))), Action::OpenWindow(WindowKind::About)));
    d.update(Event::Opened(2, 200));
    assert_eq!(d.title(2), "About");
}
