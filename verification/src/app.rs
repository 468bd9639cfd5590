//! The router: which page is on show, which page an event goes to, and what
//! becomes of the messages that pages hand back.

use crate::action::{reply_view, Action, ActionView, Response};
use crate::capture::Command;
use crate::pages::detail::{after_detail_key, detail_reply, empty_detail};
use crate::pages::detail::{DetailView, PacketDetailsPage};
use crate::pages::device::{device_after_key, device_key_action, device_key_command};
use crate::pages::device::{loading, no_devices, DevicePage, DeviceView};
use crate::pages::home::{home_after_key, home_key_action, HomePage};
use crate::pages::sniffer::{after_page_event, after_update, initial_page, page_event_action};
use crate::pages::sniffer::{page_event_command, update_command, SnifferPage, SnifferView};
use crate::tui::{Event, KeyCode, KeyEvent, MouseEventKind};
use vstd::prelude::*;

verus! {

/// The pages of the application.
#[derive(Debug, Clone, Copy, PartialEq, Eq, Structural)]
pub enum Page {
    Home,
    Device,
    Sniffer,
    PacketDetails,
}

/// The application: its pages, which of them is on show, and whether it is
/// to end.
#[derive(Debug)]
pub struct App {
    pub should_quit: bool,
    pub current_page: Page,
    pub home_page: HomePage,
    pub device_page: DevicePage,
    pub sniffer_page: SnifferPage,
    pub packet_details_page: PacketDetailsPage,
}

/// The mathematical content of the application.
pub struct AppView {
    pub should_quit: bool,
    pub current_page: Page,
    pub home: HomePage,
    pub device: DeviceView,
    pub sniffer: SnifferView,
    pub details: DetailView,
}

impl View for App {
    type V = AppView;

    open spec fn view(&self) -> AppView {
        AppView {
            should_quit: self.should_quit,
            current_page: self.current_page,
            home: self.home_page,
            device: self.device_page@,
            sniffer: self.sniffer_page@,
            details: self.packet_details_page@,
        }
    }
}

/// What a key does before any page sees it.
pub enum GlobalKey {
    /// Nothing: the key goes to the page on show.
    Pass,
    /// The application is to end; the key still goes to the page on show.
    Quit,
    /// The home page comes on show; no page sees the key.
    GoHome,
}

/// Whether the filter dialog of the session page has the input focus.
pub open spec fn dialog_has_focus(app: AppView) -> bool {
    app.current_page == Page::Sniffer && app.sniffer.dialog.is_open
}

/// What `key` does before any page sees it. Escape leads home from every
/// other page and ends the application on the home page; Control-C ends it
/// everywhere. While the filter dialog has the focus every key is the
/// dialog's.
pub open spec fn global_key(app: AppView, key: KeyEvent) -> GlobalKey {
    if dialog_has_focus(app) {
        GlobalKey::Pass
    } else if key.code == KeyCode::Esc {
        if app.current_page != Page::Home {
            GlobalKey::GoHome
        } else {
            GlobalKey::Quit
        }
    } else if key.code == KeyCode::Char('c') && key.control {
        GlobalKey::Quit
    } else {
        GlobalKey::Pass
    }
}

/// The application after the page on show has handled `event`.
pub open spec fn after_page_handles(app: AppView, event: Event) -> AppView {
    match app.current_page {
        Page::Home => AppView {
            home: match event {
                Event::Key(key) => HomePage {
                    highlighted: home_after_key(app.home.highlighted, key.code),
                    ..app.home
                },
                Event::Mouse(mouse) => if mouse.kind == MouseEventKind::LeftDown {
                    HomePage { mouse_event: Some((mouse.column, mouse.row)), ..app.home }
                } else {
                    app.home
                },
                Event::Tick => app.home,
            },
            ..app
        },
        Page::Device => AppView {
            device: match event {
                Event::Key(key) => device_after_key(app.device, key.code),
                Event::Mouse(mouse) => if mouse.kind == MouseEventKind::LeftDown {
                    DeviceView { mouse_event: Some((mouse.column, mouse.row)), ..app.device }
                } else {
                    app.device
                },
                Event::Tick => app.device,
            },
            ..app
        },
        Page::Sniffer => AppView { sniffer: after_page_event(app.sniffer, event), ..app },
        Page::PacketDetails => AppView {
            details: match event {
                Event::Key(key) => after_detail_key(app.details, key.code),
                _ => app.details,
            },
            ..app
        },
    }
}

/// What the page on show hands to the router for `event`.
pub open spec fn page_action(app: AppView, event: Event) -> Option<ActionView> {
    match app.current_page {
        Page::Home => match event {
            Event::Key(key) => home_key_action(app.home.highlighted, key.code),
            _ => None,
        },
        Page::Device => match event {
            Event::Key(key) => device_key_action(app.device, key.code),
            _ => None,
        },
        Page::Sniffer => page_event_action(app.sniffer, event),
        Page::PacketDetails => match event {
            Event::Key(key) => detail_reply(app.details, key.code),
            _ => None,
        },
    }
}

/// What the page on show asks of the driver for `event`.
pub open spec fn page_command(app: AppView, event: Event) -> Command {
    match app.current_page {
        Page::Device => match event {
            Event::Key(key) => device_key_command(key.code),
            _ => Command::Nothing,
        },
        Page::Sniffer => page_event_command(app.sniffer, event),
        _ => Command::Nothing,
    }
}

/// The application after the router has dealt with `action`. Requests to
/// navigate change the page on show. A chosen device goes to the session page,
/// which comes on show. A record to open goes to the detail page, which comes
/// on show if there is such a record. Every other message goes to the page on
/// show, of which only the session page reacts.
pub open spec fn after_action(app: AppView, action: ActionView) -> AppView {
    match action {
        ActionView::NavigateToHome => AppView { current_page: Page::Home, ..app },
        ActionView::NavigateToDevice => AppView { current_page: Page::Device, ..app },
        ActionView::NavigateToSniffer => AppView { current_page: Page::Sniffer, ..app },
        ActionView::DeviceSelected(_) => AppView {
            sniffer: after_update(app.sniffer, action),
            current_page: Page::Sniffer,
            ..app
        },
        ActionView::PacketSelected(index) => {
            let sniffer = after_update(app.sniffer, action);
            if index < app.sniffer.packets.len() {
                AppView {
                    sniffer,
                    details: DetailView {
                        packet: Some(app.sniffer.packets[index as int]),
                        hex_scroll: 0,
                        ..app.details
                    },
                    current_page: Page::PacketDetails,
                    ..app
                }
            } else {
                AppView { sniffer, ..app }
            }
        },
        ActionView::Quit => AppView { should_quit: true, ..app },
        _ => if app.current_page == Page::Sniffer {
            AppView { sniffer: after_update(app.sniffer, action), ..app }
        } else {
            app
        },
    }
}

/// What dealing with `action` asks of the driver.
pub open spec fn action_command(app: AppView, action: ActionView) -> Command {
    match action {
        ActionView::NavigateToHome => Command::Nothing,
        ActionView::NavigateToDevice => Command::Nothing,
        ActionView::NavigateToSniffer => Command::Nothing,
        ActionView::DeviceSelected(_) => Command::Nothing,
        ActionView::PacketSelected(_) => Command::Nothing,
        ActionView::Quit => Command::Nothing,
        _ => if app.current_page == Page::Sniffer {
            update_command(app.sniffer, action)
        } else {
            Command::Nothing
        },
    }
}

/// The application after `action`, if there is one.
pub open spec fn after_reply(app: AppView, reply: Option<ActionView>) -> AppView {
    match reply {
        Some(action) => after_action(app, action),
        None => app,
    }
}

/// What the driver is to do when a page asked for `first` and dealing with
/// the page's message for `second`: the page's request, if it made one.
pub open spec fn first_command(first: Command, second: Command) -> Command {
    if first != Command::Nothing {
        first
    } else {
        second
    }
}

/// The application after an input event.
pub open spec fn after_event(app: AppView, event: Event) -> AppView {
    match event {
        Event::Key(key) => match global_key(app, key) {
            GlobalKey::GoHome => after_action(app, ActionView::NavigateToHome),
            GlobalKey::Quit => {
                let quitting = AppView { should_quit: true, ..app };
                after_reply(after_page_handles(quitting, event), page_action(quitting, event))
            },
            GlobalKey::Pass => after_reply(after_page_handles(app, event), page_action(app, event)),
        },
        _ => after_reply(after_page_handles(app, event), page_action(app, event)),
    }
}

/// What an input event asks of the driver.
pub open spec fn event_command(app: AppView, event: Event) -> Command {
    if event matches Event::Key(key) && global_key(app, key) is GoHome {
        Command::Nothing
    } else {
        first_command(
            page_command(app, event),
            match page_action(app, event) {
                Some(action) => action_command(after_page_handles(app, event), action),
                None => Command::Nothing,
            },
        )
    }
}

impl App {
    /// Whether the session page is well-formed: see [`SnifferPage::wf`].
    pub open spec fn wf(&self) -> bool {
        self.sniffer_page.wf()
    }

    /// An application that shows the home page.
    pub fn new() -> (app: Self)
        ensures
            app@ == (AppView {
                should_quit: false,
                current_page: Page::Home,
                home: HomePage { highlighted: Some(0), mouse_event: None },
                device: no_devices(),
                sniffer: initial_page(),
                details: empty_detail(),
            }),
            app.wf(),
    {
        App {
            should_quit: false,
            current_page: Page::Home,
            home_page: HomePage::new(),
            device_page: DevicePage::new(),
            sniffer_page: SnifferPage::new(),
            packet_details_page: PacketDetailsPage::new(),
        }
    }

    /// Gets the pages going: the device page wants its devices listed.
    pub fn run(&mut self) -> (command: Command)
        ensures
            final(self)@ == (AppView { device: loading(old(self)@.device), ..old(self)@ }),
            command == Command::LoadDevices,
    {
        self.device_page.request_devices()
    }

    /// Asks the application to end.
    pub fn quit(&mut self)
        ensures
            final(self)@ == (AppView { should_quit: true, ..old(self)@ }),
            final(self).wf() == old(self).wf(),
    {
        self.should_quit = true;
    }

    /// What `key` does before any page sees it.
    pub fn handle_global_key_events(&mut self, key: KeyEvent) -> (reply: Option<Action>)
        ensures
            match global_key(old(self)@, key) {
                GlobalKey::Pass => final(self)@ == old(self)@ && reply is None,
                GlobalKey::Quit => final(self)@ == (AppView { should_quit: true, ..old(self)@ })
                    && reply is None,
                GlobalKey::GoHome => final(self)@ == old(self)@ && reply_view(reply) == Some(
                    ActionView::NavigateToHome,
                ),
            },
            final(self).wf() == old(self).wf(),
    {
        let focus = match self.current_page {
            Page::Sniffer => self.sniffer_page.filter_dialog.is_open,
            _ => false,
        };
        if focus {
            return None;
        }
        match key.code {
            KeyCode::Esc => {
                match self.current_page {
                    Page::Home => {
                        self.quit();
                        None
                    },
                    _ => Some(Action::NavigateToHome),
                }
            },
            KeyCode::Char(c) => {
                if c == 'c' && key.control {
                    self.quit();
                }
                None
            },
            _ => None,
        }
    }

    /// Hands `event` to the page on show.
    fn dispatch(&mut self, event: Event) -> (response: Response)
        ensures
            final(self)@ == after_page_handles(old(self)@, event),
            reply_view(response.action) == page_action(old(self)@, event),
            response.command == page_command(old(self)@, event),
            old(self).wf() ==> final(self).wf(),
    {
        match self.current_page {
            Page::Home => Response {
                action: self.home_page.handle_events(event),
                command: Command::Nothing,
            },
            Page::Device => self.device_page.handle_events(event),
            Page::Sniffer => self.sniffer_page.handle_events(event),
            Page::PacketDetails => Response {
                action: self.packet_details_page.handle_events(event),
                command: Command::Nothing,
            },
        }
    }

    /// Reacts to an input event: global keys first, then the page on show,
    /// then the message that the page handed back, if any. The result says
    /// what the driver is to do.
    pub fn handle_events(&mut self, event: Event) -> (command: Command)
        ensures
            final(self)@ == after_event(old(self)@, event),
            command == event_command(old(self)@, event),
            old(self).wf() ==> final(self).wf(),
    {
        let global = match event {
            Event::Key(key) => self.handle_global_key_events(key),
            _ => None,
        };
        match global {
            Some(action) => self.handle_action(action),
            None => {
                let response = self.dispatch(event);
                let second = match response.action {
                    Some(action) => self.handle_action(action),
                    None => Command::Nothing,
                };
                match response.command {
                    Command::Nothing => second,
                    first => first,
                }
            },
        }
    }

    /// Deals with a message from a page.
    pub fn handle_action(&mut self, action: Action) -> (command: Command)
        ensures
            final(self)@ == after_action(old(self)@, action@),
            command == action_command(old(self)@, action@),
            old(self).wf() ==> final(self).wf(),
    {
        match action {
            Action::NavigateToHome => {
                self.current_page = Page::Home;
                Command::Nothing
            },
            Action::NavigateToDevice => {
                self.current_page = Page::Device;
                Command::Nothing
            },
            Action::NavigateToSniffer => {
                self.current_page = Page::Sniffer;
                Command::Nothing
            },
            Action::DeviceSelected(device_name) => {
                self.sniffer_page.update(Action::DeviceSelected(device_name));
                self.current_page = Page::Sniffer;
                Command::Nothing
            },
            Action::PacketSelected(index) => {
                let record = self.sniffer_page.get_packet(index);
                self.sniffer_page.update(Action::PacketSelected(index));
                match record {
                    Some(packet) => {
                        self.packet_details_page.set_packet(packet);
                        self.current_page = Page::PacketDetails;
                    },
                    None => {},
                }
                Command::Nothing
            },
            Action::Quit => {
                self.quit();
                Command::Nothing
            },
            other => {
                match self.current_page {
                    Page::Home => {
                        self.home_page.update(other);
                        Command::Nothing
                    },
                    Page::Device => {
                        self.device_page.update(other);
                        Command::Nothing
                    },
                    Page::Sniffer => self.sniffer_page.update(other),
                    Page::PacketDetails => {
                        self.packet_details_page.update(other);
                        Command::Nothing
                    },
                }
            },
        }
    }
}

} // verus!
