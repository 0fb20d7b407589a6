//! The application state machine over the menu and the two screens.
//! The caller polls the terminal, feeds key presses in, performs the
//! network call for a submitted input, and hands the response back.

use vstd::prelude::*;
use crate::text::{seq_views, join_with, trimmed};
use crate::tui::Key;
use crate::tui::menu::{Menu, MenuAction};
use crate::tui::screens::{LlmScreen, TrackerScreen, ScreenEvent, ScreenId, spec_limited};

verus! {

/// What the application currently shows.
#[derive(Debug, Clone, Copy, PartialEq, Eq, Structural)]
pub enum ActiveView {
    Menu,
    Screen(ScreenId),
}

/// The whole UI state: which view is active, the menu, and both
/// screens, each keeping its own log.
#[derive(Debug, Clone)]
pub struct App {
    pub active_view: ActiveView,
    pub menu: Menu,
    pub tracker: TrackerScreen,
    pub llm: LlmScreen,
}

/// The input line of one screen.
pub open spec fn spec_screen_input(app: App, id: ScreenId) -> Seq<char> {
    match id {
        ScreenId::Tracker => app.tracker.input@,
        ScreenId::Llm => app.llm.input@,
    }
}

impl App {
    /// A fresh application showing the menu.
    pub fn new() -> (r: Self)
        ensures
            r.active_view is Menu,
            r.tracker.input@.len() == 0,
            r.llm.input@.len() == 0,
    {
        App {
            active_view: ActiveView::Menu,
            menu: Menu::new(),
            tracker: TrackerScreen::new(),
            llm: LlmScreen::new(),
        }
    }

    /// Handles the keys that work everywhere: `q` asks to quit, escape
    /// returns to the menu, anything else is left to the active view.
    pub fn handle_global_key(&mut self, key: Key) -> (r: bool)
        ensures
            r == (key == Key::Char('q')),
            final(self).menu == old(self).menu,
            final(self).tracker == old(self).tracker,
            final(self).llm == old(self).llm,
            key is Esc ==> final(self).active_view is Menu,
            !(key is Esc) ==> final(self).active_view == old(self).active_view,
    {
        match key {
            Key::Char(c) => c == 'q',
            Key::Esc => {
                self.active_view = ActiveView::Menu;
                false
            },
            _ => false,
        }
    }

    /// Handles one key press on the active view. On the menu, `1` and
    /// `2` open a screen. On a screen, the key edits the input line;
    /// a submitted line comes back with its screen, for the caller to
    /// execute, and the logs stay untouched here.
    pub fn handle_key(&mut self, key: Key) -> (r: Option<(ScreenId, String)>)
        ensures
            final(self).menu == old(self).menu,
            old(self).active_view is Menu ==> {
                &&& r is None
                &&& final(self).tracker == old(self).tracker
                &&& final(self).llm == old(self).llm
                &&& (key == Key::Char('1') ==> final(self).active_view == ActiveView::Screen(
                    ScreenId::Tracker,
                ))
                &&& (key == Key::Char('2') ==> final(self).active_view == ActiveView::Screen(
                    ScreenId::Llm,
                ))
                &&& (key != Key::Char('1') && key != Key::Char('2') ==> final(self).active_view
                    == old(self).active_view)
            },
            old(self).active_view matches ActiveView::Screen(id) ==> {
                &&& final(self).active_view == old(self).active_view
                &&& final(self).tracker.output == old(self).tracker.output
                &&& final(self).llm.output == old(self).llm.output
                &&& (id is Tracker ==> final(self).llm == old(self).llm)
                &&& (id is Llm ==> final(self).tracker == old(self).tracker)
                &&& (r is Some <==> key is Enter && trimmed(spec_screen_input(*old(self), id)).len()
                    > 0)
                &&& (r matches Some((sid, s)) ==> sid == id && s@ == trimmed(
                    spec_screen_input(*old(self), id),
                ))
            },
    {
        match self.active_view {
            ActiveView::Menu => {
                match self.menu.handle_key(key) {
                    MenuAction::Stay => {},
                    MenuAction::Open(screen_id) => {
                        self.active_view = ActiveView::Screen(screen_id);
                    },
                }
                None
            },
            ActiveView::Screen(ScreenId::Tracker) => {
                match self.tracker.handle_key(key) {
                    ScreenEvent::Submit(input) => Some((ScreenId::Tracker, input)),
                    ScreenEvent::Idle => None,
                }
            },
            ActiveView::Screen(ScreenId::Llm) => {
                match self.llm.handle_key(key) {
                    ScreenEvent::Submit(input) => Some((ScreenId::Llm, input)),
                    ScreenEvent::Idle => None,
                }
            },
        }
    }

    /// The command echo a screen shows for a submitted input.
    pub fn command_preview(&self, id: ScreenId, input: &str) -> (r: String)
        ensures
            id is Tracker ==> r@ == "> tracker issue "@ + input@,
            id is Llm ==> r@ == "> llm ask "@ + input@,
    {
        match id {
            ScreenId::Tracker => self.tracker.command_preview(input),
            ScreenId::Llm => self.llm.command_preview(input),
        }
    }

    /// Appends an entry to one screen's log, keeping its newest 200
    /// entries; everything else stays.
    pub fn push_output(&mut self, id: ScreenId, text: String)
        ensures
            final(self).active_view == old(self).active_view,
            final(self).menu == old(self).menu,
            id is Tracker ==> {
                &&& final(self).tracker.output@ == spec_limited(
                    old(self).tracker.output@.push(text),
                )
                &&& final(self).tracker.input == old(self).tracker.input
                &&& final(self).llm == old(self).llm
            },
            id is Llm ==> {
                &&& final(self).llm.output@ == spec_limited(old(self).llm.output@.push(text))
                &&& final(self).llm.input == old(self).llm.input
                &&& final(self).tracker == old(self).tracker
            },
    {
        match id {
            ScreenId::Tracker => self.tracker.push_output(text),
            ScreenId::Llm => self.llm.push_output(text),
        }
    }

    /// The active view's title.
    pub fn title(&self) -> (r: &'static str)
        ensures
            self.active_view is Menu ==> r@ == "Menu"@,
            self.active_view == ActiveView::Screen(ScreenId::Tracker) ==> r@ == "Tracker"@,
            self.active_view == ActiveView::Screen(ScreenId::Llm) ==> r@ == "LLM"@,
    {
        match self.active_view {
            ActiveView::Menu => self.menu.title(),
            ActiveView::Screen(ScreenId::Tracker) => self.tracker.title(),
            ActiveView::Screen(ScreenId::Llm) => self.llm.title(),
        }
    }

    /// The caption over the input box of the active view.
    pub fn input_title(&self) -> (r: &'static str)
        ensures
            self.active_view is Menu ==> r@ == "Меню: 1-Tracker, 2-LLM, q-Выход"@,
            self.active_view == ActiveView::Screen(ScreenId::Tracker) ==> r@
                == "Tracker: введите ключ задачи и нажмите Enter"@,
            self.active_view == ActiveView::Screen(ScreenId::Llm) ==> r@
                == "LLM: введите промпт и нажмите Enter"@,
    {
        match self.active_view {
            ActiveView::Menu => self.menu.input_title(),
            ActiveView::Screen(ScreenId::Tracker) => self.tracker.input_title(),
            ActiveView::Screen(ScreenId::Llm) => self.llm.input_title(),
        }
    }

    /// The active view's text block: the greeting or a screen's log.
    pub fn output_text(&self) -> (r: String)
        ensures
            self.active_view is Menu ==> r@ == join_with(seq_views(self.menu.lines@), "\n\n"@),
            self.active_view == ActiveView::Screen(ScreenId::Tracker) ==> r@ == join_with(
                seq_views(self.tracker.output@),
                "\n\n"@,
            ),
            self.active_view == ActiveView::Screen(ScreenId::Llm) ==> r@ == join_with(
                seq_views(self.llm.output@),
                "\n\n"@,
            ),
    {
        match self.active_view {
            ActiveView::Menu => self.menu.output_text(),
            ActiveView::Screen(ScreenId::Tracker) => self.tracker.output_text(),
            ActiveView::Screen(ScreenId::Llm) => self.llm.output_text(),
        }
    }

    /// The input line of the active view; the menu has none.
    pub fn input_text(&self) -> (r: &str)
        ensures
            self.active_view is Menu ==> r@ == ""@,
            self.active_view == ActiveView::Screen(ScreenId::Tracker) ==> r@
                == self.tracker.input@,
            self.active_view == ActiveView::Screen(ScreenId::Llm) ==> r@ == self.llm.input@,
    {
        match self.active_view {
            ActiveView::Menu => "",
            ActiveView::Screen(ScreenId::Tracker) => self.tracker.input_text(),
            ActiveView::Screen(ScreenId::Llm) => self.llm.input_text(),
        }
    }
}

} // verus!
