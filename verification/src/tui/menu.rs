//! The two-entry main menu.

use vstd::prelude::*;
use crate::text::{seq_views, join_with};
use crate::tui::Key;
use crate::tui::screens::ScreenId;

verus! {

/// What a key press on the menu leads to.
#[derive(Debug, Clone, Copy, PartialEq, Eq, Structural)]
pub enum MenuAction {
    /// Stay on the menu.
    Stay,
    /// Open the named screen.
    Open(ScreenId),
}

/// The main menu: a fixed greeting and the screen dispatch.
#[derive(Debug, Clone)]
pub struct Menu {
    /// The greeting lines the menu shows.
    pub lines: Vec<String>,
}

impl Menu {
    /// A menu with its greeting.
    pub fn new() -> (r: Self)
        ensures
            seq_views(r.lines@) =~= seq![
                "Добро пожаловать в TUI режим"@,
                "Нажмите 1 для Tracker, 2 для LLM, q для выхода"@,
            ],
    {
        let mut lines: Vec<String> = Vec::new();
        lines.push("Добро пожаловать в TUI режим".to_owned());
        lines.push("Нажмите 1 для Tracker, 2 для LLM, q для выхода".to_owned());
        proof {
            assert(seq_views(lines@) =~= seq![
                "Добро пожаловать в TUI режим"@,
                "Нажмите 1 для Tracker, 2 для LLM, q для выхода"@,
            ]);
        }
        Menu { lines }
    }

    /// Dispatches a key press: `1` opens the tracker screen, `2` the
    /// LLM screen, everything else stays.
    pub fn handle_key(&self, code: Key) -> (r: MenuAction)
        ensures
            code == Key::Char('1') ==> r == MenuAction::Open(ScreenId::Tracker),
            code == Key::Char('2') ==> r == MenuAction::Open(ScreenId::Llm),
            code != Key::Char('1') && code != Key::Char('2') ==> r == MenuAction::Stay,
    {
        match code {
            Key::Char(c) => {
                if c == '1' {
                    MenuAction::Open(ScreenId::Tracker)
                } else if c == '2' {
                    MenuAction::Open(ScreenId::Llm)
                } else {
                    MenuAction::Stay
                }
            },
            _ => MenuAction::Stay,
        }
    }

    /// The menu's title.
    pub fn title(&self) -> (r: &'static str)
        ensures
            r@ == "Menu"@,
    {
        "Menu"
    }

    /// The caption over the input box while the menu is shown.
    pub fn input_title(&self) -> (r: &'static str)
        ensures
            r@ == "Меню: 1-Tracker, 2-LLM, q-Выход"@,
    {
        "Меню: 1-Tracker, 2-LLM, q-Выход"
    }

    /// The greeting as one text block.
    pub fn output_text(&self) -> (r: String)
        ensures
            r@ == join_with(seq_views(self.lines@), "\n\n"@),
    {
        crate::text::join_strings(&self.lines, "\n\n")
    }
}

} // verus!
