//! Tests for the terminal UI's decision logic.

use you_core::tui::app::{ActiveView, App};
use you_core::tui::menu::{Menu, MenuAction};
use you_core::tui::screens::{LlmScreen, ScreenEvent, ScreenId, TrackerScreen};
use you_core::tui::Key;

#[test]
fn menu_opens_screens_by_digit() {
    let menu = Menu::new();
    assert!(matches!(menu.handle_key(Key::Char('1')), MenuAction::Open(ScreenId::Tracker)));
    assert!(matches!(menu.handle_key(Key::Char('2')), MenuAction::Open(ScreenId::Llm)));
    assert!(matches!(menu.handle_key(Key::Char('x')), MenuAction::Stay));
    assert!(matches!(menu.handle_key(Key::Enter), MenuAction::Stay));
}

#[test]
fn menu_titles_and_greeting() {
    let menu = Menu::new();
    assert_eq!(menu.title(), "Menu");
    assert_eq!(menu.input_title(), "Меню: 1-Tracker, 2-LLM, q-Выход");
    assert_eq!(
        menu.output_text(),
        "Добро пожаловать в TUI режим\n\nНажмите 1 для Tracker, 2 для LLM, q для выхода"
    );
}

#[test]
fn screen_edits_input_line() {
    let mut screen = TrackerScreen::new();
    for c in "TREK-1".chars() {
        assert!(matches!(screen.handle_key(Key::Char(c)), ScreenEvent::Idle));
    }
    assert_eq!(screen.input_text(), "TREK-1");
    screen.handle_key(Key::Backspace);
    assert_eq!(screen.input_text(), "TREK-");
    screen.handle_key(Key::Char('9'));
    match screen.handle_key(Key::Enter) {
        ScreenEvent::Submit(s) => assert_eq!(s, "TREK-9"),
        ScreenEvent::Idle => panic!("expected a submit"),
    }
    assert_eq!(screen.input_text(), "");
}

#[test]
fn screen_submits_trimmed_input() {
    let mut screen = LlmScreen::new();
    for c in "  hello world  ".chars() {
        screen.handle_key(Key::Char(c));
    }
    match screen.handle_key(Key::Enter) {
        ScreenEvent::Submit(s) => assert_eq!(s, "hello world"),
        ScreenEvent::Idle => panic!("expected a submit"),
    }
}

#[test]
fn screen_ignores_blank_submit() {
    let mut screen = LlmScreen::new();
    screen.handle_key(Key::Char(' '));
    screen.handle_key(Key::Char(' '));
    assert!(matches!(screen.handle_key(Key::Enter), ScreenEvent::Idle));
    assert_eq!(screen.input_text(), "  ");
}

#[test]
fn screen_ignores_unicode_blank_submit() {
    let mut screen = LlmScreen::new();
    screen.handle_key(Key::Char('\u{a0}'));
    assert!(matches!(screen.handle_key(Key::Enter), ScreenEvent::Idle));
    assert_eq!(screen.input_text(), "\u{a0}");
}

#[test]
fn backspace_on_empty_input_is_harmless() {
    let mut screen = TrackerScreen::new();
    assert!(matches!(screen.handle_key(Key::Backspace), ScreenEvent::Idle));
    assert_eq!(screen.input_text(), "");
}

#[test]
fn screen_output_keeps_newest_two_hundred() {
    let mut screen = LlmScreen::new();
    for i in 0..250 {
        screen.push_output(format!("entry {}", i));
    }
    assert_eq!(screen.output.len(), 200);
    assert_eq!(screen.output[0], "entry 50");
    assert_eq!(screen.output[199], "entry 249");
}

#[test]
fn limit_output_alone_trims_front() {
    let mut screen = TrackerScreen::new();
    for i in 0..300 {
        screen.output.push(format!("line {}", i));
    }
    screen.limit_output();
    assert_eq!(screen.output.len(), 200);
    assert_eq!(screen.output[0], "line 100");
}

#[test]
fn screen_texts() {
    let tracker = TrackerScreen::new();
    assert_eq!(tracker.title(), "Tracker");
    assert_eq!(tracker.input_title(), "Tracker: введите ключ задачи и нажмите Enter");
    assert_eq!(tracker.output_text(), "Режим Tracker активирован");
    assert_eq!(tracker.command_preview("TREK-1"), "> tracker issue TREK-1");
    let llm = LlmScreen::new();
    assert_eq!(llm.title(), "LLM");
    assert_eq!(llm.command_preview("hi"), "> llm ask hi");
}

#[test]
fn app_quits_on_q_and_returns_to_menu_on_esc() {
    let mut app = App::new();
    assert!(matches!(app.active_view, ActiveView::Menu));
    assert!(!app.handle_global_key(Key::Char('x')));
    assert!(app.handle_global_key(Key::Char('q')));
    app.handle_key(Key::Char('2'));
    assert!(matches!(app.active_view, ActiveView::Screen(ScreenId::Llm)));
    assert!(!app.handle_global_key(Key::Esc));
    assert!(matches!(app.active_view, ActiveView::Menu));
}

#[test]
fn app_routes_submissions_to_the_active_screen() {
    let mut app = App::new();
    assert!(app.handle_key(Key::Char('1')).is_none());
    assert!(matches!(app.active_view, ActiveView::Screen(ScreenId::Tracker)));
    for c in "TREK-7".chars() {
        assert!(app.handle_key(Key::Char(c)).is_none());
    }
    let (id, input) = app.handle_key(Key::Enter).expect("a submit");
    assert!(matches!(id, ScreenId::Tracker));
    assert_eq!(input, "TREK-7");
    let preview = app.command_preview(id, &input);
    assert_eq!(preview, "> tracker issue TREK-7");
    app.push_output(id, preview);
    app.push_output(id, "response text".to_string());
    assert_eq!(app.tracker.output.last().map(String::as_str), Some("response text"));
}

#[test]
fn app_view_texts_follow_the_active_view() {
    let mut app = App::new();
    assert_eq!(app.title(), "Menu");
    assert_eq!(app.input_text(), "");
    app.handle_key(Key::Char('2'));
    assert_eq!(app.title(), "LLM");
    assert_eq!(app.input_title(), "LLM: введите промпт и нажмите Enter");
    app.handle_key(Key::Char('h'));
    assert_eq!(app.input_text(), "h");
    assert_eq!(app.output_text(), "Режим LLM активирован");
}
