//! The two interactive screens. Each keeps an input line being edited
//! and a bounded output log; submitting hands the trimmed input out,
//! and the caller brings the response back through `push_output`.

use vstd::prelude::*;
use crate::text::{seq_views, join_with, trimmed, trim};
use crate::tui::Key;

verus! {

/// The screens the menu can open.
#[derive(Debug, Clone, Copy, PartialEq, Eq, Structural)]
pub enum ScreenId {
    Tracker,
    Llm,
}

/// What a key press on a screen leads to.
#[derive(Debug, Clone, PartialEq, Eq)]
pub enum ScreenEvent {
    /// Keep editing.
    Idle,
    /// The trimmed input line was submitted.
    Submit(String),
}

/// The output log keeps its newest 200 entries.
pub open spec fn spec_limited(out: Seq<String>) -> Seq<String> {
    if out.len() <= 200 {
        out
    } else {
        out.skip(out.len() - 200)
    }
}

/// One key press applied to an input line: characters append, backspace
/// removes the last character, and enter submits the trimmed line and
/// clears it — unless it holds nothing but whitespace.
fn edit_key(input: &mut String, key: Key) -> (r: Option<String>)
    ensures
        key is Char ==> final(input)@ == old(input)@ + seq![key->Char_0] && r is None,
        key is Backspace && old(input)@.len() == 0 ==> final(input)@ == old(input)@ && r is None,
        key is Backspace && old(input)@.len() > 0 ==> final(input)@ == old(input)@.drop_last() && r
            is None,
        key is Enter && trimmed(old(input)@).len() == 0 ==> final(input)@ == old(input)@ && r
            is None,
        key is Enter && trimmed(old(input)@).len() > 0 ==> final(input)@.len() == 0 && (r matches
            Some(s) && s@ == trimmed(old(input)@)),
        key is Esc || key is Other ==> final(input)@ == old(input)@ && r is None,
{
    match key {
        Key::Char(c) => {
            crate::text::push_char(input, c);
            None
        },
        Key::Backspace => {
            let m: usize = input.as_str().unicode_len();
            if m > 0 {
                let shorter = input.as_str().substring_char(0, m - 1).to_owned();
                proof {
                    assert(old(input)@.subrange(0, m - 1) =~= old(input)@.drop_last());
                }
                *input = shorter;
            }
            None
        },
        Key::Enter => {
            let t = trim(input.as_str());
            if t.as_str().unicode_len() == 0 {
                None
            } else {
                *input = String::new();
                Some(t)
            }
        },
        _ => None,
    }
}

/// Appends an entry to an output log and keeps its newest 200 entries.
fn push_limited(output: &mut Vec<String>, text: String)
    ensures
        final(output)@ == spec_limited(old(output)@.push(text)),
{
    output.push(text);
    let ghost whole = output@;
    while output.len() > 200
        invariant
            spec_limited(output@) == spec_limited(whole),
        decreases output@.len(),
    {
        let ghost before = output@;
        output.remove(0);
        proof {
            assert(output@ =~= before.skip(1));
            if before.len() > 201 {
                assert(before.skip(1).skip(before.skip(1).len() - 200) =~= before.skip(
                    before.len() - 200,
                ));
            }
        }
    }
    proof {
        assert(output@ == spec_limited(whole));
    }
}

/// The LLM screen: a prompt under edit and the conversation log.
#[derive(Debug, Clone)]
pub struct LlmScreen {
    pub input: String,
    pub output: Vec<String>,
}

impl LlmScreen {
    /// A fresh screen with its greeting.
    pub fn new() -> (r: Self)
        ensures
            r.input@.len() == 0,
            seq_views(r.output@) =~= seq!["Режим LLM активирован"@],
    {
        let mut output: Vec<String> = Vec::new();
        output.push("Режим LLM активирован".to_owned());
        proof {
            assert(seq_views(output@) =~= seq!["Режим LLM активирован"@]);
        }
        LlmScreen { input: String::new(), output }
    }

    /// Keeps the newest 200 log entries.
    pub fn limit_output(&mut self)
        ensures
            final(self).output@ == spec_limited(old(self).output@),
            final(self).input == old(self).input,
    {
        let ghost whole = self.output@;
        let ghost in0 = self.input;
        while self.output.len() > 200
            invariant
                spec_limited(self.output@) == spec_limited(whole),
                self.input == in0,
            decreases self.output@.len(),
        {
            let ghost before = self.output@;
            self.output.remove(0);
            proof {
                assert(self.output@ =~= before.skip(1));
                if before.len() > 201 {
                    assert(before.skip(1).skip(before.skip(1).len() - 200) =~= before.skip(
                        before.len() - 200,
                    ));
                }
            }
        }
    }

    /// The screen's title.
    pub fn title(&self) -> (r: &'static str)
        ensures
            r@ == "LLM"@,
    {
        "LLM"
    }

    /// The caption over the input box.
    pub fn input_title(&self) -> (r: &'static str)
        ensures
            r@ == "LLM: введите промпт и нажмите Enter"@,
    {
        "LLM: введите промпт и нажмите Enter"
    }

    /// The input line as typed so far.
    pub fn input_text(&self) -> (r: &str)
        ensures
            r@ == self.input@,
    {
        self.input.as_str()
    }

    /// The log as one text block.
    pub fn output_text(&self) -> (r: String)
        ensures
            r@ == join_with(seq_views(self.output@), "\n\n"@),
    {
        crate::text::join_strings(&self.output, "\n\n")
    }

    /// Applies one key press to the input line, as [`edit_key`]
    /// describes; the log never changes here.
    pub fn handle_key(&mut self, key: Key) -> (r: ScreenEvent)
        ensures
            final(self).output == old(self).output,
            key is Char ==> final(self).input@ == old(self).input@ + seq![key->Char_0] && r
                is Idle,
            key is Backspace && old(self).input@.len() == 0 ==> final(self).input@ == old(
                self,
            ).input@ && r is Idle,
            key is Backspace && old(self).input@.len() > 0 ==> final(self).input@ == old(
                self,
            ).input@.drop_last() && r is Idle,
            key is Enter && trimmed(old(self).input@).len() == 0 ==> final(self).input@ == old(
                self,
            ).input@ && r is Idle,
            key is Enter && trimmed(old(self).input@).len() > 0 ==> final(self).input@.len() == 0
                && (r matches ScreenEvent::Submit(s) && s@ == trimmed(old(self).input@)),
            key is Esc || key is Other ==> final(self).input@ == old(self).input@ && r is Idle,
    {
        match edit_key(&mut self.input, key) {
            Some(s) => ScreenEvent::Submit(s),
            None => ScreenEvent::Idle,
        }
    }

    /// Appends an entry to the log, keeping its newest 200 entries.
    pub fn push_output(&mut self, text: String)
        ensures
            final(self).output@ == spec_limited(old(self).output@.push(text)),
            final(self).input == old(self).input,
    {
        push_limited(&mut self.output, text);
    }

    /// The command echo shown for a submitted prompt.
    pub fn command_preview(&self, input: &str) -> (r: String)
        ensures
            r@ == "> llm ask "@ + input@,
    {
        let mut s: String = "> llm ask ".to_owned();
        s.append(input);
        s
    }
}

/// The tracker screen: an issue key under edit and the fetch log.
#[derive(Debug, Clone)]
pub struct TrackerScreen {
    pub input: String,
    pub output: Vec<String>,
}

impl TrackerScreen {
    /// A fresh screen with its greeting.
    pub fn new() -> (r: Self)
        ensures
            r.input@.len() == 0,
            seq_views(r.output@) =~= seq!["Режим Tracker активирован"@],
    {
        let mut output: Vec<String> = Vec::new();
        output.push("Режим Tracker активирован".to_owned());
        proof {
            assert(seq_views(output@) =~= seq!["Режим Tracker активирован"@]);
        }
        TrackerScreen { input: String::new(), output }
    }

    /// Keeps the newest 200 log entries.
    pub fn limit_output(&mut self)
        ensures
            final(self).output@ == spec_limited(old(self).output@),
            final(self).input == old(self).input,
    {
        let ghost whole = self.output@;
        let ghost in0 = self.input;
        while self.output.len() > 200
            invariant
                spec_limited(self.output@) == spec_limited(whole),
                self.input == in0,
            decreases self.output@.len(),
        {
            let ghost before = self.output@;
            self.output.remove(0);
            proof {
                assert(self.output@ =~= before.skip(1));
                if before.len() > 201 {
                    assert(before.skip(1).skip(before.skip(1).len() - 200) =~= before.skip(
                        before.len() - 200,
                    ));
                }
            }
        }
    }

    /// The screen's title.
    pub fn title(&self) -> (r: &'static str)
        ensures
            r@ == "Tracker"@,
    {
        "Tracker"
    }

    /// The caption over the input box.
    pub fn input_title(&self) -> (r: &'static str)
        ensures
            r@ == "Tracker: введите ключ задачи и нажмите Enter"@,
    {
        "Tracker: введите ключ задачи и нажмите Enter"
    }

    /// The input line as typed so far.
    pub fn input_text(&self) -> (r: &str)
        ensures
            r@ == self.input@,
    {
        self.input.as_str()
    }

    /// The log as one text block.
    pub fn output_text(&self) -> (r: String)
        ensures
            r@ == join_with(seq_views(self.output@), "\n\n"@),
    {
        crate::text::join_strings(&self.output, "\n\n")
    }

    /// Applies one key press to the input line, as [`edit_key`]
    /// describes; the log never changes here.
    pub fn handle_key(&mut self, key: Key) -> (r: ScreenEvent)
        ensures
            final(self).output == old(self).output,
            key is Char ==> final(self).input@ == old(self).input@ + seq![key->Char_0] && r
                is Idle,
            key is Backspace && old(self).input@.len() == 0 ==> final(self).input@ == old(
                self,
            ).input@ && r is Idle,
            key is Backspace && old(self).input@.len() > 0 ==> final(self).input@ == old(
                self,
            ).input@.drop_last() && r is Idle,
            key is Enter && trimmed(old(self).input@).len() == 0 ==> final(self).input@ == old(
                self,
            ).input@ && r is Idle,
            key is Enter && trimmed(old(self).input@).len() > 0 ==> final(self).input@.len() == 0
                && (r matches ScreenEvent::Submit(s) && s@ == trimmed(old(self).input@)),
            key is Esc || key is Other ==> final(self).input@ == old(self).input@ && r is Idle,
    {
        match edit_key(&mut self.input, key) {
            Some(s) => ScreenEvent::Submit(s),
            None => ScreenEvent::Idle,
        }
    }

    /// Appends an entry to the log, keeping its newest 200 entries.
    pub fn push_output(&mut self, text: String)
        ensures
            final(self).output@ == spec_limited(old(self).output@.push(text)),
            final(self).input == old(self).input,
    {
        push_limited(&mut self.output, text);
    }

    /// The command echo shown for a submitted issue key.
    pub fn command_preview(&self, input: &str) -> (r: String)
        ensures
            r@ == "> tracker issue "@ + input@,
    {
        let mut s: String = "> tracker issue ".to_owned();
        s.append(input);
        s
    }
}

} // verus!
