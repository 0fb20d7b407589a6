//! The tracker-facing commands of the command line: the command values
//! and the formatting of a fetched issue for the console.

use vstd::prelude::*;
use crate::text::{spec_lines, indent_lines, split_lines, append_indented_lines, seq_views};
use crate::tracker::models::Issue;

verus! {

/// The tracker subcommands of the command line.
#[derive(Debug, Clone, PartialEq, Eq)]
pub enum TrackerCommands {
    /// Fetch and display one issue.
    Issue {
        /// Issue key or identifier, such as `TREK-123`.
        issue_id: String,
    },
}

/// The status line of the output: the status display name, or the
/// placeholder when the issue carries none.
pub open spec fn spec_status_text(iss: Issue) -> Seq<char> {
    match iss.status {
        Some(st) => match st.display {
            Some(d) => d@,
            None => "Неизвестен"@,
        },
        None => "Неизвестен"@,
    }
}

/// The description block's text: the description, or the placeholder
/// when the issue carries none.
pub open spec fn spec_desc_text(iss: Issue) -> Seq<char> {
    match iss.description {
        Some(d) => d@,
        None => "Нет описания"@,
    }
}

/// The full console output for one issue.
pub open spec fn spec_format_issue_output(iss: Issue) -> Seq<char> {
    "\n📋 Задача: "@ + iss.key@ + "\n\n📌 Заголовок:\n   "@ + iss.summary@ + "\n\n🔖 Статус: "@
        + spec_status_text(iss) + "\n\n📝 Описание:\n"@ + indent_lines(spec_lines(
        spec_desc_text(iss),
    )) + "\n🔗 Ссылка:\n   https://st.yandex-team.ru/"@ + iss.key@ + "\n\n"@
}

/// Formats the full console output for one issue, as
/// [`spec_format_issue_output`] describes: key, title, status,
/// description line by line, and the issue's web address.
pub fn format_issue_output(issue: &Issue) -> (r: String)
    ensures
        r@ == spec_format_issue_output(*issue),
{
    let status: &str = match &issue.status {
        Some(st) => match &st.display {
            Some(d) => d.as_str(),
            None => "Неизвестен",
        },
        None => "Неизвестен",
    };
    let description: &str = match &issue.description {
        Some(d) => d.as_str(),
        None => "Нет описания",
    };
    let mut out: String = "\n📋 Задача: ".to_owned();
    out.append(issue.key.as_str());
    out.append("\n\n📌 Заголовок:\n   ");
    out.append(issue.summary.as_str());
    out.append("\n\n🔖 Статус: ");
    out.append(status);
    out.append("\n\n📝 Описание:\n");
    let lines = split_lines(description);
    append_indented_lines(&mut out, &lines);
    out.append("\n🔗 Ссылка:\n   https://st.yandex-team.ru/");
    out.append(issue.key.as_str());
    out.append("\n\n");
    out
}

} // verus!
