//! Day planning: the prompt that asks the LLM for a structured day
//! plan, assembled from the issues the tracker returned.

use vstd::prelude::*;
use crate::text::join_with;
use crate::tracker::models::Issue;

verus! {

/// The status shown for an issue in the task list, or the placeholder
/// when the issue carries none.
pub open spec fn spec_plan_status(iss: Issue) -> Seq<char> {
    match iss.status {
        Some(st) => match st.display {
            Some(d) => d@,
            None => "Unknown"@,
        },
        None => "Unknown"@,
    }
}

/// One task-list line: key, status in parentheses, and the title.
pub open spec fn spec_task_line(iss: Issue) -> Seq<char> {
    "- "@ + iss.key@ + " ("@ + spec_plan_status(iss) + "): "@ + iss.summary@
}

/// The task list: one line per issue.
pub open spec fn spec_task_list(issues: Seq<Issue>) -> Seq<char> {
    join_with(Seq::new(issues.len(), |i: int| spec_task_line(issues[i])), "\n"@)
}

/// The full prompt: the instruction, the task list, and the
/// requirements on the plan's shape.
pub open spec fn spec_day_plan_prompt(issues: Seq<Issue>) -> Seq<char> {
    "На основе следующих задач, составь структурированный план работы на день:\n\n"@
        + spec_task_list(issues)
        + "\n\nТребования к плану:\n1. Приоритизируй задачи по важности\n2. Группируй похожие задачи\n3. Укажи примерное время на каждую задачу\n4. Добавь рекомендации по порядку выполнения\n5. Учти возможные блокеры\n\nФормат ответа: структурированный план в формате markdown."@
}

/// Renders one task-list line, as [`spec_task_line`] describes.
pub fn task_line(issue: &Issue) -> (r: String)
    ensures
        r@ == spec_task_line(*issue),
{
    let status: &str = match &issue.status {
        Some(st) => match &st.display {
            Some(d) => d.as_str(),
            None => "Unknown",
        },
        None => "Unknown",
    };
    let mut line: String = "- ".to_owned();
    line.append(issue.key.as_str());
    line.append(" (");
    line.append(status);
    line.append("): ");
    line.append(issue.summary.as_str());
    line
}

/// Renders the day-plan prompt for a list of issues, as
/// [`spec_day_plan_prompt`] describes.
pub fn day_plan_prompt(issues: &Vec<Issue>) -> (r: String)
    ensures
        r@ == spec_day_plan_prompt(issues@),
{
    let ghost lines = Seq::new(issues@.len(), |i: int| spec_task_line(issues@[i]));
    let mut list: String = String::new();
    let mut i: usize = 0;
    while i < issues.len()
        invariant
            0 <= i <= issues@.len(),
            lines == Seq::new(issues@.len(), |j: int| spec_task_line(issues@[j])),
            list@ == join_with(lines.take(i as int), "\n"@),
        decreases issues@.len() - i,
    {
        if i > 0 {
            list.append("\n");
        }
        let line = task_line(&issues[i]);
        list.append(line.as_str());
        proof {
            assert(lines.take(i as int + 1).drop_last() =~= lines.take(i as int));
            assert(lines.take(i as int + 1).last() == spec_task_line(issues@[i as int]));
        }
        i = i + 1;
    }
    proof {
        assert(lines.take(issues@.len() as int) =~= lines);
    }
    let mut prompt: String =
        "На основе следующих задач, составь структурированный план работы на день:\n\n".to_owned();
    prompt.append(list.as_str());
    prompt.append(
        "\n\nТребования к плану:\n1. Приоритизируй задачи по важности\n2. Группируй похожие задачи\n3. Укажи примерное время на каждую задачу\n4. Добавь рекомендации по порядку выполнения\n5. Учти возможные блокеры\n\nФормат ответа: структурированный план в формате markdown.",
    );
    prompt
}

} // verus!
