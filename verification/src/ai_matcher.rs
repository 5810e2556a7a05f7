//! The classifier that is asked which task a screen's text belongs to: the
//! question put to it, and what is made of its answer.

use vstd::prelude::*;
use vstd::string::{StrSliceExecFns, StringExecFns};
use crate::ai::{fence, json_fence};
use crate::freelo::{tasks_view, FreeloTask, FreeloTaskView};
use crate::text::{
    chars_of, decimal, has_prefix, has_suffix, id_to_string, join, join_strings, strings_view,
    trimmed,
};
use crate::text_matcher::{first_chars, MatchResult, MatchResultView};

verus! {

/// The classifier's answer.
#[derive(Debug, Clone, PartialEq, Eq)]
pub struct AIMatchResult {
    pub task_id: Option<i32>,
    /// The classifier's score from 0 to 100, in ten-thousandths of a point:
    /// the same number is the confidence in millionths.
    pub confidence: u32,
    pub reasoning: String,
    pub activity_description: String,
}

/// Mathematical model of an [`AIMatchResult`].
pub struct AIMatchResultView {
    pub task_id: Option<int>,
    pub confidence: nat,
    pub reasoning: Seq<char>,
    pub activity_description: Seq<char>,
}

impl View for AIMatchResult {
    type V = AIMatchResultView;

    open spec fn view(&self) -> AIMatchResultView {
        AIMatchResultView {
            task_id: match self.task_id {
                Some(id) => Some(id as int),
                None => None,
            },
            confidence: self.confidence as nat,
            reasoning: self.reasoning@,
            activity_description: self.activity_description@,
        }
    }
}

/// Number of characters of the screen's text that the question quotes.
pub const PROMPT_CHARS: usize = 3000;

/// The name of the first task with identifier `id`.
pub open spec fn task_name_of(id: int, tasks: Seq<FreeloTaskView>) -> Option<Seq<char>>
    decreases tasks.len(),
{
    if tasks.len() == 0 {
        None
    } else if tasks[0].id == id {
        Some(tasks[0].name)
    } else {
        task_name_of(id, tasks.drop_first())
    }
}

/// The match result that stands for the classifier's answer.
pub open spec fn match_of_answer(
    answer: AIMatchResultView,
    tasks: Seq<FreeloTaskView>,
) -> MatchResultView {
    MatchResultView {
        task_id: answer.task_id,
        task_name: match answer.task_id {
            Some(id) => task_name_of(id, tasks),
            None => None,
        },
        confidence: answer.confidence,
        detected_application: "AI Detection"@,
        matched_keywords: Seq::empty(),
        activity_description: answer.activity_description,
    }
}

fn find_task_name(id: i32, tasks: &[FreeloTask]) -> (name: Option<String>)
    ensures
        crate::text::opt_view(name) == task_name_of(id as int, tasks_view(tasks@)),
{
    let ghost all = tasks_view(tasks@);
    let mut i: usize = 0;
    assert(all.skip(0) =~= all);
    while i < tasks.len()
        invariant
            i <= tasks.len(),
            all == tasks_view(tasks@),
            task_name_of(id as int, all) == task_name_of(id as int, all.skip(i as int)),
        decreases tasks.len() - i,
    {
        assert(all.skip(i as int)[0] == tasks@[i as int]@);
        if tasks[i].id == id {
            return Some(tasks[i].name.clone());
        }
        assert(all.skip(i as int).drop_first() =~= all.skip(i + 1));
        i = i + 1;
    }
    None
}

/// Turns the classifier's answer into a match result. The task's name is
/// looked up in the item cache and is absent where the cache does not know
/// the task.
pub fn to_match_result(answer: AIMatchResult, tasks: &[FreeloTask]) -> (m: MatchResult)
    ensures
        m@ == match_of_answer(answer@, tasks_view(tasks@)),
{
    let task_name = match answer.task_id {
        Some(id) => find_task_name(id, tasks),
        None => None,
    };
    let none: Vec<String> = Vec::new();
    assert(strings_view(none@) =~= Seq::empty());
    MatchResult {
        task_id: answer.task_id,
        task_name,
        confidence: answer.confidence,
        detected_application: "AI Detection".to_string(),
        matched_keywords: none,
        activity_description: answer.activity_description,
    }
}

/// The JSON inside the classifier's answer. A fence of a block of JSON
/// before the answer and a fence after it are taken off; where one of the
/// two is missing, the whole answer stands in its part's place.
pub open spec fn json_of_answer(answer: Seq<char>) -> Seq<char> {
    let opened = if json_fence().is_prefix_of(trimmed(answer)) {
        trimmed(answer).skip(7)
    } else {
        answer
    };
    let closed = if fence().is_suffix_of(opened) {
        opened.take(opened.len() - 3)
    } else {
        answer
    };
    trimmed(closed)
}

/// Takes the JSON out of the classifier's answer.
pub fn extract_json(answer: &str) -> (out: String)
    ensures
        out@ == json_of_answer(answer@),
{
    proof {
        reveal_strlit("```json");
        reveal_strlit("```");
        assert("```json"@ =~= json_fence());
        assert("```"@ =~= fence());
    }
    let stripped = answer.trim();
    let opened: &str = if has_prefix(stripped, "```json") {
        let rest = stripped.substring_char(7, stripped.unicode_len());
        assert(rest@ =~= trimmed(answer@).skip(7));
        rest
    } else {
        answer
    };
    let closed: &str = if has_suffix(opened, "```") {
        let rest = opened.substring_char(0, opened.unicode_len() - 3);
        assert(rest@ =~= opened@.take(opened@.len() - 3));
        rest
    } else {
        answer
    };
    closed.trim().to_string()
}

/// What the question says before the screen's text.
pub const PROMPT_HEAD: &'static str =
    "Analyzuj následující OCR text z obrazovky uživatele a vyber nejlepší matching Freelo task.\n\nOCR TEXT (co uživatel vidí na obrazovce):\n```\n";

/// What the question says between the screen's text and the list of tasks.
pub const PROMPT_MIDDLE: &'static str =
    "\n```\n\nDOSTUPNÉ FREELO TASKY:\n```\n";

/// What the question says after the list of tasks.
pub const PROMPT_TAIL: &'static str =
    "\n```\n\nINSTRUKCE:\n1. Analyzuj OCR text a zjisti co uživatel právě dělá\n2. Vyber task který nejlépe odpovídá této aktivitě\n3. Pokud žádný task neodpovídá dobře, vrať task_id: null\n4. Confidence je 0-100 (jak moc si jsi jistý)\n5. VŽDY napiš krátký popis aktivity (max 100 znaků) do activity_description\n\nOdpověz POUZE v tomto JSON formátu (bez markdown bloků):\n{\n  \"task_id\": 123,\n  \"confidence\": 85,\n  \"reasoning\": \"Uživatel pracuje na...\",\n  \"activity_description\": \"Editace kódu v tracker-agent-app\"\n}\n\nNebo pokud žádný task neodpovídá:\n{\n  \"task_id\": null,\n  \"confidence\": 0,\n  \"reasoning\": \"Žádný task neodpovídá aktivitě...\",\n  \"activity_description\": \"Prohlížení dokumentace na webu\"\n}";

/// The line that presents a task to the classifier.
pub open spec fn task_line(task: FreeloTaskView) -> Seq<char> {
    "ID: "@ + decimal(task.id) + ", Název: "@ + task.name + ", Projekt: "@ + task.project_name
}

/// The lines that present the tasks to the classifier.
pub open spec fn task_lines(tasks: Seq<FreeloTaskView>) -> Seq<Seq<char>> {
    tasks.map_values(|t: FreeloTaskView| task_line(t))
}

/// The question that is put to the classifier: the first characters of the
/// screen's text and the list of tasks, one on a line, within the fixed
/// wording.
pub open spec fn prompt_for(ocr_text: Seq<char>, tasks: Seq<FreeloTaskView>) -> Seq<char> {
    PROMPT_HEAD@ + first_chars(ocr_text, PROMPT_CHARS as int) + PROMPT_MIDDLE@ + join(
        task_lines(tasks),
        "\n"@,
    ) + PROMPT_TAIL@
}

fn write_task_line(task: &FreeloTask) -> (line: String)
    ensures
        line@ == task_line(task@),
{
    let mut line = "ID: ".to_string();
    line.append(id_to_string(task.id).as_str());
    line.append(", Název: ");
    line.append(task.name.as_str());
    line.append(", Projekt: ");
    line.append(task.project_name.as_str());
    line
}

/// Writes the question that is put to the classifier.
pub fn build_prompt(ocr_text: &str, tasks: &[FreeloTask]) -> (prompt: String)
    ensures
        prompt@ == prompt_for(ocr_text@, tasks_view(tasks@)),
{
    let mut lines: Vec<String> = Vec::new();
    let ghost all = tasks_view(tasks@);
    let mut i: usize = 0;
    assert(strings_view(lines@) =~= task_lines(all.take(0)));
    while i < tasks.len()
        invariant
            i <= tasks.len(),
            all == tasks_view(tasks@),
            strings_view(lines@) == task_lines(all.take(i as int)),
        decreases tasks.len() - i,
    {
        let ghost before = strings_view(lines@);
        lines.push(write_task_line(&tasks[i]));
        assert(strings_view(lines@) =~= before.push(task_line(all[i as int])));
        assert(task_lines(all.take(i + 1)) =~= task_lines(all.take(i as int)).push(
            task_line(all[i as int]),
        ));
        i = i + 1;
    }
    assert(all.take(i as int) =~= all);
    let chars = chars_of(ocr_text);
    let mut prompt = PROMPT_HEAD.to_string();
    let ghost head = prompt@;
    let mut k: usize = 0;
    while k < chars.len() && k < PROMPT_CHARS
        invariant
            k <= chars.len(),
            k <= PROMPT_CHARS,
            prompt@ == head + chars@.take(k as int),
        decreases chars.len() - k,
    {
        prompt.push(chars[k]);
        assert(chars@.take(k + 1) =~= chars@.take(k as int).push(chars@[k as int]));
        assert(head + chars@.take(k as int).push(chars@[k as int]) =~= (head + chars@.take(
            k as int,
        )).push(chars@[k as int]));
        k = k + 1;
    }
    assert(chars@.take(chars@.len() as int) =~= chars@);
    prompt.append(PROMPT_MIDDLE);
    prompt.append(join_strings(&lines, "\n").as_str());
    prompt.append(PROMPT_TAIL);
    prompt
}

} // verus!
