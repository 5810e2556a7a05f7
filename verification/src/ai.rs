//! The classifier that is shown the screenshot itself: the question put to
//! it, and the reading of its answer.

use vstd::prelude::*;
use vstd::string::{StrSliceExecFns, StringExecFns};
use crate::text::{has_prefix, has_suffix, opt_view, strings_view, trimmed};

verus! {

/// The fence that opens or closes a block of code in an answer.
pub open spec fn fence() -> Seq<char> {
    seq!['`', '`', '`']
}

/// The fence that opens a block of JSON.
pub open spec fn json_fence() -> Seq<char> {
    seq!['`', '`', '`', 'j', 's', 'o', 'n']
}

/// A text without the fence it opens with, if any.
pub open spec fn without_opening(text: Seq<char>) -> Seq<char> {
    if json_fence().is_prefix_of(text) {
        text.skip(7)
    } else if fence().is_prefix_of(text) {
        text.skip(3)
    } else {
        text
    }
}

/// A text without the fence it closes with, if any.
pub open spec fn without_closing(text: Seq<char>) -> Seq<char> {
    if fence().is_suffix_of(text) {
        text.take(text.len() - 3)
    } else {
        text
    }
}

/// The JSON inside an answer: the answer without the white space around it,
/// without the fences of a block of code, and without the white space
/// inside those.
pub open spec fn cleaned(text: Seq<char>) -> Seq<char> {
    trimmed(without_closing(without_opening(trimmed(text))))
}

/// Takes the JSON out of the classifier's answer, which may come as a block
/// of code.
pub fn clean_json_response(text: &str) -> (out: String)
    ensures
        out@ == cleaned(text@),
{
    proof {
        reveal_strlit("```json");
        reveal_strlit("```");
        assert("```json"@ =~= json_fence());
        assert("```"@ =~= fence());
    }
    let mut rest: &str = text.trim();
    let len = rest.unicode_len();
    if has_prefix(rest, "```json") {
        rest = rest.substring_char(7, len);
        assert(rest@ =~= trimmed(text@).skip(7));
    } else if has_prefix(rest, "```") {
        rest = rest.substring_char(3, len);
        assert(rest@ =~= trimmed(text@).skip(3));
    }
    let len = rest.unicode_len();
    if has_suffix(rest, "```") {
        let ghost whole = rest@;
        rest = rest.substring_char(0, len - 3);
        assert(rest@ =~= whole.take(whole.len() - 3));
    }
    rest.trim().to_string()
}

/// What the question on a screenshot says before the hint and the list of
/// tasks.
pub const ANALYSIS_HEAD: &'static str =
    "You are analyzing a WORK COMPUTER SCREENSHOT for time tracking purposes.\n\nYour task: Analyze this screenshot of a developer's work computer and determine what task they are working on.\n\n⚠️ CRITICAL RULES - NO HALLUCINATIONS:\n1. Write ONLY what you SEE on screen - NOTHING ELSE!\n2. If you don't see \"GitHub\" text → DON'T write GitHub\n3. If you don't see \"Laravel\" text → DON'T write Laravel\n4. If you don't see a URL → DON'T write a URL\n5. Detected context = ONLY visible text (window titles, URLs in address bar)\n\nPROCESS:\n1. Read VISIBLE text: window titles, URLs in address bar, file names, code editor content\n2. Describe what you SEE (not what task it might be!)\n3. Compare with Freelo tasks below\n4. Return JSON:\n\n{\n  \"task_id\": \"123\" or null,\n  \"confidence\": 0.85,\n  \"summary\": \"DESCRIBE WHAT YOU SEE - editing Rust code, browsing website, reading email (max 60 chars)\",\n  \"detected_context\": \"Main application/URL (max 50 chars)\",\n  \"best_match_task_name\": \"Candidate name\" or null,\n  \"best_match_confidence\": 0.45 or null\n}\n\n⚠️ IMPORTANT - SUMMARY vs BEST_MATCH:\n- \"summary\": Describe the ACTIVITY you see (\"Editing Rust file main.rs\", \"Browsing Spotify\", \"Reading email\")\n- \"best_match_task_name\": The Freelo task name that matches this activity\n- DON'T copy task name into summary! They are different fields!\n\nEXAMPLES:\n✅ GOOD:\n{\n  \"summary\": \"Editing Rust code in VS Code\",\n  \"detected_context\": \"Visual Studio Code\",\n  \"best_match_task_name\": \"rust_pwa_server\"\n}\n\n❌ BAD:\n{\n  \"summary\": \"rust_pwa_server\",  ← WRONG! This is task name, not activity description!\n  \"detected_context\": \"Visual Studio Code\",\n  \"best_match_task_name\": \"rust_pwa_server\"\n}\n\nCONFIDENCE:\n- > 0.8: Clear match → return task_id\n- 0.3-0.8: Uncertain → task_id: null, fill best_match\n- < 0.3: None → all optional: null\n\nCONTEXT - MUST BE STABLE:\n✅ GOOD: \"app.freelo.io\"\n✅ GOOD: \"Visual Studio Code\"\n❌ BAD: \"app.freelo.io, Freelo API, Rust, debugging...\"\n\nWrite ONLY the main application or URL, not every detail!\n";

/// What the question on a screenshot says before the list of tasks.
pub const ANALYSIS_MIDDLE: &'static str = "\n\nFreelo Tasks:\n";

/// The model that is asked about a screenshot.
pub const ANALYSIS_MODEL: &'static str = "openai/gpt-4o-2024-08-06";

/// What the hint says before the application that was seen last.
pub const HINT_HEAD: &'static str =
    "\n\n⚠️ CONSISTENCY HINT:\nPrevious application was: \"";

/// What the hint says after the application that was seen last.
pub const HINT_TAIL: &'static str =
    "\"\nIf the screen looks similar, use the SAME application name for consistency!";

/// The error with which `serde_json` refuses to write a value.
#[verifier::external_type_specification]
#[verifier::external_body]
pub struct ExJsonError(serde_json::Error);

/// The JSON text that `serde_json::to_string` writes for a list of strings,
/// if it writes one.
pub uninterp spec fn json_of_strings(lines: Seq<Seq<char>>) -> Option<Seq<char>>;

/// `serde_json::to_string` on a list of strings: the text it returns, or its
/// refusal, depends on the list alone and is what [`json_of_strings`] names.
#[verifier::external_body]
fn write_json(lines: &Vec<String>) -> (r: Result<String, serde_json::Error>)
    ensures
        match r {
            Ok(text) => json_of_strings(strings_view(lines@)) == Some(text@),
            Err(_) => json_of_strings(strings_view(lines@)) is None,
        },
{
    serde_json::to_string(lines)
}

/// The words of a `serde_json::Error`, as its `Display` writes them. Nothing
/// is claimed of them.
#[verifier::external_body]
fn json_error_text(e: &serde_json::Error) -> (text: String) {
    e.to_string()
}

/// A task as the question on a screenshot lists it: identifier, project and
/// name.
pub open spec fn analysis_line(task: (String, String, String)) -> Seq<char> {
    "ID: "@ + task.0@ + ", Projekt: "@ + task.1@ + ", Název: "@ + task.2@
}

/// The lines that list the tasks.
pub open spec fn analysis_lines(tasks: Seq<(String, String, String)>) -> Seq<Seq<char>> {
    tasks.map_values(|t: (String, String, String)| analysis_line(t))
}

/// The hint that asks the classifier to stay with the application that was
/// seen last, if one was.
pub open spec fn context_hint(previous: Option<Seq<char>>) -> Seq<char> {
    match previous {
        Some(application) => HINT_HEAD@ + application + HINT_TAIL@,
        None => Seq::empty(),
    }
}

/// The question on a screenshot: the fixed wording, the hint, and the list
/// of tasks as JSON.
pub open spec fn analysis_prompt(tasks_json: Seq<char>, previous: Option<Seq<char>>) -> Seq<
    char,
> {
    ANALYSIS_HEAD@ + context_hint(previous) + ANALYSIS_MIDDLE@ + tasks_json
}

/// What is reported when the list of tasks cannot be written as JSON, before
/// the words of the error.
pub open spec fn json_failure() -> Seq<char> {
    "Chyba serializace tasků: "@
}

/// Puts the question on a screenshot together from the list of tasks, given
/// as JSON, and the application that was seen last.
pub fn assemble_analysis_prompt(tasks_json: &str, previous_context: &Option<String>) -> (prompt:
    String)
    ensures
        prompt@ == analysis_prompt(tasks_json@, opt_view(*previous_context)),
{
    let mut prompt = ANALYSIS_HEAD.to_string();
    match previous_context {
        Some(application) => {
            prompt.append(HINT_HEAD);
            prompt.append(application.as_str());
            prompt.append(HINT_TAIL);
            assert(prompt@ =~= ANALYSIS_HEAD@ + context_hint(Some(application@)));
        },
        None => {
            assert(prompt@ =~= ANALYSIS_HEAD@ + context_hint(None));
        },
    }
    prompt.append(ANALYSIS_MIDDLE);
    prompt.append(tasks_json);
    prompt
}

/// Writes the question on a screenshot for a list of tasks, each given as
/// identifier, project and name. Fails, with the words of the error after
/// [`json_failure`], exactly when the list cannot be written as JSON.
pub fn build_analysis_prompt(
    freelo_tasks: &Vec<(String, String, String)>,
    previous_context: &Option<String>,
) -> (r: Result<String, String>)
    ensures
        match json_of_strings(analysis_lines(freelo_tasks@)) {
            Some(json) => r is Ok && r->Ok_0@ == analysis_prompt(
                json,
                opt_view(*previous_context),
            ),
            None => r is Err && json_failure().is_prefix_of(r->Err_0@),
        },
{
    let mut lines: Vec<String> = Vec::new();
    let mut i: usize = 0;
    assert(strings_view(lines@) =~= analysis_lines(freelo_tasks@.take(0)));
    while i < freelo_tasks.len()
        invariant
            i <= freelo_tasks.len(),
            strings_view(lines@) == analysis_lines(freelo_tasks@.take(i as int)),
        decreases freelo_tasks.len() - i,
    {
        let ghost before = strings_view(lines@);
        let task = &freelo_tasks[i];
        let mut line = "ID: ".to_string();
        line.append(task.0.as_str());
        line.append(", Projekt: ");
        line.append(task.1.as_str());
        line.append(", Název: ");
        line.append(task.2.as_str());
        lines.push(line);
        assert(strings_view(lines@) =~= before.push(analysis_line(freelo_tasks@[i as int])));
        assert(analysis_lines(freelo_tasks@.take(i + 1)) =~= analysis_lines(
            freelo_tasks@.take(i as int),
        ).push(analysis_line(freelo_tasks@[i as int])));
        i = i + 1;
    }
    assert(freelo_tasks@.take(i as int) =~= freelo_tasks@);
    match write_json(&lines) {
        Ok(json) => Ok(assemble_analysis_prompt(json.as_str(), previous_context)),
        Err(e) => {
            let mut message = "Chyba serializace tasků: ".to_string();
            let ghost head = message@;
            message.append(json_error_text(&e).as_str());
            assert(head.is_prefix_of(message@)) by {
                assert(message@.subrange(0, head.len() as int) =~= head);
            }
            Err(message)
        },
    }
}

/// What an address of a JPEG image begins with when it carries the image
/// itself, in base64.
pub const IMAGE_URL_HEAD: &'static str = "data:image/jpeg;base64,";

/// The address under which a screenshot, given in base64, is handed to the
/// classifier.
pub fn image_url(screen_base64: &str) -> (url: String)
    ensures
        url@ == IMAGE_URL_HEAD@ + screen_base64@,
{
    let mut url = IMAGE_URL_HEAD.to_string();
    url.append(screen_base64);
    url
}

} // verus!
