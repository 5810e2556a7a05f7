use tracker_agent::ai_matcher::{
    build_prompt, extract_json, to_match_result, AIMatchResult, PROMPT_CHARS, PROMPT_HEAD,
    PROMPT_MIDDLE, PROMPT_TAIL,
};
use tracker_agent::freelo::FreeloTask;

fn task(id: i32, name: &str, project: &str) -> FreeloTask {
    FreeloTask { id, name: name.to_string(), project_id: 5, project_name: project.to_string() }
}

fn answer(task_id: Option<i32>, confidence: u32, activity: &str) -> AIMatchResult {
    AIMatchResult {
        task_id,
        confidence,
        reasoning: "because".to_string(),
        activity_description: activity.to_string(),
    }
}

#[test]
fn extract_json_takes_both_fences_off() {
    assert_eq!(extract_json("```json\n{\"task_id\": 1}\n```"), "{\"task_id\": 1}");
    assert_eq!(extract_json("  ```json{}```  "), "{}");
}

#[test]
fn extract_json_leaves_a_plain_answer() {
    assert_eq!(extract_json("  {\"task_id\": null}  "), "{\"task_id\": null}");
}

#[test]
fn extract_json_without_closing_fence_falls_back_to_the_whole_answer() {
    assert_eq!(extract_json("```json\n{\"a\": 1}"), "```json\n{\"a\": 1}");
}

#[test]
fn extract_json_without_opening_fence_takes_the_closing_one_off() {
    assert_eq!(extract_json("{\"a\": 1}```"), "{\"a\": 1}");
    assert_eq!(extract_json("{\"a\": 1}\n```\n"), "{\"a\": 1}\n```");
}

#[test]
fn extract_json_does_not_take_a_bare_opening_fence_off() {
    assert_eq!(extract_json("```\n{}\n```"), "```\n{}");
}

#[test]
fn answer_becomes_a_match_with_the_name_of_the_task() {
    let tasks = vec![task(1, "First", "P"), task(42, "Answer", "P"), task(42, "Shadowed", "P")];
    let m = to_match_result(answer(Some(42), 850_000, "Editing code"), &tasks);
    assert_eq!(m.task_id, Some(42));
    assert_eq!(m.task_name, Some("Answer".to_string()));
    assert_eq!(m.confidence, 850_000);
    assert_eq!(m.detected_application, "AI Detection");
    assert!(m.matched_keywords.is_empty());
    assert_eq!(m.activity_description, "Editing code");
}

#[test]
fn answer_for_an_unknown_task_has_no_name() {
    let tasks = vec![task(1, "First", "P")];
    let m = to_match_result(answer(Some(2), 500_000, "Reading"), &tasks);
    assert_eq!(m.task_id, Some(2));
    assert_eq!(m.task_name, None);
    let n = to_match_result(answer(Some(2), 500_000, "Reading"), &[]);
    assert_eq!(n.task_name, None);
}

#[test]
fn answer_without_a_task_has_no_name() {
    let tasks = vec![task(1, "First", "P")];
    let m = to_match_result(answer(None, 0, "Browsing"), &tasks);
    assert_eq!(m.task_id, None);
    assert_eq!(m.task_name, None);
    assert_eq!(m.confidence, 0);
}

#[test]
fn prompt_lists_the_tasks_one_on_a_line() {
    let tasks = vec![task(1, "First", "Alpha"), task(-2, "Second", "Beta")];
    let prompt = build_prompt("screen text", &tasks);
    let expected = format!(
        "{}{}{}{}{}",
        PROMPT_HEAD,
        "screen text",
        PROMPT_MIDDLE,
        "ID: 1, Název: First, Projekt: Alpha\nID: -2, Název: Second, Projekt: Beta",
        PROMPT_TAIL
    );
    assert_eq!(prompt, expected);
}

#[test]
fn prompt_without_tasks_has_an_empty_list() {
    let prompt = build_prompt("", &[]);
    assert_eq!(prompt, format!("{}{}{}", PROMPT_HEAD, PROMPT_MIDDLE, PROMPT_TAIL));
}

#[test]
fn prompt_quotes_at_most_three_thousand_characters() {
    assert_eq!(PROMPT_CHARS, 3000);
    let long: String = "é".repeat(3001);
    let prompt = build_prompt(&long, &[]);
    let quoted: String = "é".repeat(3000);
    assert_eq!(prompt, format!("{}{}{}{}", PROMPT_HEAD, quoted, PROMPT_MIDDLE, PROMPT_TAIL));
    let exact: String = "x".repeat(3000);
    let whole = build_prompt(&exact, &[]);
    assert_eq!(whole, format!("{}{}{}{}", PROMPT_HEAD, exact, PROMPT_MIDDLE, PROMPT_TAIL));
}

#[test]
fn prompt_wording_asks_for_json() {
    assert!(PROMPT_HEAD.starts_with("Analyzuj následující OCR text"));
    assert!(PROMPT_HEAD.ends_with("```\n"));
    assert!(PROMPT_MIDDLE.contains("DOSTUPNÉ FREELO TASKY:"));
    assert!(PROMPT_TAIL.contains("\"task_id\": 123,"));
    assert!(PROMPT_TAIL.ends_with("}"));
}
