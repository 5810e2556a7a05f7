use tracker_agent::ai::clean_json_response;

#[test]
fn plain_json_is_only_trimmed() {
    assert_eq!(clean_json_response("  {\"a\": 1}\n"), "{\"a\": 1}");
    assert_eq!(clean_json_response("{}"), "{}");
}

#[test]
fn json_fence_is_taken_off() {
    assert_eq!(clean_json_response("```json\n{\"a\": 1}\n```"), "{\"a\": 1}");
    assert_eq!(clean_json_response("\n ```json{\"a\": 1}``` \n"), "{\"a\": 1}");
}

#[test]
fn bare_fence_is_taken_off() {
    assert_eq!(clean_json_response("```\n{\"a\": 1}\n```"), "{\"a\": 1}");
}

#[test]
fn one_fence_alone_is_taken_off() {
    assert_eq!(clean_json_response("```json {\"a\": 1}"), "{\"a\": 1}");
    assert_eq!(clean_json_response("{\"a\": 1} ```"), "{\"a\": 1}");
}

#[test]
fn fences_without_content_leave_nothing() {
    assert_eq!(clean_json_response("```"), "");
    assert_eq!(clean_json_response("``````"), "");
    assert_eq!(clean_json_response("```json```"), "");
    assert_eq!(clean_json_response(""), "");
    assert_eq!(clean_json_response("   "), "");
}

#[test]
fn fence_inside_the_text_stays() {
    assert_eq!(clean_json_response("a ``` b"), "a ``` b");
}

#[test]
fn characters_beyond_ascii_are_counted_as_one() {
    assert_eq!(clean_json_response("```json\n{\"popis\": \"úkol č. 5\"}\n```"), "{\"popis\": \"úkol č. 5\"}");
    assert_eq!(clean_json_response("```é```"), "é");
}

#[test]
fn question_on_a_screenshot_ends_in_the_tasks_as_json() {
    let tasks = vec![
        ("1".to_string(), "Web".to_string(), "Fix \"login\"".to_string()),
        ("2".to_string(), "Ops".to_string(), "Úklid\n".to_string()),
    ];
    let prompt = tracker_agent::ai::build_analysis_prompt(&tasks, &None).unwrap();
    let expected = format!(
        "{}{}{}",
        tracker_agent::ai::ANALYSIS_HEAD,
        tracker_agent::ai::ANALYSIS_MIDDLE,
        "[\"ID: 1, Projekt: Web, Název: Fix \\\"login\\\"\",\"ID: 2, Projekt: Ops, Název: Úklid\\n\"]"
    );
    assert_eq!(prompt, expected);
    let json = &prompt[prompt.find("Freelo Tasks:\n").unwrap() + 14..];
    let parsed: Vec<String> = serde_json::from_str(json).unwrap();
    assert_eq!(parsed, vec!["ID: 1, Projekt: Web, Název: Fix \"login\"", "ID: 2, Projekt: Ops, Název: Úklid\n"]);
    let none = tracker_agent::ai::build_analysis_prompt(&vec![], &None).unwrap();
    assert!(none.ends_with("\n\nFreelo Tasks:\n[]"));
}

#[test]
fn question_on_a_screenshot_carries_the_hint() {
    let previous = Some("Visual Studio Code".to_string());
    let prompt = tracker_agent::ai::build_analysis_prompt(&vec![], &previous).unwrap();
    let expected = format!(
        "{}\n\n⚠️ CONSISTENCY HINT:\nPrevious application was: \"Visual Studio Code\"\nIf the screen looks similar, use the SAME application name for consistency!\n\nFreelo Tasks:\n[]",
        tracker_agent::ai::ANALYSIS_HEAD
    );
    assert_eq!(prompt, expected);
    assert_eq!(
        tracker_agent::ai::assemble_analysis_prompt("[1]", &previous),
        expected.replace("[]", "[1]")
    );
}

#[test]
fn question_on_a_screenshot_has_the_fixed_wording() {
    let head = tracker_agent::ai::ANALYSIS_HEAD;
    assert!(head.starts_with("You are analyzing a WORK COMPUTER SCREENSHOT for time tracking purposes."));
    assert!(head.contains("{\n  \"task_id\": \"123\" or null,\n  \"confidence\": 0.85,"));
    assert!(head.ends_with("Write ONLY the main application or URL, not every detail!\n"));
    assert_eq!(tracker_agent::ai::ANALYSIS_MODEL, "openai/gpt-4o-2024-08-06");
}

#[test]
fn screenshot_is_handed_over_as_a_data_address() {
    assert_eq!(tracker_agent::ai::image_url("QUJD"), "data:image/jpeg;base64,QUJD");
    assert_eq!(tracker_agent::ai::image_url(""), "data:image/jpeg;base64,");
}
