use tracker_agent::freelo::FreeloTask;
use tracker_agent::text_matcher::{
    calculate_similarity, detect_application, find_best_matching_task, normalize_text,
    FULL_CONFIDENCE,
};

fn task(id: i32, name: &str, project: &str) -> FreeloTask {
    FreeloTask { id, name: name.to_string(), project_id: 1, project_name: project.to_string() }
}

fn as_fraction(score: u32) -> f32 {
    score as f32 / FULL_CONFIDENCE as f32
}

#[test]
fn test_normalize_text() {
    assert_eq!(normalize_text("Hello World!"), "hello world");
    assert_eq!(normalize_text("Test  123"), "test 123");
}

#[test]
fn test_calculate_similarity() {
    assert_eq!(as_fraction(calculate_similarity("hello world", "hello world")), 1.0);
    assert_eq!(as_fraction(calculate_similarity("hello", "world")), 0.0);
    assert!(as_fraction(calculate_similarity("hello world", "hello")) > 0.0);
}

#[test]
fn test_detect_application() {
    assert_eq!(detect_application("Visual Studio Code - file.rs"), "Visual Studio Code");
    assert_eq!(detect_application("Google Chrome - Tab"), "Google Chrome");
}

#[test]
fn normalize_text_of_nothing_is_empty() {
    assert_eq!(normalize_text(""), "");
    assert_eq!(normalize_text("   \t\n "), "");
    assert_eq!(normalize_text("!?-- ..."), "");
}

#[test]
fn normalize_text_trims_and_collapses_white_space() {
    assert_eq!(normalize_text("  a \t b\n\nc  "), "a b c");
}

#[test]
fn normalize_text_drops_punctuation_inside_words() {
    assert_eq!(normalize_text("file.rs - main()"), "filers main");
    assert_eq!(normalize_text("a-b c_d"), "ab cd");
}

#[test]
fn normalize_text_lowers_letters_beyond_ascii() {
    assert_eq!(normalize_text("ÚKOL Číslo 5"), "úkol číslo 5");
}

#[test]
fn normalize_text_is_idempotent_on_samples() {
    let once = normalize_text("  Visual  Studio, Code!  ");
    assert_eq!(once, "visual studio code");
    assert_eq!(normalize_text(&once), once);
}

#[test]
fn similarity_counts_each_word_once() {
    assert_eq!(calculate_similarity("hello world", "hello"), 500_000);
    assert_eq!(calculate_similarity("a a a b", "a b b"), 1_000_000);
    assert_eq!(calculate_similarity("a b c", "b c d"), 500_000);
    assert_eq!(calculate_similarity("a b", "b c d e"), 200_000);
}

#[test]
fn similarity_rounds_down() {
    assert_eq!(calculate_similarity("a", "a b c"), 333_333);
    assert_eq!(calculate_similarity("a b", "a b c"), 666_666);
}

#[test]
fn similarity_of_texts_without_words() {
    assert_eq!(calculate_similarity("", ""), 1_000_000);
    assert_eq!(calculate_similarity("  ", "\n"), 1_000_000);
    assert_eq!(calculate_similarity("", "word"), 0);
    assert_eq!(calculate_similarity("word", ""), 0);
}

#[test]
fn similarity_is_symmetric_on_samples() {
    assert_eq!(calculate_similarity("x y z", "y"), calculate_similarity("y", "x y z"));
}

#[test]
fn detect_application_knows_each_mark() {
    assert_eq!(detect_application("my VSCode window"), "Visual Studio Code");
    assert_eq!(detect_application("chrome"), "Google Chrome");
    assert_eq!(detect_application("Mozilla Firefox"), "Firefox");
    assert_eq!(detect_application("Safari - Apple"), "Safari");
    assert_eq!(detect_application("app.freelo.io"), "Freelo");
    assert_eq!(detect_application("Slack | general"), "Slack");
    assert_eq!(detect_application("Terminal - zsh"), "Terminal");
    assert_eq!(detect_application("iTerm2"), "Terminal");
    assert_eq!(detect_application("Notes"), "Unknown Application");
    assert_eq!(detect_application(""), "Unknown Application");
}

#[test]
fn detect_application_takes_the_first_mark_in_order_of_the_list() {
    assert_eq!(detect_application("slack in chrome"), "Google Chrome");
    assert_eq!(detect_application("firefox and vscode"), "Visual Studio Code");
}

#[test]
fn detect_application_matches_across_punctuation() {
    assert_eq!(detect_application("Visual, Studio: Code"), "Visual Studio Code");
    assert_eq!(detect_application("fire fox"), "Unknown Application");
}

#[test]
fn best_match_without_tasks() {
    let m = find_best_matching_task("Google Chrome - Docs", &[]);
    assert_eq!(m.task_id, None);
    assert_eq!(m.task_name, None);
    assert_eq!(m.confidence, 0);
    assert_eq!(m.detected_application, "Google Chrome");
    assert!(m.matched_keywords.is_empty());
    assert_eq!(m.activity_description, "Google Chrome - práce mimo Freelo");
}

#[test]
fn best_match_names_the_task_with_exact_confidence() {
    let tasks = vec![task(7, "Fix login page", "Website"), task(9, "Write report", "Office")];
    let m = find_best_matching_task("fix login page", &tasks);
    // name: 3 of 3 words shared -> 1_000_000 / 2; project: 0 of 4 -> 0;
    // keywords "login" and "page" of 3 words -> 300_000 * 2 / 3.
    assert_eq!(m.task_id, Some(7));
    assert_eq!(m.task_name, Some("Fix login page".to_string()));
    assert_eq!(m.confidence, 500_000 + 0 + 200_000);
    assert_eq!(m.matched_keywords, vec!["login".to_string(), "page".to_string()]);
    assert_eq!(m.detected_application, "Unknown Application");
    assert_eq!(m.activity_description, "Unknown Application - fix login page");
}

#[test]
fn best_match_adds_the_share_of_the_project() {
    let tasks = vec![task(3, "alpha", "alpha")];
    let m = find_best_matching_task("alpha", &tasks);
    assert_eq!(m.confidence, 500_000 + 200_000 + 300_000);
    assert_eq!(m.task_id, Some(3));
}

#[test]
fn best_match_below_the_threshold_names_no_task() {
    let tasks = vec![task(7, "Fix login page", "Website")];
    let m = find_best_matching_task("Something else entirely", &tasks);
    assert_eq!(m.task_id, None);
    assert_eq!(m.task_name, None);
    assert_eq!(m.confidence, 0);
    assert!(m.matched_keywords.is_empty());
    assert_eq!(m.activity_description, "Unknown Application - Something else entirely");
}

#[test]
fn best_match_exactly_at_the_threshold_names_no_task() {
    // name: {a,b,c,d,e} with {a,b,c} of 5 -> 600_000 / 2 = 300_000, no keywords.
    let tasks = vec![task(1, "a b c", "zzz")];
    let m = find_best_matching_task("a b c d e", &tasks);
    assert_eq!(m.task_id, None);
    assert_eq!(m.confidence, 0);
}

#[test]
fn best_match_keeps_the_first_of_equal_tasks() {
    let tasks = vec![task(1, "deploy server", "Ops"), task(2, "deploy server", "Ops")];
    let m = find_best_matching_task("deploy server", &tasks);
    assert_eq!(m.task_id, Some(1));
}

#[test]
fn best_match_takes_a_later_task_that_is_better() {
    let tasks = vec![task(1, "deploy thing", "Ops"), task(2, "deploy server", "Ops")];
    let m = find_best_matching_task("deploy server", &tasks);
    assert_eq!(m.task_id, Some(2));
}

#[test]
fn keywords_are_longer_than_three_bytes() {
    let tasks = vec![task(1, "fix the code úkl", "none")];
    let m = find_best_matching_task("fix the code úkl", &tasks);
    // "fix", "the" have three bytes; "code" has four; "úkl" has three characters and four bytes.
    assert_eq!(m.matched_keywords, vec!["code".to_string(), "úkl".to_string()]);
    assert_eq!(m.confidence, 500_000 + 150_000);
}

#[test]
fn keywords_are_found_inside_longer_words() {
    let tasks = vec![task(1, "code build", "none")];
    let m = find_best_matching_task("vscode builder code", &tasks);
    // name: "code" of {vscode, builder, code, build} -> 250_000 / 2; both words are keywords.
    assert_eq!(m.matched_keywords, vec!["code".to_string(), "build".to_string()]);
    assert_eq!(m.confidence, 125_000 + 300_000);
    assert_eq!(m.task_id, Some(1));
    // Without the shared word the bonus alone stays at the threshold.
    let none = find_best_matching_task("vscode builder", &tasks);
    assert_eq!(none.task_id, None);
    assert!(none.matched_keywords.is_empty());
}

#[test]
fn activity_quotes_fifty_characters_trimmed() {
    let text = "   0123456789012345678901234567890123456789012 tail";
    let m = find_best_matching_task(text, &[task(1, "x", "y")]);
    assert_eq!(
        m.activity_description,
        "Unknown Application - 0123456789012345678901234567890123456789012 tai"
    );
    let short = find_best_matching_task("  hi  ", &[task(1, "x", "y")]);
    assert_eq!(short.activity_description, "Unknown Application - hi");
}
