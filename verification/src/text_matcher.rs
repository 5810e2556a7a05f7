//! Keyword matcher: finds the work item that a screen's text speaks of.

use vstd::prelude::*;
use vstd::hash_set::StringHashSet;
use vstd::string::StringExecFns;
use vstd::utf8::encode_utf8;
use crate::freelo::{tasks_view, FreeloTask, FreeloTaskView};
use crate::text::{
    chars_of, contains_text, join, join_strings, keep_plain, kept, lowercase, occurs_in, opt_view,
    split_words, strings_view, trimmed, words_of,
};

verus! {

/// Confidence is counted in millionths: this is the value of full confidence.
pub const FULL_CONFIDENCE: u32 = 1_000_000;

/// What a matcher made of one sample of the screen.
#[derive(Debug, Clone, PartialEq, Eq)]
pub struct MatchResult {
    pub task_id: Option<i32>,
    pub task_name: Option<String>,
    /// Confidence in millionths, from 0 to [`FULL_CONFIDENCE`].
    pub confidence: u32,
    pub detected_application: String,
    pub matched_keywords: Vec<String>,
    pub activity_description: String,
}

/// Mathematical model of a [`MatchResult`].
pub struct MatchResultView {
    pub task_id: Option<int>,
    pub task_name: Option<Seq<char>>,
    pub confidence: nat,
    pub detected_application: Seq<char>,
    pub matched_keywords: Seq<Seq<char>>,
    pub activity_description: Seq<char>,
}

impl View for MatchResult {
    type V = MatchResultView;

    open spec fn view(&self) -> MatchResultView {
        MatchResultView {
            task_id: match self.task_id {
                Some(id) => Some(id as int),
                None => None,
            },
            task_name: opt_view(self.task_name),
            confidence: self.confidence as nat,
            detected_application: self.detected_application@,
            matched_keywords: strings_view(self.matched_keywords@),
            activity_description: self.activity_description@,
        }
    }
}

/// The form in which texts are compared: lower case, only letters and
/// numbers, the words set apart by single spaces.
pub open spec fn normalized(text: Seq<char>) -> Seq<char> {
    join(words_of(kept(lowercase(text))), seq![' '])
}

/// Brings a text into the form in which texts are compared.
pub fn normalize_text(text: &str) -> (out: String)
    ensures
        out@ == normalized(text@),
{
    let lower = text.to_lowercase();
    let chars = chars_of(lower.as_str());
    let plain = keep_plain(&chars);
    let words = split_words(&plain);
    proof {
        reveal_strlit(" ");
        assert(" "@ =~= seq![' ']);
    }
    join_strings(&words, " ")
}

/// The application that a normalized text names: the first of the known
/// ones whose mark occurs in it.
pub open spec fn application_in(text: Seq<char>) -> Seq<char> {
    if occurs_in("visual studio code"@, text) || occurs_in("vscode"@, text) {
        "Visual Studio Code"@
    } else if occurs_in("chrome"@, text) || occurs_in("google chrome"@, text) {
        "Google Chrome"@
    } else if occurs_in("firefox"@, text) {
        "Firefox"@
    } else if occurs_in("safari"@, text) {
        "Safari"@
    } else if occurs_in("freelo"@, text) {
        "Freelo"@
    } else if occurs_in("slack"@, text) {
        "Slack"@
    } else if occurs_in("terminal"@, text) || occurs_in("iterm"@, text) {
        "Terminal"@
    } else {
        "Unknown Application"@
    }
}

/// Names the application that a screen's text comes from.
pub fn detect_application(ocr_text: &str) -> (name: String)
    ensures
        name@ == application_in(normalized(ocr_text@)),
{
    let normalized = normalize_text(ocr_text);
    let text = normalized.as_str();
    if contains_text(text, "visual studio code") || contains_text(text, "vscode") {
        return "Visual Studio Code".to_string();
    }
    if contains_text(text, "chrome") || contains_text(text, "google chrome") {
        return "Google Chrome".to_string();
    }
    if contains_text(text, "firefox") {
        return "Firefox".to_string();
    }
    if contains_text(text, "safari") {
        return "Safari".to_string();
    }
    if contains_text(text, "freelo") {
        return "Freelo".to_string();
    }
    if contains_text(text, "slack") {
        return "Slack".to_string();
    }
    if contains_text(text, "terminal") || contains_text(text, "iterm") {
        return "Terminal".to_string();
    }
    "Unknown Application".to_string()
}

/// The set of words of a text.
pub open spec fn word_set(text: Seq<char>) -> Set<Seq<char>> {
    words_of(text).to_set()
}

/// Jaccard similarity of two texts by their words, in millionths: the share
/// of the words of either text that both have. Two texts without words are
/// fully alike.
pub open spec fn similarity(a: Seq<char>, b: Seq<char>) -> nat {
    let both = word_set(a).intersect(word_set(b));
    let either = word_set(a).union(word_set(b));
    if either.len() == 0 {
        FULL_CONFIDENCE as nat
    } else {
        (FULL_CONFIDENCE as nat) * both.len() / either.len()
    }
}

/// Puts the words of a list into a set.
fn add_words(set: &mut StringHashSet, words: &Vec<String>)
    ensures
        final(set)@ == old(set)@.union(strings_view(words@).to_set()),
{
    let ghost start = set@;
    let ghost all = strings_view(words@);
    let mut i: usize = 0;
    assert(all.take(0).to_set() =~= Set::empty());
    assert(start.union(Set::empty()) =~= start);
    while i < words.len()
        invariant
            i <= words.len(),
            all == strings_view(words@),
            set@ == start.union(all.take(i as int).to_set()),
        decreases words.len() - i,
    {
        let ghost w = all[i as int];
        proof {
            assert(all.take(i + 1) =~= all.take(i as int).push(w));
            all.take(i as int).lemma_push_to_set_commute(w);
        }
        set.insert(words[i].clone());
        assert(set@ =~= start.union(all.take(i + 1).to_set()));
        i = i + 1;
    }
    assert(all.take(i as int) =~= all);
}

/// Measures how alike two texts are by the words they share.
pub fn calculate_similarity(text1: &str, text2: &str) -> (score: u32)
    ensures
        score as nat == similarity(text1@, text2@),
        score <= FULL_CONFIDENCE,
{
    let words1 = split_words(&chars_of(text1));
    let words2 = split_words(&chars_of(text2));
    let mut set1 = StringHashSet::new();
    add_words(&mut set1, &words1);
    let mut set2 = StringHashSet::new();
    add_words(&mut set2, &words2);
    let mut union = StringHashSet::new();
    add_words(&mut union, &words1);
    add_words(&mut union, &words2);
    proof {
        assert(set1@ =~= word_set(text1@));
        assert(set2@ =~= word_set(text2@));
        assert(union@ =~= word_set(text1@).union(word_set(text2@)));
        vstd::seq_lib::seq_to_set_is_finite(words_of(text1@));
        vstd::seq_lib::seq_to_set_is_finite(words_of(text2@));
        vstd::set_lib::lemma_set_intersect_union_lens(word_set(text1@), word_set(text2@));
        vstd::set_lib::lemma_len_intersect(word_set(text1@), word_set(text2@));
    }
    let either = union.len() as u128;
    if either == 0 {
        return FULL_CONFIDENCE;
    }
    let both = set1.len() as u128 + set2.len() as u128 - either;
    assert(both <= either) by {
        vstd::set_lib::lemma_len_subset(
            word_set(text1@).intersect(word_set(text2@)),
            word_set(text1@).union(word_set(text2@)),
        );
    }
    assert(1_000_000 * both / (either as int) <= 1_000_000) by (nonlinear_arith)
        requires
            both <= either,
            either > 0,
    ;
    assert(1_000_000 * both <= 1_000_000 * 0x1_0000_0000_0000_0000) by (nonlinear_arith)
        requires
            both <= either,
            either <= 0x1_0000_0000_0000_0000,
    ;
    (1_000_000u128 * both / either) as u32
}

/// Confidence that a task must exceed to be named as the match, in
/// millionths. Confidence is counted in whole millionths and each of its
/// three shares is rounded down, so a task whose exact score lies within
/// three millionths above the threshold may not exceed it.
pub const MATCH_THRESHOLD: u32 = 300_000;

/// Number of characters of the screen's text that an activity description
/// quotes.
pub const QUOTED_CHARS: usize = 50;

/// A keyword is a word of more than three bytes that occurs in the screen's
/// text.
pub open spec fn is_keyword(word: Seq<char>, screen: Seq<char>) -> bool {
    encode_utf8(word).len() > 3 && occurs_in(word, screen)
}

/// The keywords among `words`, in order.
pub open spec fn keywords_of(words: Seq<Seq<char>>, screen: Seq<char>) -> Seq<Seq<char>>
    decreases words.len(),
{
    if words.len() == 0 {
        words
    } else if is_keyword(words.last(), screen) {
        keywords_of(words.drop_last(), screen).push(words.last())
    } else {
        keywords_of(words.drop_last(), screen)
    }
}

/// What the keywords add to the confidence: three tenths, by the share of
/// the task's words that are keywords.
pub open spec fn keyword_bonus(found: nat, total: nat) -> nat {
    if found > 0 && total > 0 {
        300_000 * found / total
    } else {
        0
    }
}

/// Confidence that the normalized text `screen` shows work on `task`, in
/// millionths: half the similarity with the task's name, a fifth of the
/// similarity with its project's name, and the keyword bonus.
pub open spec fn task_confidence(screen: Seq<char>, task: FreeloTaskView) -> nat {
    let name = normalized(task.name);
    similarity(screen, name) / 2 + similarity(screen, normalized(task.project_name)) / 5
        + keyword_bonus(keywords_of(words_of(name), screen).len(), words_of(name).len())
}

/// Index of the first task of the highest confidence.
pub open spec fn best_index(screen: Seq<char>, tasks: Seq<FreeloTaskView>) -> int
    decreases tasks.len(),
{
    if tasks.len() <= 1 {
        0
    } else {
        let before = best_index(screen, tasks.drop_last());
        if task_confidence(screen, tasks.last()) > task_confidence(screen, tasks[before]) {
            tasks.len() - 1
        } else {
            before
        }
    }
}

/// The task at [`best_index`] has the highest confidence of all, and no task
/// before it has as much.
pub proof fn lemma_best_index_is_first_maximum(screen: Seq<char>, tasks: Seq<FreeloTaskView>)
    requires
        tasks.len() > 0,
    ensures
        0 <= best_index(screen, tasks) < tasks.len(),
        forall|i: int|
            0 <= i < tasks.len() ==> task_confidence(screen, #[trigger] tasks[i])
                <= task_confidence(screen, tasks[best_index(screen, tasks)]),
        forall|i: int|
            0 <= i < best_index(screen, tasks) ==> task_confidence(screen, #[trigger] tasks[i])
                < task_confidence(screen, tasks[best_index(screen, tasks)]),
    decreases tasks.len(),
{
    if tasks.len() > 1 {
        let front = tasks.drop_last();
        lemma_best_index_is_first_maximum(screen, front);
        let before = best_index(screen, front);
        assert(front[before] == tasks[before]);
        assert forall|i: int| 0 <= i < tasks.len() implies task_confidence(
            screen,
            #[trigger] tasks[i],
        ) <= task_confidence(screen, tasks[best_index(screen, tasks)]) by {
            if i < tasks.len() - 1 {
                assert(front[i] == tasks[i]);
            }
        }
        assert forall|i: int| 0 <= i < best_index(screen, tasks) implies task_confidence(
            screen,
            #[trigger] tasks[i],
        ) < task_confidence(screen, tasks[best_index(screen, tasks)]) by {
            assert(front[i] == tasks[i]);
        }
    }
}

/// The first characters of a text, at most `n`.
pub open spec fn first_chars(text: Seq<char>, n: int) -> Seq<char> {
    if text.len() <= n {
        text
    } else {
        text.take(n)
    }
}

/// The result of the keyword matcher on a screen's text and a list of tasks.
pub open spec fn best_match(ocr_text: Seq<char>, tasks: Seq<FreeloTaskView>) -> MatchResultView {
    let screen = normalized(ocr_text);
    let app = application_in(screen);
    if tasks.len() == 0 {
        MatchResultView {
            task_id: None,
            task_name: None,
            confidence: 0,
            detected_application: app,
            matched_keywords: Seq::empty(),
            activity_description: app + " - práce mimo Freelo"@,
        }
    } else {
        let best = tasks[best_index(screen, tasks)];
        let activity = app + " - "@ + trimmed(first_chars(ocr_text, QUOTED_CHARS as int));
        if task_confidence(screen, best) > MATCH_THRESHOLD {
            MatchResultView {
                task_id: Some(best.id),
                task_name: Some(best.name),
                confidence: task_confidence(screen, best),
                detected_application: app,
                matched_keywords: keywords_of(words_of(normalized(best.name)), screen),
                activity_description: activity,
            }
        } else {
            MatchResultView {
                task_id: None,
                task_name: None,
                confidence: 0,
                detected_application: app,
                matched_keywords: Seq::empty(),
                activity_description: activity,
            }
        }
    }
}

/// There are no more keywords than words.
pub proof fn lemma_keywords_bounded(words: Seq<Seq<char>>, screen: Seq<char>)
    ensures
        keywords_of(words, screen).len() <= words.len(),
    decreases words.len(),
{
    if words.len() > 0 {
        lemma_keywords_bounded(words.drop_last(), screen);
    }
}

fn find_keywords(words: &Vec<String>, screen: &str) -> (found: Vec<String>)
    ensures
        strings_view(found@) == keywords_of(strings_view(words@), screen@),
{
    let mut found: Vec<String> = Vec::new();
    let ghost all = strings_view(words@);
    let mut i: usize = 0;
    assert(strings_view(found@) =~= Seq::empty());
    while i < words.len()
        invariant
            i <= words.len(),
            all == strings_view(words@),
            strings_view(found@) == keywords_of(all.take(i as int), screen@),
        decreases words.len() - i,
    {
        let ghost before = strings_view(found@);
        proof {
            assert(all.take(i + 1).drop_last() =~= all.take(i as int));
            assert(all.take(i + 1).last() == words@[i as int]@);
        }
        let word = words[i].as_str();
        if word.as_bytes().len() > 3 && contains_text(screen, word) {
            found.push(words[i].clone());
            assert(strings_view(found@) =~= before.push(words@[i as int]@));
        }
        i = i + 1;
    }
    assert(all.take(i as int) =~= all);
    found
}

fn score_task(screen: &str, task: &FreeloTask) -> (scored: (u32, Vec<String>))
    ensures
        scored.0 as nat == task_confidence(screen@, task@),
        scored.0 <= FULL_CONFIDENCE,
        strings_view(scored.1@) == keywords_of(words_of(normalized(task@.name)), screen@),
{
    let name = normalize_text(task.name.as_str());
    let project = normalize_text(task.project_name.as_str());
    let by_name = calculate_similarity(screen, name.as_str());
    let by_project = calculate_similarity(screen, project.as_str());
    let words = split_words(&chars_of(name.as_str()));
    let keywords = find_keywords(&words, screen);
    proof {
        lemma_keywords_bounded(strings_view(words@), screen@);
    }
    let found = keywords.len() as u128;
    let total = words.len() as u128;
    let bonus: u32 = if found > 0 {
        assert(300_000 * found / (total as int) <= 300_000) by (nonlinear_arith)
            requires
                0 < found <= total,
        ;
        assert(300_000 * found <= 300_000 * 0x1_0000_0000_0000_0000) by (nonlinear_arith)
            requires
                found <= 0x1_0000_0000_0000_0000,
        ;
        (300_000u128 * found / total) as u32
    } else {
        0
    };
    (by_name / 2 + by_project / 5 + bonus, keywords)
}

fn quote_screen(ocr_text: &str) -> (quoted: String)
    ensures
        quoted@ == first_chars(ocr_text@, QUOTED_CHARS as int),
{
    let chars = chars_of(ocr_text);
    let mut quoted = String::new();
    let mut i: usize = 0;
    while i < chars.len() && i < QUOTED_CHARS
        invariant
            i <= chars.len(),
            i <= QUOTED_CHARS,
            chars@ == ocr_text@,
            quoted@ == chars@.take(i as int),
        decreases chars.len() - i,
    {
        quoted.push(chars[i]);
        assert(chars@.take(i + 1) =~= chars@.take(i as int).push(chars@[i as int]));
        i = i + 1;
    }
    assert(chars@.take(chars@.len() as int) =~= chars@);
    quoted
}

/// Finds the task that a screen's text speaks of most.
pub fn find_best_matching_task(ocr_text: &str, tasks: &[FreeloTask]) -> (m: MatchResult)
    ensures
        m@ == best_match(ocr_text@, tasks_view(tasks@)),
        m.confidence <= FULL_CONFIDENCE,
{
    let screen = normalize_text(ocr_text);
    let app = detect_application(ocr_text);
    let ghost all = tasks_view(tasks@);
    if tasks.len() == 0 {
        let mut activity = app.clone();
        activity.append(" - práce mimo Freelo");
        let none: Vec<String> = Vec::new();
        assert(strings_view(none@) =~= Seq::empty());
        return MatchResult {
            task_id: None,
            task_name: None,
            confidence: 0,
            detected_application: app,
            matched_keywords: none,
            activity_description: activity,
        };
    }
    let first = score_task(screen.as_str(), &tasks[0]);
    let mut best: usize = 0;
    let mut best_confidence: u32 = first.0;
    let mut best_keywords: Vec<String> = first.1;
    let mut i: usize = 1;
    assert(all.take(1).len() == 1);
    while i < tasks.len()
        invariant
            1 <= i <= tasks.len(),
            all == tasks_view(tasks@),
            best as int == best_index(screen@, all.take(i as int)),
            0 <= best < i,
            best_confidence as nat == task_confidence(screen@, all[best as int]),
            best_confidence <= FULL_CONFIDENCE,
            strings_view(best_keywords@) == keywords_of(
                words_of(normalized(all[best as int].name)),
                screen@,
            ),
        decreases tasks.len() - i,
    {
        proof {
            assert(all.take(i + 1).drop_last() =~= all.take(i as int));
            assert(all.take(i + 1).last() == all[i as int]);
            assert(all.take(i + 1)[best as int] == all[best as int]);
        }
        let scored = score_task(screen.as_str(), &tasks[i]);
        if scored.0 > best_confidence {
            best = i;
            best_confidence = scored.0;
            best_keywords = scored.1;
        }
        i = i + 1;
    }
    assert(all.take(i as int) =~= all);
    let quoted = quote_screen(ocr_text);
    let mut activity = app.clone();
    activity.append(" - ");
    activity.append(quoted.as_str().trim());
    if best_confidence > MATCH_THRESHOLD {
        MatchResult {
            task_id: Some(tasks[best].id),
            task_name: Some(tasks[best].name.clone()),
            confidence: best_confidence,
            detected_application: app,
            matched_keywords: best_keywords,
            activity_description: activity,
        }
    } else {
        let none: Vec<String> = Vec::new();
        assert(strings_view(none@) =~= Seq::empty());
        MatchResult {
            task_id: None,
            task_name: None,
            confidence: 0,
            detected_application: app,
            matched_keywords: none,
            activity_description: activity,
        }
    }
}

} // verus!
