//! The poll loop as a state machine: each step takes the outcome of the
//! outside work that the step before asked for, and asks for the next.

use vstd::prelude::*;
use vstd::utf8::encode_utf8;
use crate::ai_matcher::{build_prompt, match_of_answer, prompt_for, to_match_result, AIMatchResult};
use crate::events::{
    bare, emit, emit_detailed, notices_view, with_count, with_text, LoopCommand, LoopCommandView, LoopStep,
    LoopStepView, Notice, NoticeKind, NoticeView,
};
use crate::freelo::{tasks_view, ActiveTracking, ActiveTrackingView, FreeloTask};
use crate::stabilization::{matched_state, matched_step, matched_tracker};
use crate::text::{clone_opt, opt_view};
use crate::text_matcher::{best_match, find_best_matching_task};
use crate::tracker::{run_config, Tracker, TrackerView};

verus! {

/// What the loop keeps of a match while the backend opens a session for it.
#[derive(Debug, Clone, PartialEq, Eq)]
pub struct PendingStart {
    pub key: String,
    pub task_id: Option<String>,
    pub application: String,
    pub activity: String,
    /// Whether the session replaces one that was closed for a change of
    /// context.
    pub restart: bool,
}

/// Mathematical model of a [`PendingStart`].
pub struct PendingStartView {
    pub key: Seq<char>,
    pub task_id: Option<Seq<char>>,
    pub application: Seq<char>,
    pub activity: Seq<char>,
    pub restart: bool,
}

impl View for PendingStart {
    type V = PendingStartView;

    open spec fn view(&self) -> PendingStartView {
        PendingStartView {
            key: self.key@,
            task_id: opt_view(self.task_id),
            application: self.application@,
            activity: self.activity@,
            restart: self.restart,
        }
    }
}

/// The outside work that the loop waits for.
#[derive(Debug, Clone, PartialEq, Eq)]
pub enum LoopPhase {
    /// The loop has not begun.
    NotStarted,
    /// The item list is being fetched.
    LoadingTasks,
    /// The timer runs.
    Waiting,
    /// A sample of the screen is being taken.
    Capturing,
    /// The sample is being read.
    Reading,
    /// The classifier is being asked about this text.
    Matching { ocr_text: String },
    /// The backend is closing the session of a restart.
    Stopping { pending: PendingStart },
    /// The backend is opening a session.
    Starting { pending: PendingStart },
    /// The loop has ended.
    Finished,
}

/// Mathematical model of a [`LoopPhase`].
pub enum LoopPhaseView {
    NotStarted,
    LoadingTasks,
    Waiting,
    Capturing,
    Reading,
    Matching { ocr_text: Seq<char> },
    Stopping { pending: PendingStartView },
    Starting { pending: PendingStartView },
    Finished,
}

impl View for LoopPhase {
    type V = LoopPhaseView;

    open spec fn view(&self) -> LoopPhaseView {
        match *self {
            LoopPhase::NotStarted => LoopPhaseView::NotStarted,
            LoopPhase::LoadingTasks => LoopPhaseView::LoadingTasks,
            LoopPhase::Waiting => LoopPhaseView::Waiting,
            LoopPhase::Capturing => LoopPhaseView::Capturing,
            LoopPhase::Reading => LoopPhaseView::Reading,
            LoopPhase::Matching { ocr_text } => LoopPhaseView::Matching { ocr_text: ocr_text@ },
            LoopPhase::Stopping { pending } => LoopPhaseView::Stopping { pending: pending@ },
            LoopPhase::Starting { pending } => LoopPhaseView::Starting { pending: pending@ },
            LoopPhase::Finished => LoopPhaseView::Finished,
        }
    }
}

/// State of one run of the poll loop: the settings it began with, and what
/// it waits for.
#[derive(Debug, Clone, PartialEq, Eq)]
pub struct LoopState {
    pub interval_seconds: u64,
    pub openrouter_api_key: Option<String>,
    pub phase: LoopPhase,
}

/// Mathematical model of a [`LoopState`].
pub struct LoopStateView {
    pub interval_seconds: nat,
    pub openrouter_api_key: Option<Seq<char>>,
    pub phase: LoopPhaseView,
}

impl View for LoopState {
    type V = LoopStateView;

    open spec fn view(&self) -> LoopStateView {
        LoopStateView {
            interval_seconds: self.interval_seconds as nat,
            openrouter_api_key: opt_view(self.openrouter_api_key),
            phase: self.phase@,
        }
    }
}

impl LoopState {
    /// The state of a loop that has not begun.
    pub fn new() -> (lp: LoopState)
        ensures
            lp@ == (LoopStateView {
                interval_seconds: 0,
                openrouter_api_key: None,
                phase: LoopPhaseView::NotStarted,
            }),
    {
        LoopState { interval_seconds: 0, openrouter_api_key: None, phase: LoopPhase::NotStarted }
    }
}

/// Single active session: while the backend is asked to close or to open a
/// session, the engine holds none. With the record of the session being one
/// optional value, a session is thus opened only when none is held, and at
/// most one exists at any time.
pub open spec fn single_session(t: TrackerView, l: LoopStateView) -> bool {
    (l.phase is Stopping || l.phase is Starting) ==> t.active_tracking is None
}

/// The commands of the lifecycle keep the session single: they leave the
/// record as it is or clear it.
pub proof fn lemma_lifecycle_keeps_single_session(
    before: TrackerView,
    after: TrackerView,
    l: LoopStateView,
)
    requires
        single_session(before, l),
        after.active_tracking == before.active_tracking || after.active_tracking is None,
    ensures
        single_session(after, l),
{
}

/// The step that changes nothing: the event was not the one awaited.
pub open spec fn idle_step() -> LoopStepView {
    LoopStepView { notices: Seq::empty(), update: None, command: LoopCommandView::Pending }
}

/// A step that reports `notices` and asks for `command`.
pub open spec fn plain_step(notices: Seq<NoticeView>, command: LoopCommandView) -> LoopStepView {
    LoopStepView { notices, update: None, command }
}

/// The record of a session that the backend has just opened under `uuid`.
pub open spec fn opened_session(p: PendingStartView, uuid: Seq<char>, now: nat) -> ActiveTrackingView {
    ActiveTrackingView {
        task_id: p.key,
        uuid,
        start_time: now,
        last_context: p.application,
        last_application: p.application,
        last_activity_description: p.activity,
        unstable_count: 0,
    }
}

/// The notice of a session that was opened; for an item it names the key.
pub open spec fn opened_notice(p: PendingStartView, uuid: Seq<char>) -> NoticeView {
    if p.restart {
        with_text(NoticeKind::RestartedSession, uuid)
    } else if p.task_id is Some {
        NoticeView { kind: NoticeKind::TaskStarted, text: uuid, detail: Some(p.key), count: 0 }
    } else {
        with_text(NoticeKind::GeneralWorkStarted, uuid)
    }
}

fn idle() -> (step: LoopStep)
    ensures
        step@ == idle_step(),
{
    let notices: Vec<Notice> = Vec::new();
    assert(notices_view(notices@) =~= Seq::empty());
    LoopStep { notices, update: None, command: LoopCommand::Pending }
}

fn finish(notices: Vec<Notice>, command: LoopCommand) -> (step: LoopStep)
    ensures
        step@ == plain_step(notices_view(notices@), command@),
{
    LoopStep { notices, update: None, command }
}

impl LoopState {
    /// Begins the loop: takes the settings of this run from the engine and
    /// asks for the item list. Without a configuration to run with (none is
    /// set, or its interval is zero) the loop ends at once and the engine is
    /// stopped.
    pub fn begin(&mut self, tracker: &mut Tracker) -> (step: LoopStep)
        ensures
            !(old(self)@.phase is NotStarted) ==> final(self)@ == old(self)@ && final(tracker)@
                == old(tracker)@ && step@ == idle_step(),
            old(self)@.phase is NotStarted ==> match run_config(old(tracker)@.config) {
                None => final(self)@ == (LoopStateView {
                    phase: LoopPhaseView::Finished,
                    ..old(self)@
                }) && final(tracker)@ == (TrackerView { is_running: false, ..old(tracker)@ })
                    && step@ == plain_step(
                    seq![bare(NoticeKind::ConfigMissing)],
                    LoopCommandView::Exit,
                ),
                Some(config) => final(self)@ == (LoopStateView {
                    interval_seconds: config.interval_seconds,
                    openrouter_api_key: config.openrouter_api_key,
                    phase: LoopPhaseView::LoadingTasks,
                }) && final(self)@.interval_seconds > 0 && final(tracker)@ == old(tracker)@
                    && step@ == plain_step(
                    seq![bare(NoticeKind::LoadingTasks)],
                    LoopCommandView::FetchTasks {
                        email: config.freelo_email,
                        api_key: config.freelo_api_key,
                    },
                ),
            },
            single_session(old(tracker)@, old(self)@) ==> single_session(
                final(tracker)@,
                final(self)@,
            ),
            old(tracker)@.wf() ==> final(tracker)@.wf(),
    {
        match self.phase {
            LoopPhase::NotStarted => {},
            _ => {
                return idle();
            },
        }
        let mut notices: Vec<Notice> = Vec::new();
        assert(notices_view(notices@) =~= Seq::empty());
        let found = match tracker.config() {
            Some(c) => if c.interval_seconds > 0 {
                Some(
                    (
                        c.interval_seconds,
                        clone_opt(&c.openrouter_api_key),
                        c.freelo_email.clone(),
                        c.freelo_api_key.clone(),
                    ),
                )
            } else {
                None
            },
            None => None,
        };
        match found {
            Some((interval, classifier_key, email, api_key)) => {
                self.interval_seconds = interval;
                self.openrouter_api_key = classifier_key;
                self.phase = LoopPhase::LoadingTasks;
                emit(&mut notices, NoticeKind::LoadingTasks, String::new(), 0);
                assert(notices_view(notices@) =~= seq![bare(NoticeKind::LoadingTasks)]);
                finish(notices, LoopCommand::FetchTasks { email, api_key })
            },
            None => {
                tracker.set_running(false);
                self.phase = LoopPhase::Finished;
                emit(&mut notices, NoticeKind::ConfigMissing, String::new(), 0);
                assert(notices_view(notices@) =~= seq![bare(NoticeKind::ConfigMissing)]);
                finish(notices, LoopCommand::Exit)
            },
        }
    }

    /// Takes the item list. With it the cache is filled and the timer
    /// started; without it the loop ends and the engine is stopped.
    pub fn tasks_fetched(
        &mut self,
        tracker: &mut Tracker,
        result: Result<Vec<FreeloTask>, String>,
    ) -> (step: LoopStep)
        ensures
            !(old(self)@.phase is LoadingTasks) ==> final(self)@ == old(self)@
                && final(tracker)@ == old(tracker)@ && step@ == idle_step(),
            old(self)@.phase is LoadingTasks ==> match result {
                Ok(tasks) => final(self)@ == (LoopStateView {
                    phase: LoopPhaseView::Waiting,
                    ..old(self)@
                }) && final(tracker)@ == (TrackerView {
                    tasks: tasks_view(tasks@),
                    ..old(tracker)@
                }) && step@ == plain_step(
                    seq![
                        with_count(NoticeKind::TasksLoaded, tasks@.len()),
                        with_count(NoticeKind::LoopStarted, old(self)@.interval_seconds),
                    ],
                    LoopCommandView::WaitTick { seconds: old(self)@.interval_seconds },
                ),
                Err(e) => final(self)@ == (LoopStateView {
                    phase: LoopPhaseView::Finished,
                    ..old(self)@
                }) && final(tracker)@ == (TrackerView { is_running: false, ..old(tracker)@ })
                    && step@ == plain_step(
                    seq![with_text(NoticeKind::TasksLoadFailed, e@)],
                    LoopCommandView::Exit,
                ),
            },
            single_session(old(tracker)@, old(self)@) ==> single_session(
                final(tracker)@,
                final(self)@,
            ),
            old(tracker)@.wf() ==> final(tracker)@.wf(),
    {
        match self.phase {
            LoopPhase::LoadingTasks => {},
            _ => {
                return idle();
            },
        }
        let mut notices: Vec<Notice> = Vec::new();
        assert(notices_view(notices@) =~= Seq::empty());
        match result {
            Ok(tasks) => {
                let count = tasks.len() as u64;
                tracker.set_tasks(tasks);
                self.phase = LoopPhase::Waiting;
                emit(&mut notices, NoticeKind::TasksLoaded, String::new(), count);
                emit(&mut notices, NoticeKind::LoopStarted, String::new(), self.interval_seconds);
                assert(notices_view(notices@) =~= seq![
                    with_count(NoticeKind::TasksLoaded, count as nat),
                    with_count(NoticeKind::LoopStarted, old(self)@.interval_seconds),
                ]);
                finish(notices, LoopCommand::WaitTick { seconds: self.interval_seconds })
            },
            Err(e) => {
                tracker.set_running(false);
                self.phase = LoopPhase::Finished;
                emit(&mut notices, NoticeKind::TasksLoadFailed, e, 0);
                assert(notices_view(notices@) =~= seq![
                    with_text(NoticeKind::TasksLoadFailed, e@),
                ]);
                finish(notices, LoopCommand::Exit)
            },
        }
    }

    /// Takes a tick of the timer: the only point at which the loop looks at
    /// the run flag. With the flag down the loop ends; else a sample is
    /// asked for.
    pub fn tick(&mut self, tracker: &Tracker) -> (step: LoopStep)
        ensures
            !(old(self)@.phase is Waiting) ==> final(self)@ == old(self)@ && step@ == idle_step(),
            old(self)@.phase is Waiting && !tracker@.is_running ==> final(self)@ == (
            LoopStateView { phase: LoopPhaseView::Finished, ..old(self)@ }) && step@
                == plain_step(seq![bare(NoticeKind::LoopEnded)], LoopCommandView::Exit),
            old(self)@.phase is Waiting && tracker@.is_running ==> final(self)@ == (LoopStateView {
                phase: LoopPhaseView::Capturing,
                ..old(self)@
            }) && step@ == plain_step(
                seq![bare(NoticeKind::Capturing)],
                LoopCommandView::Capture,
            ),
            single_session(tracker@, old(self)@) ==> single_session(tracker@, final(self)@),
    {
        match self.phase {
            LoopPhase::Waiting => {},
            _ => {
                return idle();
            },
        }
        let mut notices: Vec<Notice> = Vec::new();
        assert(notices_view(notices@) =~= Seq::empty());
        if !tracker.is_running() {
            self.phase = LoopPhase::Finished;
            emit(&mut notices, NoticeKind::LoopEnded, String::new(), 0);
            assert(notices_view(notices@) =~= seq![bare(NoticeKind::LoopEnded)]);
            finish(notices, LoopCommand::Exit)
        } else {
            self.phase = LoopPhase::Capturing;
            emit(&mut notices, NoticeKind::Capturing, String::new(), 0);
            assert(notices_view(notices@) =~= seq![bare(NoticeKind::Capturing)]);
            finish(notices, LoopCommand::Capture)
        }
    }

    /// Takes the sample of the screen. A failure is reported and the tick
    /// given up; a sample is handed on to be read.
    pub fn captured(&mut self, result: Result<String, String>) -> (step: LoopStep)
        ensures
            !(old(self)@.phase is Capturing) ==> final(self)@ == old(self)@ && step@
                == idle_step(),
            old(self)@.phase is Capturing ==> match result {
                Ok(shot) => final(self)@ == (LoopStateView {
                    phase: LoopPhaseView::Reading,
                    ..old(self)@
                }) && step@ == plain_step(
                    seq![bare(NoticeKind::ReadingText)],
                    LoopCommandView::ExtractText { screenshot: shot@ },
                ),
                Err(e) => final(self)@ == (LoopStateView {
                    phase: LoopPhaseView::Waiting,
                    ..old(self)@
                }) && step@ == plain_step(
                    seq![with_text(NoticeKind::CaptureFailed, e@)],
                    LoopCommandView::WaitTick { seconds: old(self)@.interval_seconds },
                ),
            },
            forall|t: TrackerView| #[trigger]
                single_session(t, old(self)@) ==> single_session(t, final(self)@),
    {
        match self.phase {
            LoopPhase::Capturing => {},
            _ => {
                return idle();
            },
        }
        let mut notices: Vec<Notice> = Vec::new();
        assert(notices_view(notices@) =~= Seq::empty());
        match result {
            Ok(shot) => {
                self.phase = LoopPhase::Reading;
                emit(&mut notices, NoticeKind::ReadingText, String::new(), 0);
                assert(notices_view(notices@) =~= seq![bare(NoticeKind::ReadingText)]);
                finish(notices, LoopCommand::ExtractText { screenshot: shot })
            },
            Err(e) => {
                self.phase = LoopPhase::Waiting;
                emit(&mut notices, NoticeKind::CaptureFailed, e, 0);
                assert(notices_view(notices@) =~= seq![with_text(NoticeKind::CaptureFailed, e@)]);
                finish(notices, LoopCommand::WaitTick { seconds: self.interval_seconds })
            },
        }
    }
}

impl LoopState {
    /// Takes the backend's answer to the closing of a session in a restart.
    /// A failure is reported and no more: either way the new session is
    /// asked for.
    pub fn session_stopped(&mut self, result: Result<(), String>) -> (step: LoopStep)
        ensures
            !(old(self)@.phase is Stopping) ==> final(self)@ == old(self)@ && step@
                == idle_step(),
            old(self)@.phase is Stopping ==> final(self)@ == (LoopStateView {
                phase: LoopPhaseView::Starting { pending: old(self)@.phase->Stopping_pending },
                ..old(self)@
            }) && step@ == plain_step(
                match result {
                    Ok(_) => Seq::empty(),
                    Err(e) => seq![with_text(NoticeKind::StopFailed, e@)],
                },
                LoopCommandView::StartSession {
                    task_id: old(self)@.phase->Stopping_pending.task_id,
                    note: old(self)@.phase->Stopping_pending.activity,
                },
            ),
            forall|t: TrackerView| #[trigger]
                single_session(t, old(self)@) ==> single_session(t, final(self)@),
    {
        match self.phase {
            LoopPhase::Stopping { .. } => {},
            _ => {
                return idle();
            },
        }
        let mut notices: Vec<Notice> = Vec::new();
        assert(notices_view(notices@) =~= Seq::empty());
        let mut phase = LoopPhase::Waiting;
        std::mem::swap(&mut self.phase, &mut phase);
        match phase {
            LoopPhase::Stopping { pending } => {
                match result {
                    Ok(_) => {},
                    Err(e) => {
                        emit(&mut notices, NoticeKind::StopFailed, e, 0);
                        assert(notices_view(notices@) =~= seq![
                            with_text(NoticeKind::StopFailed, e@),
                        ]);
                    },
                }
                let command = LoopCommand::StartSession {
                    task_id: clone_opt(&pending.task_id),
                    note: pending.activity.clone(),
                };
                self.phase = LoopPhase::Starting { pending };
                finish(notices, command)
            },
            other => {
                self.phase = other;
                idle()
            },
        }
    }

    /// Takes the backend's answer to the opening of a session, with the time
    /// at which it came. A session that was opened is recorded with a counter
    /// of zero; a failure is reported and the record left as it is. Either
    /// way the timer is awaited next.
    pub fn session_started(
        &mut self,
        tracker: &mut Tracker,
        result: Result<String, String>,
        now: u64,
    ) -> (step: LoopStep)
        ensures
            !(old(self)@.phase is Starting) ==> final(self)@ == old(self)@ && final(tracker)@
                == old(tracker)@ && step@ == idle_step(),
            old(self)@.phase is Starting ==> final(self)@ == (LoopStateView {
                phase: LoopPhaseView::Waiting,
                ..old(self)@
            }) && step@.update is None && step@.command == (LoopCommandView::WaitTick {
                seconds: old(self)@.interval_seconds,
            }) && match result {
                Ok(uuid) => final(tracker)@ == (TrackerView {
                    active_tracking: Some(
                        opened_session(old(self)@.phase->Starting_pending, uuid@, now as nat),
                    ),
                    ..old(tracker)@
                }) && step@.notices == seq![
                    opened_notice(old(self)@.phase->Starting_pending, uuid@),
                ],
                Err(e) => final(tracker)@ == old(tracker)@ && step@.notices == seq![
                    with_text(NoticeKind::StartFailed, e@),
                ],
            },
            single_session(old(tracker)@, old(self)@) ==> single_session(
                final(tracker)@,
                final(self)@,
            ),
            old(tracker)@.wf() ==> final(tracker)@.wf(),
    {
        match self.phase {
            LoopPhase::Starting { .. } => {},
            _ => {
                return idle();
            },
        }
        let mut notices: Vec<Notice> = Vec::new();
        assert(notices_view(notices@) =~= Seq::empty());
        let mut phase = LoopPhase::Waiting;
        std::mem::swap(&mut self.phase, &mut phase);
        match phase {
            LoopPhase::Starting { pending } => {
                match result {
                    Ok(uuid) => {
                        if pending.restart {
                            emit(&mut notices, NoticeKind::RestartedSession, uuid.clone(), 0);
                        } else if pending.task_id.is_some() {
                            emit_detailed(
                                &mut notices,
                                NoticeKind::TaskStarted,
                                uuid.clone(),
                                Some(pending.key.clone()),
                                0,
                            );
                        } else {
                            emit(&mut notices, NoticeKind::GeneralWorkStarted, uuid.clone(), 0);
                        }
                        assert(notices_view(notices@) =~= seq![opened_notice(pending@, uuid@)]);
                        let session = ActiveTracking::fresh(
                            pending.key,
                            uuid,
                            now,
                            &pending.application,
                            &pending.activity,
                        );
                        tracker.replace_session(Some(session));
                    },
                    Err(e) => {
                        emit(&mut notices, NoticeKind::StartFailed, e, 0);
                        assert(notices_view(notices@) =~= seq![
                            with_text(NoticeKind::StartFailed, e@),
                        ]);
                    },
                }
                finish(notices, LoopCommand::WaitTick { seconds: self.interval_seconds })
            },
            other => {
                self.phase = other;
                idle()
            },
        }
    }
}

impl LoopState {
    /// Takes the text that was read off the sample. A failure is reported
    /// and the tick given up. With credentials for the classifier the
    /// question is put to it; without them the keyword matcher decides at
    /// once and the tick ends in its match.
    pub fn text_extracted(&mut self, tracker: &mut Tracker, result: Result<String, String>) -> (step:
        LoopStep)
        ensures
            !(old(self)@.phase is Reading) ==> final(self)@ == old(self)@ && final(tracker)@
                == old(tracker)@ && step@ == idle_step(),
            old(self)@.phase is Reading ==> match result {
                Err(e) => final(self)@ == (LoopStateView {
                    phase: LoopPhaseView::Waiting,
                    ..old(self)@
                }) && final(tracker)@ == old(tracker)@ && step@ == plain_step(
                    seq![with_text(NoticeKind::ReadingFailed, e@)],
                    LoopCommandView::WaitTick { seconds: old(self)@.interval_seconds },
                ),
                Ok(text) => match old(self)@.openrouter_api_key {
                    Some(key) => final(self)@ == (LoopStateView {
                        phase: LoopPhaseView::Matching { ocr_text: text@ },
                        ..old(self)@
                    }) && final(tracker)@ == old(tracker)@ && step@ == plain_step(
                        seq![
                            with_count(NoticeKind::TextRead, encode_utf8(text@).len()),
                            bare(NoticeKind::AskingClassifier),
                        ],
                        LoopCommandView::AskClassifier {
                            prompt: prompt_for(text@, old(tracker)@.tasks),
                            api_key: key,
                        },
                    ),
                    None => {
                        let m = best_match(text@, old(tracker)@.tasks);
                        let lead = seq![
                            with_count(NoticeKind::TextRead, encode_utf8(text@).len()),
                            bare(NoticeKind::KeywordMatching),
                        ];
                        final(tracker)@ == matched_tracker(old(tracker)@, m) && final(self)@
                            == matched_state(old(tracker)@, old(self)@, m) && step@
                            == matched_step(old(tracker)@, old(self)@, m, lead)
                    },
                },
            },
            single_session(old(tracker)@, old(self)@) ==> single_session(
                final(tracker)@,
                final(self)@,
            ),
            old(tracker)@.wf() ==> final(tracker)@.wf(),
    {
        match self.phase {
            LoopPhase::Reading => {},
            _ => {
                return idle();
            },
        }
        let mut notices: Vec<Notice> = Vec::new();
        assert(notices_view(notices@) =~= Seq::empty());
        match result {
            Err(e) => {
                self.phase = LoopPhase::Waiting;
                emit(&mut notices, NoticeKind::ReadingFailed, e, 0);
                assert(notices_view(notices@) =~= seq![with_text(NoticeKind::ReadingFailed, e@)]);
                finish(notices, LoopCommand::WaitTick { seconds: self.interval_seconds })
            },
            Ok(text) => {
                let size = text.as_str().as_bytes().len() as u64;
                emit(&mut notices, NoticeKind::TextRead, String::new(), size);
                match clone_opt(&self.openrouter_api_key) {
                    Some(key) => {
                        emit(&mut notices, NoticeKind::AskingClassifier, String::new(), 0);
                        assert(notices_view(notices@) =~= seq![
                            with_count(NoticeKind::TextRead, encode_utf8(text@).len()),
                            bare(NoticeKind::AskingClassifier),
                        ]);
                        let prompt = build_prompt(text.as_str(), tracker.tasks().as_slice());
                        self.phase = LoopPhase::Matching { ocr_text: text };
                        finish(notices, LoopCommand::AskClassifier { prompt, api_key: key })
                    },
                    None => {
                        emit(&mut notices, NoticeKind::KeywordMatching, String::new(), 0);
                        assert(notices_view(notices@) =~= seq![
                            with_count(NoticeKind::TextRead, encode_utf8(text@).len()),
                            bare(NoticeKind::KeywordMatching),
                        ]);
                        let m = find_best_matching_task(
                            text.as_str(),
                            tracker.tasks().as_slice(),
                        );
                        self.matched(tracker, &m, notices)
                    },
                }
            },
        }
    }

    /// Takes the classifier's answer. An answer becomes the match of this
    /// tick; a failure is reported and the keyword matcher decides in the
    /// classifier's place.
    pub fn classifier_answered(
        &mut self,
        tracker: &mut Tracker,
        result: Result<AIMatchResult, String>,
    ) -> (step: LoopStep)
        ensures
            !(old(self)@.phase is Matching) ==> final(self)@ == old(self)@ && final(tracker)@
                == old(tracker)@ && step@ == idle_step(),
            old(self)@.phase is Matching ==> {
                let m = match result {
                    Ok(answer) => match_of_answer(answer@, old(tracker)@.tasks),
                    Err(_) => best_match(
                        old(self)@.phase->Matching_ocr_text,
                        old(tracker)@.tasks,
                    ),
                };
                let lead = match result {
                    Ok(answer) => seq![
                        NoticeView {
                            kind: NoticeKind::ClassifierAnswered,
                            text: answer@.activity_description,
                            detail: None,
                            count: answer@.confidence,
                        },
                    ],
                    Err(e) => seq![
                        with_text(NoticeKind::ClassifierFailed, e@),
                        bare(NoticeKind::FallbackMatching),
                    ],
                };
                final(tracker)@ == matched_tracker(old(tracker)@, m) && final(self)@
                    == matched_state(old(tracker)@, old(self)@, m) && step@ == matched_step(
                    old(tracker)@,
                    old(self)@,
                    m,
                    lead,
                )
            },
            single_session(old(tracker)@, old(self)@) ==> single_session(
                final(tracker)@,
                final(self)@,
            ),
            old(tracker)@.wf() ==> final(tracker)@.wf(),
    {
        match self.phase {
            LoopPhase::Matching { .. } => {},
            _ => {
                return idle();
            },
        }
        let mut notices: Vec<Notice> = Vec::new();
        assert(notices_view(notices@) =~= Seq::empty());
        let mut phase = LoopPhase::Waiting;
        std::mem::swap(&mut self.phase, &mut phase);
        match phase {
            LoopPhase::Matching { ocr_text } => {
                let m = match result {
                    Ok(answer) => {
                        emit(
                            &mut notices,
                            NoticeKind::ClassifierAnswered,
                            answer.activity_description.clone(),
                            answer.confidence as u64,
                        );
                        assert(notices_view(notices@) =~= seq![
                            NoticeView {
                                kind: NoticeKind::ClassifierAnswered,
                                text: answer@.activity_description,
                                detail: None,
                                count: answer@.confidence,
                            },
                        ]);
                        to_match_result(answer, tracker.tasks().as_slice())
                    },
                    Err(e) => {
                        emit(&mut notices, NoticeKind::ClassifierFailed, e, 0);
                        emit(&mut notices, NoticeKind::FallbackMatching, String::new(), 0);
                        assert(notices_view(notices@) =~= seq![
                            with_text(NoticeKind::ClassifierFailed, e@),
                            bare(NoticeKind::FallbackMatching),
                        ]);
                        find_best_matching_task(ocr_text.as_str(), tracker.tasks().as_slice())
                    },
                };
                self.matched(tracker, &m, notices)
            },
            other => {
                self.phase = other;
                idle()
            },
        }
    }
}

} // verus!
