//! The tracking decision engine: one billing session that follows the user's
//! work, switched only when a change of context has lasted.

use vstd::prelude::*;
use crate::events::{bare, with_text, Notice, NoticeKind, NoticeView};
use crate::freelo::{
    tasks_view, ActiveTracking, ActiveTrackingView, FreeloTask, FreeloTaskView, RESTART_AFTER,
};
use crate::text::{decimal, id_to_string, lemma_decimal_ends_in_digit, opt_view};
use crate::text_matcher::{MatchResult, MatchResultView};

verus! {

/// Acceptance threshold that the engine uses unless it is told another, in
/// millionths.
pub const DEFAULT_THRESHOLD: u32 = 300_000;

/// Tracking key of work that no item of the backend stands for.
pub open spec fn general_work() -> Seq<char> {
    "general_work"@
}

/// The item that a match result is accepted for: the candidate, where there
/// is one and the confidence exceeds the threshold.
pub open spec fn accepted_task(m: MatchResultView, threshold: nat) -> Option<Seq<char>> {
    if m.confidence > threshold && m.task_id is Some {
        Some(decimal(m.task_id->0))
    } else {
        None
    }
}

/// The tracking key that a match result stands for.
pub open spec fn tracking_key(m: MatchResultView, threshold: nat) -> Seq<char> {
    match accepted_task(m, threshold) {
        Some(id) => id,
        None => general_work(),
    }
}

/// Whether a match result differs from what the session saw last.
pub open spec fn context_changed(s: ActiveTrackingView, m: MatchResultView) -> bool {
    s.last_application != m.detected_application || s.last_activity_description
        != m.activity_description
}

/// The instability counter after a tick: an unchanged context resets it, a
/// changed one advances it.
pub open spec fn accounted(s: ActiveTrackingView, m: MatchResultView) -> nat {
    if context_changed(s, m) {
        s.unstable_count + 1
    } else {
        0
    }
}

/// A restart is due once the counter reaches two: on the second changed tick
/// in a row.
pub open spec fn restart_due(s: ActiveTrackingView, m: MatchResultView) -> bool {
    accounted(s, m) >= RESTART_AFTER
}

/// What the engine does on a tick.
#[derive(Debug, Clone, Copy, PartialEq, Eq, Structural)]
pub enum Decision {
    /// No session is open: open one.
    Start,
    /// The session goes on; only its record is brought up to date.
    Continue,
    /// The context has changed for good: close the session and open another.
    Restart,
    /// The key differs but no change has lasted yet: only the counter is
    /// kept, and the session waits for the window to close.
    Hold,
}

/// The decision that the stabilization rule assigns to a session and a match
/// result.
pub open spec fn decide_spec(
    session: Option<ActiveTrackingView>,
    m: MatchResultView,
    threshold: nat,
) -> Decision {
    match session {
        None => Decision::Start,
        Some(s) => if restart_due(s, m) {
            Decision::Restart
        } else if s.task_id == tracking_key(m, threshold) {
            Decision::Continue
        } else {
            Decision::Hold
        },
    }
}

/// The record of a session that goes on: the counter is brought up to date,
/// and what was matched becomes the last seen.
pub open spec fn continued(s: ActiveTrackingView, m: MatchResultView) -> ActiveTrackingView {
    ActiveTrackingView {
        unstable_count: accounted(s, m),
        last_application: m.detected_application,
        last_activity_description: m.activity_description,
        ..s
    }
}

/// The record of a session that is held: only the counter is brought up to
/// date, so that a change that lasts closes the window on the next tick.
pub open spec fn held(s: ActiveTrackingView, m: MatchResultView) -> ActiveTrackingView {
    ActiveTrackingView { unstable_count: accounted(s, m), ..s }
}

/// Model of the session that may be open.
pub open spec fn session_view(session: Option<ActiveTracking>) -> Option<ActiveTrackingView> {
    match session {
        Some(s) => Some(s@),
        None => None,
    }
}

/// The item to name to the backend when a session is opened for `m`.
pub fn derive_task_id(m: &MatchResult, threshold: u32) -> (id: Option<String>)
    ensures
        opt_view(id) == accepted_task(m@, threshold as nat),
{
    if m.confidence > threshold {
        match m.task_id {
            Some(id) => Some(id_to_string(id)),
            None => None,
        }
    } else {
        None
    }
}

/// The tracking key of `m`.
pub fn derive_tracking_key(m: &MatchResult, threshold: u32) -> (key: String)
    ensures
        key@ == tracking_key(m@, threshold as nat),
{
    match derive_task_id(m, threshold) {
        Some(id) => id,
        None => "general_work".to_string(),
    }
}

/// Tells whether `m` differs from what `s` saw last, in application or in
/// activity.
pub fn has_context_changed(s: &ActiveTracking, m: &MatchResult) -> (changed: bool)
    ensures
        changed == context_changed(s@, m@),
{
    !(s.last_application == m.detected_application) || !(s.last_activity_description
        == m.activity_description)
}

/// Applies the stabilization rule to the session, if any, and a match result.
pub fn decide(session: &Option<ActiveTracking>, m: &MatchResult, threshold: u32) -> (d: Decision)
    ensures
        d == decide_spec(
            session_view(*session),
            m@,
            threshold as nat,
        ),
{
    match session {
        None => Decision::Start,
        Some(s) => {
            if has_context_changed(s, m) && s.unstable_count >= 1 {
                Decision::Restart
            } else {
                let key = derive_tracking_key(m, threshold);
                if s.task_id == key {
                    Decision::Continue
                } else {
                    Decision::Hold
                }
            }
        },
    }
}

/// Settings of one run of the engine.
#[derive(Debug, Clone, PartialEq, Eq)]
pub struct TrackerConfig {
    /// Seconds between two ticks. The interval is positive: a configuration
    /// with an interval of zero is none to run with.
    pub interval_seconds: u64,
    pub freelo_email: String,
    pub freelo_api_key: String,
    /// Credentials of the classifier; without them the keyword matcher is used.
    pub openrouter_api_key: Option<String>,
}

/// Mathematical model of a [`TrackerConfig`].
pub struct TrackerConfigView {
    pub interval_seconds: nat,
    pub freelo_email: Seq<char>,
    pub freelo_api_key: Seq<char>,
    pub openrouter_api_key: Option<Seq<char>>,
}

impl View for TrackerConfig {
    type V = TrackerConfigView;

    open spec fn view(&self) -> TrackerConfigView {
        TrackerConfigView {
            interval_seconds: self.interval_seconds as nat,
            freelo_email: self.freelo_email@,
            freelo_api_key: self.freelo_api_key@,
            openrouter_api_key: opt_view(self.openrouter_api_key),
        }
    }
}

/// Model of the configuration that may be set.
pub open spec fn config_view(config: Option<TrackerConfig>) -> Option<TrackerConfigView> {
    match config {
        Some(c) => Some(c@),
        None => None,
    }
}

/// The configuration that a loop can run with: the one that is set, if its
/// interval is positive.
pub open spec fn run_config(config: Option<TrackerConfigView>) -> Option<TrackerConfigView> {
    if config is Some && config->0.interval_seconds > 0 {
        config
    } else {
        None
    }
}

/// Misuse of the engine's lifecycle.
#[derive(Debug, Clone, Copy, PartialEq, Eq, Structural)]
pub enum TrackerError {
    /// `start` was called on a running engine.
    AlreadyRunning,
    /// `stop` was called on a stopped engine.
    NotRunning,
}

impl TrackerError {
    /// The error in words.
    pub fn message(&self) -> (s: String)
        ensures
            s@ == match *self {
                TrackerError::AlreadyRunning => "Tracker už běží"@,
                TrackerError::NotRunning => "Tracker neběží"@,
            },
    {
        match self {
            TrackerError::AlreadyRunning => "Tracker už běží".to_string(),
            TrackerError::NotRunning => "Tracker neběží".to_string(),
        }
    }
}

/// The engine's state: configuration, run flag, the session that may be
/// open, and the item cache.
pub struct Tracker {
    config: Option<TrackerConfig>,
    is_running: bool,
    active_tracking: Option<ActiveTracking>,
    freelo_tasks_cache: Vec<FreeloTask>,
    threshold: u32,
}

/// Mathematical model of a [`Tracker`]. With `active_tracking` absent the
/// engine is idle.
pub struct TrackerView {
    pub config: Option<TrackerConfigView>,
    pub is_running: bool,
    pub active_tracking: Option<ActiveTrackingView>,
    pub tasks: Seq<FreeloTaskView>,
    pub threshold: nat,
}

impl TrackerView {
    /// The counter of the open session, if any, is within the hysteresis
    /// window.
    pub open spec fn wf(self) -> bool {
        self.active_tracking is Some ==> self.active_tracking->0.unstable_count <= RESTART_AFTER
    }
}

impl View for Tracker {
    type V = TrackerView;

    closed spec fn view(&self) -> TrackerView {
        TrackerView {
            config: config_view(self.config),
            is_running: self.is_running,
            active_tracking: session_view(self.active_tracking),
            tasks: tasks_view(self.freelo_tasks_cache@),
            threshold: self.threshold as nat,
        }
    }
}

impl Tracker {
    /// A stopped, idle engine without configuration, with the default
    /// acceptance threshold.
    pub fn new() -> (t: Tracker)
        ensures
            t@ == (TrackerView {
                config: None,
                is_running: false,
                active_tracking: None,
                tasks: Seq::empty(),
                threshold: DEFAULT_THRESHOLD as nat,
            }),
    {
        let t = Tracker {
            config: None,
            is_running: false,
            active_tracking: None,
            freelo_tasks_cache: Vec::new(),
            threshold: DEFAULT_THRESHOLD,
        };
        assert(t@.tasks =~= Seq::empty());
        t
    }

    /// A stopped, idle engine that accepts a candidate only above `threshold`
    /// millionths of confidence.
    pub fn with_threshold(threshold: u32) -> (t: Tracker)
        ensures
            t@ == (TrackerView {
                config: None,
                is_running: false,
                active_tracking: None,
                tasks: Seq::empty(),
                threshold: threshold as nat,
            }),
    {
        let t = Tracker {
            config: None,
            is_running: false,
            active_tracking: None,
            freelo_tasks_cache: Vec::new(),
            threshold,
        };
        assert(t@.tasks =~= Seq::empty());
        t
    }

    /// Replaces the configuration as a whole. A loop that already runs keeps
    /// the settings it began with.
    pub fn set_config(&mut self, config: TrackerConfig)
        ensures
            final(self)@ == (TrackerView { config: Some(config@), ..old(self)@ }),
    {
        self.config = Some(config);
    }

    /// Raises the run flag. Fails, and changes nothing, when it is up already.
    pub fn start(&mut self) -> (r: Result<(), TrackerError>)
        ensures
            old(self)@.is_running ==> r == Err::<(), TrackerError>(TrackerError::AlreadyRunning)
                && final(self)@ == old(self)@,
            !old(self)@.is_running ==> r is Ok && final(self)@ == (TrackerView {
                is_running: true,
                ..old(self)@
            }),
    {
        if self.is_running {
            return Err(TrackerError::AlreadyRunning);
        }
        self.is_running = true;
        Ok(())
    }

    /// Lowers the run flag and forgets the session. Fails, and changes
    /// nothing, when the engine is stopped. Returns the handle of the session
    /// that the host is to close at the backend: the one that was open, if the
    /// engine is configured.
    pub fn stop(&mut self) -> (r: Result<Option<String>, TrackerError>)
        ensures
            !old(self)@.is_running ==> r == Err::<Option<String>, TrackerError>(
                TrackerError::NotRunning,
            ) && final(self)@ == old(self)@,
            old(self)@.is_running ==> r is Ok && final(self)@ == (TrackerView {
                is_running: false,
                active_tracking: None,
                ..old(self)@
            }) && opt_view(r->Ok_0) == stop_request(old(self)@),
    {
        if !self.is_running {
            return Err(TrackerError::NotRunning);
        }
        self.is_running = false;
        let closing = match self.active_tracking.take() {
            Some(active) => if self.config.is_some() {
                Some(active.uuid)
            } else {
                None
            },
            None => None,
        };
        Ok(closing)
    }

    /// The notice of the backend's answer to the closing of the session that
    /// [`Tracker::stop`] handed out: closed, or not closed, with the error.
    pub fn stop_notice(result: Result<(), String>) -> (n: Notice)
        ensures
            n@ == stop_notice_of(result),
    {
        match result {
            Ok(_) => Notice {
                kind: NoticeKind::SessionClosed,
                text: String::new(),
                detail: None,
                count: 0,
            },
            Err(e) => Notice { kind: NoticeKind::CloseFailed, text: e, detail: None, count: 0 },
        }
    }

    /// The configuration that the next run will begin with.
    pub fn config(&self) -> (c: &Option<TrackerConfig>)
        ensures
            config_view(*c) == self@.config,
    {
        &self.config
    }

    /// Whether the run flag is up.
    pub fn is_running(&self) -> (b: bool)
        ensures
            b == self@.is_running,
    {
        self.is_running
    }

    /// The session that is open, if any.
    pub fn active_tracking(&self) -> (s: &Option<ActiveTracking>)
        ensures
            session_view(*s) == self@.active_tracking,
    {
        &self.active_tracking
    }

    /// The item cache.
    pub fn tasks(&self) -> (t: &Vec<FreeloTask>)
        ensures
            tasks_view(t@) == self@.tasks,
    {
        &self.freelo_tasks_cache
    }

    /// The acceptance threshold, in millionths.
    pub fn threshold(&self) -> (t: u32)
        ensures
            t as nat == self@.threshold,
    {
        self.threshold
    }

    /// Lowers or raises the run flag.
    pub(crate) fn set_running(&mut self, running: bool)
        ensures
            final(self)@ == (TrackerView { is_running: running, ..old(self)@ }),
    {
        self.is_running = running;
    }

    /// Puts `session` in the place of the open session and hands out the one
    /// that was there.
    pub(crate) fn replace_session(&mut self, session: Option<ActiveTracking>) -> (was: Option<
        ActiveTracking,
    >)
        ensures
            final(self)@ == (TrackerView {
                active_tracking: session_view(session),
                ..old(self)@
            }),
            session_view(was) == old(self)@.active_tracking,
    {
        let mut slot = session;
        std::mem::swap(&mut self.active_tracking, &mut slot);
        slot
    }

    /// Fills the item cache.
    pub(crate) fn set_tasks(&mut self, tasks: Vec<FreeloTask>)
        ensures
            final(self)@ == (TrackerView { tasks: tasks_view(tasks@), ..old(self)@ }),
    {
        self.freelo_tasks_cache = tasks;
    }
}

/// The notice of the backend's answer to the closing of a session at
/// shutdown. A failure is reported as an error and changes nothing else:
/// the session is forgotten either way.
pub open spec fn stop_notice_of(result: Result<(), String>) -> NoticeView {
    match result {
        Ok(_) => bare(NoticeKind::SessionClosed),
        Err(e) => with_text(NoticeKind::CloseFailed, e@),
    }
}

/// The session that `stop` asks the host to close: the open one, where the
/// engine has a configuration to reach the backend with.
pub open spec fn stop_request(t: TrackerView) -> Option<Seq<char>> {
    if t.active_tracking is Some && t.config is Some {
        Some(t.active_tracking->0.uuid)
    } else {
        None
    }
}

/// The key of an item is never the general-work sentinel.
pub proof fn lemma_item_key_is_not_sentinel(id: int)
    ensures
        decimal(id) != general_work(),
{
    lemma_decimal_ends_in_digit(id);
    reveal_strlit("general_work");
    assert(general_work().last() == 'k');
}

/// The threshold is exclusive: a candidate whose confidence is the threshold
/// itself is not accepted and the key is the sentinel; one millionth more,
/// and the key is the candidate's identifier.
pub proof fn lemma_threshold_boundary(m: MatchResultView, threshold: nat)
    ensures
        m.confidence <= threshold ==> accepted_task(m, threshold) is None && tracking_key(
            m,
            threshold,
        ) == general_work(),
        m.confidence == threshold + 1 && m.task_id is Some ==> accepted_task(m, threshold)
            == Some(decimal(m.task_id->0)) && tracking_key(m, threshold) == decimal(
            m.task_id->0,
        ) && tracking_key(m, threshold) != general_work(),
{
    if m.task_id is Some {
        lemma_item_key_is_not_sentinel(m.task_id->0);
    }
}

/// Hysteresis: a restart falls due exactly when the context has changed on
/// this tick and had changed on the tick before. On a first changed tick
/// (counter at zero) the session is kept, whatever the match.
pub proof fn lemma_hysteresis(s: ActiveTrackingView, m: MatchResultView, threshold: nat)
    ensures
        decide_spec(Some(s), m, threshold) == Decision::Restart <==> context_changed(s, m)
            && s.unstable_count >= 1,
        decide_spec(Some(s), m, threshold) != Decision::Start,
        s.unstable_count == 0 ==> decide_spec(Some(s), m, threshold) == Decision::Continue
            || decide_spec(Some(s), m, threshold) == Decision::Hold,
        decide_spec(Some(s), m, threshold) != Decision::Restart ==> accounted(s, m) <= 1,
{
}

/// An unchanged context resets the counter, whatever the counter was and
/// whether the session goes on or is held, and never restarts the session.
pub proof fn lemma_unchanged_context_resets(
    s: ActiveTrackingView,
    m: MatchResultView,
    threshold: nat,
)
    requires
        !context_changed(s, m),
    ensures
        accounted(s, m) == 0,
        decide_spec(Some(s), m, threshold) != Decision::Restart,
        continued(s, m) == (ActiveTrackingView { unstable_count: 0, ..s }),
        held(s, m) == (ActiveTrackingView { unstable_count: 0, ..s }),
{
}

} // verus!
