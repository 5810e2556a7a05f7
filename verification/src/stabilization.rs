//! The stabilization rule: what one match does to the session, and why a
//! single noisy tick does not move it.

use vstd::prelude::*;
use crate::events::{
    bare, emit, emit_detailed, notices_view, with_count, with_text, LoopCommand, LoopCommandView, LoopStep,
    LoopStepView, Notice, NoticeKind, NoticeView, TrackingUpdate, TrackingUpdateView,
};
use crate::freelo::{ActiveTracking, ActiveTrackingView};
use crate::poll_loop::{
    single_session, LoopPhase, LoopPhaseView, LoopState, LoopStateView, PendingStart,
    PendingStartView,
};
use crate::text::{clone_opt, join, join_strings};
use crate::text_matcher::{MatchResult, MatchResultView};
use crate::tracker::{
    accepted_task, accounted, context_changed, continued, decide, decide_spec, derive_task_id,
    derive_tracking_key, has_context_changed, held, tracking_key, Decision, Tracker, TrackerView,
};

verus! {

/// What is kept of `m` while a session is opened for it.
pub open spec fn pending_for(m: MatchResultView, threshold: nat, restart: bool) -> PendingStartView {
    PendingStartView {
        key: tracking_key(m, threshold),
        task_id: accepted_task(m, threshold),
        application: m.detected_application,
        activity: m.activity_description,
        restart,
    }
}

/// The notices on how `m` compares with what the session saw last: one for
/// an application that differs and one for an activity that differs, each
/// with the new and the old, or one that says that nothing differs.
pub open spec fn analysis_notices(
    session: Option<ActiveTrackingView>,
    m: MatchResultView,
) -> Seq<NoticeView> {
    match session {
        None => Seq::empty(),
        Some(s) => {
            let count = s.unstable_count + 1;
            let application = if s.last_application != m.detected_application {
                seq![
                    NoticeView {
                        kind: NoticeKind::ApplicationChanged,
                        text: m.detected_application,
                        detail: Some(s.last_application),
                        count,
                    },
                ]
            } else {
                Seq::empty()
            };
            let activity = if s.last_activity_description != m.activity_description {
                seq![
                    NoticeView {
                        kind: NoticeKind::ActivityChanged,
                        text: m.activity_description,
                        detail: Some(s.last_activity_description),
                        count,
                    },
                ]
            } else {
                Seq::empty()
            };
            if context_changed(s, m) {
                application + activity
            } else {
                seq![with_text(NoticeKind::ContextStable, m.detected_application)]
            }
        },
    }
}

/// The notice of a change that has not lasted yet.
pub open spec fn hold_notices(s: ActiveTrackingView, m: MatchResultView) -> Seq<NoticeView> {
    if context_changed(s, m) {
        seq![with_count(NoticeKind::AwaitingStability, accounted(s, m))]
    } else {
        Seq::empty()
    }
}

/// The notices of a session that goes on.
pub open spec fn continue_notices(
    s: ActiveTrackingView,
    m: MatchResultView,
    threshold: nat,
) -> Seq<NoticeView> {
    let waiting = hold_notices(s, m);
    if accepted_task(m, threshold) is Some {
        waiting.push(with_text(NoticeKind::TaskContinues, tracking_key(m, threshold)))
    } else {
        waiting.push(bare(NoticeKind::GeneralWorkContinues))
    }
}

/// The notices of a restart: what falls away and what takes its place.
pub open spec fn restart_notices(s: ActiveTrackingView, m: MatchResultView) -> Seq<NoticeView> {
    let head = seq![bare(NoticeKind::Restarting)];
    let apps = if s.last_application != m.detected_application {
        seq![
            with_text(NoticeKind::OldApplication, s.last_application),
            with_text(NoticeKind::NewApplication, m.detected_application),
        ]
    } else {
        Seq::empty()
    };
    let activities = if s.last_activity_description != m.activity_description {
        seq![
            with_text(NoticeKind::OldActivity, s.last_activity_description),
            with_text(NoticeKind::NewActivity, m.activity_description),
        ]
    } else {
        Seq::empty()
    };
    head + apps + activities
}

/// All notices of the stabilization rule on one match.
pub open spec fn logic_notices(
    session: Option<ActiveTrackingView>,
    m: MatchResultView,
    threshold: nat,
) -> Seq<NoticeView> {
    analysis_notices(session, m) + match decide_spec(session, m, threshold) {
        Decision::Continue => continue_notices(session->0, m, threshold),
        Decision::Restart => restart_notices(session->0, m),
        Decision::Hold => hold_notices(session->0, m),
        Decision::Start => Seq::empty(),
    }
}

/// The session record after the stabilization rule has been applied: brought
/// up to date when the session goes on, its counter alone when it is held,
/// and given up for a restart.
pub open spec fn logic_session(
    session: Option<ActiveTrackingView>,
    m: MatchResultView,
    threshold: nat,
) -> Option<ActiveTrackingView> {
    match decide_spec(session, m, threshold) {
        Decision::Continue => Some(continued(session->0, m)),
        Decision::Hold => Some(held(session->0, m)),
        Decision::Restart => None,
        Decision::Start => None,
    }
}

/// What the loop waits for after the stabilization rule has been applied.
pub open spec fn logic_phase(
    session: Option<ActiveTrackingView>,
    m: MatchResultView,
    threshold: nat,
) -> LoopPhaseView {
    match decide_spec(session, m, threshold) {
        Decision::Start => LoopPhaseView::Starting { pending: pending_for(m, threshold, false) },
        Decision::Restart => LoopPhaseView::Stopping { pending: pending_for(m, threshold, true) },
        _ => LoopPhaseView::Waiting,
    }
}

/// What the stabilization rule asks of the host.
pub open spec fn logic_command(
    session: Option<ActiveTrackingView>,
    m: MatchResultView,
    threshold: nat,
    interval_seconds: nat,
) -> LoopCommandView {
    match decide_spec(session, m, threshold) {
        Decision::Start => LoopCommandView::StartSession {
            task_id: accepted_task(m, threshold),
            note: m.activity_description,
        },
        Decision::Restart => LoopCommandView::StopSession { uuid: session->0.uuid },
        _ => LoopCommandView::WaitTick { seconds: interval_seconds },
    }
}

fn pending_start(m: &MatchResult, threshold: u32, restart: bool) -> (p: PendingStart)
    ensures
        p@ == pending_for(m@, threshold as nat, restart),
{
    PendingStart {
        key: derive_tracking_key(m, threshold),
        task_id: derive_task_id(m, threshold),
        application: m.detected_application.clone(),
        activity: m.activity_description.clone(),
        restart,
    }
}

fn emit_analysis(notices: &mut Vec<Notice>, s: &ActiveTracking, m: &MatchResult)
    ensures
        notices_view(final(notices)@) == notices_view(old(notices)@) + analysis_notices(
            Some(s@),
            m@,
        ),
{
    let app_changed = !(s.last_application == m.detected_application);
    let activity_changed = !(s.last_activity_description == m.activity_description);
    let count: u64 = s.unstable_count as u64 + 1;
    if app_changed {
        emit_detailed(
            notices,
            NoticeKind::ApplicationChanged,
            m.detected_application.clone(),
            Some(s.last_application.clone()),
            count,
        );
    }
    if activity_changed {
        emit_detailed(
            notices,
            NoticeKind::ActivityChanged,
            m.activity_description.clone(),
            Some(s.last_activity_description.clone()),
            count,
        );
    }
    if !app_changed && !activity_changed {
        emit(notices, NoticeKind::ContextStable, m.detected_application.clone(), 0);
    }
    assert(notices_view(notices@) =~= notices_view(old(notices)@) + analysis_notices(
        Some(s@),
        m@,
    ));
}

fn emit_restart(notices: &mut Vec<Notice>, s: &ActiveTracking, m: &MatchResult)
    ensures
        notices_view(final(notices)@) == notices_view(old(notices)@) + restart_notices(s@, m@),
{
    emit(notices, NoticeKind::Restarting, String::new(), 0);
    if !(s.last_application == m.detected_application) {
        emit(notices, NoticeKind::OldApplication, s.last_application.clone(), 0);
        emit(notices, NoticeKind::NewApplication, m.detected_application.clone(), 0);
    }
    if !(s.last_activity_description == m.activity_description) {
        emit(notices, NoticeKind::OldActivity, s.last_activity_description.clone(), 0);
        emit(notices, NoticeKind::NewActivity, m.activity_description.clone(), 0);
    }
    assert(notices_view(notices@) =~= notices_view(old(notices)@) + restart_notices(s@, m@));
}

fn emit_hold(notices: &mut Vec<Notice>, s: &ActiveTracking, m: &MatchResult)
    ensures
        notices_view(final(notices)@) == notices_view(old(notices)@) + hold_notices(s@, m@),
{
    let changed = !(s.last_application == m.detected_application) || !(
    s.last_activity_description == m.activity_description);
    if changed {
        emit(notices, NoticeKind::AwaitingStability, String::new(), s.unstable_count as u64 + 1);
    }
    assert(notices_view(notices@) =~= notices_view(old(notices)@) + hold_notices(s@, m@));
}

fn emit_continue(notices: &mut Vec<Notice>, s: &ActiveTracking, m: &MatchResult, threshold: u32)
    ensures
        notices_view(final(notices)@) == notices_view(old(notices)@) + continue_notices(
            s@,
            m@,
            threshold as nat,
        ),
{
    emit_hold(notices, s, m);
    match derive_task_id(m, threshold) {
        Some(id) => emit(notices, NoticeKind::TaskContinues, id, 0),
        None => emit(notices, NoticeKind::GeneralWorkContinues, String::new(), 0),
    }
    assert(notices_view(notices@) =~= notices_view(old(notices)@) + continue_notices(
        s@,
        m@,
        threshold as nat,
    ));
}

impl Tracker {
    /// Applies the stabilization rule to one match result: decides whether
    /// the session starts, goes on, restarts or holds, brings the record up
    /// to date, and appends what there is to report to `notices`. Returns the
    /// work that the host does next.
    pub fn apply_logic(
        &mut self,
        lp: &mut LoopState,
        m: &MatchResult,
        notices: &mut Vec<Notice>,
    ) -> (command: LoopCommand)
        ensures
            final(self)@ == (TrackerView {
                active_tracking: logic_session(
                    old(self)@.active_tracking,
                    m@,
                    old(self)@.threshold,
                ),
                ..old(self)@
            }),
            final(lp)@ == (LoopStateView {
                phase: logic_phase(old(self)@.active_tracking, m@, old(self)@.threshold),
                ..old(lp)@
            }),
            notices_view(final(notices)@) == notices_view(old(notices)@) + logic_notices(
                old(self)@.active_tracking,
                m@,
                old(self)@.threshold,
            ),
            command@ == logic_command(
                old(self)@.active_tracking,
                m@,
                old(self)@.threshold,
                old(lp)@.interval_seconds,
            ),
    {
        let threshold = self.threshold();
        let decision = decide(self.active_tracking(), m, threshold);
        match self.replace_session(None) {
            None => {
                let pending = pending_start(m, threshold, false);
                lp.phase = LoopPhase::Starting { pending };
                assert(notices_view(notices@) =~= notices_view(old(notices)@) + logic_notices(
                    old(self)@.active_tracking,
                    m@,
                    old(self)@.threshold,
                ));
                LoopCommand::StartSession {
                    task_id: derive_task_id(m, threshold),
                    note: m.activity_description.clone(),
                }
            },
            Some(mut s) => {
                let ghost before = s@;
                assert(old(self)@.active_tracking == Some(before));
                emit_analysis(notices, &s, m);
                match decision {
                    Decision::Restart => {
                        emit_restart(notices, &s, m);
                        let pending = pending_start(m, threshold, true);
                        lp.phase = LoopPhase::Stopping { pending };
                        assert(notices_view(notices@) =~= notices_view(old(notices)@)
                            + logic_notices(Some(before), m@, threshold as nat));
                        LoopCommand::StopSession { uuid: s.uuid }
                    },
                    Decision::Continue => {
                        emit_continue(notices, &s, m, threshold);
                        assert(notices_view(notices@) =~= notices_view(old(notices)@)
                            + logic_notices(Some(before), m@, threshold as nat));
                        let changed = !(s.last_application == m.detected_application) || !(
                        s.last_activity_description == m.activity_description);
                        if changed {
                            s.unstable_count = s.unstable_count + 1;
                            s.last_application = m.detected_application.clone();
                            s.last_activity_description = m.activity_description.clone();
                        } else {
                            s.unstable_count = 0;
                        }
                        assert(s@ == continued(before, m@));
                        self.replace_session(Some(s));
                        lp.phase = LoopPhase::Waiting;
                        LoopCommand::WaitTick { seconds: lp.interval_seconds }
                    },
                    _ => {
                        emit_hold(notices, &s, m);
                        assert(notices_view(notices@) =~= notices_view(old(notices)@)
                            + logic_notices(Some(before), m@, threshold as nat));
                        if has_context_changed(&s, m) {
                            s.unstable_count = s.unstable_count + 1;
                        } else {
                            s.unstable_count = 0;
                        }
                        assert(s@ == held(before, m@));
                        self.replace_session(Some(s));
                        lp.phase = LoopPhase::Waiting;
                        LoopCommand::WaitTick { seconds: lp.interval_seconds }
                    },
                }
            },
        }
    }

    /// One tick of the stabilization rule on its own: [`Tracker::apply_logic`]
    /// with the notices it makes.
    pub fn handle_tracking_logic(&mut self, lp: &mut LoopState, m: &MatchResult) -> (step:
        LoopStep)
        ensures
            final(self)@ == (TrackerView {
                active_tracking: logic_session(
                    old(self)@.active_tracking,
                    m@,
                    old(self)@.threshold,
                ),
                ..old(self)@
            }),
            final(lp)@ == (LoopStateView {
                phase: logic_phase(old(self)@.active_tracking, m@, old(self)@.threshold),
                ..old(lp)@
            }),
            step@ == (LoopStepView {
                notices: logic_notices(old(self)@.active_tracking, m@, old(self)@.threshold),
                update: None,
                command: logic_command(
                    old(self)@.active_tracking,
                    m@,
                    old(self)@.threshold,
                    old(lp)@.interval_seconds,
                ),
            }),
    {
        let mut notices: Vec<Notice> = Vec::new();
        let command = self.apply_logic(lp, m, &mut notices);
        assert(notices_view(notices@) =~= logic_notices(
            old(self)@.active_tracking,
            m@,
            old(self)@.threshold,
        ));
        LoopStep { notices, update: None, command }
    }
}

/// The notices that sum up a match: the application, the task's name and
/// the confidence, and the keywords where there are any.
pub open spec fn summary_notices(m: MatchResultView) -> Seq<NoticeView> {
    let head = seq![
        NoticeView {
            kind: NoticeKind::MatchSummary,
            text: m.detected_application,
            detail: m.task_name,
            count: m.confidence,
        },
    ];
    if m.matched_keywords.len() > 0 {
        head.push(
            NoticeView {
                kind: NoticeKind::MatchedKeywords,
                text: join(m.matched_keywords, ", "@),
                detail: None,
                count: m.matched_keywords.len(),
            },
        )
    } else {
        head
    }
}

/// What the display is told of a match.
pub open spec fn update_for(m: MatchResultView) -> TrackingUpdateView {
    TrackingUpdateView {
        application: m.detected_application,
        activity: m.activity_description,
        task: m.task_name,
    }
}

/// The engine after a tick has ended in the match `m`.
pub open spec fn matched_tracker(t: TrackerView, m: MatchResultView) -> TrackerView {
    TrackerView { active_tracking: logic_session(t.active_tracking, m, t.threshold), ..t }
}

/// The loop after a tick has ended in the match `m`.
pub open spec fn matched_state(t: TrackerView, l: LoopStateView, m: MatchResultView) -> LoopStateView {
    LoopStateView { phase: logic_phase(t.active_tracking, m, t.threshold), ..l }
}

/// What the host is handed when a tick has ended in the match `m`: the
/// notices so far, the summary of the match, the notices of the
/// stabilization rule, the update for the display and the work that the rule
/// asks for.
pub open spec fn matched_step(
    t: TrackerView,
    l: LoopStateView,
    m: MatchResultView,
    lead: Seq<NoticeView>,
) -> LoopStepView {
    LoopStepView {
        notices: lead + summary_notices(m) + logic_notices(t.active_tracking, m, t.threshold),
        update: Some(update_for(m)),
        command: logic_command(t.active_tracking, m, t.threshold, l.interval_seconds),
    }
}

impl LoopState {
    /// Ends a tick with the match `m`: sums it up, tells the display, and
    /// applies the stabilization rule.
    pub fn matched(&mut self, tracker: &mut Tracker, m: &MatchResult, lead: Vec<Notice>) -> (step:
        LoopStep)
        ensures
            final(tracker)@ == matched_tracker(old(tracker)@, m@),
            final(self)@ == matched_state(old(tracker)@, old(self)@, m@),
            step@ == matched_step(old(tracker)@, old(self)@, m@, notices_view(lead@)),
            single_session(final(tracker)@, final(self)@),
            old(tracker)@.wf() ==> final(tracker)@.wf(),
    {
        let mut notices = lead;
        emit_detailed(
            &mut notices,
            NoticeKind::MatchSummary,
            m.detected_application.clone(),
            clone_opt(&m.task_name),
            m.confidence as u64,
        );
        if m.matched_keywords.len() > 0 {
            emit(
                &mut notices,
                NoticeKind::MatchedKeywords,
                join_strings(&m.matched_keywords, ", "),
                m.matched_keywords.len() as u64,
            );
        }
        assert(notices_view(notices@) =~= notices_view(lead@) + summary_notices(m@));
        let update = TrackingUpdate {
            application: m.detected_application.clone(),
            activity: m.activity_description.clone(),
            task: clone_opt(&m.task_name),
        };
        let command = tracker.apply_logic(self, m, &mut notices);
        assert(notices_view(notices@) =~= notices_view(lead@) + summary_notices(m@)
            + logic_notices(old(tracker)@.active_tracking, m@, old(tracker)@.threshold));
        LoopStep { notices, update: Some(update), command }
    }
}

/// The stabilization rule keeps the session single and its counter within
/// the hysteresis window: it asks the backend to open a session only when
/// the engine holds none, and to close one only as it gives its record up.
pub proof fn lemma_logic_keeps_single_session(
    t: TrackerView,
    l: LoopStateView,
    m: MatchResultView,
)
    ensures
        single_session(matched_tracker(t, m), matched_state(t, l, m)),
        t.wf() ==> matched_tracker(t, m).wf(),
        logic_command(t.active_tracking, m, t.threshold, l.interval_seconds) is StartSession
            ==> t.active_tracking is None,
        logic_command(t.active_tracking, m, t.threshold, l.interval_seconds) is StopSession
            ==> t.active_tracking is Some && matched_tracker(t, m).active_tracking is None
            && logic_command(
            t.active_tracking,
            m,
            t.threshold,
            l.interval_seconds,
        )->StopSession_uuid == t.active_tracking->0.uuid,
{
}

/// Hysteresis at the backend: the rule calls the backend only to start a
/// session where there is none, or to restart one whose context has changed
/// on two ticks in a row. On a first changed tick it makes no call and keeps
/// the session, with the counter at one.
pub proof fn lemma_first_change_makes_no_call(
    s: ActiveTrackingView,
    m: MatchResultView,
    threshold: nat,
    interval_seconds: nat,
)
    ensures
        logic_command(Some(s), m, threshold, interval_seconds).is_backend_call() <==> (
        context_changed(s, m) && s.unstable_count >= 1),
        s.unstable_count == 0 ==> logic_command(Some(s), m, threshold, interval_seconds) == (
        LoopCommandView::WaitTick { seconds: interval_seconds }) && logic_session(
            Some(s),
            m,
            threshold,
        ) is Some && logic_session(Some(s), m, threshold)->0.uuid == s.uuid,
        s.unstable_count == 0 && context_changed(s, m) ==> logic_session(
            Some(s),
            m,
            threshold,
        )->0.unstable_count == 1,
{
}

/// Two changed ticks in a row restart the session: after a first changed
/// tick, which the session survives, a tick that differs from what the
/// session then has as the last seen closes it, whatever the keys are.
pub proof fn lemma_second_change_restarts(
    s: ActiveTrackingView,
    first: MatchResultView,
    second: MatchResultView,
    threshold: nat,
    interval_seconds: nat,
)
    requires
        s.unstable_count == 0,
        context_changed(s, first),
        context_changed(logic_session(Some(s), first, threshold)->0, second),
    ensures
        logic_session(Some(s), first, threshold) is Some,
        logic_command(
            logic_session(Some(s), first, threshold),
            second,
            threshold,
            interval_seconds,
        ) == (LoopCommandView::StopSession { uuid: s.uuid }),
        logic_session(logic_session(Some(s), first, threshold), second, threshold) is None,
        logic_phase(logic_session(Some(s), first, threshold), second, threshold) == (
        LoopPhaseView::Stopping { pending: pending_for(second, threshold, true) }),
{
}

/// Counter reset: an unchanged context sets the counter of the session to
/// zero, whatever it was and whatever the key of the match, leaves the rest
/// of the record as it is, and makes no call to the backend.
pub proof fn lemma_unchanged_context_resets_counter(
    s: ActiveTrackingView,
    m: MatchResultView,
    threshold: nat,
    interval_seconds: nat,
)
    requires
        !context_changed(s, m),
    ensures
        logic_session(Some(s), m, threshold) == Some(
            ActiveTrackingView { unstable_count: 0, ..s },
        ),
        logic_command(Some(s), m, threshold, interval_seconds) == (LoopCommandView::WaitTick {
            seconds: interval_seconds,
        }),
{
}

/// The session after `n` ticks that all end in the match `m`.
pub open spec fn after_ticks(
    session: Option<ActiveTrackingView>,
    m: MatchResultView,
    threshold: nat,
    n: nat,
) -> Option<ActiveTrackingView>
    decreases n,
{
    if n == 0 {
        session
    } else {
        logic_session(after_ticks(session, m, threshold, (n - 1) as nat), m, threshold)
    }
}

/// Idempotent continue: on a session that saw the context of `m` last, no
/// number of ticks that end in `m` makes a call to the backend, and from the
/// first tick on the record stays the same, with the counter at zero.
pub proof fn lemma_idempotent_continue(
    s: ActiveTrackingView,
    m: MatchResultView,
    threshold: nat,
    interval_seconds: nat,
    n: nat,
)
    requires
        !context_changed(s, m),
    ensures
        n >= 1 ==> after_ticks(Some(s), m, threshold, n) == Some(
            ActiveTrackingView { unstable_count: 0, ..s },
        ),
        logic_command(after_ticks(Some(s), m, threshold, n), m, threshold, interval_seconds) == (
        LoopCommandView::WaitTick { seconds: interval_seconds }),
        logic_phase(after_ticks(Some(s), m, threshold, n), m, threshold) is Waiting,
    decreases n,
{
    if n >= 1 {
        lemma_idempotent_continue(s, m, threshold, interval_seconds, (n - 1) as nat);
    }
}

} // verus!
