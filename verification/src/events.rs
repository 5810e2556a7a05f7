//! What the engine tells its host: notices for the event sink, updates for
//! the display, and the next piece of outside work.

use vstd::prelude::*;
use crate::text::opt_view;

verus! {

/// Severity of a notice.
#[derive(Debug, Clone, Copy, PartialEq, Eq, Structural)]
pub enum LogLevel {
    Info,
    Success,
    Warning,
    Error,
}

/// What a notice reports.
#[derive(Debug, Clone, Copy, PartialEq, Eq, Structural)]
pub enum NoticeKind {
    /// The loop was started without a configuration.
    ConfigMissing,
    /// The item list is being fetched.
    LoadingTasks,
    /// The item list has arrived; `count` items.
    TasksLoaded,
    /// The item list could not be fetched; `text` is the error.
    TasksLoadFailed,
    /// The loop runs; `count` is the interval in seconds.
    LoopStarted,
    /// The loop saw the run flag down and ended.
    LoopEnded,
    /// A sample of the screen is being taken.
    Capturing,
    /// The sample could not be taken; `text` is the error.
    CaptureFailed,
    /// The sample is being read.
    ReadingText,
    /// The sample could not be read; `text` is the error.
    ReadingFailed,
    /// The sample was read; `count` bytes of text.
    TextRead,
    /// The classifier is being asked.
    AskingClassifier,
    /// The classifier answered; `count` is its confidence, `text` the activity.
    ClassifierAnswered,
    /// The classifier failed; `text` is the error.
    ClassifierFailed,
    /// The keyword matcher takes over from the failed classifier.
    FallbackMatching,
    /// The keyword matcher is used.
    KeywordMatching,
    /// The match: `text` is the application, `detail` the name of the task if
    /// one was matched, `count` the confidence.
    MatchSummary,
    /// Keywords were found; `text` lists them, `count` is their number.
    MatchedKeywords,
    /// The application differs from the last seen; `text` is the new one,
    /// `detail` the old one, `count` the changed ticks in a row.
    ApplicationChanged,
    /// The activity differs from the last seen; `text` is the new one,
    /// `detail` the old one, `count` the changed ticks in a row.
    ActivityChanged,
    /// Nothing differs; `text` is the application.
    ContextStable,
    /// The session goes on although the context moved; `count` changed ticks.
    AwaitingStability,
    /// The session of item `text` goes on.
    TaskContinues,
    /// The general-work session goes on.
    GeneralWorkContinues,
    /// The context has changed for good; the session is restarted.
    Restarting,
    /// Application that the closed session saw last.
    OldApplication,
    /// Application that the new session starts with.
    NewApplication,
    /// Activity that the closed session saw last.
    OldActivity,
    /// Activity that the new session starts with.
    NewActivity,
    /// The backend did not close the session; `text` is the error.
    StopFailed,
    /// The backend did not open a session; `text` is the error.
    StartFailed,
    /// A session was opened after a restart; `text` is its handle.
    RestartedSession,
    /// A session was opened for an item; `text` is its handle, `detail` the
    /// item's key.
    TaskStarted,
    /// A general-work session was opened; `text` is its handle.
    GeneralWorkStarted,
    /// The backend closed the session at shutdown.
    SessionClosed,
    /// The backend did not close the session at shutdown; `text` is the
    /// error.
    CloseFailed,
}

/// The severity with which each kind of notice is reported.
pub open spec fn level_of(kind: NoticeKind) -> LogLevel {
    match kind {
        NoticeKind::ConfigMissing
        | NoticeKind::TasksLoadFailed
        | NoticeKind::CaptureFailed
        | NoticeKind::ReadingFailed
        | NoticeKind::StopFailed
        | NoticeKind::StartFailed
        | NoticeKind::CloseFailed => LogLevel::Error,
        NoticeKind::ClassifierFailed | NoticeKind::AwaitingStability => LogLevel::Warning,
        NoticeKind::TasksLoaded
        | NoticeKind::TaskContinues
        | NoticeKind::GeneralWorkContinues
        | NoticeKind::RestartedSession
        | NoticeKind::TaskStarted
        | NoticeKind::GeneralWorkStarted
        | NoticeKind::SessionClosed => LogLevel::Success,
        _ => LogLevel::Info,
    }
}

impl NoticeKind {
    /// The severity of this kind of notice.
    pub fn level(&self) -> (l: LogLevel)
        ensures
            l == level_of(*self),
    {
        match self {
            NoticeKind::ConfigMissing
            | NoticeKind::TasksLoadFailed
            | NoticeKind::CaptureFailed
            | NoticeKind::ReadingFailed
            | NoticeKind::StopFailed
            | NoticeKind::StartFailed
            | NoticeKind::CloseFailed => LogLevel::Error,
            NoticeKind::ClassifierFailed | NoticeKind::AwaitingStability => LogLevel::Warning,
            NoticeKind::TasksLoaded
            | NoticeKind::TaskContinues
            | NoticeKind::GeneralWorkContinues
            | NoticeKind::RestartedSession
            | NoticeKind::TaskStarted
            | NoticeKind::GeneralWorkStarted
            | NoticeKind::SessionClosed => LogLevel::Success,
            _ => LogLevel::Info,
        }
    }
}

/// One notification for the event sink. What `text`, `detail` and `count`
/// hold is said at each [`NoticeKind`]; where nothing is said the text is
/// empty, the detail absent and the count zero.
#[derive(Debug, Clone, PartialEq, Eq)]
pub struct Notice {
    pub kind: NoticeKind,
    pub text: String,
    pub detail: Option<String>,
    pub count: u64,
}

/// Mathematical model of a [`Notice`].
pub struct NoticeView {
    pub kind: NoticeKind,
    pub text: Seq<char>,
    pub detail: Option<Seq<char>>,
    pub count: nat,
}

impl View for Notice {
    type V = NoticeView;

    open spec fn view(&self) -> NoticeView {
        NoticeView {
            kind: self.kind,
            text: self.text@,
            detail: opt_view(self.detail),
            count: self.count as nat,
        }
    }
}

/// A notice that carries neither text nor number.
pub open spec fn bare(kind: NoticeKind) -> NoticeView {
    NoticeView { kind, text: Seq::empty(), detail: None, count: 0 }
}

/// A notice that carries text.
pub open spec fn with_text(kind: NoticeKind, text: Seq<char>) -> NoticeView {
    NoticeView { kind, text, detail: None, count: 0 }
}

/// A notice that carries a number.
pub open spec fn with_count(kind: NoticeKind, count: nat) -> NoticeView {
    NoticeView { kind, text: Seq::empty(), detail: None, count }
}

/// Model of a list of notices.
pub open spec fn notices_view(v: Seq<Notice>) -> Seq<NoticeView> {
    v.map_values(|n: Notice| n@)
}

/// Appends a notice without detail to a list.
pub fn emit(notices: &mut Vec<Notice>, kind: NoticeKind, text: String, count: u64)
    ensures
        notices_view(final(notices)@) == notices_view(old(notices)@).push(
            NoticeView { kind, text: text@, detail: None, count: count as nat },
        ),
{
    emit_detailed(notices, kind, text, None, count);
}

/// Appends a notice to a list.
pub fn emit_detailed(
    notices: &mut Vec<Notice>,
    kind: NoticeKind,
    text: String,
    detail: Option<String>,
    count: u64,
)
    ensures
        notices_view(final(notices)@) == notices_view(old(notices)@).push(
            NoticeView { kind, text: text@, detail: opt_view(detail), count: count as nat },
        ),
{
    let n = Notice { kind, text, detail, count };
    notices.push(n);
    assert(notices_view(notices@) =~= notices_view(old(notices)@).push(n@));
}

/// What the display is told after a match.
#[derive(Debug, Clone, PartialEq, Eq)]
pub struct TrackingUpdate {
    pub application: String,
    pub activity: String,
    pub task: Option<String>,
}

/// Mathematical model of a [`TrackingUpdate`].
pub struct TrackingUpdateView {
    pub application: Seq<char>,
    pub activity: Seq<char>,
    pub task: Option<Seq<char>>,
}

impl View for TrackingUpdate {
    type V = TrackingUpdateView;

    open spec fn view(&self) -> TrackingUpdateView {
        TrackingUpdateView {
            application: self.application@,
            activity: self.activity@,
            task: opt_view(self.task),
        }
    }
}

/// The outside work that the host does next for the loop.
#[derive(Debug, Clone, PartialEq, Eq)]
pub enum LoopCommand {
    /// End the loop.
    Exit,
    /// Nothing new: go on with the work that is outstanding.
    Pending,
    /// Fetch the item list with these credentials.
    FetchTasks { email: String, api_key: String },
    /// Wait for the next tick of a timer with this period.
    WaitTick { seconds: u64 },
    /// Take a sample of the screen.
    Capture,
    /// Read the text of the sample.
    ExtractText { screenshot: String },
    /// Put this question to the classifier.
    AskClassifier { prompt: String, api_key: String },
    /// Close this session at the backend.
    StopSession { uuid: String },
    /// Open a session at the backend.
    StartSession { task_id: Option<String>, note: String },
}

/// Mathematical model of a [`LoopCommand`].
pub enum LoopCommandView {
    Exit,
    Pending,
    FetchTasks { email: Seq<char>, api_key: Seq<char> },
    WaitTick { seconds: nat },
    Capture,
    ExtractText { screenshot: Seq<char> },
    AskClassifier { prompt: Seq<char>, api_key: Seq<char> },
    StopSession { uuid: Seq<char> },
    StartSession { task_id: Option<Seq<char>>, note: Seq<char> },
}

impl View for LoopCommand {
    type V = LoopCommandView;

    open spec fn view(&self) -> LoopCommandView {
        match *self {
            LoopCommand::Exit => LoopCommandView::Exit,
            LoopCommand::Pending => LoopCommandView::Pending,
            LoopCommand::FetchTasks { email, api_key } => LoopCommandView::FetchTasks {
                email: email@,
                api_key: api_key@,
            },
            LoopCommand::WaitTick { seconds } => LoopCommandView::WaitTick {
                seconds: seconds as nat,
            },
            LoopCommand::Capture => LoopCommandView::Capture,
            LoopCommand::ExtractText { screenshot } => LoopCommandView::ExtractText {
                screenshot: screenshot@,
            },
            LoopCommand::AskClassifier { prompt, api_key } => LoopCommandView::AskClassifier {
                prompt: prompt@,
                api_key: api_key@,
            },
            LoopCommand::StopSession { uuid } => LoopCommandView::StopSession { uuid: uuid@ },
            LoopCommand::StartSession { task_id, note } => LoopCommandView::StartSession {
                task_id: opt_view(task_id),
                note: note@,
            },
        }
    }
}

impl LoopCommandView {
    /// Whether the command is a call to the backend's session interface.
    pub open spec fn is_backend_call(self) -> bool {
        self is StopSession || self is StartSession
    }
}

/// What one step of the loop hands to the host.
#[derive(Debug, Clone, PartialEq, Eq)]
pub struct LoopStep {
    pub notices: Vec<Notice>,
    pub update: Option<TrackingUpdate>,
    pub command: LoopCommand,
}

/// Mathematical model of a [`LoopStep`].
pub struct LoopStepView {
    pub notices: Seq<NoticeView>,
    pub update: Option<TrackingUpdateView>,
    pub command: LoopCommandView,
}

impl View for LoopStep {
    type V = LoopStepView;

    open spec fn view(&self) -> LoopStepView {
        LoopStepView {
            notices: notices_view(self.notices@),
            update: match self.update {
                Some(u) => Some(u@),
                None => None,
            },
            command: self.command@,
        }
    }
}

} // verus!
