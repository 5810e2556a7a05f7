//! Records exchanged with the time-tracking backend.

use vstd::prelude::*;

verus! {

/// A work item of the backend, as the engine keeps it in its cache.
#[derive(Debug, Clone, PartialEq, Eq)]
pub struct FreeloTask {
    pub id: i32,
    pub name: String,
    pub project_id: i32,
    pub project_name: String,
}

/// Mathematical model of a [`FreeloTask`].
pub struct FreeloTaskView {
    pub id: int,
    pub name: Seq<char>,
    pub project_id: int,
    pub project_name: Seq<char>,
}

impl View for FreeloTask {
    type V = FreeloTaskView;

    open spec fn view(&self) -> FreeloTaskView {
        FreeloTaskView {
            id: self.id as int,
            name: self.name@,
            project_id: self.project_id as int,
            project_name: self.project_name@,
        }
    }
}

/// Model of a list of work items.
pub open spec fn tasks_view(tasks: Seq<FreeloTask>) -> Seq<FreeloTaskView> {
    tasks.map_values(|t: FreeloTask| t@)
}

/// The one billing session that the engine holds open at the backend.
#[derive(Debug, Clone, PartialEq, Eq)]
pub struct ActiveTracking {
    /// Tracking key: a work item's identifier, or the general-work sentinel.
    pub task_id: String,
    /// Handle that the backend gave to the session.
    pub uuid: String,
    /// Seconds since the Unix epoch at which the session was opened.
    pub start_time: u64,
    pub last_context: String,
    pub last_application: String,
    pub last_activity_description: String,
    /// Consecutive ticks on which the context differed from the one before.
    pub unstable_count: u32,
}

/// Mathematical model of an [`ActiveTracking`].
pub struct ActiveTrackingView {
    pub task_id: Seq<char>,
    pub uuid: Seq<char>,
    pub start_time: nat,
    pub last_context: Seq<char>,
    pub last_application: Seq<char>,
    pub last_activity_description: Seq<char>,
    pub unstable_count: nat,
}

impl View for ActiveTracking {
    type V = ActiveTrackingView;

    open spec fn view(&self) -> ActiveTrackingView {
        ActiveTrackingView {
            task_id: self.task_id@,
            uuid: self.uuid@,
            start_time: self.start_time as nat,
            last_context: self.last_context@,
            last_application: self.last_application@,
            last_activity_description: self.last_activity_description@,
            unstable_count: self.unstable_count as nat,
        }
    }
}

/// Number of consecutive changed ticks at which a restart falls due.
pub const RESTART_AFTER: u32 = 2;

impl ActiveTracking {
    /// The instability counter stays within the hysteresis window.
    pub open spec fn wf(&self) -> bool {
        self.unstable_count <= RESTART_AFTER
    }

    /// Opens the record of a session that the backend has just started.
    pub fn fresh(task_id: String, uuid: String, start_time: u64, application: &String, activity: &String) -> (s: ActiveTracking)
        ensures
            s.wf(),
            s@ == (ActiveTrackingView {
                task_id: task_id@,
                uuid: uuid@,
                start_time: start_time as nat,
                last_context: application@,
                last_application: application@,
                last_activity_description: activity@,
                unstable_count: 0,
            }),
    {
        ActiveTracking {
            task_id,
            uuid,
            start_time,
            last_context: application.clone(),
            last_application: application.clone(),
            last_activity_description: activity.clone(),
            unstable_count: 0,
        }
    }
}

} // verus!
