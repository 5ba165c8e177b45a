//! The life of a progress task: running until it finishes or fails, once;
//! a task given up while still running is shown as failed and cancelled.
use vstd::prelude::*;
use vstd::string::StringExecFns;

verus! {

broadcast use vstd::string::group_string_axioms;

/// Where a task stands.
#[derive(Clone, Copy, PartialEq, Eq, Structural, Debug)]
pub enum TaskState {
    Running,
    Finished,
    Failed,
}

/// The state after a request to finish: only a running task moves.
pub open spec fn after_finish(s: TaskState) -> TaskState {
    if s is Running {
        TaskState::Finished
    } else {
        s
    }
}

/// The state after a request to fail: only a running task moves.
pub open spec fn after_fail(s: TaskState) -> TaskState {
    if s is Running {
        TaskState::Failed
    } else {
        s
    }
}

/// The message shown for a task given up while running.
pub open spec fn cancelled_text(label: Seq<char>) -> Seq<char> {
    label + " (cancelled)"@
}

/// What a task shows when it is given up: the cancellation message if it
/// was still running, nothing otherwise.
pub open spec fn on_release(label: Seq<char>, s: TaskState) -> Option<Seq<char>> {
    if s is Running {
        Some(cancelled_text(label))
    } else {
        None
    }
}

/// The label and state of one task.
pub struct TaskRecord {
    label: String,
    state: TaskState,
}

impl TaskRecord {
    pub closed spec fn label_spec(&self) -> Seq<char> {
        self.label@
    }

    pub closed spec fn state_spec(&self) -> TaskState {
        self.state
    }

    /// A running task labelled `label`.
    pub fn start(label: String) -> (r: TaskRecord)
        ensures
            r.label_spec() == label@,
            r.state_spec() == TaskState::Running,
    {
        TaskRecord { label, state: TaskState::Running }
    }

    pub fn label(&self) -> (r: &str)
        ensures
            r@ == self.label_spec(),
    {
        self.label.as_str()
    }

    pub fn state(&self) -> (r: TaskState)
        ensures
            r == self.state_spec(),
    {
        self.state
    }

    /// Marks the task finished, if it is still running.
    pub fn finish(&mut self)
        ensures
            final(self).state_spec() == after_finish(old(self).state_spec()),
            final(self).label_spec() == old(self).label_spec(),
    {
        if self.state == TaskState::Running {
            self.state = TaskState::Finished;
        }
    }

    /// Marks the task failed, if it is still running.
    pub fn fail(&mut self)
        ensures
            final(self).state_spec() == after_fail(old(self).state_spec()),
            final(self).label_spec() == old(self).label_spec(),
    {
        if self.state == TaskState::Running {
            self.state = TaskState::Failed;
        }
    }

    /// The message to show when the task is given up: the label tagged as
    /// cancelled while it is still running, nothing once it has ended.
    pub fn on_release(&self) -> (r: Option<String>)
        ensures
            (match r {
                Some(s) => Some(s@),
                None => None,
            }) == on_release(self.label_spec(), self.state_spec()),
    {
        if self.state == TaskState::Running {
            let mut s = self.label.clone();
            s.append(" (cancelled)");
            Some(s)
        } else {
            None
        }
    }
}

/// A task given up while running shows as cancelled; once it has finished
/// or failed it shows nothing more, and its first ending is its only one.
pub proof fn lemma_task_lifecycle(label: Seq<char>, s: TaskState)
    ensures
        on_release(label, TaskState::Running) == Some(label + " (cancelled)"@),
        on_release(label, after_finish(s)) is None,
        on_release(label, after_fail(s)) is None,
        after_fail(after_finish(s)) == after_finish(s),
        after_finish(after_fail(s)) == after_fail(s),
        after_finish(TaskState::Running) == TaskState::Finished,
        after_fail(TaskState::Running) == TaskState::Failed,
{
}

} // verus!
