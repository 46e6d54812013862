//! Work on a container that is done outside, and what its failures mean.

use crate::docker::network::{PortAllocation, PortAllocationView};
use crate::models::{
    ContainerTracker, ContainerTrackerView, ResourceLimits, ResourceLimitsView,
};
use crate::state_manager::{ContainerState, ContainerStateView};
use crate::text::cat2;
use vstd::prelude::*;

verus! {

/// One piece of work on the container of an operation.
#[derive(Debug, Clone)]
pub enum Action {
    /// Locks the container for the reason given.
    Lock(String),
    /// Unlocks the container.
    Unlock,
    /// Begins to remember the container.
    AddState(ContainerState),
    /// Sets the state that the daemon remembers.
    SetState(String),
    /// Sets the container of the engine that the daemon remembers.
    SetContainerId(String),
    /// Sets the startup command that the daemon remembers.
    SetStartupCommand(String),
    /// Sets the limits that the daemon remembers.
    SetLimits(ResourceLimits),
    /// Writes the record of the container.
    SaveTracker(ContainerTracker),
    /// Writes the ports into the record of the container.
    TrackPorts(Vec<PortAllocation>),
    /// Writes the startup command into the record of the container.
    TrackStartupCommand(Vec<String>),
    /// Writes the status into the record of the container.
    TrackStatus(String),
    /// Remembers that the container is suspended, for the reason given.
    Suspend(String),
    /// Remembers that the container is not suspended any more.
    Unsuspend,
    /// Counts what the container uses no longer.
    DisableBilling,
    /// Counts what the container uses again.
    EnableBilling,
    /// Gives all ports of a container of the engine back.
    ReleaseContainerPorts(String),
    /// Forgets the container with a UUID.
    RemoveState(String),
    /// Deletes the record of the container with a UUID.
    RemoveTracker(String),
    /// Tells the panel how far the operation has come, under the name that it gave to it.
    Report { status: String, message: String },
    /// Tells the panel how far an installation has come.
    Notify { status: String, message: Option<String> },
    /// Tells the panel the state of the container.
    NotifyState(String),
    /// Stops a container of the engine.
    Stop(String),
    /// Starts a container of the engine.
    Start(String),
    /// Removes a container of the engine.
    Remove(String),
    /// Removes a container of the engine, even one that runs.
    RemoveForced(String),
    /// Fetches an image that the engine does not have.
    Pull(String),
    /// Waits that many milliseconds.
    Pause(u64),
    /// Gives a port of the host back.
    ReleasePort(u16),
    /// Makes a directory and those above it.
    MakeDirectory(String),
    /// Writes a file.
    WriteFile { path: String, content: String },
    /// Lets everybody run a file.
    MakeExecutable(String),
    /// Sets how the server in a container of the engine starts and stops.
    SetRuntime { container_id: String, start_up: String, stop: String },
}

/// What a [`Action`] holds.
#[verifier::ext_equal]
pub enum ActionView {
    Lock(Seq<char>),
    Unlock,
    AddState(ContainerStateView),
    SetState(Seq<char>),
    SetContainerId(Seq<char>),
    SetStartupCommand(Seq<char>),
    SetLimits(ResourceLimitsView),
    SaveTracker(ContainerTrackerView),
    TrackPorts(Seq<PortAllocationView>),
    TrackStartupCommand(Seq<Seq<char>>),
    TrackStatus(Seq<char>),
    Suspend(Seq<char>),
    Unsuspend,
    DisableBilling,
    EnableBilling,
    ReleaseContainerPorts(Seq<char>),
    RemoveState(Seq<char>),
    RemoveTracker(Seq<char>),
    Report { status: Seq<char>, message: Seq<char> },
    Notify { status: Seq<char>, message: Option<Seq<char>> },
    NotifyState(Seq<char>),
    Stop(Seq<char>),
    Start(Seq<char>),
    Remove(Seq<char>),
    RemoveForced(Seq<char>),
    Pull(Seq<char>),
    Pause(u64),
    ReleasePort(u16),
    MakeDirectory(Seq<char>),
    WriteFile { path: Seq<char>, content: Seq<char> },
    MakeExecutable(Seq<char>),
    SetRuntime { container_id: Seq<char>, start_up: Seq<char>, stop: Seq<char> },
}

impl DeepView for Action {
    type V = ActionView;

    open spec fn deep_view(&self) -> ActionView {
        match self {
            Action::Lock(a) => ActionView::Lock(a@),
            Action::Unlock => ActionView::Unlock,
            Action::AddState(a) => ActionView::AddState(a.deep_view()),
            Action::SetState(a) => ActionView::SetState(a@),
            Action::SetContainerId(a) => ActionView::SetContainerId(a@),
            Action::SetStartupCommand(a) => ActionView::SetStartupCommand(a@),
            Action::SetLimits(a) => ActionView::SetLimits(a.deep_view()),
            Action::SaveTracker(a) => ActionView::SaveTracker(a.deep_view()),
            Action::TrackPorts(a) => ActionView::TrackPorts(a.deep_view()),
            Action::TrackStartupCommand(a) => ActionView::TrackStartupCommand(a.deep_view()),
            Action::TrackStatus(a) => ActionView::TrackStatus(a@),
            Action::Suspend(a) => ActionView::Suspend(a@),
            Action::Unsuspend => ActionView::Unsuspend,
            Action::DisableBilling => ActionView::DisableBilling,
            Action::EnableBilling => ActionView::EnableBilling,
            Action::ReleaseContainerPorts(a) => ActionView::ReleaseContainerPorts(a@),
            Action::RemoveState(a) => ActionView::RemoveState(a@),
            Action::RemoveTracker(a) => ActionView::RemoveTracker(a@),
            Action::Report { status, message } => ActionView::Report {
                status: status@,
                message: message@,
            },
            Action::Notify { status, message } => ActionView::Notify {
                status: status@,
                message: message.deep_view(),
            },
            Action::NotifyState(a) => ActionView::NotifyState(a@),
            Action::Stop(a) => ActionView::Stop(a@),
            Action::Start(a) => ActionView::Start(a@),
            Action::Remove(a) => ActionView::Remove(a@),
            Action::RemoveForced(a) => ActionView::RemoveForced(a@),
            Action::Pull(a) => ActionView::Pull(a@),
            Action::Pause(a) => ActionView::Pause(*a),
            Action::ReleasePort(a) => ActionView::ReleasePort(*a),
            Action::MakeDirectory(a) => ActionView::MakeDirectory(a@),
            Action::WriteFile { path, content } => ActionView::WriteFile {
                path: path@,
                content: content@,
            },
            Action::MakeExecutable(a) => ActionView::MakeExecutable(a@),
            Action::SetRuntime { container_id, start_up, stop } => ActionView::SetRuntime {
                container_id: container_id@,
                start_up: start_up@,
                stop: stop@,
            },
        }
    }
}

/// An action, and what its failure means: with a text, the operation ends there, and its error
/// is that text with the reason behind it; without one, what follows is done all the same.
#[derive(Debug, Clone)]
pub struct Task {
    pub action: Action,
    pub failure: Option<String>,
    /// Whether the container is unlocked where the failure ends the operation.
    pub unlocks: bool,
}

/// What a [`Task`] holds.
#[verifier::ext_equal]
pub struct TaskView {
    pub action: ActionView,
    pub failure: Option<Seq<char>>,
    pub unlocks: bool,
}

impl DeepView for Task {
    type V = TaskView;

    open spec fn deep_view(&self) -> TaskView {
        TaskView {
            action: self.action.deep_view(),
            failure: self.failure.deep_view(),
            unlocks: self.unlocks,
        }
    }
}

/// A task whose failure does not matter.
pub open spec fn attempt(action: ActionView) -> TaskView {
    TaskView { action, failure: None, unlocks: false }
}

/// A task whose failure ends the operation.
pub open spec fn demand(action: ActionView, failure: Seq<char>) -> TaskView {
    TaskView { action, failure: Some(failure), unlocks: false }
}

/// A task whose failure ends the operation, under a lock that is given back then.
pub open spec fn insist(action: ActionView, failure: Seq<char>) -> TaskView {
    TaskView { action, failure: Some(failure), unlocks: true }
}

/// What is still done where the failure of a task ends the operation.
pub open spec fn aftermath(task: TaskView) -> Seq<TaskView> {
    if task.unlocks {
        seq![attempt(ActionView::Unlock)]
    } else {
        Seq::empty()
    }
}

impl Task {
    /// A task whose failure does not matter.
    pub fn attempt(action: Action) -> (r: Self)
        ensures
            r.deep_view() == attempt(action.deep_view()),
    {
        Task { action, failure: None, unlocks: false }
    }

    /// A task whose failure ends the operation, with `failure` before the reason.
    pub fn demand(action: Action, failure: &str) -> (r: Self)
        ensures
            r.deep_view() == demand(action.deep_view(), failure@),
    {
        Task { action, failure: Some(failure.to_string()), unlocks: false }
    }

    /// A task whose failure ends the operation, with `failure` before the reason. The container,
    /// which is locked, is unlocked then.
    pub fn insist(action: Action, failure: &str) -> (r: Self)
        ensures
            r.deep_view() == insist(action.deep_view(), failure@),
    {
        Task { action, failure: Some(failure.to_string()), unlocks: true }
    }

    /// What is still done where the failure of the task ends the operation.
    pub fn aftermath(&self) -> (r: Vec<Task>)
        ensures
            r.deep_view() == aftermath(self.deep_view()),
    {
        let mut r: Vec<Task> = Vec::new();
        if self.unlocks {
            r.push(Task::attempt(Action::Unlock));
        }
        assert(r.deep_view() =~= aftermath(self.deep_view()));
        r
    }

    /// Whether the operation goes on after the task, or the error with which it ends.
    pub fn after(&self, result: &Result<(), String>) -> (r: Result<(), String>)
        ensures
            match r {
                Ok(_) => result is Ok || self.failure is None,
                Err(e) => result is Err && self.failure is Some && e@ == self.failure->0@
                    + result->Err_0@,
            },
    {
        match result {
            Ok(_) => Ok(()),
            Err(reason) => match &self.failure {
                Some(failure) => Err(cat2(failure.as_str(), reason.as_str())),
                None => Ok(()),
            },
        }
    }
}

/// What a result holds.
pub open spec fn result_view<T: DeepView>(result: Result<T, String>) -> Result<T::V, Seq<char>> {
    match result {
        Ok(t) => Ok(t.deep_view()),
        Err(e) => Err(e@),
    }
}

/// The last tasks of an operation and its result.
#[derive(Debug)]
pub struct Ending<T> {
    pub tasks: Vec<Task>,
    pub result: Result<T, String>,
}

/// What an [`Ending`] holds.
#[verifier::ext_equal]
pub struct EndingView<T> {
    pub tasks: Seq<TaskView>,
    pub result: Result<T, Seq<char>>,
}

impl<T: DeepView> DeepView for Ending<T> {
    type V = EndingView<T::V>;

    open spec fn deep_view(&self) -> EndingView<T::V> {
        EndingView {
            tasks: self.tasks.deep_view(),
            result: result_view(self.result),
        }
    }
}

/// What comes next in an operation: tasks and then a question whose answer `S` waits for, or
/// the end.
#[derive(Debug)]
pub enum Next<S, T> {
    Go(Vec<Task>, S),
    End(Ending<T>),
}

/// What a [`Next`] holds.
#[verifier::ext_equal]
pub enum NextView<S, T> {
    Go(Seq<TaskView>, S),
    End(EndingView<T>),
}

impl<S: DeepView, T: DeepView> DeepView for Next<S, T> {
    type V = NextView<S::V, T::V>;

    open spec fn deep_view(&self) -> NextView<S::V, T::V> {
        match self {
            Next::Go(tasks, then) => NextView::Go(tasks.deep_view(), then.deep_view()),
            Next::End(ending) => NextView::End(ending.deep_view()),
        }
    }
}

/// What comes next in work that goes on unseen: tasks and then a question whose answer `S` waits
/// for, or the last tasks.
#[derive(Debug)]
pub enum Step<S> {
    Go(Vec<Task>, S),
    Over(Vec<Task>),
}

/// What a [`Step`] holds.
#[verifier::ext_equal]
pub enum StepView<S> {
    Go(Seq<TaskView>, S),
    Over(Seq<TaskView>),
}

impl<S: DeepView> DeepView for Step<S> {
    type V = StepView<S::V>;

    open spec fn deep_view(&self) -> StepView<S::V> {
        match self {
            Step::Go(tasks, then) => StepView::Go(tasks.deep_view(), then.deep_view()),
            Step::Over(tasks) => StepView::Over(tasks.deep_view()),
        }
    }
}

/// The end of an operation that fails and leaves nothing to do.
pub open spec fn refused<T>(error: Seq<char>) -> EndingView<T> {
    EndingView { tasks: Seq::empty(), result: Err(error) }
}

/// The end of an operation that fails and leaves nothing to do.
pub fn refuse<T: DeepView>(error: String) -> (r: Ending<T>)
    ensures
        r.deep_view() == refused::<T::V>(error@),
{
    let tasks: Vec<Task> = Vec::new();
    assert(tasks.deep_view() =~= Seq::<TaskView>::empty());
    Ending { tasks, result: Err(error) }
}

/// The end of an operation under a lock that fails: the lock is given back.
pub open spec fn released<T>(error: Seq<char>) -> EndingView<T> {
    EndingView { tasks: seq![attempt(ActionView::Unlock)], result: Err(error) }
}

/// The end of an operation under a lock that fails: the lock is given back.
pub fn release<T: DeepView>(error: String) -> (r: Ending<T>)
    ensures
        r.deep_view() == released::<T::V>(error@),
{
    let mut tasks: Vec<Task> = Vec::new();
    tasks.push(Task::attempt(Action::Unlock));
    assert(tasks.deep_view() =~= seq![attempt(ActionView::Unlock)]);
    Ending { tasks, result: Err(error) }
}

/// Whether tasks hold an action.
pub open spec fn has_action(tasks: Seq<TaskView>, action: ActionView) -> bool {
    exists|i: int| 0 <= i < tasks.len() && (#[trigger] tasks[i]).action == action
}

/// What the tasks come to, given what came of each: the error with which the operation ends at
/// the first failure that matters, if there is one.
pub open spec fn tasks_failure(tasks: Seq<TaskView>, results: Seq<Result<(), Seq<char>>>) -> Option<
    Seq<char>,
>
    decreases tasks.len(),
{
    if tasks.len() == 0 {
        None
    } else if results[0] is Err && tasks[0].failure is Some {
        Some(tasks[0].failure->0 + results[0]->Err_0)
    } else {
        tasks_failure(tasks.drop_first(), results.drop_first())
    }
}

/// Tasks whose failures do not matter never end an operation.
pub proof fn law_attempts_never_end(tasks: Seq<TaskView>, results: Seq<Result<(), Seq<char>>>)
    requires
        forall|i: int| 0 <= i < tasks.len() ==> (#[trigger] tasks[i]).failure is None,
    ensures
        tasks_failure(tasks, results) is None,
    decreases tasks.len(),
{
    if tasks.len() > 0 {
        assert(tasks[0].failure is None);
        law_attempts_never_end(tasks.drop_first(), results.drop_first());
    }
}

/// Whether the container is left locked by tasks, given what came of each and whether it was
/// locked before. What is done after a failure that ends the operation counts.
pub open spec fn left_locked(
    tasks: Seq<TaskView>,
    results: Seq<Result<(), Seq<char>>>,
    locked: bool,
) -> bool
    decreases tasks.len(),
{
    if tasks.len() == 0 {
        locked
    } else if results[0] is Err && tasks[0].failure is Some {
        locked && !tasks[0].unlocks
    } else {
        left_locked(
            tasks.drop_first(),
            results.drop_first(),
            match tasks[0].action {
                ActionView::Lock(_) => locked || results[0] is Ok,
                ActionView::Unlock => false,
                _ => locked,
            },
        )
    }
}

/// Whether a task may stand between the lock and its release: it touches neither, and gives the
/// lock back where its failure ends the operation.
pub open spec fn keeps_lock(task: TaskView) -> bool {
    &&& !(task.action is Lock)
    &&& !(task.action is Unlock)
    &&& task.failure is Some ==> task.unlocks
}

/// Whether a task may follow the release of the lock: it does not lock again, and cannot end the
/// operation.
pub open spec fn follows_release(task: TaskView) -> bool {
    &&& !(task.action is Lock)
    &&& task.failure is None
}

/// Whether every task may stand between the lock and its release.
pub open spec fn all_keep_lock(tasks: Seq<TaskView>) -> bool {
    forall|i: int| 0 <= i < tasks.len() ==> keeps_lock(#[trigger] tasks[i])
}

/// Whether tasks begin with a lock, without which nothing else is done, hold it from then on, and
/// give it back with the task at a position.
pub open spec fn is_guarded(tasks: Seq<TaskView>, end: int) -> bool {
    &&& 0 < end < tasks.len()
    &&& tasks[0].action is Lock
    &&& tasks[0].failure is Some
    &&& forall|i: int| 0 < i < end ==> keeps_lock(#[trigger] tasks[i])
    &&& tasks[end] == attempt(ActionView::Unlock)
    &&& forall|i: int| end < i < tasks.len() ==> follows_release(#[trigger] tasks[i])
}

/// Tasks that begin with a lock, hold it and give it back are guarded.
pub proof fn lemma_guarded(lock: TaskView, body: Seq<TaskView>, last: Seq<TaskView>, end: int)
    requires
        lock.action is Lock,
        lock.failure is Some,
        all_keep_lock(body),
        0 <= end < last.len(),
        forall|i: int| 0 <= i < end ==> keeps_lock(#[trigger] last[i]),
        last[end] == attempt(ActionView::Unlock),
        forall|i: int| end < i < last.len() ==> follows_release(#[trigger] last[i]),
    ensures
        is_guarded(seq![lock] + body + last, 1 + body.len() + end),
{
    let tasks = seq![lock] + body + last;
    let n = 1 + body.len();
    assert forall|i: int| 0 < i < n + end implies keeps_lock(#[trigger] tasks[i]) by {
        if i < n {
            assert(tasks[i] == body[i - 1]);
        } else {
            assert(tasks[i] == last[i - n]);
        }
    }
    assert forall|i: int| n + end < i < tasks.len() implies follows_release(
        #[trigger] tasks[i],
    ) by {
        assert(tasks[i] == last[i - n]);
    }
}

proof fn lemma_stays_unlocked(tasks: Seq<TaskView>, results: Seq<Result<(), Seq<char>>>)
    requires
        forall|i: int| 0 <= i < tasks.len() ==> follows_release(#[trigger] tasks[i]),
    ensures
        !left_locked(tasks, results, false),
    decreases tasks.len(),
{
    if tasks.len() > 0 {
        assert(follows_release(tasks[0]));
        lemma_stays_unlocked(tasks.drop_first(), results.drop_first());
    }
}

proof fn lemma_is_unlocked(
    tasks: Seq<TaskView>,
    results: Seq<Result<(), Seq<char>>>,
    end: int,
    locked: bool,
)
    requires
        0 <= end < tasks.len(),
        forall|i: int| 0 <= i < end ==> keeps_lock(#[trigger] tasks[i]),
        tasks[end] == attempt(ActionView::Unlock),
        forall|i: int| end < i < tasks.len() ==> follows_release(#[trigger] tasks[i]),
    ensures
        !left_locked(tasks, results, locked),
    decreases end,
{
    let rest = tasks.drop_first();
    if end == 0 {
        assert forall|i: int| 0 <= i < rest.len() implies follows_release(#[trigger] rest[i]) by {
            assert(rest[i] == tasks[i + 1]);
        }
        lemma_stays_unlocked(rest, results.drop_first());
    } else {
        assert(keeps_lock(tasks[0]));
        assert forall|i: int| 0 <= i < end - 1 implies keeps_lock(#[trigger] rest[i]) by {
            assert(rest[i] == tasks[i + 1]);
        }
        assert forall|i: int| end - 1 < i < rest.len() implies follows_release(
            #[trigger] rest[i],
        ) by {
            assert(rest[i] == tasks[i + 1]);
        }
        lemma_is_unlocked(rest, results.drop_first(), end - 1, locked);
    }
}

proof fn lemma_stays_locked(tasks: Seq<TaskView>, results: Seq<Result<(), Seq<char>>>)
    requires
        all_keep_lock(tasks),
        tasks_failure(tasks, results) is None,
    ensures
        left_locked(tasks, results, true),
    decreases tasks.len(),
{
    if tasks.len() > 0 {
        let rest = tasks.drop_first();
        assert(keeps_lock(tasks[0]));
        assert forall|i: int| 0 <= i < rest.len() implies keeps_lock(#[trigger] rest[i]) by {
            assert(rest[i] == tasks[i + 1]);
        }
        lemma_stays_locked(rest, results.drop_first());
    }
}

/// Guarded tasks leave a container unlocked that was not locked before, whichever of them fail,
/// also where one ends the operation.
pub proof fn law_guarded_tasks_unlock(
    tasks: Seq<TaskView>,
    end: int,
    results: Seq<Result<(), Seq<char>>>,
)
    requires
        is_guarded(tasks, end),
    ensures
        !left_locked(tasks, results, false),
{
    if results[0] is Ok {
        let rest = tasks.drop_first();
        assert forall|i: int| 0 <= i < end - 1 implies keeps_lock(#[trigger] rest[i]) by {
            assert(rest[i] == tasks[i + 1]);
        }
        assert forall|i: int| end - 1 < i < rest.len() implies follows_release(
            #[trigger] rest[i],
        ) by {
            assert(rest[i] == tasks[i + 1]);
        }
        lemma_is_unlocked(rest, results.drop_first(), end - 1, true);
    }
}

/// Guarded tasks hold the lock until they give it back: after each of them before that, the
/// container is locked, unless a failure has ended the operation.
pub proof fn law_guarded_tasks_hold_the_lock(
    tasks: Seq<TaskView>,
    end: int,
    results: Seq<Result<(), Seq<char>>>,
    done: int,
)
    requires
        is_guarded(tasks, end),
        0 < done <= end,
        results.len() == tasks.len(),
        tasks_failure(tasks.take(done), results.take(done)) is None,
    ensures
        left_locked(tasks.take(done), results.take(done), false),
{
    let first = tasks.take(done);
    let rest = first.drop_first();
    assert(first[0] == tasks[0]);
    assert(results.take(done)[0] == results[0]);
    assert forall|i: int| 0 <= i < rest.len() implies keeps_lock(#[trigger] rest[i]) by {
        assert(rest[i] == tasks[i + 1]);
    }
    lemma_stays_locked(rest, results.take(done).drop_first());
}

/// What is only attempted never ends the work; what is demanded ends it with what was to be said
/// and the error; what is insisted on does so too, and lets go of the lock.
pub proof fn law_failed_task(action: ActionView, text: Seq<char>, error: Seq<char>)
    ensures
        tasks_failure(seq![attempt(action)], seq![Err(error)]) is None,
        tasks_failure(seq![demand(action, text)], seq![Err(error)]) == Some(text + error),
        tasks_failure(seq![insist(action, text)], seq![Err(error)]) == Some(text + error),
        attempt(action).action == action,
        demand(action, text).action == action,
        insist(action, text).action == action,
        aftermath(attempt(action)).len() == 0,
        aftermath(demand(action, text)).len() == 0,
        aftermath(insist(action, text)).len() == 1,
        aftermath(insist(action, text))[0].action == ActionView::Unlock,
        aftermath(insist(action, text))[0].failure is None,
{
    reveal_with_fuel(tasks_failure, 2);
    assert(seq![attempt(action)].drop_first() =~= Seq::empty());
}

/// The first task that must succeed and does not ends the work, with its own error; where every
/// such task succeeds, nothing does.
pub proof fn law_first_failure_ends(
    tasks: Seq<TaskView>,
    results: Seq<Result<(), Seq<char>>>,
    i: int,
)
    requires
        results.len() == tasks.len(),
        0 <= i <= tasks.len(),
        forall|j: int|
            0 <= j < i ==> (#[trigger] tasks[j]).failure is None || results[j] is Ok,
        i < tasks.len() ==> tasks[i].failure is Some && results[i] is Err,
    ensures
        i < tasks.len() ==> tasks_failure(tasks, results) == Some(
            tasks[i].failure->0 + results[i]->Err_0,
        ),
        i == tasks.len() ==> tasks_failure(tasks, results) is None,
    decreases tasks.len(),
{
    if tasks.len() > 0 && i > 0 {
        let rest = tasks.drop_first();
        assert(tasks[0].failure is None || results[0] is Ok);
        assert forall|j: int| 0 <= j < i - 1 implies (#[trigger] rest[j]).failure is None
            || results.drop_first()[j] is Ok by {
            assert(rest[j] == tasks[j + 1]);
        }
        law_first_failure_ends(rest, results.drop_first(), i - 1);
    }
}

/// A request that is refused before anything was done leaves everything as it is; one that ends
/// while the container is locked lets go of it. Both say why.
pub proof fn law_refusals_end(error: Seq<char>)
    ensures
        refused::<Seq<char>>(error).tasks.len() == 0,
        refused::<Seq<char>>(error).result == Err::<Seq<char>, Seq<char>>(error),
        released::<Seq<char>>(error).tasks.len() == 1,
        released::<Seq<char>>(error).tasks[0].action == ActionView::Unlock,
        released::<Seq<char>>(error).tasks[0].failure is None,
        released::<Seq<char>>(error).result == Err::<Seq<char>, Seq<char>>(error),
{
}

} // verus!
