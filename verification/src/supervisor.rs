//! What a cluster, or a service, does as its tasks end: keep waiting, finish,
//! fail with a message, or idle when it has nothing to run.

use vstd::prelude::*;

verus! {

broadcast use vstd::string::group_string_axioms;

/// Who supervises: the cluster over its services, or a service over its
/// endpoint and stream handlers.
#[derive(Clone, Copy, PartialEq, Eq, Structural)]
pub enum Scope {
    Cluster,
    Service,
}

/// How a supervised task ended.
pub enum TaskEnd {
    /// The task returned successfully.
    Completed,
    /// The task could not be joined (it panicked or was cancelled); the text
    /// of the join error.
    JoinFailed(String),
    /// The task returned an error; its text.
    Failed(String),
}

/// What the supervisor does next.
pub enum SupervisorAction {
    /// Wait for the next task to end.
    Wait,
    /// There is nothing to run: stay up without end.
    Idle,
    /// Every task completed: finish successfully (a service stops its NATS
    /// service first).
    Finish,
    /// Stop with this error message.
    Fail(String),
}

/// The mathematical form of an action.
pub enum ActionView {
    Wait,
    Idle,
    Finish,
    Fail(Seq<char>),
}

/// The mathematical form of an action.
pub open spec fn action_view(a: SupervisorAction) -> ActionView {
    match a {
        SupervisorAction::Wait => ActionView::Wait,
        SupervisorAction::Idle => ActionView::Idle,
        SupervisorAction::Finish => ActionView::Finish,
        SupervisorAction::Fail(m) => ActionView::Fail(m@),
    }
}

/// The mathematical form of a task end.
pub enum TaskEndView {
    Completed,
    JoinFailed(Seq<char>),
    Failed(Seq<char>),
}

/// The mathematical form of a task end.
pub open spec fn task_end_view(e: TaskEnd) -> TaskEndView {
    match e {
        TaskEnd::Completed => TaskEndView::Completed,
        TaskEnd::JoinFailed(m) => TaskEndView::JoinFailed(m@),
        TaskEnd::Failed(m) => TaskEndView::Failed(m@),
    }
}

/// Tracks the tasks of one cluster or service.
pub struct Supervisor {
    scope: Scope,
    total: usize,
    completed: usize,
}

/// The state of a supervisor: its scope, how many tasks it started and how
/// many of them completed.
pub struct SupervisorView {
    pub scope: Scope,
    pub total: nat,
    pub completed: nat,
}

/// The action taken when a task ends.
pub open spec fn action_on_end(v: SupervisorView, end: TaskEndView) -> ActionView {
    match end {
        TaskEndView::Completed => if v.completed + 1 == v.total {
            ActionView::Finish
        } else {
            ActionView::Wait
        },
        TaskEndView::JoinFailed(m) => match v.scope {
            Scope::Cluster => ActionView::Fail("join error: "@ + m),
            Scope::Service => ActionView::Fail("service task stopped: "@ + m),
        },
        TaskEndView::Failed(m) => match v.scope {
            Scope::Cluster => ActionView::Fail("service task stopped: "@ + m),
            Scope::Service => ActionView::Fail(m),
        },
    }
}

/// The state after a task ends.
pub open spec fn state_on_end(v: SupervisorView, end: TaskEndView) -> SupervisorView {
    match end {
        TaskEndView::Completed => SupervisorView { completed: v.completed + 1, ..v },
        _ => v,
    }
}

impl View for Supervisor {
    type V = SupervisorView;

    closed spec fn view(&self) -> SupervisorView {
        SupervisorView {
            scope: self.scope,
            total: self.total as nat,
            completed: self.completed as nat,
        }
    }
}

impl Supervisor {
    /// The supervisor's invariant: no more tasks completed than started.
    pub open spec fn wf(&self) -> bool {
        self@.completed <= self@.total
    }

    /// Starts supervising `total` tasks; with none to run the supervisor
    /// idles.
    pub fn start(scope: Scope, total: usize) -> (res: (Supervisor, SupervisorAction))
        ensures
            res.0.wf(),
            res.0@ == (SupervisorView { scope, total: total as nat, completed: 0 }),
            action_view(res.1) == if total == 0 {
                ActionView::Idle
            } else {
                ActionView::Wait
            },
    {
        let s = Supervisor { scope, total, completed: 0 };
        if total == 0 {
            (s, SupervisorAction::Idle)
        } else {
            (s, SupervisorAction::Wait)
        }
    }

    /// How many tasks are still running.
    pub fn running(&self) -> (n: usize)
        requires
            self.wf(),
        ensures
            n == self@.total - self@.completed,
    {
        self.total - self.completed
    }

    /// Records that a running task ended and says what to do next.
    pub fn on_task_end(&mut self, end: TaskEnd) -> (action: SupervisorAction)
        requires
            old(self).wf(),
            old(self)@.completed < old(self)@.total,
        ensures
            final(self).wf(),
            final(self)@ == state_on_end(old(self)@, task_end_view(end)),
            action_view(action) == action_on_end(old(self)@, task_end_view(end)),
    {
        match end {
            TaskEnd::Completed => {
                self.completed = self.completed + 1;
                if self.completed == self.total {
                    SupervisorAction::Finish
                } else {
                    SupervisorAction::Wait
                }
            },
            TaskEnd::JoinFailed(m) => {
                let prefix = match self.scope {
                    Scope::Cluster => "join error: ",
                    Scope::Service => "service task stopped: ",
                };
                let mut text = prefix.to_string();
                text.append(m.as_str());
                SupervisorAction::Fail(text)
            },
            TaskEnd::Failed(m) => {
                match self.scope {
                    Scope::Cluster => {
                        let mut text = "service task stopped: ".to_string();
                        text.append(m.as_str());
                        SupervisorAction::Fail(text)
                    },
                    Scope::Service => SupervisorAction::Fail(m),
                }
            },
        }
    }
}

/// The actions a supervisor takes as the tasks end in the order `ends`.
pub open spec fn replay(v: SupervisorView, ends: Seq<TaskEndView>) -> Seq<ActionView>
    decreases ends.len(),
{
    if ends.len() == 0 {
        Seq::empty()
    } else {
        seq![action_on_end(v, ends[0])] + replay(state_on_end(v, ends[0]), ends.drop_first())
    }
}

/// `n` successful task ends.
pub open spec fn all_completed(n: nat) -> Seq<TaskEndView> {
    Seq::new(n, |i: int| TaskEndView::Completed)
}

/// Waits, then one finish at the `n`-th step.
pub open spec fn waits_then_finish(n: nat) -> Seq<ActionView> {
    Seq::new(n, |i: int| if i == n - 1 { ActionView::Finish } else { ActionView::Wait })
}

proof fn lemma_replay_completions(v: SupervisorView, m: nat)
    requires
        v.completed + m == v.total,
    ensures
        replay(v, all_completed(m)) == waits_then_finish(m),
    decreases m,
{
    if m > 0 {
        let next = state_on_end(v, TaskEndView::Completed);
        assert(all_completed(m).drop_first() =~= all_completed((m - 1) as nat));
        lemma_replay_completions(next, (m - 1) as nat);
        if m == 1 {
            assert(waits_then_finish(m) =~= seq![ActionView::Finish]);
            assert(waits_then_finish(0) =~= Seq::<ActionView>::empty());
        } else {
            assert(waits_then_finish(m) =~= seq![ActionView::Wait] + waits_then_finish(
                (m - 1) as nat,
            ));
        }
        assert(replay(v, all_completed(m)) =~= seq![action_on_end(v, TaskEndView::Completed)]
            + replay(next, all_completed((m - 1) as nat)));
    } else {
        assert(replay(v, all_completed(m)) =~= waits_then_finish(m));
    }
}

/// A supervisor over `n` tasks that all complete waits after each of the first
/// `n - 1` and finishes at the last; it never fails and never idles.
pub proof fn law_completions_finish_at_last(scope: Scope, n: nat)
    requires
        n > 0,
    ensures
        replay(SupervisorView { scope, total: n, completed: 0 }, all_completed(n))
            == waits_then_finish(n),
{
    lemma_replay_completions(SupervisorView { scope, total: n, completed: 0 }, n);
}

/// Once a task fails or cannot be joined, the supervisor's next action is to
/// stop with an error, whatever the other tasks do.
pub proof fn law_failure_stops(v: SupervisorView, end: TaskEndView)
    requires
        !(end is Completed),
    ensures
        action_on_end(v, end) is Fail,
        state_on_end(v, end) == v,
{
}

/// The message of a failed connection to NATS.
pub fn connect_failure_message(error: &str) -> (m: String)
    ensures
        m@ == "NATS connect failed: "@ + error@,
{
    let mut m = "NATS connect failed: ".to_string();
    m.append(error);
    m
}

} // verus!
