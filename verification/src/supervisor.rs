use crate::activation::{criticality_of, Criticality, TaskKind};
use vstd::prelude::*;

verus! {

/// A task that was spawned with a declared criticality.
#[derive(Clone, Copy, Debug, PartialEq, Eq, Structural)]
pub struct Task {
    pub kind: TaskKind,
    pub criticality: Criticality,
    pub running: bool,
}

/// What the supervisor does when a task ends.
#[derive(Clone, Copy, Debug, PartialEq, Eq, Structural)]
pub enum Reaction {
    /// An essential task ended: the whole service is brought down.
    Shutdown,
    /// A non-essential task ended: the failure is logged, the node goes on.
    Logged,
    /// No running task of that kind is known.
    Ignored,
}

/// Whether `at` is the first running task of the given kind.
pub open spec fn is_first_running(tasks: Seq<Task>, kind: TaskKind, at: int) -> bool {
    &&& 0 <= at < tasks.len()
    &&& tasks[at].kind == kind
    &&& tasks[at].running
    &&& forall|j: int| 0 <= j < at ==> !((#[trigger] tasks[j]).kind == kind && tasks[j].running)
}

/// Whether any task of the given kind is running.
pub open spec fn runs(tasks: Seq<Task>, kind: TaskKind) -> bool {
    exists|j: int| 0 <= j < tasks.len() && (#[trigger] tasks[j]).kind == kind && tasks[j].running
}

/// The tasks of one kind after another, all running, each with the
/// criticality that the kind declares.
pub open spec fn spawned(kinds: Seq<TaskKind>) -> Seq<Task> {
    Seq::new(
        kinds.len(),
        |i: int|
            Task {
                kind: kinds[i],
                criticality: criticality_of(kinds[i]),
                running: true,
            },
    )
}

/// Keeps the tasks of a service and decides what the end of one means. A
/// task runs from its spawning to its end, and a service that an essential
/// task has taken down stays down.
#[derive(Debug, PartialEq, Eq)]
pub struct Supervisor {
    tasks: Vec<Task>,
    stopped: bool,
}

impl Supervisor {
    /// The tasks in the order in which they were spawned.
    pub closed spec fn tasks_of(&self) -> Seq<Task> {
        self.tasks@
    }

    /// Whether an essential task has ended and taken the service down.
    pub closed spec fn is_stopped(&self) -> bool {
        self.stopped
    }

    pub fn new() -> (supervisor: Supervisor)
        ensures
            supervisor.tasks_of().len() == 0,
            !supervisor.is_stopped(),
    {
        Supervisor { tasks: Vec::new(), stopped: false }
    }

    /// Registers a task that starts running, with its criticality.
    pub fn spawn(&mut self, kind: TaskKind, criticality: Criticality)
        ensures
            final(self).tasks_of() == old(self).tasks_of().push(
                Task { kind, criticality, running: true },
            ),
            final(self).is_stopped() == old(self).is_stopped(),
    {
        self.tasks.push(Task { kind, criticality, running: true });
    }

    pub fn tasks(&self) -> (tasks: &Vec<Task>)
        ensures
            tasks@ == self.tasks_of(),
    {
        &self.tasks
    }

    /// Whether the service is still up.
    pub fn is_running(&self) -> (up: bool)
        ensures
            up == !self.is_stopped(),
    {
        !self.stopped
    }

    /// Takes note that a task of the given kind has ended. The first running
    /// task of that kind is marked as ended. If it was essential the service
    /// stops; if not, the supervisor only reports it for the log.
    pub fn on_exit(&mut self, kind: TaskKind) -> (reaction: Reaction)
        ensures
            reaction is Ignored <==> !runs(old(self).tasks_of(), kind),
            reaction is Ignored ==> *final(self) == *old(self),
            reaction !is Ignored ==> exists|at: int|
                {
                    &&& is_first_running(old(self).tasks_of(), kind, at)
                    &&& final(self).tasks_of() == old(self).tasks_of().update(
                        at,
                        Task { running: false, ..old(self).tasks_of()[at] },
                    )
                    &&& reaction == if old(self).tasks_of()[at].criticality is Essential {
                        Reaction::Shutdown
                    } else {
                        Reaction::Logged
                    }
                },
            final(self).is_stopped() == (old(self).is_stopped() || reaction is Shutdown),
    {
        let mut i: usize = 0;
        while i < self.tasks.len()
            invariant
                i <= self.tasks.len(),
                *self == *old(self),
                forall|j: int|
                    0 <= j < i ==> !((#[trigger] self.tasks@[j]).kind == kind && self.tasks@[j].running),
            decreases self.tasks.len() - i,
        {
            let task = self.tasks[i];
            if task.kind == kind && task.running {
                self.tasks.set(i, Task { kind: task.kind, criticality: task.criticality, running: false });
                let reaction = match task.criticality {
                    Criticality::Essential => {
                        self.stopped = true;
                        Reaction::Shutdown
                    },
                    Criticality::NonEssential => Reaction::Logged,
                };
                assert(is_first_running(old(self).tasks_of(), kind, i as int));
                assert(runs(old(self).tasks_of(), kind));
                return reaction;
            }
            i = i + 1;
        }
        Reaction::Ignored
    }
}

} // verus!
