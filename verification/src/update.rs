use vstd::prelude::*;

verus! {

/// Where the one capture thread of a source stands.
#[derive(Clone, Copy, Debug, PartialEq, Eq, Structural)]
pub enum Lifecycle {
    /// No thread exists.
    Idle,
    /// A thread for this output is being started.
    Starting(u32),
    /// A thread captures this output.
    Running(u32),
    /// The thread for this output was told to stop and is not joined yet.
    Stopping(u32),
}

/// What the coordinator asks to be done with the capture thread.
#[derive(Clone, Copy, Debug, PartialEq, Eq, Structural)]
pub enum Command {
    Nothing,
    /// Start a capture thread for this output, then report `started`.
    Spawn(u32),
    /// Tell the thread for this output to stop, join it, then report `joined`.
    Stop(u32),
}

/// What reaches the coordinator.
#[derive(Clone, Copy, Debug, PartialEq, Eq, Structural)]
pub enum Signal {
    /// The output to capture from now on, if any.
    Select(Option<u32>),
    /// An output left the display.
    Removed(u32),
    /// The thread asked for exists.
    Started,
    /// The thread told to stop has been joined.
    Joined,
    /// The source is being torn down.
    Shutdown,
}

/// The coordinator's state as contracts speak of it.
pub struct CoordinatorView {
    pub phase: Lifecycle,
    /// The output that should be captured.
    pub target: Option<u32>,
    /// False once the source is being torn down.
    pub accepting: bool,
}

impl CoordinatorView {
    pub open spec fn initial() -> CoordinatorView {
        CoordinatorView { phase: Lifecycle::Idle, target: None, accepting: true }
    }

    /// After teardown has begun nothing is wanted any more, and a thread is
    /// left running only for the output that is wanted.
    pub open spec fn wf(self) -> bool {
        &&& !self.accepting ==> self.target is None
        &&& self.phase matches Lifecycle::Running(id) ==> self.target == Some(id)
    }

    /// The number of capture threads that exist.
    pub open spec fn census(self) -> nat {
        if self.phase is Idle {
            0
        } else {
            1
        }
    }

    /// The output whose thread is up and running.
    pub open spec fn active(self) -> Option<u32> {
        match self.phase {
            Lifecycle::Running(id) => Some(id),
            _ => None,
        }
    }

    /// The command that still waits to be carried out: a start or a stop
    /// that is under way and has not been reported as done.
    pub open spec fn owed(self) -> Command {
        match self.phase {
            Lifecycle::Starting(id) => Command::Spawn(id),
            Lifecycle::Stopping(id) => Command::Stop(id),
            _ => Command::Nothing,
        }
    }

    /// Moves one step towards the target. A thread is started only from
    /// rest, a running thread is stopped only if another output or none is
    /// wanted, and while a start or a stop is under way nothing is asked.
    pub open spec fn settle(self) -> (CoordinatorView, Command) {
        match self.phase {
            Lifecycle::Idle => match self.target {
                Some(id) => (CoordinatorView { phase: Lifecycle::Starting(id), ..self }, Command::Spawn(id)),
                None => (self, Command::Nothing),
            },
            Lifecycle::Running(id) => if self.target == Some(id) {
                (self, Command::Nothing)
            } else {
                (CoordinatorView { phase: Lifecycle::Stopping(id), ..self }, Command::Stop(id))
            },
            Lifecycle::Starting(_) => (self, Command::Nothing),
            Lifecycle::Stopping(_) => (self, Command::Nothing),
        }
    }

    pub open spec fn select(self, target: Option<u32>) -> (CoordinatorView, Command) {
        if self.accepting {
            (CoordinatorView { target, ..self }).settle()
        } else {
            (self, Command::Nothing)
        }
    }

    pub open spec fn removed(self, id: u32) -> (CoordinatorView, Command) {
        if self.target == Some(id) {
            (CoordinatorView { target: None, ..self }).settle()
        } else {
            (self, Command::Nothing)
        }
    }

    pub open spec fn started(self) -> (CoordinatorView, Command) {
        match self.phase {
            Lifecycle::Starting(id) => (CoordinatorView { phase: Lifecycle::Running(id), ..self }).settle(),
            _ => (self, Command::Nothing),
        }
    }

    pub open spec fn joined(self) -> (CoordinatorView, Command) {
        match self.phase {
            Lifecycle::Stopping(_) => (CoordinatorView { phase: Lifecycle::Idle, ..self }).settle(),
            _ => (self, Command::Nothing),
        }
    }

    pub open spec fn shutdown(self) -> (CoordinatorView, Command) {
        (CoordinatorView { target: None, accepting: false, ..self }).settle()
    }

    pub open spec fn step(self, signal: Signal) -> (CoordinatorView, Command) {
        match signal {
            Signal::Select(target) => self.select(target),
            Signal::Removed(id) => self.removed(id),
            Signal::Started => self.started(),
            Signal::Joined => self.joined(),
            Signal::Shutdown => self.shutdown(),
        }
    }

    /// The state after all of `signals`, taken in order.
    pub open spec fn run(self, signals: Seq<Signal>) -> CoordinatorView
        decreases signals.len(),
    {
        if signals.len() == 0 {
            self
        } else {
            self.run(signals.drop_last()).step(signals.last()).0
        }
    }

    /// The command that the last of `signals` is answered with.
    pub open spec fn answer(self, signals: Seq<Signal>) -> Command
        recommends
            signals.len() > 0,
    {
        self.run(signals.drop_last()).step(signals.last()).1
    }

    /// Threads started minus threads joined over all of `signals`: a `Spawn`
    /// starts one, and a `Joined` that ends a stop reports one gone.
    pub open spec fn threads(self, signals: Seq<Signal>) -> int
        decreases signals.len(),
    {
        if signals.len() == 0 {
            self.census() as int
        } else {
            self.threads(signals.drop_last()) + spawned(self.answer(signals)) - reaped(
                self.run(signals.drop_last()),
                signals.last(),
            )
        }
    }
}

/// One if the command starts a thread.
pub open spec fn spawned(command: Command) -> int {
    if command is Spawn {
        1
    } else {
        0
    }
}

/// One if the signal reports the end of a thread that was being stopped.
pub open spec fn reaped(state: CoordinatorView, signal: Signal) -> int {
    if signal is Joined && state.phase is Stopping {
        1
    } else {
        0
    }
}

/// Serializes changes of the selected output against the life of the capture
/// thread: it says when a thread is to be started and when it is to be
/// stopped, and never asks for a second one while the first exists.
#[derive(Debug)]
pub struct UpdateCoordinator {
    phase: Lifecycle,
    target: Option<u32>,
    accepting: bool,
}

impl View for UpdateCoordinator {
    type V = CoordinatorView;

    closed spec fn view(&self) -> CoordinatorView {
        CoordinatorView { phase: self.phase, target: self.target, accepting: self.accepting }
    }
}

impl UpdateCoordinator {
    pub open spec fn wf(&self) -> bool {
        self@.wf()
    }

    pub fn new() -> (coordinator: UpdateCoordinator)
        ensures
            coordinator.wf(),
            coordinator@ == CoordinatorView::initial(),
    {
        UpdateCoordinator { phase: Lifecycle::Idle, target: None, accepting: true }
    }

    fn settle(&mut self) -> (command: Command)
        ensures
            (final(self)@, command) == old(self)@.settle(),
    {
        match self.phase {
            Lifecycle::Idle => match self.target {
                Some(id) => {
                    self.phase = Lifecycle::Starting(id);
                    Command::Spawn(id)
                },
                None => Command::Nothing,
            },
            Lifecycle::Running(id) => {
                let wanted = match self.target {
                    Some(t) => t == id,
                    None => false,
                };
                if wanted {
                    Command::Nothing
                } else {
                    self.phase = Lifecycle::Stopping(id);
                    Command::Stop(id)
                }
            },
            Lifecycle::Starting(_) => Command::Nothing,
            Lifecycle::Stopping(_) => Command::Nothing,
        }
    }

    /// Sets the output to capture; `None` asks for no capture at all. Asking
    /// for what is already wanted changes nothing.
    pub fn select(&mut self, target: Option<u32>) -> (command: Command)
        requires
            old(self).wf(),
        ensures
            final(self).wf(),
            (final(self)@, command) == old(self)@.select(target),
    {
        if self.accepting {
            self.target = target;
            self.settle()
        } else {
            Command::Nothing
        }
    }

    /// An output left the display; if it is the one wanted, capture ends.
    pub fn output_removed(&mut self, id: u32) -> (command: Command)
        requires
            old(self).wf(),
        ensures
            final(self).wf(),
            (final(self)@, command) == old(self)@.removed(id),
    {
        let wanted = match self.target {
            Some(t) => t == id,
            None => false,
        };
        if wanted {
            self.target = None;
            self.settle()
        } else {
            Command::Nothing
        }
    }

    /// The thread that was asked for exists.
    pub fn started(&mut self) -> (command: Command)
        requires
            old(self).wf(),
        ensures
            final(self).wf(),
            (final(self)@, command) == old(self)@.started(),
    {
        match self.phase {
            Lifecycle::Starting(id) => {
                self.phase = Lifecycle::Running(id);
                self.settle()
            },
            _ => Command::Nothing,
        }
    }

    /// The thread that was told to stop has been joined.
    pub fn joined(&mut self) -> (command: Command)
        requires
            old(self).wf(),
        ensures
            final(self).wf(),
            (final(self)@, command) == old(self)@.joined(),
    {
        match self.phase {
            Lifecycle::Stopping(_) => {
                self.phase = Lifecycle::Idle;
                self.settle()
            },
            _ => Command::Nothing,
        }
    }

    /// Begins teardown: nothing is wanted any more and later selections are
    /// ignored.
    pub fn shutdown(&mut self) -> (command: Command)
        requires
            old(self).wf(),
        ensures
            final(self).wf(),
            (final(self)@, command) == old(self)@.shutdown(),
    {
        self.target = None;
        self.accepting = false;
        self.settle()
    }

    /// Takes any signal.
    pub fn handle(&mut self, signal: Signal) -> (command: Command)
        requires
            old(self).wf(),
        ensures
            final(self).wf(),
            (final(self)@, command) == old(self)@.step(signal),
    {
        match signal {
            Signal::Select(target) => self.select(target),
            Signal::Removed(id) => self.output_removed(id),
            Signal::Started => self.started(),
            Signal::Joined => self.joined(),
            Signal::Shutdown => self.shutdown(),
        }
    }

    pub fn phase(&self) -> (phase: Lifecycle)
        ensures
            phase == self@.phase,
    {
        self.phase
    }

    pub fn target(&self) -> (target: Option<u32>)
        ensures
            target == self@.target,
    {
        self.target
    }

    /// False once teardown has begun.
    pub fn accepting(&self) -> (accepting: bool)
        ensures
            accepting == self@.accepting,
    {
        self.accepting
    }

    /// The command that still waits to be carried out, if any.
    pub fn owed(&self) -> (command: Command)
        ensures
            command == self@.owed(),
    {
        match self.phase {
            Lifecycle::Starting(id) => Command::Spawn(id),
            Lifecycle::Stopping(id) => Command::Stop(id),
            _ => Command::Nothing,
        }
    }

    /// The output whose thread is up and running, if there is one.
    pub fn active(&self) -> (active: Option<u32>)
        ensures
            active == self@.active(),
    {
        match self.phase {
            Lifecycle::Running(id) => Some(id),
            _ => None,
        }
    }
}

/// Every step keeps the state well formed. The number of threads goes up by
/// one with a `Spawn` and down by one with a `Joined` that ends a stop, and a
/// `Spawn` is given only when no other thread is left.
pub proof fn lemma_step(state: CoordinatorView, signal: Signal)
    requires
        state.wf(),
    ensures
        state.step(signal).0.wf(),
        state.step(signal).0.census() == state.census() + spawned(state.step(signal).1) - reaped(
            state,
            signal,
        ),
        state.step(signal).1 is Spawn ==> state.census() - reaped(state, signal) == 0,
{
}

/// A command is never lost: whatever a step asks for is what waits to be
/// carried out afterwards.
pub proof fn lemma_answer_is_owed(state: CoordinatorView, signal: Signal)
    ensures
        !(state.step(signal).1 is Nothing) ==> state.step(signal).1 == state.step(signal).0.owed(),
{
}

/// Whatever signals arrive and in whatever order, the state stays well formed
/// and the threads started and not yet joined are as many as the state
/// counts: none or one.
pub proof fn lemma_at_most_one_thread(signals: Seq<Signal>)
    ensures
        CoordinatorView::initial().run(signals).wf(),
        CoordinatorView::initial().threads(signals) == CoordinatorView::initial().run(
            signals,
        ).census(),
        0 <= CoordinatorView::initial().threads(signals) <= 1,
    decreases signals.len(),
{
    let init = CoordinatorView::initial();
    if signals.len() > 0 {
        lemma_at_most_one_thread(signals.drop_last());
        let before = init.run(signals.drop_last());
        lemma_step(before, signals.last());
    }
}

/// A thread is asked for only when none exists: at rest, or at the very
/// moment the previous one is reported joined.
pub proof fn lemma_spawn_only_from_rest(signals: Seq<Signal>)
    requires
        signals.len() > 0,
        CoordinatorView::initial().answer(signals) is Spawn,
    ensures
        ({
            let before = CoordinatorView::initial().run(signals.drop_last());
            before.phase is Idle || (before.phase is Stopping && signals.last() is Joined)
        }),
        CoordinatorView::initial().threads(signals.drop_last()) - reaped(
            CoordinatorView::initial().run(signals.drop_last()),
            signals.last(),
        ) == 0,
{
    lemma_at_most_one_thread(signals.drop_last());
    lemma_step(CoordinatorView::initial().run(signals.drop_last()), signals.last());
}

/// Selecting the same output twice has no second effect: the second call
/// asks for nothing and leaves the state as the first left it.
pub proof fn lemma_select_idempotent(state: CoordinatorView, target: Option<u32>)
    ensures
        state.select(target).0.select(target) == (state.select(target).0, Command::Nothing),
{
}

/// Selecting the output that is being captured asks for nothing.
pub proof fn lemma_select_active_is_noop(state: CoordinatorView, id: u32)
    requires
        state.phase == Lifecycle::Running(id),
        state.target == Some(id),
    ensures
        state.select(Some(id)) == (state, Command::Nothing),
{
}

/// Once teardown has begun no thread is ever asked for again.
pub proof fn lemma_no_spawn_after_shutdown(state: CoordinatorView, signals: Seq<Signal>)
    requires
        state.wf(),
    ensures
        !state.shutdown().0.run(signals).accepting,
        state.shutdown().0.run(signals).wf(),
        signals.len() > 0 ==> !(state.shutdown().0.answer(signals) is Spawn),
    decreases signals.len(),
{
    if signals.len() > 0 {
        lemma_no_spawn_after_shutdown(state, signals.drop_last());
    }
}

/// Teardown comes to rest: once the start or stop that is under way has been
/// reported, at most two reports in all, no thread is left.
pub proof fn lemma_shutdown_comes_to_rest(state: CoordinatorView)
    requires
        state.wf(),
    ensures
        state.shutdown().0.started().0.joined().0.phase is Idle,
        state.shutdown().0.started().0.joined().0.census() == 0,
        state.phase is Running ==> state.shutdown().1 is Stop,
        state.phase is Starting ==> state.shutdown().0.started().1 is Stop,
{
}

} // verus!
