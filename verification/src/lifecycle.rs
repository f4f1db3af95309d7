//! The life of a component, from registration to the release of its surface.
//!
//! A component moves through five phases in one direction only. The runtime
//! reports what happened as a [`Signal`]; the phase answers with the next
//! phase and the [`Effect`] that the runtime has to carry out. The surface of
//! a component is destroyed only in answer to the report that its worker has
//! been joined.

use vstd::prelude::*;

verus! {

/// The phase a component is in.
#[derive(Clone, Copy, Debug, PartialEq, Eq, Structural)]
pub enum Lifecycle {
    /// Known to the runtime; nothing has been created for it yet.
    Registered,
    /// Its rendering surface exists.
    SurfaceCreated,
    /// Its worker runs the component's long-running task.
    Running,
    /// A stop was requested; the worker has not been joined yet.
    Stopping,
    /// The worker has been joined.
    Stopped,
}

/// What the runtime reports to a component's lifecycle.
#[derive(Clone, Copy, Debug, PartialEq, Eq, Structural)]
pub enum Signal {
    /// The rendering surface was created.
    SurfaceCreated,
    /// The worker was spawned and runs the component.
    WorkerStarted,
    /// The component is asked to stop.
    StopRequested,
    /// The worker returned and was joined.
    WorkerJoined,
}

/// What the runtime has to do in answer to a signal.
#[derive(Clone, Copy, Debug, PartialEq, Eq, Structural)]
pub enum Effect {
    /// Nothing.
    Nothing,
    /// Spawn the worker that runs the component.
    StartWorker,
    /// Tell the worker to stop and join it.
    JoinWorker,
    /// Destroy the rendering surface and give up what the component held.
    DestroySurface,
}

impl Lifecycle {
    /// The position of the phase in the order of phases.
    pub open spec fn rank(self) -> int {
        match self {
            Lifecycle::Registered => 0,
            Lifecycle::SurfaceCreated => 1,
            Lifecycle::Running => 2,
            Lifecycle::Stopping => 3,
            Lifecycle::Stopped => 4,
        }
    }

    /// The phase after `signal` and the effect it asks for. A signal that
    /// does not belong to the phase changes nothing and asks for nothing.
    pub open spec fn spec_advance(self, signal: Signal) -> (Lifecycle, Effect) {
        match (self, signal) {
            (Lifecycle::Registered, Signal::SurfaceCreated) => (
                Lifecycle::SurfaceCreated,
                Effect::StartWorker,
            ),
            (Lifecycle::SurfaceCreated, Signal::WorkerStarted) => (
                Lifecycle::Running,
                Effect::Nothing,
            ),
            (Lifecycle::Running, Signal::StopRequested) => (Lifecycle::Stopping, Effect::JoinWorker),
            (Lifecycle::Stopping, Signal::WorkerJoined) => (
                Lifecycle::Stopped,
                Effect::DestroySurface,
            ),
            _ => (self, Effect::Nothing),
        }
    }

    /// Takes `signal` and returns the next phase with the effect to carry out.
    pub fn advance(self, signal: Signal) -> (r: (Lifecycle, Effect))
        ensures
            r == self.spec_advance(signal),
    {
        match (self, signal) {
            (Lifecycle::Registered, Signal::SurfaceCreated) => (
                Lifecycle::SurfaceCreated,
                Effect::StartWorker,
            ),
            (Lifecycle::SurfaceCreated, Signal::WorkerStarted) => (
                Lifecycle::Running,
                Effect::Nothing,
            ),
            (Lifecycle::Running, Signal::StopRequested) => (Lifecycle::Stopping, Effect::JoinWorker),
            (Lifecycle::Stopping, Signal::WorkerJoined) => (
                Lifecycle::Stopped,
                Effect::DestroySurface,
            ),
            _ => (self, Effect::Nothing),
        }
    }

    /// Whether the component's surface may be measured, painted and moved:
    /// it exists and has not been given up.
    pub open spec fn spec_has_surface(self) -> bool {
        self == Lifecycle::SurfaceCreated || self == Lifecycle::Running || self
            == Lifecycle::Stopping
    }

    /// Whether the component's surface may be measured, painted and moved.
    pub fn has_surface(self) -> (r: bool)
        ensures
            r == self.spec_has_surface(),
    {
        match self {
            Lifecycle::SurfaceCreated | Lifecycle::Running | Lifecycle::Stopping => true,
            _ => false,
        }
    }
}

/// The phase of a component that started as `Registered` and took the first
/// `upto` of `signals`.
pub open spec fn phase_after(signals: Seq<Signal>, upto: int) -> Lifecycle
    decreases upto,
{
    if upto <= 0 {
        Lifecycle::Registered
    } else {
        phase_after(signals, upto - 1).spec_advance(signals[upto - 1]).0
    }
}

/// The effect that signal `at` of `signals` asks for.
pub open spec fn effect_at(signals: Seq<Signal>, at: int) -> Effect {
    phase_after(signals, at).spec_advance(signals[at]).1
}

/// A signal moves a component one phase forward or leaves it where it is:
/// no phase is skipped and none is entered again.
pub proof fn law_one_direction(phase: Lifecycle, signal: Signal)
    ensures
        phase.rank() <= phase.spec_advance(signal).0.rank() <= phase.rank() + 1,
        phase.spec_advance(signal).0 == phase ==> phase.spec_advance(signal).1 == Effect::Nothing,
{
}

/// A component that has reached a phase has asked, at earlier signals, for
/// the effects that lead there.
proof fn lemma_history(signals: Seq<Signal>, upto: int)
    requires
        0 <= upto <= signals.len(),
    ensures
        phase_after(signals, upto).rank() >= 3 ==> exists|j: int|
            0 <= j < upto && signals[j] == Signal::StopRequested && #[trigger] effect_at(signals, j)
                == Effect::JoinWorker,
        phase_after(signals, upto).rank() >= 4 ==> exists|j: int|
            0 <= j < upto && signals[j] == Signal::WorkerJoined && #[trigger] effect_at(signals, j)
                == Effect::DestroySurface,
        phase_after(signals, upto).rank() < 4 ==> forall|j: int|
            0 <= j < upto ==> #[trigger] effect_at(signals, j) != Effect::DestroySurface,
    decreases upto,
{
    if upto > 0 {
        lemma_history(signals, upto - 1);
        let before = phase_after(signals, upto - 1);
        law_one_direction(before, signals[upto - 1]);
        if before.rank() >= 3 {
            let j = choose|j: int|
                0 <= j < upto - 1 && signals[j] == Signal::StopRequested && #[trigger] effect_at(
                    signals,
                    j,
                ) == Effect::JoinWorker;
            assert(0 <= j < upto);
        } else if phase_after(signals, upto).rank() >= 3 {
            assert(effect_at(signals, upto - 1) == Effect::JoinWorker);
        }
        if before.rank() >= 4 {
            let j = choose|j: int|
                0 <= j < upto - 1 && signals[j] == Signal::WorkerJoined && #[trigger] effect_at(
                    signals,
                    j,
                ) == Effect::DestroySurface;
            assert(0 <= j < upto);
        } else if phase_after(signals, upto).rank() >= 4 {
            assert(effect_at(signals, upto - 1) == Effect::DestroySurface);
        }
        if phase_after(signals, upto).rank() < 4 {
            assert forall|j: int| 0 <= j < upto implies #[trigger] effect_at(signals, j)
                != Effect::DestroySurface by {
                if j == upto - 1 {
                } else {
                }
            }
        }
    }
}

/// The surface of a component is destroyed only after its worker was joined.
///
/// Whatever signals a component takes, where one of them asks for the
/// surface to be destroyed, that signal is the report that the worker was
/// joined, an earlier signal was the request to stop and asked for the join,
/// and no earlier signal asked for the surface to be destroyed.
pub proof fn law_join_before_destroy(signals: Seq<Signal>, at: int)
    requires
        0 <= at < signals.len(),
        effect_at(signals, at) == Effect::DestroySurface,
    ensures
        signals[at] == Signal::WorkerJoined,
        exists|j: int|
            0 <= j < at && signals[j] == Signal::StopRequested && #[trigger] effect_at(signals, j)
                == Effect::JoinWorker,
        forall|j: int| 0 <= j < at ==> #[trigger] effect_at(signals, j) != Effect::DestroySurface,
{
    lemma_history(signals, at);
}

} // verus!
