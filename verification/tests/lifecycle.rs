use winbar::lifecycle::{Effect, Lifecycle, Signal};

#[test]
fn a_component_walks_through_its_phases() {
    let mut phase = Lifecycle::Registered;
    let mut effects = Vec::new();
    for signal in [
        Signal::SurfaceCreated,
        Signal::WorkerStarted,
        Signal::StopRequested,
        Signal::WorkerJoined,
    ] {
        let (next, effect) = phase.advance(signal);
        phase = next;
        effects.push(effect);
    }
    assert_eq!(phase, Lifecycle::Stopped);
    assert_eq!(
        effects,
        vec![Effect::StartWorker, Effect::Nothing, Effect::JoinWorker, Effect::DestroySurface]
    );
}

/// A runtime that carries the effects out and writes down what it did.
struct Hooks {
    phase: Lifecycle,
    worker_running: bool,
    log: Vec<&'static str>,
}

impl Hooks {
    fn take(&mut self, signal: Signal) {
        let (next, effect) = self.phase.advance(signal);
        self.phase = next;
        match effect {
            Effect::Nothing => {}
            Effect::StartWorker => {
                self.worker_running = true;
                self.log.push("worker started");
                self.take(Signal::WorkerStarted);
            }
            Effect::JoinWorker => {
                self.log.push("stop signalled");
                self.worker_running = false;
                self.log.push("worker joined");
                self.take(Signal::WorkerJoined);
            }
            Effect::DestroySurface => {
                assert!(!self.worker_running);
                self.log.push("surface destroyed");
            }
        }
    }
}

#[test]
fn the_worker_is_joined_before_the_surface_is_destroyed() {
    let mut hooks = Hooks { phase: Lifecycle::Registered, worker_running: false, log: Vec::new() };
    hooks.take(Signal::SurfaceCreated);
    assert_eq!(hooks.phase, Lifecycle::Running);
    assert!(hooks.worker_running);
    hooks.take(Signal::StopRequested);
    assert_eq!(hooks.phase, Lifecycle::Stopped);
    assert_eq!(
        hooks.log,
        vec!["worker started", "stop signalled", "worker joined", "surface destroyed"]
    );
    let joined = hooks.log.iter().position(|entry| *entry == "worker joined").unwrap();
    let destroyed = hooks.log.iter().position(|entry| *entry == "surface destroyed").unwrap();
    assert!(joined < destroyed);
}

#[test]
fn signals_out_of_turn_change_nothing() {
    let phases = [
        Lifecycle::Registered,
        Lifecycle::SurfaceCreated,
        Lifecycle::Running,
        Lifecycle::Stopping,
        Lifecycle::Stopped,
    ];
    let signals =
        [Signal::SurfaceCreated, Signal::WorkerStarted, Signal::StopRequested, Signal::WorkerJoined];
    for (rank, phase) in phases.iter().enumerate() {
        for (turn, signal) in signals.iter().enumerate() {
            let (next, effect) = phase.advance(*signal);
            if rank == turn {
                assert_eq!(next, phases[rank + 1]);
            } else {
                assert_eq!(next, *phase);
                assert_eq!(effect, Effect::Nothing);
            }
        }
    }
}

#[test]
fn the_surface_is_never_destroyed_without_a_join() {
    let mut phase = Lifecycle::Registered;
    for signal in [
        Signal::WorkerJoined,
        Signal::StopRequested,
        Signal::SurfaceCreated,
        Signal::WorkerJoined,
        Signal::WorkerStarted,
        Signal::WorkerJoined,
    ] {
        let (next, effect) = phase.advance(signal);
        assert_ne!(effect, Effect::DestroySurface);
        phase = next;
    }
    assert_eq!(phase, Lifecycle::Running);
}

#[test]
fn surface_exists_between_creation_and_join() {
    assert!(!Lifecycle::Registered.has_surface());
    assert!(Lifecycle::SurfaceCreated.has_surface());
    assert!(Lifecycle::Running.has_surface());
    assert!(Lifecycle::Stopping.has_surface());
    assert!(!Lifecycle::Stopped.has_surface());
}
