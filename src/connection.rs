use vstd::prelude::*;
use crate::mode::{ConnectionMode, uses_system_proxy, uses_tun};

verus! {

/// The two routing switches of the application's configuration; a switch that
/// was never set counts as off.
#[derive(Clone, Copy, Debug, PartialEq, Eq, Structural)]
pub struct ConnectivityFlags {
    pub enable_system_proxy: Option<bool>,
    pub enable_tun_mode: Option<bool>,
}

/// The switch values that a transition writes into the configuration.
#[derive(Clone, Copy, Debug, PartialEq, Eq, Structural)]
pub struct TargetFlags {
    pub enable_tun_mode: bool,
    pub enable_system_proxy: bool,
}

/// The connection state announced to listeners.
#[derive(Clone, Copy, Debug, PartialEq, Eq, Structural)]
pub enum ConnectionState {
    Connecting,
    Connected,
    Disconnected,
}

/// Why a transition stopped before its end.
#[derive(Clone, Copy, Debug, PartialEq, Eq, Structural)]
pub enum ToggleError {
    /// The privileged service was missing and could not be installed.
    ServiceInstall,
    /// The configuration refused the new switch values.
    ApplyFlags,
}

/// Where a transition stands.
#[derive(Clone, Copy, Debug, PartialEq, Eq, Structural)]
pub enum Phase {
    Start,
    CheckingService,
    InstallingService,
    Applying,
    Closing,
    Finished,
    Failed,
}

/// What the runner reports back after doing the work of the previous step.
#[derive(Clone, Copy, Debug, PartialEq, Eq, Structural)]
pub enum Outcome {
    /// The transition is launched.
    Start,
    /// The service availability check answered.
    ServiceChecked(bool),
    /// The service installation finished, successfully or not.
    Installed(bool),
    /// The configuration patch finished, successfully or not.
    Applied(bool),
    /// The engine's connections were closed (or the attempt was logged).
    Closed,
}

/// The work the runner is asked to do next.
#[derive(Clone, Copy, Debug, PartialEq, Eq, Structural)]
pub enum Step {
    CheckService,
    InstallService,
    ApplyFlags(TargetFlags),
    CloseConnections,
    /// Refresh the interface state and announce the final state.
    Finish(ConnectionState),
    /// Stop and report the error.
    Fail(ToggleError),
    /// Nothing to do: the outcome does not belong to the current phase.
    Idle,
}

/// One toggle or disconnect in flight.
#[derive(Clone, Copy, Debug, PartialEq, Eq, Structural)]
pub struct Transition {
    /// The switch values this transition writes.
    pub target: TargetFlags,
    /// Whether the privileged service must be present before writing them.
    pub check_service: bool,
    /// Whether this transition turns routing off.
    pub disabling: bool,
    pub phase: Phase,
}

/// Whether traffic is routed: either switch is on.
pub open spec fn connected(f: ConnectivityFlags) -> bool {
    f.enable_system_proxy == Some(true) || f.enable_tun_mode == Some(true)
}

/// Both switches off.
pub open spec fn all_off() -> TargetFlags {
    TargetFlags { enable_tun_mode: false, enable_system_proxy: false }
}

/// The switch values a toggle writes: all off when connected, else those of the mode.
pub open spec fn toggle_target(m: ConnectionMode, was_connected: bool) -> TargetFlags {
    TargetFlags {
        enable_tun_mode: !was_connected && uses_tun(m),
        enable_system_proxy: !was_connected && uses_system_proxy(m),
    }
}

/// The switches after a successful write of `t`.
pub open spec fn patched(f: ConnectivityFlags, t: TargetFlags) -> ConnectivityFlags {
    ConnectivityFlags {
        enable_system_proxy: Some(t.enable_system_proxy),
        enable_tun_mode: Some(t.enable_tun_mode),
    }
}

/// The transition a toggle launches from the switches `f` in mode `m`.
pub open spec fn toggle_transition(m: ConnectionMode, f: ConnectivityFlags) -> Transition {
    Transition {
        target: toggle_target(m, connected(f)),
        check_service: !connected(f) && uses_tun(m),
        disabling: connected(f),
        phase: Phase::Start,
    }
}

/// The transition a disconnect launches.
pub open spec fn disconnect_transition() -> Transition {
    Transition { target: all_off(), check_service: false, disabling: true, phase: Phase::Start }
}

/// The final state a transition announces when it succeeds.
pub open spec fn final_state(t: Transition) -> ConnectionState {
    if t.disabling {
        ConnectionState::Disconnected
    } else {
        ConnectionState::Connected
    }
}

/// One step of a transition: the new transition and the work to do next.
pub open spec fn next(t: Transition, o: Outcome) -> (Transition, Step) {
    let to = |p: Phase| Transition { phase: p, ..t };
    match (t.phase, o) {
        (Phase::Start, Outcome::Start) => if t.check_service {
            (to(Phase::CheckingService), Step::CheckService)
        } else {
            (to(Phase::Applying), Step::ApplyFlags(t.target))
        },
        (Phase::CheckingService, Outcome::ServiceChecked(available)) => if available {
            (to(Phase::Applying), Step::ApplyFlags(t.target))
        } else {
            (to(Phase::InstallingService), Step::InstallService)
        },
        (Phase::InstallingService, Outcome::Installed(ok)) => if ok {
            (to(Phase::Applying), Step::ApplyFlags(t.target))
        } else {
            (to(Phase::Failed), Step::Fail(ToggleError::ServiceInstall))
        },
        (Phase::Applying, Outcome::Applied(ok)) => if !ok {
            (to(Phase::Failed), Step::Fail(ToggleError::ApplyFlags))
        } else if t.disabling {
            (to(Phase::Closing), Step::CloseConnections)
        } else {
            (to(Phase::Finished), Step::Finish(final_state(t)))
        },
        (Phase::Closing, Outcome::Closed) => (to(Phase::Finished), Step::Finish(final_state(t))),
        _ => (t, Step::Idle),
    }
}

/// The transition after a series of outcomes, and the steps it asked for.
pub open spec fn run(t: Transition, os: Seq<Outcome>) -> (Transition, Seq<Step>)
    decreases os.len(),
{
    if os.len() == 0 {
        (t, Seq::empty())
    } else {
        let (t1, s) = next(t, os[0]);
        let (t2, rest) = run(t1, os.drop_first());
        (t2, seq![s] + rest)
    }
}

/// Whether traffic is routed: either switch is on.
pub fn is_connected(flags: &ConnectivityFlags) -> (r: bool)
    ensures
        r == connected(*flags),
{
    let system_proxy = match flags.enable_system_proxy {
        Some(v) => v,
        None => false,
    };
    let tun_mode = match flags.enable_tun_mode {
        Some(v) => v,
        None => false,
    };
    system_proxy || tun_mode
}

impl ConnectivityFlags {
    /// The switches after a successful write of `target`.
    pub fn patched(&self, target: TargetFlags) -> (r: ConnectivityFlags)
        ensures
            r == patched(*self, target),
    {
        ConnectivityFlags {
            enable_system_proxy: Some(target.enable_system_proxy),
            enable_tun_mode: Some(target.enable_tun_mode),
        }
    }
}

impl ConnectionState {
    /// The name carried by the state-change notification.
    pub fn label(&self) -> (r: String)
        ensures
            *self == ConnectionState::Connecting ==> r@ == "connecting"@,
            *self == ConnectionState::Connected ==> r@ == "connected"@,
            *self == ConnectionState::Disconnected ==> r@ == "disconnected"@,
    {
        match self {
            ConnectionState::Connecting => "connecting".to_owned(),
            ConnectionState::Connected => "connected".to_owned(),
            ConnectionState::Disconnected => "disconnected".to_owned(),
        }
    }
}

impl Transition {
    /// Advances the transition with the outcome of the previous step and returns
    /// the work to do next (see `next`).
    pub fn step(&mut self, outcome: Outcome) -> (r: Step)
        ensures
            (*final(self), r) == next(*old(self), outcome),
    {
        let t = *self;
        let (phase, step) = match (t.phase, outcome) {
            (Phase::Start, Outcome::Start) => if t.check_service {
                (Phase::CheckingService, Step::CheckService)
            } else {
                (Phase::Applying, Step::ApplyFlags(t.target))
            },
            (Phase::CheckingService, Outcome::ServiceChecked(available)) => if available {
                (Phase::Applying, Step::ApplyFlags(t.target))
            } else {
                (Phase::InstallingService, Step::InstallService)
            },
            (Phase::InstallingService, Outcome::Installed(ok)) => if ok {
                (Phase::Applying, Step::ApplyFlags(t.target))
            } else {
                (Phase::Failed, Step::Fail(ToggleError::ServiceInstall))
            },
            (Phase::Applying, Outcome::Applied(ok)) => if !ok {
                (Phase::Failed, Step::Fail(ToggleError::ApplyFlags))
            } else if t.disabling {
                (Phase::Closing, Step::CloseConnections)
            } else {
                (Phase::Finished, Step::Finish(ConnectionState::Connected))
            },
            (Phase::Closing, Outcome::Closed) => (Phase::Finished, Step::Finish(
                if t.disabling {
                    ConnectionState::Disconnected
                } else {
                    ConnectionState::Connected
                },
            )),
            _ => (t.phase, Step::Idle),
        };
        self.phase = phase;
        step
    }
}

/// Starts a toggle in mode `mode` from the switches `flags`: returns the state
/// to announce at once (`Connecting` when not connected) and the transition.
pub fn toggle_connection(mode: ConnectionMode, flags: &ConnectivityFlags) -> (r: (
    Option<ConnectionState>,
    Transition,
))
    ensures
        r.0 == (if connected(*flags) {
            None
        } else {
            Some(ConnectionState::Connecting)
        }),
        r.1 == toggle_transition(mode, *flags),
{
    let was_connected = is_connected(flags);
    let tun = mode.is(ConnectionMode::Tun) || mode.is(ConnectionMode::Combine);
    let proxy = mode.is(ConnectionMode::System) || mode.is(ConnectionMode::Combine);
    let transition = Transition {
        target: TargetFlags {
            enable_tun_mode: !was_connected && tun,
            enable_system_proxy: !was_connected && proxy,
        },
        check_service: !was_connected && tun,
        disabling: was_connected,
        phase: Phase::Start,
    };
    let notice = if was_connected {
        None
    } else {
        Some(ConnectionState::Connecting)
    };
    (notice, transition)
}

/// Starts turning routing off whatever the current state: returns the state to
/// announce at once and the transition.
pub fn disconnect() -> (r: (ConnectionState, Transition))
    ensures
        r.0 == ConnectionState::Connecting,
        r.1 == disconnect_transition(),
{
    let transition = Transition {
        target: TargetFlags { enable_tun_mode: false, enable_system_proxy: false },
        check_service: false,
        disabling: true,
        phase: Phase::Start,
    };
    (ConnectionState::Connecting, transition)
}

/// A settled transition (finished or failed) ignores every further outcome:
/// it asks for no more work.
pub proof fn lemma_settled_is_idle(t: Transition, os: Seq<Outcome>)
    requires
        t.phase == Phase::Finished || t.phase == Phase::Failed,
    ensures
        run(t, os).0 == t,
        run(t, os).1 == Seq::new(os.len(), |i: int| Step::Idle),
    decreases os.len(),
{
    if os.len() > 0 {
        lemma_settled_is_idle(t, os.drop_first());
        assert(run(t, os).1 =~= Seq::new(os.len(), |i: int| Step::Idle));
    }
}

/// Toggling in `Combine` mode from a disconnected state turns both switches on,
/// and the next toggle, in any mode, turns both off again.
pub proof fn lemma_toggle_combine_twice(f: ConnectivityFlags, later: ConnectionMode)
    requires
        !connected(f),
    ensures
        patched(f, toggle_transition(ConnectionMode::Combine, f).target) == (ConnectivityFlags {
            enable_system_proxy: Some(true),
            enable_tun_mode: Some(true),
        }),
        ({
            let on = patched(f, toggle_transition(ConnectionMode::Combine, f).target);
            patched(on, toggle_transition(later, on).target) == (ConnectivityFlags {
                enable_system_proxy: Some(false),
                enable_tun_mode: Some(false),
            })
        }),
{
}

/// From a disconnected state, a successful toggle in `System` mode writes the
/// system proxy switch alone, and in `Tun` mode the interface switch alone
/// (after the service check), then announces `Connected`.
pub proof fn lemma_toggle_single_modes(f: ConnectivityFlags)
    requires
        !connected(f),
    ensures
        run(
            toggle_transition(ConnectionMode::System, f),
            seq![Outcome::Start, Outcome::Applied(true)],
        ).1 == seq![
            Step::ApplyFlags(TargetFlags { enable_tun_mode: false, enable_system_proxy: true }),
            Step::Finish(ConnectionState::Connected),
        ],
        run(
            toggle_transition(ConnectionMode::Tun, f),
            seq![Outcome::Start, Outcome::ServiceChecked(true), Outcome::Applied(true)],
        ).1 == seq![
            Step::CheckService,
            Step::ApplyFlags(TargetFlags { enable_tun_mode: true, enable_system_proxy: false }),
            Step::Finish(ConnectionState::Connected),
        ],
{
    reveal_with_fuel(run, 4);
    let os = seq![Outcome::Start, Outcome::Applied(true)];
    assert(os.drop_first() =~= seq![Outcome::Applied(true)]);
    assert(os.drop_first().drop_first() =~= Seq::<Outcome>::empty());
    let ot = seq![Outcome::Start, Outcome::ServiceChecked(true), Outcome::Applied(true)];
    assert(ot.drop_first() =~= seq![Outcome::ServiceChecked(true), Outcome::Applied(true)]);
    assert(ot.drop_first().drop_first() =~= seq![Outcome::Applied(true)]);
    assert(ot.drop_first().drop_first().drop_first() =~= Seq::<Outcome>::empty());
    assert(run(toggle_transition(ConnectionMode::System, f), os).1 =~= seq![
        Step::ApplyFlags(TargetFlags { enable_tun_mode: false, enable_system_proxy: true }),
        Step::Finish(ConnectionState::Connected),
    ]);
    assert(run(toggle_transition(ConnectionMode::Tun, f), ot).1 =~= seq![
        Step::CheckService,
        Step::ApplyFlags(TargetFlags { enable_tun_mode: true, enable_system_proxy: false }),
        Step::Finish(ConnectionState::Connected),
    ]);
}

/// The successful course of a transition that turns routing off: write both
/// switches off, close the engine's connections once, announce `Disconnected`
/// once, and then ask for nothing more.
proof fn lemma_disabling_run(t: Transition, rest: Seq<Outcome>)
    requires
        t.phase == Phase::Start,
        !t.check_service,
        t.disabling,
    ensures
        run(t, seq![Outcome::Start, Outcome::Applied(true), Outcome::Closed] + rest).1
            == seq![
            Step::ApplyFlags(t.target),
            Step::CloseConnections,
            Step::Finish(ConnectionState::Disconnected),
        ] + Seq::new(rest.len(), |i: int| Step::Idle),
{
    reveal_with_fuel(run, 4);
    let os = seq![Outcome::Start, Outcome::Applied(true), Outcome::Closed] + rest;
    assert(os.drop_first() =~= seq![Outcome::Applied(true), Outcome::Closed] + rest);
    assert(os.drop_first().drop_first() =~= seq![Outcome::Closed] + rest);
    assert(os.drop_first().drop_first().drop_first() =~= rest);
    let done = Transition { phase: Phase::Finished, ..t };
    lemma_settled_is_idle(done, rest);
    assert(run(t, os).1 =~= seq![
        Step::ApplyFlags(t.target),
        Step::CloseConnections,
        Step::Finish(ConnectionState::Disconnected),
    ] + Seq::new(rest.len(), |i: int| Step::Idle));
}

/// A toggle from any connected state, in any mode, writes both switches off,
/// closes the engine's connections exactly once and announces `Disconnected`.
pub proof fn lemma_toggle_from_connected(m: ConnectionMode, f: ConnectivityFlags, rest: Seq<Outcome>)
    requires
        connected(f),
    ensures
        toggle_transition(m, f).target == all_off(),
        !connected(patched(f, all_off())),
        run(
            toggle_transition(m, f),
            seq![Outcome::Start, Outcome::Applied(true), Outcome::Closed] + rest,
        ).1 == seq![
            Step::ApplyFlags(all_off()),
            Step::CloseConnections,
            Step::Finish(ConnectionState::Disconnected),
        ] + Seq::new(rest.len(), |i: int| Step::Idle),
{
    lemma_disabling_run(toggle_transition(m, f), rest);
}

/// A disconnect, from any state, writes both switches off and, when that
/// succeeds, announces `Disconnected` exactly once.
pub proof fn lemma_disconnect(f: ConnectivityFlags, rest: Seq<Outcome>)
    ensures
        patched(f, disconnect_transition().target) == (ConnectivityFlags {
            enable_system_proxy: Some(false),
            enable_tun_mode: Some(false),
        }),
        run(
            disconnect_transition(),
            seq![Outcome::Start, Outcome::Applied(true), Outcome::Closed] + rest,
        ).1 == seq![
            Step::ApplyFlags(all_off()),
            Step::CloseConnections,
            Step::Finish(ConnectionState::Disconnected),
        ] + Seq::new(rest.len(), |i: int| Step::Idle),
{
    lemma_disabling_run(disconnect_transition(), rest);
}

/// Entering `Tun` or `Combine` from a disconnected state when the service is
/// missing and cannot be installed writes no switch and announces no state.
pub proof fn lemma_install_failure(m: ConnectionMode, f: ConnectivityFlags, rest: Seq<Outcome>)
    requires
        !connected(f),
        uses_tun(m),
    ensures
        run(
            toggle_transition(m, f),
            seq![Outcome::Start, Outcome::ServiceChecked(false), Outcome::Installed(false)] + rest,
        ).1 == seq![
            Step::CheckService,
            Step::InstallService,
            Step::Fail(ToggleError::ServiceInstall),
        ] + Seq::new(rest.len(), |i: int| Step::Idle),
{
    reveal_with_fuel(run, 4);
    let t = toggle_transition(m, f);
    let os = seq![Outcome::Start, Outcome::ServiceChecked(false), Outcome::Installed(false)] + rest;
    assert(os.drop_first() =~= seq![Outcome::ServiceChecked(false), Outcome::Installed(false)]
        + rest);
    assert(os.drop_first().drop_first() =~= seq![Outcome::Installed(false)] + rest);
    assert(os.drop_first().drop_first().drop_first() =~= rest);
    let failed = Transition { phase: Phase::Failed, ..t };
    lemma_settled_is_idle(failed, rest);
    assert(run(t, os).1 =~= seq![
        Step::CheckService,
        Step::InstallService,
        Step::Fail(ToggleError::ServiceInstall),
    ] + Seq::new(rest.len(), |i: int| Step::Idle));
}

} // verus!
