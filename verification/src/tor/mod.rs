//! Tor connectivity for QxChat.
//!
//! An opt-in "connect over Tor" mode: an embedded Tor client exposes a local
//! SOCKS5 port and the WebView's traffic is routed through it. This module holds
//! the managed run-state and decides, for each command and each report from the
//! engine, how the state changes and which effects the application performs
//! (persisting the boot preference, flipping the engine, configuring the
//! WebView proxy, emitting `tor:status`).

pub mod engine;
pub mod geo;
pub mod socks;
pub mod relays;
pub mod port;
pub mod history;

use vstd::prelude::*;
use crate::tor::engine::{CircuitPath, HopFacts, Stage, StageView, opt_path, resolved_circuit};
use crate::tor::geo::{GeoInfo, GeoInfoView};

verus! {


/// Lifecycle state of the embedded Tor client.
#[derive(Clone, Copy, PartialEq, Eq, Debug, Structural)]
pub enum TorPhase {
    /// Not started.
    Idle,
    /// The client is fetching its consensus; the network is not usable yet.
    Bootstrapping,
    /// Bootstrap finished and the SOCKS listener accepts connections.
    Ready,
    /// Bootstrap or startup failed.
    Error,
}

/// The wire name of a phase.
pub open spec fn phase_name(p: TorPhase) -> Seq<char> {
    match p {
        TorPhase::Idle => "idle"@,
        TorPhase::Bootstrapping => "bootstrapping"@,
        TorPhase::Ready => "ready"@,
        TorPhase::Error => "error"@,
    }
}

impl TorPhase {
    pub fn as_str(&self) -> (s: &'static str)
        ensures
            s@ == phase_name(*self),
    {
        match self {
            TorPhase::Idle => "idle",
            TorPhase::Bootstrapping => "bootstrapping",
            TorPhase::Ready => "ready",
            TorPhase::Error => "error",
        }
    }
}


/// The default SOCKS5 port Tor exposes locally.
pub const DEFAULT_SOCKS_PORT: u16 = 9050;

/// Serializable status snapshot returned by `status` and emitted on changes.
pub struct TorStatus {
    pub running: bool,
    pub port: u16,
    pub phase: &'static str,
    /// Where the traffic is actually routed: `embedded` (our own Tor client, with
    /// a live circuit to display), `external` (a foreign Tor already bound to the
    /// port), or `none`.
    pub mode: &'static str,
    /// Present only during the `error` phase.
    pub error: Option<String>,
}

pub struct TorStatusView {
    pub running: bool,
    pub port: u16,
    pub phase: Seq<char>,
    pub mode: Seq<char>,
    pub error: Option<Seq<char>>,
}

impl View for TorStatus {
    type V = TorStatusView;

    open spec fn view(&self) -> TorStatusView {
        TorStatusView {
            running: self.running,
            port: self.port,
            phase: self.phase@,
            mode: self.mode@,
            error: crate::tor::engine::opt_chars(self.error),
        }
    }
}

/// An effect that the application performs for a state change, in order.
#[derive(Clone, Copy, PartialEq, Eq, Debug, Structural)]
pub enum TorAction {
    /// Persist the boot-time preference (the `tor-enabled` marker).
    PersistEnabled(bool),
    /// Ask the engine to bootstrap the Tor client; it reports back with
    /// `bootstrap_ready` or `bootstrap_failed`, and routes through Tor only when
    /// `bootstrap_ready` says so.
    EnableTor,
    /// Flip the engine's proxy back to direct (passthrough).
    DisableTor,
    /// Watch the stage and emit `tor:status` until it settles (port given).
    WatchPhase(u16),
    /// Point the OS WebView proxy at `127.0.0.1:{port}`; a failure is only logged.
    ApplyProxy(u16),
    /// Restore direct WebView connectivity; a failure is ignored.
    ClearProxy,
    /// Emit `tor:status` with the transition's status.
    EmitStatus,
    /// Relaunch the application so the WebView picks up the proxy state.
    Restart,
    /// Start the permanent SOCKS5 proxy on this port; report with `proxy_spawned`,
    /// and later failures of the proxy with `proxy_failed`.
    SpawnProxy(u16),
    /// Ask the user what to do about a foreign Tor holding the port.
    AskPortConflict,
    /// Kill the process listening on this port; report with `port_freed`.
    KillPortOwner(u16),
    /// Quit the application with this code.
    Exit(i32),
}

/// The status after a command, and the effects to perform.
pub struct TorTransition {
    pub status: TorStatus,
    pub actions: Vec<TorAction>,
}

/// The user's answer to a port conflict with a foreign Tor.
#[derive(Clone, Copy, PartialEq, Eq, Debug, Structural)]
pub enum ConflictChoice {
    /// Route traffic through the existing Tor (no live circuit view).
    UseNode,
    /// Stop that process and start our own embedded Tor.
    KillNode,
    /// Close the application.
    Quit,
}

/// Shared, managed run-state for the Tor client.
pub struct TorState {
    port: u16,
    /// The engine's lifecycle stage (phase, error, latest circuit), once there is one.
    stage: Option<Stage>,
    /// A foreign Tor already bound to our SOCKS5 port is being reused.
    external: bool,
    /// The permanent proxy engine is running.
    engine: bool,
    /// Short-lived cache of the geo lookup: when it was made (milliseconds on a
    /// monotonic clock) and its result.
    geo_cache: Option<(u64, GeoInfo)>,
}

pub struct TorStateView {
    pub port: u16,
    pub stage: Option<StageView>,
    pub external: bool,
    pub engine: bool,
    pub geo_cache: Option<(u64, GeoInfoView)>,
}

impl View for TorState {
    type V = TorStateView;

    closed spec fn view(&self) -> TorStateView {
        TorStateView {
            port: self.port,
            stage: match self.stage {
                Some(st) => Some(st@),
                None => None,
            },
            external: self.external,
            engine: self.engine,
            geo_cache: match self.geo_cache {
                Some((at, info)) => Some((at, info@)),
                None => None,
            },
        }
    }
}

/// The phase of the state's stage; `Idle` before there is one.
pub open spec fn phase_of(s: TorStateView) -> TorPhase {
    match s.stage {
        Some(st) => st.phase,
        None => TorPhase::Idle,
    }
}

/// Tor counts as running while bootstrapping or ready.
pub open spec fn running_in(p: TorPhase) -> bool {
    p == TorPhase::Ready || p == TorPhase::Bootstrapping
}

pub open spec fn mode_name(s: TorStateView) -> Seq<char> {
    if s.external {
        "external"@
    } else if running_in(phase_of(s)) {
        "embedded"@
    } else {
        "none"@
    }
}

/// The status snapshot of a state.
pub open spec fn status_of(s: TorStateView) -> TorStatusView {
    TorStatusView {
        running: running_in(phase_of(s)),
        port: s.port,
        phase: phase_name(phase_of(s)),
        mode: mode_name(s),
        error: if phase_of(s) == TorPhase::Error {
            match s.stage {
                Some(st) => st.error,
                None => None,
            }
        } else {
            None
        },
    }
}

pub open spec fn requested_port(port: Option<u16>) -> u16 {
    match port {
        Some(p) => p,
        None => DEFAULT_SOCKS_PORT,
    }
}

/// The state after `start`: unchanged when already running; otherwise the
/// requested port is recorded and the stage (if any) is set bootstrapping with
/// its error cleared.
pub open spec fn started(s: TorStateView, port: Option<u16>) -> TorStateView {
    if running_in(phase_of(s)) {
        s
    } else {
        TorStateView {
            port: requested_port(port),
            stage: match s.stage {
                Some(st) => Some(StageView { phase: TorPhase::Bootstrapping, error: None, ..st }),
                None => None,
            },
            ..s
        }
    }
}

/// The effects of `start`: none when already running; otherwise persist the
/// preference, bootstrap and watch (only with an engine and a stage), apply the
/// WebView proxy, emit the status.
pub open spec fn start_effects(s: TorStateView, port: Option<u16>) -> Seq<TorAction> {
    if running_in(phase_of(s)) {
        seq![]
    } else {
        let p = requested_port(port);
        seq![TorAction::PersistEnabled(true)] + (if s.engine && s.stage is Some {
            seq![TorAction::EnableTor, TorAction::WatchPhase(p)]
        } else {
            seq![]
        }) + seq![TorAction::ApplyProxy(p), TorAction::EmitStatus]
    }
}

/// The state after `stop`: the stage (if any) goes idle with its error cleared.
pub open spec fn stopped(s: TorStateView) -> TorStateView {
    TorStateView {
        stage: match s.stage {
            Some(st) => Some(StageView { phase: TorPhase::Idle, error: None, ..st }),
            None => None,
        },
        ..s
    }
}

/// The effects of `stop`: flip the engine to direct (if there is one), clear
/// the WebView proxy, persist "disabled", emit the status.
pub open spec fn stop_effects(s: TorStateView) -> Seq<TorAction> {
    (if s.engine {
        seq![TorAction::DisableTor]
    } else {
        seq![]
    }) + seq![TorAction::ClearProxy, TorAction::PersistEnabled(false), TorAction::EmitStatus]
}

/// The state after adopting a foreign Tor: external mode, with a stage that is
/// ready (a fresh one when there was none).
pub open spec fn adopted(s: TorStateView) -> TorStateView {
    TorStateView {
        external: true,
        stage: Some(
            match s.stage {
                Some(st) => StageView { phase: TorPhase::Ready, ..st },
                None => StageView { phase: TorPhase::Ready, error: None, circuit: None },
            },
        ),
        ..s
    }
}

/// The state after the engine reports a finished bootstrap: a bootstrapping
/// stage becomes ready; in any other phase (a stop came first, or the report is
/// stale) nothing changes.
pub open spec fn bootstrapped(s: TorStateView) -> TorStateView {
    match s.stage {
        Some(st) => if st.phase == TorPhase::Bootstrapping {
            TorStateView { stage: Some(StageView { phase: TorPhase::Ready, ..st }), ..s }
        } else {
            s
        },
        None => s,
    }
}

/// The state after the engine reports a failed bootstrap: a bootstrapping stage
/// records the error phase and the message; in any other phase nothing changes.
pub open spec fn failed(s: TorStateView, message: Seq<char>) -> TorStateView {
    match s.stage {
        Some(st) => if st.phase == TorPhase::Bootstrapping {
            TorStateView {
                stage: Some(StageView { phase: TorPhase::Error, error: Some(message), ..st }),
                ..s
            }
        } else {
            s
        },
        None => s,
    }
}

/// The state after the permanent proxy itself fails (its runtime or its
/// listener): whatever the phase, the stage records the error and the message.
pub open spec fn proxy_broken(s: TorStateView, message: Seq<char>) -> TorStateView {
    match s.stage {
        Some(st) => TorStateView {
            stage: Some(StageView { phase: TorPhase::Error, error: Some(message), ..st }),
            ..s
        },
        None => s,
    }
}

/// The state after the permanent proxy was started (`spawned`) or failed to
/// start: on success the engine is recorded with a fresh idle stage; a failure
/// changes nothing.
pub open spec fn proxy_started(s: TorStateView, spawned: bool) -> TorStateView {
    if spawned {
        TorStateView {
            engine: true,
            stage: Some(StageView { phase: TorPhase::Idle, error: None, circuit: None }),
            ..s
        }
    } else {
        s
    }
}

/// The state after the circuit of a fresh stream is published: the stage (if
/// any) keeps the resolved circuit; a circuit that does not resolve changes
/// nothing.
pub open spec fn circuit_published(s: TorStateView, entries: Seq<Option<HopFacts>>) -> TorStateView {
    match s.stage {
        Some(st) => match resolved_circuit(entries) {
            Some(c) => TorStateView { stage: Some(StageView { circuit: Some(c), ..st }), ..s },
            None => s,
        },
        None => s,
    }
}

/// The initial state: default port, no stage, no engine, not external.
pub open spec fn initial_state() -> TorStateView {
    TorStateView { port: DEFAULT_SOCKS_PORT, stage: None, external: false, engine: false, geo_cache: None }
}

impl Default for TorState {
    /// The initial state: default port, no stage, no engine, not external.
    fn default() -> (r: TorState)
        ensures
            r@ == initial_state(),
    {
        TorState { port: DEFAULT_SOCKS_PORT, stage: None, external: false, engine: false, geo_cache: None }
    }
}

impl TorState {
    /// The engine's stage, once there is one.
    pub fn stage(&self) -> (r: Option<&Stage>)
        ensures
            match r {
                Some(st) => self@.stage == Some(st@),
                None => self@.stage is None,
            },
    {
        match &self.stage {
            Some(st) => Some(st),
            None => None,
        }
    }

    pub fn phase(&self) -> (r: TorPhase)
        ensures
            r == phase_of(self@),
    {
        match &self.stage {
            Some(st) => st.phase(),
            None => TorPhase::Idle,
        }
    }

    pub fn is_running(&self) -> (r: bool)
        ensures
            r == running_in(phase_of(self@)),
    {
        let p = self.phase();
        p == TorPhase::Ready || p == TorPhase::Bootstrapping
    }

    /// Whether Tor is active (for the tray and the app setup).
    pub fn running(&self) -> (r: bool)
        ensures
            r == running_in(phase_of(self@)),
    {
        self.is_running()
    }

    pub fn current_port(&self) -> (r: u16)
        ensures
            r == self@.port,
    {
        self.port
    }

    /// The configured SOCKS port.
    pub fn port(&self) -> (r: u16)
        ensures
            r == self@.port,
    {
        self.current_port()
    }

    /// The status snapshot.
    pub fn as_status(&self) -> (r: TorStatus)
        ensures
            r@ == status_of(self@),
    {
        let phase = self.phase();
        let error = match &self.stage {
            Some(st) => st.error(),
            None => None,
        };
        let running = self.is_running();
        let mode: &'static str = if self.external {
            "external"
        } else if running {
            "embedded"
        } else {
            "none"
        };
        TorStatus {
            running,
            port: self.current_port(),
            phase: phase.as_str(),
            mode,
            error: if phase == TorPhase::Error {
                error
            } else {
                None
            },
        }
    }

    /// Marks whether a foreign Tor is being reused (external mode).
    pub fn set_external(&mut self, value: bool)
        ensures
            final(self)@ == (TorStateView { external: value, ..old(self)@ }),
    {
        self.external = value;
    }

    pub fn is_external(&self) -> (r: bool)
        ensures
            r == self@.external,
    {
        self.external
    }

    /// Starts Tor (the `start` command and the tray): nothing happens when it is
    /// already running; otherwise see [`started`] and [`start_effects`].
    pub fn start_tor(&mut self, port: Option<u16>) -> (r: TorTransition)
        ensures
            final(self)@ == started(old(self)@, port),
            r.actions@ == start_effects(old(self)@, port),
            r.status@ == status_of(final(self)@),
    {
        if self.is_running() {
            return TorTransition { status: self.as_status(), actions: Vec::new() };
        }
        let requested = match port {
            Some(p) => p,
            None => DEFAULT_SOCKS_PORT,
        };
        self.port = requested;
        let mut actions: Vec<TorAction> = Vec::new();
        actions.push(TorAction::PersistEnabled(true));
        let has_stage = match &mut self.stage {
            Some(st) => {
                st.set_error(None);
                st.set_phase(TorPhase::Bootstrapping);
                true
            },
            None => false,
        };
        if self.engine && has_stage {
            actions.push(TorAction::EnableTor);
            actions.push(TorAction::WatchPhase(requested));
        }
        actions.push(TorAction::ApplyProxy(requested));
        actions.push(TorAction::EmitStatus);
        proof {
            assert(actions@ =~= start_effects(old(self)@, port));
        }
        TorTransition { status: self.as_status(), actions }
    }

    /// Stops Tor (the `stop` command and the tray): the engine goes back to
    /// direct, the stage goes idle; see [`stopped`] and [`stop_effects`]. The
    /// proxy itself keeps running so the WebView never points at a dead port.
    pub fn stop_tor(&mut self) -> (r: TorTransition)
        ensures
            final(self)@ == stopped(old(self)@),
            r.actions@ == stop_effects(old(self)@),
            r.status@ == status_of(final(self)@),
    {
        let mut actions: Vec<TorAction> = Vec::new();
        if self.engine {
            actions.push(TorAction::DisableTor);
        }
        match &mut self.stage {
            Some(st) => {
                st.set_phase(TorPhase::Idle);
                st.set_error(None);
            },
            None => {},
        }
        actions.push(TorAction::ClearProxy);
        actions.push(TorAction::PersistEnabled(false));
        actions.push(TorAction::EmitStatus);
        proof {
            assert(actions@ =~= stop_effects(old(self)@));
        }
        TorTransition { status: self.as_status(), actions }
    }

    /// The user-facing toggle (Settings and tray): start or stop, then relaunch
    /// the application so the WebView is recreated with the right proxy.
    pub fn toggle_tor(&mut self, enabled: bool, port: Option<u16>) -> (r: TorTransition)
        ensures
            final(self)@ == (if enabled { started(old(self)@, port) } else { stopped(old(self)@) }),
            r.actions@ == (if enabled {
                start_effects(old(self)@, port)
            } else {
                stop_effects(old(self)@)
            }).push(TorAction::Restart),
            r.status@ == status_of(final(self)@),
    {
        let mut t = if enabled {
            self.start_tor(port)
        } else {
            self.stop_tor()
        };
        t.actions.push(TorAction::Restart);
        t
    }

    /// The engine finished bootstrapping. Only a stage that is still
    /// bootstrapping becomes ready; after a stop (or any other change) the late
    /// report is ignored. Returns whether the engine may now route through Tor.
    pub fn bootstrap_ready(&mut self) -> (routed: bool)
        ensures
            final(self)@ == bootstrapped(old(self)@),
            routed == (phase_of(old(self)@) == TorPhase::Bootstrapping),
    {
        match &mut self.stage {
            Some(st) => {
                if st.phase() == TorPhase::Bootstrapping {
                    st.set_phase(TorPhase::Ready);
                    true
                } else {
                    false
                }
            },
            None => false,
        }
    }

    /// The engine failed to bootstrap. Only a stage that is still bootstrapping
    /// records the error phase and the message; a late report after a stop is
    /// ignored.
    pub fn bootstrap_failed(&mut self, message: String)
        ensures
            final(self)@ == failed(old(self)@, message@),
    {
        match &mut self.stage {
            Some(st) => {
                if st.phase() == TorPhase::Bootstrapping {
                    st.set_phase(TorPhase::Error);
                    st.set_error(Some(message));
                }
            },
            None => {},
        }
    }

    /// The permanent proxy failed (its runtime or its listener): the stage
    /// records the error phase and the message, whatever the phase was.
    pub fn proxy_failed(&mut self, message: String)
        ensures
            final(self)@ == proxy_broken(old(self)@, message@),
    {
        match &mut self.stage {
            Some(st) => {
                st.set_phase(TorPhase::Error);
                st.set_error(Some(message));
            },
            None => {},
        }
    }

    /// What to do at plugin setup: with a foreign SOCKS5 proxy already on the
    /// port, ask the user; otherwise start the permanent proxy.
    pub fn boot(&self, foreign_proxy: bool) -> (r: Vec<TorAction>)
        ensures
            r@ == (if foreign_proxy {
                seq![TorAction::AskPortConflict]
            } else {
                seq![TorAction::SpawnProxy(self@.port)]
            }),
    {
        let mut r: Vec<TorAction> = Vec::new();
        if foreign_proxy {
            r.push(TorAction::AskPortConflict);
        } else {
            r.push(TorAction::SpawnProxy(self.port));
        }
        proof {
            assert(r@ =~= (if foreign_proxy {
                seq![TorAction::AskPortConflict]
            } else {
                seq![TorAction::SpawnProxy(self@.port)]
            }));
        }
        r
    }

    /// The permanent proxy was started (`spawned`) or failed to start: on
    /// success the engine is recorded with a fresh idle stage; a failure changes
    /// nothing (it is only logged).
    pub fn proxy_spawned(&mut self, spawned: bool)
        ensures
            final(self)@ == proxy_started(old(self)@, spawned),
    {
        if spawned {
            self.engine = true;
            self.stage = Some(Stage::new(TorPhase::Idle));
        }
    }

    /// After the proxy is up: start Tor when the persisted preference says so.
    pub fn autostart(&mut self, tor_enabled: bool) -> (r: Option<TorTransition>)
        ensures
            tor_enabled ==> final(self)@ == started(old(self)@, None),
            tor_enabled ==> (r matches Some(t) && t.actions@ == start_effects(old(self)@, None)
                && t.status@ == status_of(final(self)@)),
            !tor_enabled ==> final(self)@ == old(self)@ && r is None,
    {
        if tor_enabled {
            Some(self.start_tor(None))
        } else {
            None
        }
    }

    fn adopt_foreign(&mut self, persist: bool) -> (r: TorTransition)
        ensures
            final(self)@ == adopted(old(self)@),
            r.actions@ == (if persist {
                seq![TorAction::PersistEnabled(true), TorAction::EmitStatus]
            } else {
                seq![TorAction::EmitStatus]
            }),
            r.status@ == status_of(final(self)@),
    {
        self.external = true;
        match &mut self.stage {
            Some(st) => st.set_phase(TorPhase::Ready),
            None => {
                self.stage = Some(Stage::new(TorPhase::Ready));
            },
        }
        let mut actions: Vec<TorAction> = Vec::new();
        if persist {
            actions.push(TorAction::PersistEnabled(true));
        }
        actions.push(TorAction::EmitStatus);
        proof {
            assert(actions@ =~= (if persist {
                seq![TorAction::PersistEnabled(true), TorAction::EmitStatus]
            } else {
                seq![TorAction::EmitStatus]
            }));
        }
        TorTransition { status: self.as_status(), actions }
    }

    /// Applies the user's answer to a port conflict: reuse the foreign Tor
    /// (external mode, ready, preference persisted), kill it (the owner of the
    /// default port), or quit.
    pub fn resolve_conflict(&mut self, choice: ConflictChoice) -> (r: TorTransition)
        ensures
            choice == ConflictChoice::UseNode ==> final(self)@ == adopted(old(self)@) && r.actions@
                == seq![TorAction::PersistEnabled(true), TorAction::EmitStatus],
            choice == ConflictChoice::KillNode ==> final(self)@ == old(self)@ && r.actions@
                == seq![TorAction::KillPortOwner(DEFAULT_SOCKS_PORT)],
            choice == ConflictChoice::Quit ==> final(self)@ == old(self)@ && r.actions@ == seq![
                TorAction::Exit(0),
            ],
            r.status@ == status_of(final(self)@),
    {
        match choice {
            ConflictChoice::UseNode => self.adopt_foreign(true),
            ConflictChoice::KillNode => {
                let mut actions: Vec<TorAction> = Vec::new();
                actions.push(TorAction::KillPortOwner(DEFAULT_SOCKS_PORT));
                proof {
                    assert(actions@ =~= seq![TorAction::KillPortOwner(DEFAULT_SOCKS_PORT)]);
                }
                TorTransition { status: self.as_status(), actions }
            },
            ConflictChoice::Quit => {
                let mut actions: Vec<TorAction> = Vec::new();
                actions.push(TorAction::Exit(0));
                proof {
                    assert(actions@ =~= seq![TorAction::Exit(0)]);
                }
                TorTransition { status: self.as_status(), actions }
            },
        }
    }

    /// The foreign process was killed (`freed`) or could not be: on success start
    /// our own proxy; on failure keep routing through the foreign proxy (external
    /// mode, ready) without persisting anything.
    pub fn port_freed(&mut self, freed: bool) -> (r: TorTransition)
        ensures
            freed ==> final(self)@ == old(self)@ && r.actions@ == seq![TorAction::SpawnProxy(old(self)@.port)],
            !freed ==> final(self)@ == adopted(old(self)@) && r.actions@ == seq![TorAction::EmitStatus],
            r.status@ == status_of(final(self)@),
    {
        if freed {
            let mut actions: Vec<TorAction> = Vec::new();
            actions.push(TorAction::SpawnProxy(self.port));
            proof {
                assert(actions@ =~= seq![TorAction::SpawnProxy(old(self)@.port)]);
            }
            TorTransition { status: self.as_status(), actions }
        } else {
            self.adopt_foreign(false)
        }
    }

    /// What the `relays` command fetches with: the SOCKS port and the clamped
    /// limit, or an error while Tor is not running (the request could only fail).
    pub fn relays_request(&self, limit: Option<usize>) -> (r: Result<(u16, usize), String>)
        ensures
            running_in(phase_of(self@)) ==> r == Ok::<(u16, usize), String>((self@.port, relay_limit(limit))),
            !running_in(phase_of(self@)) ==> (r matches Err(e) && e@ == NOT_RUNNING_MESSAGE@),
    {
        if !self.is_running() {
            return Err(crate::text::owned(NOT_RUNNING_MESSAGE));
        }
        Ok((self.current_port(), clamp_relay_limit(limit)))
    }

    /// The circuit the `circuit` command shows: only for our own running Tor
    /// client (a foreign Tor exposes no circuit).
    pub fn visible_circuit(&self) -> (r: Option<CircuitPath>)
        ensures
            opt_path(r) == (if !running_in(phase_of(self@)) || self@.external {
                None
            } else {
                match self@.stage {
                    Some(st) => st.circuit,
                    None => None,
                }
            }),
    {
        if !self.is_running() || self.is_external() {
            return None;
        }
        match &self.stage {
            Some(st) => st.circuit(),
            None => None,
        }
    }

    /// The cached geo lookup, when it is younger than [`GEO_CACHE_TTL_MS`] at
    /// `now_ms` (same monotonic clock as [`TorState::store_geo`]).
    pub fn cached_geo(&self, now_ms: u64) -> (r: Option<GeoInfo>)
        ensures
            match r {
                Some(g) => self@.geo_cache matches Some((at, info)) && cache_fresh(at, now_ms) && g@ == info,
                None => !(self@.geo_cache matches Some((at, info)) && cache_fresh(at, now_ms)),
            },
    {
        match &self.geo_cache {
            Some((at, info)) => {
                let elapsed = if now_ms >= *at { now_ms - *at } else { 0 };
                if elapsed < GEO_CACHE_TTL_MS {
                    Some(info.duplicate())
                } else {
                    None
                }
            },
            None => None,
        }
    }

    /// Stores the circuit of a fresh stream on the stage (see
    /// [`crate::tor::engine::publish_circuit`]); without a stage, or when the
    /// circuit does not resolve, nothing changes.
    pub fn publish_circuit(&mut self, entries: &Vec<Option<HopFacts>>)
        ensures
            final(self)@ == circuit_published(old(self)@, entries@),
    {
        match &mut self.stage {
            Some(st) => crate::tor::engine::publish_circuit(st, entries),
            None => {},
        }
    }

    /// Caches a fresh geo lookup made at `now_ms`.
    pub fn store_geo(&mut self, now_ms: u64, info: GeoInfo)
        ensures
            final(self)@ == (TorStateView { geo_cache: Some((now_ms, info@)), ..old(self)@ }),
    {
        self.geo_cache = Some((now_ms, info));
    }
}

/// The message of the `relays` command while Tor is not running.
pub const NOT_RUNNING_MESSAGE: &'static str = "Tor is not running. Start Tor before loading the relay directory.";

/// How long a geo lookup is served from the cache.
pub const GEO_CACHE_TTL_MS: u64 = 300_000;

/// A lookup made at `at` is still fresh at `now` (a clock that went backwards
/// counts as no time elapsed).
pub open spec fn cache_fresh(at: u64, now: u64) -> bool {
    (if now >= at { now - at } else { 0 }) < GEO_CACHE_TTL_MS
}

/// The relay limit: 100 by default, clamped to 1..=500.
pub open spec fn relay_limit(limit: Option<usize>) -> usize {
    let l = match limit {
        Some(l) => l,
        None => 100,
    };
    if l < 1 {
        1
    } else if l > 500 {
        500
    } else {
        l
    }
}

pub fn clamp_relay_limit(limit: Option<usize>) -> (r: usize)
    ensures
        r == relay_limit(limit),
        1 <= r <= 500,
{
    let l = match limit {
        Some(l) => l,
        None => 100,
    };
    if l < 1 {
        1
    } else if l > 500 {
        500
    } else {
        l
    }
}

/// What the phase watcher emits for a stage, and whether it is done (the stage
/// settled on ready or error; the watcher re-emits until then).
pub struct WatchReport {
    pub status: TorStatus,
    pub finished: bool,
}

/// One tick of the phase watcher (`spawn_phase_watcher`): the status for the
/// embedded client on `port`, carrying the error only in the error phase.
pub fn watch_report(stage: &Stage, port: u16) -> (r: WatchReport)
    ensures
        r.status@ == (TorStatusView {
            running: running_in(stage@.phase),
            port,
            phase: phase_name(stage@.phase),
            mode: "embedded"@,
            error: if stage@.phase == TorPhase::Error { stage@.error } else { None },
        }),
        r.finished == (stage@.phase == TorPhase::Ready || stage@.phase == TorPhase::Error),
{
    let current = stage.phase();
    let status = TorStatus {
        running: current == TorPhase::Ready || current == TorPhase::Bootstrapping,
        port,
        phase: current.as_str(),
        mode: "embedded",
        error: if current == TorPhase::Error {
            stage.error()
        } else {
            None
        },
    };
    WatchReport { status, finished: current == TorPhase::Ready || current == TorPhase::Error }
}

/// The SOCKS5 proxy URI the WebView is pointed at.
pub open spec fn proxy_uri_of(port: u16) -> Seq<char> {
    "socks5://127.0.0.1:"@ + crate::text::nat_text(port as nat)
}

/// `socks5://127.0.0.1:{port}` (the Linux WebView proxy setting).
pub fn webview_proxy_uri(port: u16) -> (r: String)
    ensures
        r@ == proxy_uri_of(port),
{
    let mut s = crate::text::owned("socks5://127.0.0.1:");
    s.append(crate::text::decimal(port as u64).as_str());
    s
}

/// `--proxy-server=socks5://127.0.0.1:{port}` (the Windows WebView browser
/// argument, fixed when the window is created).
pub fn webview_proxy_arg(port: u16) -> (r: String)
    ensures
        r@ == "--proxy-server="@ + proxy_uri_of(port),
{
    let mut s = crate::text::owned("--proxy-server=");
    s.append(webview_proxy_uri(port).as_str());
    s
}

/// The contents of the boot-time marker file for a preference.
pub open spec fn marker_of(enabled: bool) -> Seq<u8> {
    if enabled { seq![0x31u8] } else { seq![0x30u8] }
}

/// A marker enables Tor at boot only when it holds exactly `"1"`; a missing or
/// unreadable file reads as disabled.
pub open spec fn marker_says_enabled(contents: Option<Seq<u8>>) -> bool {
    contents == Some(seq![0x31u8])
}

/// The bytes written to the marker (`write_tor_enabled`).
pub fn marker_bytes(enabled: bool) -> (r: Vec<u8>)
    ensures
        r@ == marker_of(enabled),
{
    let mut v: Vec<u8> = Vec::new();
    v.push(if enabled { 0x31u8 } else { 0x30u8 });
    proof {
        assert(v@ =~= marker_of(enabled));
    }
    v
}

/// Reads the marker contents (`read_tor_enabled`; `None` when the file could
/// not be read).
pub fn marker_enabled(contents: Option<&[u8]>) -> (r: bool)
    ensures
        r == marker_says_enabled(match contents {
            Some(b) => Some(b@),
            None => None,
        }),
{
    match contents {
        Some(b) => {
            if b.len() == 1 && b[0] == 0x31u8 {
                assert(b@ =~= seq![0x31u8]);
                true
            } else {
                false
            }
        },
        None => false,
    }
}

// ----- laws -------------------------------------------------------------------

/// The status is consistent with the state: `running` exactly while
/// bootstrapping or ready, the phase name of the current phase, the configured
/// port, an error only in the error phase, and `external` mode exactly when a
/// foreign Tor is reused.
pub proof fn status_reflects_state(s: TorStateView)
    ensures
        status_of(s).running == (phase_of(s) == TorPhase::Ready || phase_of(s) == TorPhase::Bootstrapping),
        status_of(s).phase == phase_name(phase_of(s)),
        status_of(s).port == s.port,
        status_of(s).error is Some ==> phase_of(s) == TorPhase::Error,
        s.external ==> status_of(s).mode == "external"@,
        !s.external && status_of(s).running ==> status_of(s).mode == "embedded"@,
        !s.external && !status_of(s).running ==> status_of(s).mode == "none"@,
{
}

/// Starting an already running Tor changes nothing and has no effects; once
/// there is a stage, a second start right after a first one is such a no-op.
pub proof fn start_is_idempotent(s: TorStateView, port: Option<u16>, again: Option<u16>)
    ensures
        running_in(phase_of(s)) ==> started(s, port) == s && start_effects(s, port).len() == 0,
        s.stage is Some ==> started(started(s, port), again) == started(s, port) && start_effects(
            started(s, port),
            again,
        ).len() == 0,
{
}

/// After a start (with a stage) Tor is running on the requested port, in the
/// bootstrapping phase with no error; after a stop it is not running.
pub proof fn start_runs_and_stop_halts(s: TorStateView, port: Option<u16>)
    ensures
        !running_in(phase_of(s)) && s.stage is Some ==> phase_of(started(s, port)) == TorPhase::Bootstrapping
            && started(s, port).port == requested_port(port) && status_of(started(s, port)).error is None,
        !running_in(phase_of(stopped(s))),
        status_of(stopped(s)).error is None,
        stopped(s).port == s.port,
{
}

/// The toggle leaves Tor running exactly when it was asked to enable it (given
/// a stage).
pub proof fn toggle_sets_running(s: TorStateView, enabled: bool, port: Option<u16>)
    requires
        s.stage is Some,
    ensures
        running_in(phase_of(if enabled { started(s, port) } else { stopped(s) })) == enabled,
{
}

/// A bootstrap that finishes after a start leaves Tor ready and running; a
/// failure leaves it in the error phase, not running, with the message in the
/// status.
pub proof fn bootstrap_outcome_reaches_status(s: TorStateView, port: Option<u16>, message: Seq<char>)
    requires
        s.stage is Some,
        !running_in(phase_of(s)),
    ensures
        phase_of(bootstrapped(started(s, port))) == TorPhase::Ready,
        status_of(bootstrapped(started(s, port))).running,
        !status_of(failed(started(s, port), message)).running,
        status_of(failed(started(s, port), message)).error == Some(message),
{
}

/// A stop is not undone by a bootstrap that finishes or fails afterwards: the
/// late report leaves the stopped state as it is (idle, not running, no error),
/// and `bootstrap_ready` answers that the engine may not route through Tor.
pub proof fn late_bootstrap_report_keeps_stop(s: TorStateView, message: Seq<char>)
    ensures
        bootstrapped(stopped(s)) == stopped(s),
        failed(stopped(s), message) == stopped(s),
        phase_of(bootstrapped(stopped(s))) == TorPhase::Idle,
        phase_of(failed(stopped(s), message)) == TorPhase::Idle,
        phase_of(stopped(s)) != TorPhase::Bootstrapping,
        !status_of(bootstrapped(stopped(s))).running,
        status_of(failed(stopped(s), message)).error is None,
{
}

/// What a start and a stop make the application do. A start from a stopped
/// Tor first persists "enabled", asks the engine to bootstrap and watches the
/// requested port (9050 by default) exactly when there is an engine with a
/// stage, points the WebView proxy at that port, and emits the status last; it
/// never disables or clears anything. A stop turns the engine back to direct
/// routing first (exactly when there is an engine), clears the WebView proxy,
/// persists "disabled" and emits the status last; it never starts anything.
pub proof fn start_and_stop_effects(s: TorStateView, port: Option<u16>, q: u16)
    ensures
        !running_in(phase_of(s)) ==> start_effects(s, port)[0] == TorAction::PersistEnabled(true),
        !running_in(phase_of(s)) && port == Some(q) ==> start_effects(s, port).contains(TorAction::ApplyProxy(q)),
        !running_in(phase_of(s)) && port == Some(q) ==> start_effects(s, port).contains(TorAction::WatchPhase(q))
            == (s.engine && s.stage.is_some()),
        !running_in(phase_of(s)) && port.is_none() ==> start_effects(s, port).contains(TorAction::ApplyProxy(9050)),
        !running_in(phase_of(s)) && port.is_none() ==> start_effects(s, port).contains(TorAction::WatchPhase(9050))
            == (s.engine && s.stage.is_some()),
        !running_in(phase_of(s)) ==> start_effects(s, port).last() == TorAction::EmitStatus,
        !running_in(phase_of(s)) ==> start_effects(s, port).contains(TorAction::EnableTor) == (s.engine
            && s.stage.is_some()),
        !running_in(phase_of(s)) ==> !start_effects(s, port).contains(TorAction::DisableTor),
        !running_in(phase_of(s)) ==> !start_effects(s, port).contains(TorAction::ClearProxy),
        !running_in(phase_of(s)) ==> !start_effects(s, port).contains(TorAction::PersistEnabled(false)),
        running_in(phase_of(s)) ==> start_effects(s, port).len() == 0,
        (stop_effects(s)[0] == TorAction::DisableTor) == s.engine,
        stop_effects(s).contains(TorAction::DisableTor) == s.engine,
        stop_effects(s).contains(TorAction::ClearProxy),
        stop_effects(s).contains(TorAction::PersistEnabled(false)),
        stop_effects(s).last() == TorAction::EmitStatus,
        !stop_effects(s).contains(TorAction::EnableTor),
        !stop_effects(s).contains(TorAction::ApplyProxy(q)),
        !stop_effects(s).contains(TorAction::PersistEnabled(true)),
{
    let p = requested_port(port);
    let e = start_effects(s, port);
    if !running_in(phase_of(s)) {
        if s.engine && s.stage is Some {
            assert(e =~= seq![
                TorAction::PersistEnabled(true),
                TorAction::EnableTor,
                TorAction::WatchPhase(p),
                TorAction::ApplyProxy(p),
                TorAction::EmitStatus,
            ]);
            assert(e[1] == TorAction::EnableTor);
            assert(e[2] == TorAction::WatchPhase(p));
            assert(e[3] == TorAction::ApplyProxy(p));
        } else {
            assert(e =~= seq![TorAction::PersistEnabled(true), TorAction::ApplyProxy(p), TorAction::EmitStatus]);
            assert(e[1] == TorAction::ApplyProxy(p));
        }
    }
    let d = stop_effects(s);
    if s.engine {
        assert(d =~= seq![
            TorAction::DisableTor,
            TorAction::ClearProxy,
            TorAction::PersistEnabled(false),
            TorAction::EmitStatus,
        ]);
        assert(d[0] == TorAction::DisableTor);
        assert(d[1] == TorAction::ClearProxy);
        assert(d[2] == TorAction::PersistEnabled(false));
    } else {
        assert(d =~= seq![TorAction::ClearProxy, TorAction::PersistEnabled(false), TorAction::EmitStatus]);
        assert(d[0] == TorAction::ClearProxy);
        assert(d[1] == TorAction::PersistEnabled(false));
    }
}

/// Reusing a foreign Tor reports it as running in external mode.
pub proof fn adopted_tor_is_external_and_running(s: TorStateView)
    ensures
        status_of(adopted(s)).running,
        status_of(adopted(s)).mode == "external"@,
        phase_of(adopted(s)) == TorPhase::Ready,
{
}

/// Once the proxy engine runs there is always a stage, and no operation takes
/// the stage away or makes a reused foreign Tor count as ours again.
pub proof fn engine_keeps_a_stage(s: TorStateView, port: Option<u16>, message: Seq<char>)
    requires
        s.engine ==> s.stage is Some,
    ensures
        started(s, port).engine ==> started(s, port).stage is Some,
        stopped(s).engine ==> stopped(s).stage is Some,
        adopted(s).stage is Some,
        bootstrapped(s).engine ==> bootstrapped(s).stage is Some,
        failed(s, message).engine ==> failed(s, message).stage is Some,
        proxy_broken(s, message).engine ==> proxy_broken(s, message).stage is Some,
        s.stage is Some ==> started(s, port).stage is Some && stopped(s).stage is Some && bootstrapped(s).stage
            is Some && failed(s, message).stage is Some,
        s.external ==> started(s, port).external && stopped(s).external && adopted(s).external
            && bootstrapped(s).external && failed(s, message).external,
{
}

/// The boot marker reads back the preference that was written.
pub proof fn marker_round_trip(enabled: bool)
    ensures
        marker_says_enabled(Some(marker_of(enabled))) == enabled,
{
    if !enabled {
        assert(marker_of(false)[0] != seq![0x31u8][0]);
    }
}

/// A geo lookup is served from the cache for five minutes after it was
/// stored, and not after that.
pub proof fn geo_cache_lifetime(at: u64, now: u64)
    ensures
        at <= now && now - at < GEO_CACHE_TTL_MS ==> cache_fresh(at, now),
        at <= now && now - at >= GEO_CACHE_TTL_MS ==> !cache_fresh(at, now),
        cache_fresh(at, at),
{
}

/// The relay limit is always within 1..=500 and keeps any limit already in
/// that range.
pub proof fn relay_limit_is_clamped(limit: Option<usize>)
    ensures
        1 <= relay_limit(limit) <= 500,
        forall|l: usize| limit == Some(l) && 1 <= l <= 500 ==> relay_limit(limit) == l,
        limit is None ==> relay_limit(limit) == 100,
{
}

} // verus!
