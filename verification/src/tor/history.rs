//! Sequences of commands and engine reports applied to the managed Tor state,
//! and what holds across them: which operations move the SOCKS port, and that a
//! stop holds until the next start whatever the engine reports.

use vstd::prelude::*;
use crate::tor::engine::HopFacts;
use crate::tor::geo::GeoInfoView;
use crate::tor::{
    ConflictChoice, TorPhase, TorStateView, adopted, bootstrapped, circuit_published, failed,
    initial_state, phase_of, proxy_broken, proxy_started, requested_port, running_in, started,
    stopped, DEFAULT_SOCKS_PORT,
};

verus! {

/// A command or an engine report that changes the managed state, named after
/// the `TorState` method that applies it.
pub enum TorEvent {
    /// `start_tor(port)`.
    Start(Option<u16>),
    /// `stop_tor()`.
    Stop,
    /// `toggle_tor(enabled, port)`.
    Toggle(bool, Option<u16>),
    /// `autostart(tor_enabled)`.
    Autostart(bool),
    /// `bootstrap_ready()`.
    BootstrapReady,
    /// `bootstrap_failed(message)`.
    BootstrapFailed(Seq<char>),
    /// `proxy_failed(message)`.
    ProxyFailed(Seq<char>),
    /// `proxy_spawned(spawned)`.
    ProxySpawned(bool),
    /// `resolve_conflict(choice)`.
    Conflict(ConflictChoice),
    /// `port_freed(freed)`.
    PortFreed(bool),
    /// `set_external(value)`.
    SetExternal(bool),
    /// `publish_circuit(entries)`.
    Circuit(Seq<Option<HopFacts>>),
    /// `store_geo(now_ms, info)`.
    StoreGeo(u64, GeoInfoView),
}

/// The state after one event, as the contract of the method named in
/// [`TorEvent`] states it.
pub open spec fn apply(s: TorStateView, ev: TorEvent) -> TorStateView {
    match ev {
        TorEvent::Start(port) => started(s, port),
        TorEvent::Stop => stopped(s),
        TorEvent::Toggle(enabled, port) => if enabled {
            started(s, port)
        } else {
            stopped(s)
        },
        TorEvent::Autostart(enabled) => if enabled {
            started(s, None)
        } else {
            s
        },
        TorEvent::BootstrapReady => bootstrapped(s),
        TorEvent::BootstrapFailed(message) => failed(s, message),
        TorEvent::ProxyFailed(message) => proxy_broken(s, message),
        TorEvent::ProxySpawned(spawned) => proxy_started(s, spawned),
        TorEvent::Conflict(choice) => if choice == ConflictChoice::UseNode {
            adopted(s)
        } else {
            s
        },
        TorEvent::PortFreed(freed) => if freed {
            s
        } else {
            adopted(s)
        },
        TorEvent::SetExternal(value) => TorStateView { external: value, ..s },
        TorEvent::Circuit(entries) => circuit_published(s, entries),
        TorEvent::StoreGeo(at, info) => TorStateView { geo_cache: Some((at, info)), ..s },
    }
}

/// The state after the events, in order.
pub open spec fn run_events(s: TorStateView, evs: Seq<TorEvent>) -> TorStateView
    decreases evs.len(),
{
    if evs.len() == 0 {
        s
    } else {
        apply(run_events(s, evs.drop_last()), evs.last())
    }
}

/// The port that an event starts Tor on from state `s`: a start, an enabling
/// toggle or an enabling autostart while Tor is not running; `None` for any
/// other event, and for a start while Tor runs already.
pub open spec fn start_port(s: TorStateView, ev: TorEvent) -> Option<u16> {
    if running_in(phase_of(s)) {
        None
    } else {
        match ev {
            TorEvent::Start(port) => Some(requested_port(port)),
            TorEvent::Toggle(enabled, port) => if enabled {
                Some(requested_port(port))
            } else {
                None
            },
            TorEvent::Autostart(enabled) => if enabled {
                Some(DEFAULT_SOCKS_PORT)
            } else {
                None
            },
            _ => None,
        }
    }
}

/// The start port of the `j`-th event of a run from `s`.
pub open spec fn start_port_at(s: TorStateView, evs: Seq<TorEvent>, j: int) -> Option<u16> {
    start_port(run_events(s, evs.take(j)), evs[j])
}

/// An event that can make Tor run: a start (also by toggle or autostart), or
/// reusing a foreign Tor.
pub open spec fn may_start(ev: TorEvent) -> bool {
    match ev {
        TorEvent::Start(_) => true,
        TorEvent::Toggle(enabled, _) => enabled,
        TorEvent::Autostart(enabled) => enabled,
        TorEvent::Conflict(choice) => choice == ConflictChoice::UseNode,
        TorEvent::PortFreed(freed) => !freed,
        _ => false,
    }
}

/// One event moves the SOCKS port only when it starts Tor from a state where
/// it is not running, and then to the requested port; every other event,
/// stop and a start while running among them, keeps the port.
pub proof fn event_moves_port_only_on_start(s: TorStateView, ev: TorEvent)
    ensures
        apply(s, ev).port == (match start_port(s, ev) {
            Some(p) => p,
            None => s.port,
        }),
{
}

proof fn start_port_at_prefix(s: TorStateView, evs: Seq<TorEvent>, j: int)
    requires
        evs.len() > 0,
        0 <= j < evs.len() - 1,
    ensures
        start_port_at(s, evs.drop_last(), j) == start_port_at(s, evs, j),
{
    assert(evs.drop_last().take(j) =~= evs.take(j));
}

/// Over any run of events the SOCKS port is that of the latest event that
/// started Tor from a stopped state; with no such event it is the port the run
/// began with, the default port from the initial state.
pub proof fn port_follows_latest_start(s: TorStateView, evs: Seq<TorEvent>)
    ensures
        (forall|j: int| 0 <= j < evs.len() ==> #[trigger] start_port_at(s, evs, j) is None)
            ==> run_events(s, evs).port == s.port,
        forall|k: int|
            0 <= k < evs.len() && #[trigger] start_port_at(s, evs, k) is Some && (forall|j: int|
                k < j < evs.len() ==> #[trigger] start_port_at(s, evs, j) is None) ==> run_events(s, evs).port
                == start_port_at(s, evs, k)->0,
        (forall|j: int| 0 <= j < evs.len() ==> #[trigger] start_port_at(initial_state(), evs, j) is None)
            ==> run_events(initial_state(), evs).port == DEFAULT_SOCKS_PORT,
    decreases evs.len(),
{
    if evs.len() > 0 {
        let n = evs.len() - 1;
        let pre = evs.drop_last();
        port_follows_latest_start(s, pre);
        port_follows_latest_start(initial_state(), pre);
        assert(pre.take(n) =~= pre);
        assert(evs.take(n) =~= pre);
        event_moves_port_only_on_start(run_events(s, pre), evs[n]);
        event_moves_port_only_on_start(run_events(initial_state(), pre), evs[n]);
        assert forall|j: int| 0 <= j < n implies start_port_at(s, pre, j) == start_port_at(s, evs, j) by {
            start_port_at_prefix(s, evs, j);
        }
        assert forall|j: int| 0 <= j < n implies start_port_at(initial_state(), pre, j) == start_port_at(
            initial_state(),
            evs,
            j,
        ) by {
            start_port_at_prefix(initial_state(), evs, j);
        }
        assert(start_port_at(s, evs, n) == start_port(run_events(s, pre), evs[n]));
        assert(start_port_at(initial_state(), evs, n) == start_port(run_events(initial_state(), pre), evs[n]));
    }
}

/// One event that cannot start Tor leaves a stopped Tor stopped.
proof fn stopped_stays_stopped(s: TorStateView, ev: TorEvent)
    requires
        !running_in(phase_of(s)),
        !may_start(ev),
    ensures
        !running_in(phase_of(apply(s, ev))),
{
}

/// After a stop, Tor stays not running until an event that may start it,
/// whatever the engine reports meanwhile: a late bootstrap report neither makes
/// it ready again nor (as the stage is never bootstrapping) lets the engine
/// route through Tor.
pub proof fn stop_holds_until_next_start(s: TorStateView, evs: Seq<TorEvent>)
    requires
        forall|j: int| 0 <= j < evs.len() ==> !may_start(#[trigger] evs[j]),
    ensures
        !running_in(phase_of(run_events(stopped(s), evs))),
        phase_of(run_events(stopped(s), evs)) != TorPhase::Bootstrapping,
    decreases evs.len(),
{
    if evs.len() > 0 {
        let pre = evs.drop_last();
        assert forall|j: int| 0 <= j < pre.len() implies !may_start(#[trigger] pre[j]) by {
            assert(pre[j] == evs[j]);
        }
        stop_holds_until_next_start(s, pre);
        assert(!may_start(evs[evs.len() - 1]));
        stopped_stays_stopped(run_events(stopped(s), pre), evs.last());
    }
}

} // verus!
