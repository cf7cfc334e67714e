//! The desktop shell around the WebView: tray menu commands and the tray's
//! "Connect through Tor" check mark.

use vstd::prelude::*;
use crate::json::Json;
use crate::text::same_text;
use crate::tor::{DEFAULT_SOCKS_PORT, TorState, TorTransition, phase_of, running_in, start_effects, started, status_of, stop_effects, stopped};

verus! {

/// A tray menu entry.
#[derive(Clone, Copy, PartialEq, Eq, Debug, Structural)]
pub enum TrayCommand {
    Quit,
    Show,
    CheckUpdates,
    ToggleTor,
    /// An id the menu does not know; ignored.
    Other,
}

/// The command of a menu event id.
pub fn tray_command(id: &str) -> (r: TrayCommand)
    ensures
        id@ == "quit"@ ==> r == TrayCommand::Quit,
        id@ == "show"@ ==> r == TrayCommand::Show,
        id@ == "check_updates"@ ==> r == TrayCommand::CheckUpdates,
        id@ == "toggle_tor"@ ==> r == TrayCommand::ToggleTor,
        id@ != "quit"@ && id@ != "show"@ && id@ != "check_updates"@ && id@ != "toggle_tor"@ ==> r
            == TrayCommand::Other,
{
    proof {
        reveal_strlit("quit");
        reveal_strlit("show");
        reveal_strlit("check_updates");
        reveal_strlit("toggle_tor");
        assert("quit"@.len() == 4 && "show"@.len() == 4);
        assert("check_updates"@.len() == 13 && "toggle_tor"@.len() == 10);
        assert("quit"@[0] != "show"@[0]);
    }
    if same_text(id, "quit") {
        TrayCommand::Quit
    } else if same_text(id, "show") {
        TrayCommand::Show
    } else if same_text(id, "check_updates") {
        TrayCommand::CheckUpdates
    } else if same_text(id, "toggle_tor") {
        TrayCommand::ToggleTor
    } else {
        TrayCommand::Other
    }
}

/// The tray's "Connect through Tor" entry: stop Tor when it runs, start it
/// otherwise; also the new check mark.
pub fn tray_toggle(state: &mut TorState) -> (r: (TorTransition, bool))
    ensures
        running_in(phase_of(old(state)@)) ==> final(state)@ == stopped(old(state)@) && r.0.actions@
            == stop_effects(old(state)@) && !r.1,
        !running_in(phase_of(old(state)@)) ==> final(state)@ == started(old(state)@, None) && r.0.actions@
            == start_effects(old(state)@, None) && r.1,
        r.0.status@ == status_of(final(state)@),
{
    if state.running() {
        (state.stop_tor(), false)
    } else {
        (state.start_tor(None), true)
    }
}

/// The `running` flag of a `tor:status` payload; `false` when the payload is
/// not JSON or has no boolean `running`.
pub fn status_running(payload: Option<&Json>) -> (r: bool)
    ensures
        r == (match payload {
            Some(v) => match v.field("running"@) {
                Some(x) => x.flag() == Some(true),
                None => false,
            },
            None => false,
        }),
{
    match payload {
        Some(v) => match v.get("running") {
            Some(x) => match x.as_bool() {
                Some(b) => b,
                None => false,
            },
            None => false,
        },
        None => false,
    }
}

/// The SOCKS port used when building the windows at startup: the managed
/// state's, or the default when the state is not there yet.
pub fn boot_port(state: Option<&TorState>) -> (r: u16)
    ensures
        r == (match state {
            Some(s) => s@.port,
            None => DEFAULT_SOCKS_PORT,
        }),
{
    match state {
        Some(s) => s.port(),
        None => DEFAULT_SOCKS_PORT,
    }
}

} // verus!
