//! Keeping the Wi-Fi station associated: what to do next, given what the
//! last step reported.
use vstd::prelude::*;

verus! {

/// Pause after a lost association or a failed connect, in milliseconds.
pub const RETRY_DELAY_MS: u32 = 5000;

/// A step that the caller performs on the Wi-Fi controller.
#[derive(Debug, Clone, Copy, PartialEq, Eq, Structural)]
pub enum WifiAction {
    /// Read whether the station is associated.
    CheckState,
    /// Wait until the station loses its association.
    WaitForDisconnect,
    /// Pause for `RETRY_DELAY_MS`, then go on with `then_check_started`
    /// saying whether the controller's start is checked next (else the state is).
    Pause { then_check_started: bool },
    /// Read whether the controller is started.
    CheckStarted,
    /// Give the controller the station configuration.
    Configure,
    /// Start the controller.
    Start,
    /// Associate with the access point.
    Connect,
}

/// What the step that was performed reported.
#[derive(Debug, Clone, Copy, PartialEq, Eq, Structural)]
pub enum WifiOutcome {
    /// A yes-or-no reading (associated, started) or a step that succeeded.
    Yes,
    /// A reading that said no, or a step that failed.
    No,
}

pub open spec fn next_wifi_action_spec(done: WifiAction, outcome: WifiOutcome) -> WifiAction {
    let ok = outcome == WifiOutcome::Yes;
    match done {
        WifiAction::CheckState => if ok { WifiAction::WaitForDisconnect } else { WifiAction::CheckStarted },
        WifiAction::WaitForDisconnect => WifiAction::Pause { then_check_started: true },
        WifiAction::Pause { then_check_started } => if then_check_started {
            WifiAction::CheckStarted
        } else {
            WifiAction::CheckState
        },
        WifiAction::CheckStarted => if ok { WifiAction::Connect } else { WifiAction::Configure },
        WifiAction::Configure => if ok { WifiAction::Start } else { WifiAction::CheckState },
        WifiAction::Start => if ok { WifiAction::Connect } else { WifiAction::CheckState },
        WifiAction::Connect => if ok { WifiAction::CheckState } else { WifiAction::Pause { then_check_started: false } },
    }
}

/// The step after `done`, which reported `outcome`. While associated, wait
/// for the loss and pause; a stopped controller is configured and started
/// first; a failed configure or start begins again at once; a failed
/// connect pauses before beginning again.
pub fn next_wifi_action(done: WifiAction, outcome: WifiOutcome) -> (next: WifiAction)
    ensures
        next == next_wifi_action_spec(done, outcome),
{
    let ok = match outcome {
        WifiOutcome::Yes => true,
        WifiOutcome::No => false,
    };
    match done {
        WifiAction::CheckState => if ok { WifiAction::WaitForDisconnect } else { WifiAction::CheckStarted },
        WifiAction::WaitForDisconnect => WifiAction::Pause { then_check_started: true },
        WifiAction::Pause { then_check_started } => if then_check_started {
            WifiAction::CheckStarted
        } else {
            WifiAction::CheckState
        },
        WifiAction::CheckStarted => if ok { WifiAction::Connect } else { WifiAction::Configure },
        WifiAction::Configure => if ok { WifiAction::Start } else { WifiAction::CheckState },
        WifiAction::Start => if ok { WifiAction::Connect } else { WifiAction::CheckState },
        WifiAction::Connect => if ok { WifiAction::CheckState } else { WifiAction::Pause { then_check_started: false } },
    }
}

} // verus!
