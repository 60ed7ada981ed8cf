use vstd::prelude::*;

verus! {

/// Seconds to wait before the second attempt at the USB controller.
pub const USB_RETRY_DELAY_SECS: u64 = 5;

/// TCP port listened on when the USB controller cannot be opened.
pub const FALLBACK_PORT: u16 = 8080;

/// Seconds to wait for a TCP connection before giving up.
pub const ACCEPT_TIMEOUT_SECS: u64 = 30;

/// Where the automatic choice of input stands.
#[derive(Debug, Clone, Copy, PartialEq, Eq, Structural)]
pub enum AutoStage {
    /// The first attempt at the USB controller is under way.
    FirstAttempt,
    /// Waiting before the second attempt.
    Waiting,
    /// The second attempt at the USB controller is under way.
    Retry,
    /// Listening for a TCP connection.
    Fallback,
    /// An input was chosen, or none could be.
    Done,
}

/// Outcome of the last action.
#[derive(Debug, Clone, Copy, PartialEq, Eq, Structural)]
pub enum AutoEvent {
    UsbOpened,
    UsbFailed,
    Waited,
    TcpConnected,
    TcpFailed,
}

/// What to do next.
#[derive(Debug, Clone, Copy, PartialEq, Eq, Structural)]
pub enum AutoAction {
    /// Try to open the USB controller.
    OpenUsb,
    /// Sleep this many seconds.
    Wait { secs: u64 },
    /// Accept one TCP connection on `port`, waiting at most `timeout_secs`.
    ListenTcp { port: u16, timeout_secs: u64 },
    /// Relay from the opened USB controller.
    RelayUsb,
    /// Relay from the accepted TCP connection.
    RelayTcp,
    /// No input is available; nothing is left to do.
    GiveUp,
}

/// The next stage and action; an event that does not answer the pending
/// action ends the attempt.
pub open spec fn auto_next(stage: AutoStage, event: AutoEvent) -> (AutoStage, AutoAction) {
    match (stage, event) {
        (AutoStage::FirstAttempt, AutoEvent::UsbOpened) => (AutoStage::Done, AutoAction::RelayUsb),
        (AutoStage::FirstAttempt, AutoEvent::UsbFailed) => (
            AutoStage::Waiting,
            AutoAction::Wait { secs: USB_RETRY_DELAY_SECS },
        ),
        (AutoStage::Waiting, AutoEvent::Waited) => (AutoStage::Retry, AutoAction::OpenUsb),
        (AutoStage::Retry, AutoEvent::UsbOpened) => (AutoStage::Done, AutoAction::RelayUsb),
        (AutoStage::Retry, AutoEvent::UsbFailed) => (
            AutoStage::Fallback,
            AutoAction::ListenTcp { port: FALLBACK_PORT, timeout_secs: ACCEPT_TIMEOUT_SECS },
        ),
        (AutoStage::Fallback, AutoEvent::TcpConnected) => (AutoStage::Done, AutoAction::RelayTcp),
        _ => (AutoStage::Done, AutoAction::GiveUp),
    }
}

/// Attempts at the USB controller that a sequence of events leads to.
pub open spec fn usb_attempts(stage: AutoStage, events: Seq<AutoEvent>) -> nat
    decreases events.len(),
{
    if events.len() == 0 {
        0
    } else {
        let (next, action) = auto_next(stage, events[0]);
        let here: nat = if action == AutoAction::OpenUsb {
            1
        } else {
            0
        };
        here + usb_attempts(next, events.drop_first())
    }
}

/// Attempts at the USB controller still allowed in a stage.
pub open spec fn attempts_left(stage: AutoStage) -> nat {
    match stage {
        AutoStage::FirstAttempt | AutoStage::Waiting => 1,
        _ => 0,
    }
}

proof fn lemma_attempts_bounded(stage: AutoStage, events: Seq<AutoEvent>)
    ensures
        usb_attempts(stage, events) <= attempts_left(stage),
    decreases events.len(),
{
    if events.len() > 0 {
        lemma_attempts_bounded(auto_next(stage, events[0]).0, events.drop_first());
    }
}

/// Whatever the outcomes, the USB controller is retried at most once after
/// the first attempt.
pub proof fn lemma_at_most_one_retry(events: Seq<AutoEvent>)
    ensures
        usb_attempts(AutoStage::FirstAttempt, events) <= 1,
{
    lemma_attempts_bounded(AutoStage::FirstAttempt, events);
}

/// The decisions of automatic mode: the USB controller, once more after a
/// pause, then one TCP connection.
#[derive(Debug, Clone, Copy, PartialEq, Eq, Structural)]
pub struct AutoConnect {
    pub stage: AutoStage,
}

impl AutoConnect {
    /// Starts automatic mode; its first action is `OpenUsb`.
    pub fn start() -> (r: (AutoConnect, AutoAction))
        ensures
            r.0.stage == AutoStage::FirstAttempt,
            r.1 == AutoAction::OpenUsb,
    {
        (AutoConnect { stage: AutoStage::FirstAttempt }, AutoAction::OpenUsb)
    }

    /// Takes the outcome of the last action and decides the next one.
    pub fn step(&mut self, event: AutoEvent) -> (r: AutoAction)
        ensures
            (final(self).stage, r) == auto_next(old(self).stage, event),
    {
        let (stage, action) = match (self.stage, event) {
            (AutoStage::FirstAttempt, AutoEvent::UsbOpened) => (
                AutoStage::Done,
                AutoAction::RelayUsb,
            ),
            (AutoStage::FirstAttempt, AutoEvent::UsbFailed) => (
                AutoStage::Waiting,
                AutoAction::Wait { secs: USB_RETRY_DELAY_SECS },
            ),
            (AutoStage::Waiting, AutoEvent::Waited) => (AutoStage::Retry, AutoAction::OpenUsb),
            (AutoStage::Retry, AutoEvent::UsbOpened) => (AutoStage::Done, AutoAction::RelayUsb),
            (AutoStage::Retry, AutoEvent::UsbFailed) => (
                AutoStage::Fallback,
                AutoAction::ListenTcp { port: FALLBACK_PORT, timeout_secs: ACCEPT_TIMEOUT_SECS },
            ),
            (AutoStage::Fallback, AutoEvent::TcpConnected) => (
                AutoStage::Done,
                AutoAction::RelayTcp,
            ),
            _ => (AutoStage::Done, AutoAction::GiveUp),
        };
        self.stage = stage;
        action
    }
}

} // verus!
