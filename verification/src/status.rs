//! The Tor connection status that the splash screen and the browser show.

use vstd::prelude::*;

verus! {

/// Where the Tor client stands.
#[derive(Clone, Copy, Debug, PartialEq, Eq, Structural)]
pub enum TorStatus {
    Connecting,
    Connected,
    Error,
}

/// The text under which a status is reported to the pages.
pub open spec fn status_text(s: TorStatus) -> Seq<char> {
    match s {
        TorStatus::Connecting => "connecting"@,
        TorStatus::Connected => "connected"@,
        TorStatus::Error => "error"@,
    }
}

impl TorStatus {
    /// The status before the Tor client has finished bootstrapping.
    pub fn initial() -> (s: TorStatus)
        ensures
            s == TorStatus::Connecting,
    {
        TorStatus::Connecting
    }

    /// The status once bootstrapping has ended, well or not.
    pub fn after_bootstrap(succeeded: bool) -> (s: TorStatus)
        ensures
            s == (if succeeded { TorStatus::Connected } else { TorStatus::Error }),
    {
        if succeeded {
            TorStatus::Connected
        } else {
            TorStatus::Error
        }
    }

    /// The text under which this status is reported.
    pub fn text(&self) -> (t: String)
        ensures
            t@ == status_text(*self),
    {
        match self {
            TorStatus::Connecting => String::from_str("connecting"),
            TorStatus::Connected => String::from_str("connected"),
            TorStatus::Error => String::from_str("error"),
        }
    }
}

/// The status after the outcome of bootstrapping is recorded: a status
/// still connecting becomes connected or error; a settled one stays.
pub open spec fn settle_spec(s: TorStatus, succeeded: bool) -> TorStatus {
    if s == TorStatus::Connecting {
        if succeeded { TorStatus::Connected } else { TorStatus::Error }
    } else {
        s
    }
}

/// The status the application reports, from start-up on.
pub struct TorStatusBoard {
    status: TorStatus,
}

impl View for TorStatusBoard {
    type V = TorStatus;

    closed spec fn view(&self) -> TorStatus {
        self.status
    }
}

impl TorStatusBoard {
    /// At start-up the Tor client is connecting.
    pub fn new() -> (b: TorStatusBoard)
        ensures
            b@ == TorStatus::Connecting,
    {
        TorStatusBoard { status: TorStatus::initial() }
    }

    /// The status now.
    pub fn current(&self) -> (s: TorStatus)
        ensures
            s == self@,
    {
        self.status
    }

    /// Records the outcome of bootstrapping and gives the status to announce.
    pub fn settle(&mut self, succeeded: bool) -> (s: TorStatus)
        ensures
            final(self)@ == settle_spec(old(self)@, succeeded),
            s == final(self)@,
    {
        if self.status == TorStatus::Connecting {
            self.status = TorStatus::after_bootstrap(succeeded);
        }
        self.status
    }
}

/// Once the status is connected or error it never changes again, whatever
/// outcomes are recorded later; and it is always one of the three texts.
pub proof fn lemma_settled_status_is_final(s: TorStatus, outcomes: Seq<bool>)
    requires
        s != TorStatus::Connecting,
    ensures
        settle_all(s, outcomes) == s,
        status_text(s) == "connected"@ || status_text(s) == "error"@,
    decreases outcomes.len(),
{
    if outcomes.len() > 0 {
        lemma_settled_status_is_final(settle_spec(s, outcomes[0]), outcomes.drop_first());
    }
}

/// The status after recording each outcome in turn.
pub open spec fn settle_all(s: TorStatus, outcomes: Seq<bool>) -> TorStatus
    decreases outcomes.len(),
{
    if outcomes.len() == 0 {
        s
    } else {
        settle_all(settle_spec(s, outcomes[0]), outcomes.drop_first())
    }
}

/// From start-up, the first recorded outcome decides the status for good.
pub proof fn lemma_first_outcome_decides(outcomes: Seq<bool>)
    requires
        outcomes.len() > 0,
    ensures
        settle_all(TorStatus::Connecting, outcomes) == (if outcomes[0] {
            TorStatus::Connected
        } else {
            TorStatus::Error
        }),
{
    lemma_settled_status_is_final(settle_spec(TorStatus::Connecting, outcomes[0]), outcomes.drop_first());
}

} // verus!
