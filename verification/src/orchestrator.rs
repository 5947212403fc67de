use crate::account::{generate_accounts, AccountSet, KeyDerivationError};
use crate::handles::{BitcoindInstance, CndInstance, Environment, ParityInstance};
use vstd::prelude::*;

verus! {

/// The chain on which a stage failed.
pub enum Chain {
    Bitcoin,
    Ethereum,
}

/// One variant per failure domain, each naming the stage at which the run
/// stopped, plus the distinct cancellation outcome, so that a caller can
/// tell "user aborted" from "system failed".
pub enum StartupError {
    NetworkCreationError,
    NodeStartError(Chain),
    FundingError(Chain),
    KeyDerivationError,
    ConfigWriteError,
    DaemonStartError(u8),
    Cancelled,
}

/// The checkpoints of a run, in the order they are passed:
/// `Init`, `NetworkCreated`, `NodesStarted`, `AccountsFunded`,
/// `DaemonsStarted`, `ConfigWritten`, then the terminal `Ready`, reached
/// when `finish` hands the environment out. `Aborted` is the terminal
/// stage of a machine handed back with a failure, reachable from any
/// non-terminal stage.
pub enum Stage {
    Init,
    NetworkCreated,
    NodesStarted,
    AccountsFunded,
    DaemonsStarted,
    ConfigWritten,
    Ready,
    Aborted,
}

/// Position of a stage in the run's order.
pub open spec fn stage_num(s: Stage) -> int {
    match s {
        Stage::Init => 0,
        Stage::NetworkCreated => 1,
        Stage::NodesStarted => 2,
        Stage::AccountsFunded => 3,
        Stage::DaemonsStarted => 4,
        Stage::ConfigWritten => 5,
        Stage::Ready => 6,
        Stage::Aborted => 7,
    }
}

/// What the coordinating loop reports back after performing one stage's
/// outside work: the resources a completed stage produced, or the stage
/// that failed.
pub enum Event {
    NetworkCreated(String),
    NetworkFailed,
    NodesStarted(BitcoindInstance, ParityInstance),
    NodeStartFailed(Chain),
    FundingCompleted,
    FundingFailed(Chain),
    DaemonsStarted(CndInstance, CndInstance),
    DaemonStartFailed(u8),
    ConfigWritten,
    ConfigWriteFailed,
}

/// Whether an event reports a stage failure rather than a completion.
pub open spec fn is_failure_event(e: Event) -> bool {
    match e {
        Event::NetworkFailed => true,
        Event::NodeStartFailed(_) => true,
        Event::FundingFailed(_) => true,
        Event::DaemonStartFailed(_) => true,
        Event::ConfigWriteFailed => true,
        _ => false,
    }
}

/// The error that a failure event surfaces, wrapped with its stage.
pub open spec fn error_of(e: Event) -> StartupError {
    match e {
        Event::NetworkFailed => StartupError::NetworkCreationError,
        Event::NodeStartFailed(c) => StartupError::NodeStartError(c),
        Event::FundingFailed(c) => StartupError::FundingError(c),
        Event::DaemonStartFailed(i) => StartupError::DaemonStartError(i),
        Event::ConfigWriteFailed => StartupError::ConfigWriteError,
        _ => StartupError::Cancelled,
    }
}

/// What the coordinating loop must do next for a given stage.
pub enum StageAction {
    CreateNetwork,
    StartNodes,
    FundAccounts,
    StartDaemons,
    WriteConfig,
    Finish,
    Halt,
}

/// The action owed at each stage: the run's control flow as one function.
pub open spec fn action_for(s: Stage) -> StageAction {
    match s {
        Stage::Init => StageAction::CreateNetwork,
        Stage::NetworkCreated => StageAction::StartNodes,
        Stage::NodesStarted => StageAction::FundAccounts,
        Stage::AccountsFunded => StageAction::StartDaemons,
        Stage::DaemonsStarted => StageAction::WriteConfig,
        Stage::ConfigWritten => StageAction::Finish,
        Stage::Ready => StageAction::Halt,
        Stage::Aborted => StageAction::Halt,
    }
}

/// The sequencing core of a run. It decides, never performs: the
/// coordinating loop asks for the next action, performs the outside work,
/// and hands the outcome back together with the value of the cancellation
/// flag read at the stage boundary.
pub struct Orchestrator {
    pub stage: Stage,
    pub accounts: AccountSet,
    pub network_id: Option<String>,
    pub bitcoind: Option<BitcoindInstance>,
    pub parity: Option<ParityInstance>,
    pub cnd_0: Option<CndInstance>,
    pub cnd_1: Option<CndInstance>,
}

/// What a step of the machine yields: the machine one stage further, or
/// the machine halted in `Aborted` together with the error to surface.
pub enum StepResult {
    Continue(Orchestrator),
    Failed(Orchestrator, StartupError),
}

impl Orchestrator {
    /// Each resource handle is present exactly from the stage that
    /// produces it on, fully populated, and carrying the run's accounts.
    /// In particular, funding is only ever reached with both node handles
    /// present and complete, and no daemon handle exists before the
    /// daemon stage.
    pub open spec fn wf(&self) -> bool {
        &&& stage_num(self.stage) >= 1 && self.stage !is Aborted ==> (self.network_id matches Some(
            id,
        ) && id@.len() > 0)
        &&& stage_num(self.stage) >= 2 && self.stage !is Aborted ==> {
            &&& self.bitcoind matches Some(b) && b.wf() && b.carries_accounts(self.accounts)
                && b.account_0.text_complete() && b.account_1.text_complete()
            &&& self.parity matches Some(p) && p.wf() && p.carries_accounts(self.accounts)
        }
        &&& stage_num(self.stage) >= 4 && self.stage !is Aborted ==> {
            &&& self.cnd_0 matches Some(c) && c.wf(0)
            &&& self.cnd_1 matches Some(c) && c.wf(1)
        }
        &&& stage_num(self.stage) < 1 ==> self.network_id is None
        &&& stage_num(self.stage) < 2 ==> self.bitcoind is None && self.parity is None
        &&& stage_num(self.stage) < 4 ==> self.cnd_0 is None && self.cnd_1 is None
    }

    /// Which events a stage can be answered with: exactly the completion
    /// and the failure of the stage's own action.
    pub open spec fn expects(&self, e: Event) -> bool {
        match self.stage {
            Stage::Init => (e matches Event::NetworkCreated(_)) || (e is NetworkFailed),
            Stage::NetworkCreated => (e matches Event::NodesStarted(_, _)) || (
            e matches Event::NodeStartFailed(_)),
            Stage::NodesStarted => (e is FundingCompleted) || (e matches Event::FundingFailed(_)),
            Stage::AccountsFunded => (e matches Event::DaemonsStarted(_, _)) || (
            e matches Event::DaemonStartFailed(_)),
            Stage::DaemonsStarted => (e is ConfigWritten) || (e is ConfigWriteFailed),
            _ => false,
        }
    }

    /// A completion event's payload is complete: endpoints resolved, the
    /// node handles carrying the run's accounts, the daemon handles
    /// carrying their instance indices.
    pub open spec fn event_wf(&self, e: Event) -> bool {
        match e {
            Event::NetworkCreated(id) => id@.len() > 0,
            Event::NodesStarted(b, p) => {
                &&& b.wf() && b.carries_accounts(self.accounts) && b.account_0.text_complete()
                    && b.account_1.text_complete()
                &&& p.wf() && p.carries_accounts(self.accounts)
            },
            Event::DaemonsStarted(c0, c1) => c0.wf(0) && c1.wf(1),
            _ => true,
        }
    }

    /// The machine after a completed stage: the stage pointer moved one
    /// checkpoint forward and the stage's output recorded; nothing else
    /// changes.
    pub open spec fn advance(self, e: Event) -> Orchestrator {
        match e {
            Event::NetworkCreated(id) => Orchestrator {
                stage: Stage::NetworkCreated,
                network_id: Some(id),
                ..self
            },
            Event::NodesStarted(b, p) => Orchestrator {
                stage: Stage::NodesStarted,
                bitcoind: Some(b),
                parity: Some(p),
                ..self
            },
            Event::FundingCompleted => Orchestrator { stage: Stage::AccountsFunded, ..self },
            Event::DaemonsStarted(c0, c1) => Orchestrator {
                stage: Stage::DaemonsStarted,
                cnd_0: Some(c0),
                cnd_1: Some(c1),
                ..self
            },
            Event::ConfigWritten => Orchestrator { stage: Stage::ConfigWritten, ..self },
            _ => self,
        }
    }

    /// The machine halted where it stands.
    pub open spec fn aborted(self) -> Orchestrator {
        Orchestrator { stage: Stage::Aborted, ..self }
    }

    /// Begin a run with the generated key material: no network, no node,
    /// no daemon exists yet.
    pub fn new(accounts: AccountSet) -> (r: Orchestrator)
        ensures
            r.wf(),
            r.stage is Init,
            r.accounts == accounts,
            r.network_id is None && r.bitcoind is None && r.parity is None,
            r.cnd_0 is None && r.cnd_1 is None,
    {
        Orchestrator {
            stage: Stage::Init,
            accounts,
            network_id: None,
            bitcoind: None,
            parity: None,
            cnd_0: None,
            cnd_1: None,
        }
    }

    /// The action owed at the machine's current stage.
    pub fn next_action(&self) -> (a: StageAction)
        ensures
            a == action_for(self.stage),
    {
        match self.stage {
            Stage::Init => StageAction::CreateNetwork,
            Stage::NetworkCreated => StageAction::StartNodes,
            Stage::NodesStarted => StageAction::FundAccounts,
            Stage::AccountsFunded => StageAction::StartDaemons,
            Stage::DaemonsStarted => StageAction::WriteConfig,
            Stage::ConfigWritten => StageAction::Finish,
            Stage::Ready => StageAction::Halt,
            Stage::Aborted => StageAction::Halt,
        }
    }

    /// Consume one stage outcome and the cancellation flag as read at the
    /// stage boundary. A stage failure halts the machine with that stage's
    /// error, whatever the flag says; a completed stage is recorded, then
    /// the checkpoint is consulted, and a set flag halts the machine with
    /// the distinct `Cancelled` outcome instead of going on. In
    /// particular, a cancellation seen at the very first checkpoint halts
    /// the run while no daemon handle exists yet.
    pub fn step(self, event: Event, cancelled: bool) -> (r: StepResult)
        requires
            self.wf(),
            self.expects(event),
            self.event_wf(event),
        ensures
            is_failure_event(event) ==> r == StepResult::Failed(self.aborted(), error_of(event)),
            !is_failure_event(event) && cancelled ==> r == StepResult::Failed(
                self.advance(event).aborted(),
                StartupError::Cancelled,
            ),
            !is_failure_event(event) && !cancelled ==> r == StepResult::Continue(
                self.advance(event),
            ),
            r matches StepResult::Continue(o) ==> o.wf() && o.accounts == self.accounts
                && o.stage == self.advance(event).stage,
            r matches StepResult::Failed(h, err) ==> h.stage is Aborted,
            stage_num(self.stage) < 3 ==> (r matches StepResult::Failed(h, err) ==> h.cnd_0 is None
                && h.cnd_1 is None),
    {
        match event {
            Event::NetworkFailed => StepResult::Failed(
                self.halt(),
                StartupError::NetworkCreationError,
            ),
            Event::NodeStartFailed(c) => StepResult::Failed(
                self.halt(),
                StartupError::NodeStartError(c),
            ),
            Event::FundingFailed(c) => StepResult::Failed(self.halt(), StartupError::FundingError(c)),
            Event::DaemonStartFailed(i) => StepResult::Failed(
                self.halt(),
                StartupError::DaemonStartError(i),
            ),
            Event::ConfigWriteFailed => StepResult::Failed(
                self.halt(),
                StartupError::ConfigWriteError,
            ),
            Event::NetworkCreated(id) => {
                let next = Orchestrator {
                    stage: Stage::NetworkCreated,
                    network_id: Some(id),
                    ..self
                };
                Self::checkpoint(next, cancelled)
            },
            Event::NodesStarted(b, p) => {
                let next = Orchestrator {
                    stage: Stage::NodesStarted,
                    bitcoind: Some(b),
                    parity: Some(p),
                    ..self
                };
                Self::checkpoint(next, cancelled)
            },
            Event::FundingCompleted => {
                let next = Orchestrator { stage: Stage::AccountsFunded, ..self };
                Self::checkpoint(next, cancelled)
            },
            Event::DaemonsStarted(c0, c1) => {
                let next = Orchestrator {
                    stage: Stage::DaemonsStarted,
                    cnd_0: Some(c0),
                    cnd_1: Some(c1),
                    ..self
                };
                Self::checkpoint(next, cancelled)
            },
            Event::ConfigWritten => {
                let next = Orchestrator { stage: Stage::ConfigWritten, ..self };
                Self::checkpoint(next, cancelled)
            },
        }
    }

    /// Halt this machine where it stands.
    fn halt(self) -> (r: Orchestrator)
        ensures
            r == self.aborted(),
    {
        Orchestrator { stage: Stage::Aborted, ..self }
    }

    /// The cancellation checkpoint between stages: go on exactly when the
    /// flag was not set.
    fn checkpoint(next: Orchestrator, cancelled: bool) -> (r: StepResult)
        ensures
            cancelled ==> r == StepResult::Failed(next.aborted(), StartupError::Cancelled),
            !cancelled ==> r == StepResult::Continue(next),
    {
        if cancelled {
            StepResult::Failed(next.halt(), StartupError::Cancelled)
        } else {
            StepResult::Continue(next)
        }
    }

    /// Hand the finished environment out. Takes no cancellation flag: the
    /// flag is consulted between stages only, never after the final stage,
    /// so a cancellation requested once the run is ready has no effect on
    /// the returned environment.
    pub fn finish(self) -> (env: Environment)
        requires
            self.wf(),
            self.stage is ConfigWritten,
        ensures
            env.wf(),
            self.network_id matches Some(id) ==> env.docker_network_id == id,
            self.bitcoind matches Some(b) ==> env.bitcoind == b,
            self.parity matches Some(p) ==> env.parity == p,
            self.cnd_0 matches Some(c) ==> env.cnd_0 == c,
            self.cnd_1 matches Some(c) ==> env.cnd_1 == c,
    {
        let network_id = match self.network_id {
            Some(id) => id,
            None => unreached(),
        };
        let bitcoind = match self.bitcoind {
            Some(b) => b,
            None => unreached(),
        };
        let parity = match self.parity {
            Some(p) => p,
            None => unreached(),
        };
        let cnd_0 = match self.cnd_0 {
            Some(c) => c,
            None => unreached(),
        };
        let cnd_1 = match self.cnd_1 {
            Some(c) => c,
            None => unreached(),
        };
        Environment { docker_network_id: network_id, bitcoind, parity, cnd_0, cnd_1 }
    }
}

/// Law: the funding stage never runs against a node handle that is not
/// fully populated. When the machine asks for funding, both node handles
/// exist — complete by construction, since no field of theirs is optional
/// — with resolved endpoints and carrying the run's accounts.
pub proof fn lemma_funding_only_sees_populated_nodes(o: Orchestrator)
    requires
        o.wf(),
        action_for(o.stage) == StageAction::FundAccounts,
    ensures
        o.bitcoind matches Some(b) && b.wf() && b.carries_accounts(o.accounts),
        o.parity matches Some(p) && p.wf() && p.carries_accounts(o.accounts),
{
    assert(o.stage is NodesStarted);
}

/// Generate the run's key material and set up the machine at its first
/// stage. Everything after this point is driven by `next_action` and
/// `step`. An error can only mean that a drawn seed or key was one that a
/// derivation step rejects.
pub fn start_run() -> (r: Result<Orchestrator, KeyDerivationError>)
    ensures
        r matches Ok(o) ==> o.wf() && o.stage is Init && o.accounts.wf() && o.cnd_0 is None
            && o.cnd_1 is None,
        r is Err ==> (exists|s: Seq<u8>|
            s.len() == 32 && !crate::account::bitcoin_seed_derivable(s)) || (exists|k: Seq<u8>|
            k.len() == 32 && !crate::account::valid_secret_scalar(k)),
{
    let accounts = match generate_accounts() {
        Ok(a) => a,
        Err(e) => return Err(e),
    };
    Ok(Orchestrator::new(accounts))
}

} // verus!
