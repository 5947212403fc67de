use std::sync::atomic::AtomicBool;
use std::sync::atomic::Ordering;

use comit_env::account::AccountSet;
use comit_env::account::BitcoinAccount;
use comit_env::account::EthereumAccount;
use comit_env::env_config::environment_entries;
use comit_env::funding::bitcoin_funding_plan;
use comit_env::funding::ethereum_funding_plan;
use comit_env::funding::Asset;
use comit_env::funding::FundingRun;
use comit_env::funding::BASE_UNIT_FUNDING_AMOUNT;
use comit_env::funding::SATOSHI_FUNDING_AMOUNT;
use comit_env::handles::BitcoindInstance;
use comit_env::handles::CndInstance;
use comit_env::handles::ParityInstance;
use comit_env::orchestrator::Chain;
use comit_env::orchestrator::Event;
use comit_env::orchestrator::Orchestrator;
use comit_env::orchestrator::Stage;
use comit_env::orchestrator::StageAction;
use comit_env::orchestrator::StartupError;
use comit_env::orchestrator::StepResult;
use comit_env::signal::check_signal;

fn sample_bitcoin_account(tag: &str) -> BitcoinAccount {
    BitcoinAccount {
        master: format!("tprv-{}", tag),
        derived_key: format!("tprv-child-{}", tag),
        address: format!("bcrt1-{}", tag),
    }
}

fn sample_accounts() -> AccountSet {
    AccountSet {
        bitcoin_0: sample_bitcoin_account("a"),
        bitcoin_1: sample_bitcoin_account("b"),
        ethereum_0: EthereumAccount { private_key: [0x11; 32] },
        ethereum_1: EthereumAccount { private_key: [0x22; 32] },
        eth_address_0: "0x1111".to_string(),
        eth_address_1: "0x2222".to_string(),
    }
}

fn sample_bitcoind(accounts: &AccountSet) -> BitcoindInstance {
    BitcoindInstance {
        http_endpoint: "http://localhost:18443".to_string(),
        p2p_uri: "localhost:18444".to_string(),
        account_0: clone_bitcoin_account(&accounts.bitcoin_0),
        account_1: clone_bitcoin_account(&accounts.bitcoin_1),
    }
}

fn clone_bitcoin_account(a: &BitcoinAccount) -> BitcoinAccount {
    BitcoinAccount {
        master: a.master.clone(),
        derived_key: a.derived_key.clone(),
        address: a.address.clone(),
    }
}

fn sample_parity(accounts: &AccountSet) -> ParityInstance {
    ParityInstance {
        http_endpoint: "http://localhost:8545".to_string(),
        erc20_contract_address: [0xaa; 20],
        account_0: EthereumAccount { private_key: accounts.ethereum_0.private_key },
        account_1: EthereumAccount { private_key: accounts.ethereum_1.private_key },
    }
}

fn cnd(index: u8) -> CndInstance {
    CndInstance { http_endpoint: format!("http://localhost:800{}", index), index }
}

fn must_continue(r: StepResult) -> Orchestrator {
    match r {
        StepResult::Continue(o) => o,
        StepResult::Failed(_, _) => panic!("step failed where it had to go on"),
    }
}

#[test]
fn full_run_produces_a_complete_environment() {
    let accounts = sample_accounts();
    let o = Orchestrator::new(accounts);
    assert!(matches!(o.next_action(), StageAction::CreateNetwork));
    let o = must_continue(o.step(Event::NetworkCreated("net-1".to_string()), false));
    assert!(matches!(o.next_action(), StageAction::StartNodes));
    let bitcoind = sample_bitcoind(&o.accounts);
    let parity = sample_parity(&o.accounts);
    let o = must_continue(o.step(Event::NodesStarted(bitcoind, parity), false));
    assert!(matches!(o.next_action(), StageAction::FundAccounts));
    let o = must_continue(o.step(Event::FundingCompleted, false));
    assert!(matches!(o.next_action(), StageAction::StartDaemons));
    let o = must_continue(o.step(Event::DaemonsStarted(cnd(0), cnd(1)), false));
    assert!(matches!(o.next_action(), StageAction::WriteConfig));
    let o = must_continue(o.step(Event::ConfigWritten, false));
    assert!(matches!(o.next_action(), StageAction::Finish));
    let env = o.finish();
    assert_eq!(env.docker_network_id, "net-1");
    assert_eq!(env.bitcoind.http_endpoint, "http://localhost:18443");
    assert_eq!(env.parity.http_endpoint, "http://localhost:8545");
    assert_eq!(env.cnd_0.index, 0);
    assert_eq!(env.cnd_1.index, 1);
    let entries = environment_entries(&env);
    assert_eq!(entries.len(), 10);
    for e in &entries {
        assert!(!e.key.is_empty());
        assert!(!e.value.is_empty());
    }
}

#[test]
fn cancellation_before_any_stage_completes_yields_cancelled_and_no_daemons() {
    let o = Orchestrator::new(sample_accounts());
    match o.step(Event::NetworkCreated("net-1".to_string()), true) {
        StepResult::Failed(halted, err) => {
            assert!(matches!(err, StartupError::Cancelled));
            assert!(matches!(halted.stage, Stage::Aborted));
            assert!(halted.cnd_0.is_none());
            assert!(halted.cnd_1.is_none());
        }
        StepResult::Continue(_) => panic!("a set flag must abort the run"),
    }
}

#[test]
fn cancellation_right_after_network_creation_skips_node_start() {
    let o = Orchestrator::new(sample_accounts());
    match o.step(Event::NetworkCreated("net-1".to_string()), true) {
        StepResult::Failed(halted, err) => {
            assert!(matches!(err, StartupError::Cancelled));
            // The halted machine asks for nothing more: no node start is attempted.
            assert!(matches!(halted.next_action(), StageAction::Halt));
        }
        StepResult::Continue(_) => panic!("a set flag must abort the run"),
    }
}

#[test]
fn ethereum_node_failure_aborts_before_funding_and_config() {
    let o = Orchestrator::new(sample_accounts());
    let o = must_continue(o.step(Event::NetworkCreated("net-1".to_string()), false));
    match o.step(Event::NodeStartFailed(Chain::Ethereum), false) {
        StepResult::Failed(halted, err) => {
            assert!(matches!(err, StartupError::NodeStartError(Chain::Ethereum)));
            assert!(matches!(halted.stage, Stage::Aborted));
            // Funding never ran and nothing was written: the machine asks
            // for nothing more and holds no node or daemon handles.
            assert!(matches!(halted.next_action(), StageAction::Halt));
            assert!(halted.bitcoind.is_none());
            assert!(halted.parity.is_none());
            assert!(halted.cnd_0.is_none());
        }
        StepResult::Continue(_) => panic!("a failed node start must abort the run"),
    }
}

#[test]
fn cancellation_after_the_final_stage_has_no_effect_on_the_environment() {
    let accounts = sample_accounts();
    let o = Orchestrator::new(accounts);
    let o = must_continue(o.step(Event::NetworkCreated("net-1".to_string()), false));
    let bitcoind = sample_bitcoind(&o.accounts);
    let parity = sample_parity(&o.accounts);
    let o = must_continue(o.step(Event::NodesStarted(bitcoind, parity), false));
    let o = must_continue(o.step(Event::FundingCompleted, false));
    let o = must_continue(o.step(Event::DaemonsStarted(cnd(0), cnd(1)), false));
    let o = must_continue(o.step(Event::ConfigWritten, false));
    let flag = AtomicBool::new(false);
    let env = o.finish();
    // The request arrives only now, after the final checkpoint: the
    // returned environment is already owned by the caller and unchanged.
    flag.store(true, Ordering::Relaxed);
    assert!(check_signal(&flag).is_err());
    assert_eq!(env.docker_network_id, "net-1");
    assert_eq!(env.cnd_0.http_endpoint, "http://localhost:8000");
    assert_eq!(env.cnd_1.http_endpoint, "http://localhost:8001");
}

#[test]
fn terminal_stages_ask_for_nothing_more() {
    let ready = Orchestrator {
        stage: Stage::Ready,
        accounts: sample_accounts(),
        network_id: Some("net-1".to_string()),
        bitcoind: None,
        parity: None,
        cnd_0: None,
        cnd_1: None,
    };
    assert!(matches!(ready.next_action(), StageAction::Halt));
    let aborted = Orchestrator { stage: Stage::Aborted, ..ready };
    assert!(matches!(aborted.next_action(), StageAction::Halt));
}

#[test]
fn check_signal_reflects_the_flag() {
    let flag = AtomicBool::new(false);
    assert!(check_signal(&flag).is_ok());
    flag.store(true, Ordering::Relaxed);
    assert!(check_signal(&flag).is_err());
    // Setting the flag again is idempotent.
    flag.store(true, Ordering::Relaxed);
    assert!(check_signal(&flag).is_err());
}

fn must_fail(r: StepResult) -> StartupError {
    match r {
        StepResult::Failed(_, err) => err,
        StepResult::Continue(_) => panic!("step went on where its stage had failed"),
    }
}

#[test]
fn each_stage_failure_surfaces_its_own_error() {
    let at_init = Orchestrator::new(sample_accounts());
    let err = must_fail(at_init.step(Event::NetworkFailed, false));
    assert!(matches!(err, StartupError::NetworkCreationError));

    let past_network = |o: Orchestrator| must_continue(
        o.step(Event::NetworkCreated("net-1".to_string()), false),
    );
    let o = past_network(Orchestrator::new(sample_accounts()));
    let err = must_fail(o.step(Event::NodeStartFailed(Chain::Bitcoin), false));
    assert!(matches!(err, StartupError::NodeStartError(Chain::Bitcoin)));

    let o = past_network(Orchestrator::new(sample_accounts()));
    let bitcoind = sample_bitcoind(&o.accounts);
    let parity = sample_parity(&o.accounts);
    let o = must_continue(o.step(Event::NodesStarted(bitcoind, parity), false));
    let err = must_fail(o.step(Event::FundingFailed(Chain::Ethereum), false));
    assert!(matches!(err, StartupError::FundingError(Chain::Ethereum)));

    let o = past_network(Orchestrator::new(sample_accounts()));
    let bitcoind = sample_bitcoind(&o.accounts);
    let parity = sample_parity(&o.accounts);
    let o = must_continue(o.step(Event::NodesStarted(bitcoind, parity), false));
    let o = must_continue(o.step(Event::FundingCompleted, false));
    let err = must_fail(o.step(Event::DaemonStartFailed(1), false));
    assert!(matches!(err, StartupError::DaemonStartError(1)));

    let o = past_network(Orchestrator::new(sample_accounts()));
    let bitcoind = sample_bitcoind(&o.accounts);
    let parity = sample_parity(&o.accounts);
    let o = must_continue(o.step(Event::NodesStarted(bitcoind, parity), false));
    let o = must_continue(o.step(Event::FundingCompleted, false));
    let o = must_continue(o.step(Event::DaemonsStarted(cnd(0), cnd(1)), false));
    let err = must_fail(o.step(Event::ConfigWriteFailed, false));
    assert!(matches!(err, StartupError::ConfigWriteError));
}

#[test]
fn bitcoin_funding_plan_funds_both_accounts_in_order() {
    let accounts = sample_accounts();
    let node = sample_bitcoind(&accounts);
    let plan = bitcoin_funding_plan(&node);
    assert_eq!(plan.len(), 2);
    assert_eq!(plan[0].address, "bcrt1-a");
    assert_eq!(plan[1].address, "bcrt1-b");
    for op in &plan {
        assert_eq!(op.amount, u128::from(SATOSHI_FUNDING_AMOUNT));
        assert!(matches!(op.asset, Asset::BitcoinSat));
    }
}

#[test]
fn ethereum_funding_plan_funds_coin_and_token_per_account() {
    let accounts = sample_accounts();
    let plan = ethereum_funding_plan(&accounts);
    assert_eq!(plan.len(), 4);
    assert_eq!(plan[0].address, "0x1111");
    assert!(matches!(plan[0].asset, Asset::Ether));
    assert_eq!(plan[1].address, "0x1111");
    assert!(matches!(plan[1].asset, Asset::Erc20Token));
    assert_eq!(plan[2].address, "0x2222");
    assert!(matches!(plan[2].asset, Asset::Ether));
    assert_eq!(plan[3].address, "0x2222");
    assert!(matches!(plan[3].asset, Asset::Erc20Token));
    for op in &plan {
        assert_eq!(op.amount, BASE_UNIT_FUNDING_AMOUNT);
    }
}

#[test]
fn second_funding_runs_only_after_the_first_completed() {
    let accounts = sample_accounts();
    let node = sample_bitcoind(&accounts);
    let mut run = FundingRun::new(bitcoin_funding_plan(&node));
    let first = run.next_op().expect("first operation pending").address.clone();
    assert_eq!(first, "bcrt1-a");
    run.op_completed();
    // Only now, with the first operation recorded complete, is the second
    // one handed out.
    assert_eq!(run.done, 1);
    let second = run.next_op().expect("second operation pending").address.clone();
    assert_eq!(second, "bcrt1-b");
    run.op_completed();
    assert!(run.is_complete());
    assert!(run.next_op().is_none());
}
