use crate::account::AccountSet;
use crate::handles::BitcoindInstance;
use vstd::prelude::*;

verus! {

/// Amount sent to each Bitcoin account: one billion satoshis.
pub const SATOSHI_FUNDING_AMOUNT: u64 = 1_000_000_000;

/// Amount of native coin and of token sent to each Ethereum account:
/// one hundred times ten to the eighteenth base units.
pub const BASE_UNIT_FUNDING_AMOUNT: u128 = 100_000_000_000_000_000_000;

/// What a single funding operation transfers.
pub enum Asset {
    /// Native Bitcoin, in satoshis, from the node's own wallet.
    BitcoinSat,
    /// Native Ethereum coin, in base units.
    Ether,
    /// The token deployed at node startup, in base units.
    Erc20Token,
}

/// One transfer of an initial balance to one account's address.
pub struct FundingOp {
    pub address: String,
    pub amount: u128,
    pub asset: Asset,
}

/// The ordered funding operations for a Bitcoin node: the fixed satoshi
/// amount to each derived address, account 0 strictly before account 1.
pub fn bitcoin_funding_plan(node: &BitcoindInstance) -> (v: Vec<FundingOp>)
    requires
        node.wf(),
    ensures
        v@.len() == 2,
        v@[0].address@ == node.account_0.address@,
        v@[1].address@ == node.account_1.address@,
        forall|i: int|
            0 <= i < 2 ==> v@[i].amount == SATOSHI_FUNDING_AMOUNT && v@[i].asset is BitcoinSat,
{
    let v: Vec<FundingOp> = vec![
        FundingOp {
            address: node.account_0.address.clone(),
            amount: SATOSHI_FUNDING_AMOUNT as u128,
            asset: Asset::BitcoinSat,
        },
        FundingOp {
            address: node.account_1.address.clone(),
            amount: SATOSHI_FUNDING_AMOUNT as u128,
            asset: Asset::BitcoinSat,
        },
    ];
    v
}

/// The ordered funding operations for the Ethereum node: native coin and
/// token, the fixed base-unit amount of each, to each account's address,
/// account 0 strictly before account 1.
pub fn ethereum_funding_plan(accounts: &AccountSet) -> (v: Vec<FundingOp>)
    ensures
        v@.len() == 4,
        v@[0].address@ == accounts.eth_address_0@ && v@[0].asset is Ether,
        v@[1].address@ == accounts.eth_address_0@ && v@[1].asset is Erc20Token,
        v@[2].address@ == accounts.eth_address_1@ && v@[2].asset is Ether,
        v@[3].address@ == accounts.eth_address_1@ && v@[3].asset is Erc20Token,
        forall|i: int| 0 <= i < 4 ==> v@[i].amount == BASE_UNIT_FUNDING_AMOUNT,
{
    let v: Vec<FundingOp> = vec![
        FundingOp {
            address: accounts.eth_address_0.clone(),
            amount: BASE_UNIT_FUNDING_AMOUNT,
            asset: Asset::Ether,
        },
        FundingOp {
            address: accounts.eth_address_0.clone(),
            amount: BASE_UNIT_FUNDING_AMOUNT,
            asset: Asset::Erc20Token,
        },
        FundingOp {
            address: accounts.eth_address_1.clone(),
            amount: BASE_UNIT_FUNDING_AMOUNT,
            asset: Asset::Ether,
        },
        FundingOp {
            address: accounts.eth_address_1.clone(),
            amount: BASE_UNIT_FUNDING_AMOUNT,
            asset: Asset::Erc20Token,
        },
    ];
    v
}

/// The sequential fold that executes one node's funding plan. Operations
/// against one node share that node's single funding wallet, so the next
/// operation is handed out only once every earlier one has completed.
pub struct FundingRun {
    pub plan: Vec<FundingOp>,
    pub done: usize,
}

impl FundingRun {
    /// No more operations have completed than the plan holds.
    pub open spec fn wf(&self) -> bool {
        self.done <= self.plan@.len()
    }

    /// The operations that have completed, in the order they ran: always a
    /// prefix of the plan.
    pub open spec fn completed(&self) -> Seq<FundingOp> {
        self.plan@.take(self.done as int)
    }

    /// Begin a run: nothing has completed yet.
    pub fn new(plan: Vec<FundingOp>) -> (r: Self)
        ensures
            r.wf(),
            r.plan == plan,
            r.done == 0,
            r.completed() =~= Seq::<FundingOp>::empty(),
    {
        FundingRun { plan, done: 0 }
    }

    /// The next operation to perform, exactly the first one of the plan
    /// that has not completed; nothing once the plan is exhausted.
    pub fn next_op(&self) -> (r: Option<&FundingOp>)
        requires
            self.wf(),
        ensures
            self.done < self.plan@.len() ==> (r matches Some(op) && *op == self.plan@[self.done as int]),
            self.done == self.plan@.len() ==> r is None,
    {
        if self.done < self.plan.len() {
            Some(&self.plan[self.done])
        } else {
            None
        }
    }

    /// Record that the operation handed out last has completed, so that the
    /// following operation observes the wallet state it left behind.
    pub fn op_completed(&mut self)
        requires
            old(self).wf(),
            old(self).done < old(self).plan@.len(),
        ensures
            final(self).wf(),
            final(self).plan == old(self).plan,
            final(self).done == old(self).done + 1,
            final(self).completed() =~= old(self).completed().push(
                old(self).plan@[old(self).done as int],
            ),
    {
        proof {
            vstd::std_specs::vec::axiom_spec_len(&self.plan);
        }
        self.done = self.done + 1;
    }

    /// Whether every operation of the plan has completed.
    pub fn is_complete(&self) -> (r: bool)
        requires
            self.wf(),
        ensures
            r <==> self.done == self.plan@.len(),
    {
        self.done == self.plan.len()
    }
}

/// Law: funding for several accounts against the same node is an ordered
/// fold. Whenever an operation is the next to run, every operation placed
/// before it in the plan — and no other — has already completed.
pub proof fn lemma_funding_is_ordered(r: FundingRun)
    requires
        r.wf(),
        r.done < r.plan@.len(),
    ensures
        r.completed() =~= r.plan@.take(r.done as int),
        forall|i: int| 0 <= i < r.done ==> r.completed()[i] == r.plan@[i],
{
}

/// Law: in a two-operation plan, the second funding operation runs only
/// once the first has completed, so it observes the wallet state the first
/// one left behind.
pub proof fn lemma_second_funding_sees_first(r: FundingRun)
    requires
        r.wf(),
        r.plan@.len() == 2,
        r.done == 1,
    ensures
        r.completed() =~= seq![r.plan@[0]],
{
}

} // verus!
