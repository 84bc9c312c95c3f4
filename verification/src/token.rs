//! The ledger value, its abstract view, and the administrator registry.

use vstd::prelude::*;
use std::collections::HashMap;
use std::collections::HashSet;
use crate::error::TokenError;
use crate::model::{
    committed, Address, AllowanceValue, Event, MultiSigTransaction, ProposalView, TokenView,
};

verus! {

/// A proposal with the owners that approved it.
pub struct Proposal {
    pub transaction: MultiSigTransaction,
    pub approvals: Vec<Address>,
}

impl View for Proposal {
    type V = ProposalView;

    open spec fn view(&self) -> ProposalView {
        ProposalView { transaction: self.transaction, approvals: self.approvals@ }
    }
}

/// The key under which the allowance of `spender` on `from` is stored: the
/// two identities side by side.
pub open spec fn pair_key(from: Address, spender: Address) -> u128 {
    (from * 0x1_0000_0000_0000_0000 + spender) as u128
}

/// The key under which the allowance of `spender` on `from` is stored.
pub fn allowance_key(from: Address, spender: Address) -> (key: u128)
    ensures
        key == pair_key(from, spender),
{
    let high: u128 = from as u128;
    let low: u128 = spender as u128;
    high * 0x1_0000_0000_0000_0000u128 + low
}

/// The owner and the spender whose allowance is stored under `key`.
pub fn allowance_pair(key: u128) -> (pair: (Address, Address))
    ensures
        pair_key(pair.0, pair.1) == key,
{
    let high: u128 = key / 0x1_0000_0000_0000_0000u128;
    let low: u128 = key % 0x1_0000_0000_0000_0000u128;
    (high as u64, low as u64)
}

/// Distinct pairs of identities have distinct keys.
pub proof fn lemma_pair_key_injective(a: Address, b: Address, c: Address, d: Address)
    ensures
        pair_key(a, b) == pair_key(c, d) <==> (a == c && b == d),
{
}

/// The ledger: administrator, metadata, accounts, and the multisig registry
/// with its log of proposals. The fields are what a host has to persist
/// between invocations; allowances are stored under [`allowance_key`].
pub struct Token {
    pub administrator: Option<Address>,
    pub decimal: u32,
    pub name: String,
    pub symbol: String,
    pub balances: HashMap<Address, i128>,
    pub allowances: HashMap<u128, AllowanceValue>,
    pub frozen: HashSet<Address>,
    pub multisig_required: bool,
    pub multisig_owners: Vec<Address>,
    pub multisig_threshold: u32,
    pub proposals: Vec<Proposal>,
    pub events: Vec<Event>,
}

impl View for Token {
    type V = TokenView;

    open spec fn view(&self) -> TokenView {
        TokenView {
            administrator: self.administrator,
            decimal: self.decimal,
            name: self.name@,
            symbol: self.symbol@,
            balances: self.balances@,
            allowances: Map::new(
                |pair: (Address, Address)| self.allowances@.contains_key(pair_key(pair.0, pair.1)),
                |pair: (Address, Address)| self.allowances@[pair_key(pair.0, pair.1)],
            ),
            frozen: self.frozen@,
            multisig_required: self.multisig_required,
            owners: self.multisig_owners@,
            threshold: self.multisig_threshold,
            proposals: Seq::new(self.proposals@.len(), |i: int| self.proposals@[i]@),
            events: self.events@,
        }
    }
}

/// Accepts an amount exactly when it is not negative.
pub fn check_nonnegative_amount(amount: i128) -> (r: Result<(), TokenError>)
    ensures
        amount >= 0 ==> r is Ok,
        amount < 0 ==> r == Err::<(), TokenError>(TokenError::NegativeAmount),
{
    if amount < 0 {
        Err(TokenError::NegativeAmount)
    } else {
        Ok(())
    }
}

impl Token {
    /// The data invariant of the ledger; see [`TokenView::wf`].
    pub open spec fn wf(&self) -> bool {
        self@.wf()
    }

    /// A ledger on which nothing has happened yet.
    pub fn new() -> (token: Token)
        ensures
            token.wf(),
            token@ == TokenView::empty(),
    {
        let token = Token {
            administrator: None,
            decimal: 0,
            name: String::new(),
            symbol: String::new(),
            balances: HashMap::new(),
            allowances: HashMap::new(),
            frozen: HashSet::new(),
            multisig_required: false,
            multisig_owners: Vec::new(),
            multisig_threshold: 0,
            proposals: Vec::new(),
            events: Vec::new(),
        };
        proof {
            assert(token@.allowances =~= Map::empty());
            assert(token@.proposals =~= Seq::empty());
        }
        token
    }

    /// Adds a notification for the host to publish.
    pub(crate) fn emit(&mut self, event: Event)
        requires
            old(self).wf(),
        ensures
            final(self).wf(),
            final(self)@ == old(self)@.emit(event),
    {
        self.events.push(event);
    }

    /// Takes back the latest notification.
    pub(crate) fn drop_last_event(&mut self)
        requires
            old(self).wf(),
            old(self)@.events.len() > 0,
        ensures
            final(self).wf(),
            final(self)@ == (TokenView { events: old(self)@.events.drop_last(), ..old(self)@ }),
    {
        self.events.pop();
    }

    /// Hands out the notifications of the changes committed since the last
    /// call, oldest first, for the host to publish.
    pub fn take_events(&mut self) -> (events: Vec<Event>)
        requires
            old(self).wf(),
        ensures
            final(self).wf(),
            events@ == old(self)@.events,
            final(self)@ == (TokenView { events: Seq::empty(), ..old(self)@ }),
    {
        let mut events: Vec<Event> = Vec::new();
        std::mem::swap(&mut events, &mut self.events);
        events
    }

    /// The notifications waiting to be published, oldest first.
    pub fn pending_events(&self) -> (events: &Vec<Event>)
        ensures
            events@ == self@.events,
    {
        &self.events
    }

    /// The administrator, if the ledger has one.
    pub fn read_administrator(&self) -> (admin: Option<Address>)
        ensures
            admin == self@.administrator,
    {
        self.administrator
    }

    /// Whether `who` is the administrator.
    pub fn is_administrator(&self, who: Address) -> (yes: bool)
        ensures
            yes == self@.is_administrator(who),
    {
        match self.administrator {
            Some(admin) => admin == who,
            None => false,
        }
    }

    /// Sets the administrator and the metadata, once.
    pub fn initialize(&mut self, admin: Address, decimal: u32, name: String, symbol: String) -> (r:
        Result<(), TokenError>)
        requires
            old(self).wf(),
        ensures
            final(self).wf(),
            committed(old(self)@, final(self)@, r, old(self)@.initialize(admin, decimal, name@, symbol@)),
    {
        if self.administrator.is_some() {
            return Err(TokenError::AlreadyInitialized);
        }
        if decimal > 255 {
            return Err(TokenError::DecimalOverflow);
        }
        self.administrator = Some(admin);
        self.decimal = decimal;
        self.name = name;
        self.symbol = symbol;
        Ok(())
    }

    /// Replaces the administrator. Only the current administrator may do so.
    pub fn set_admin(&mut self, caller: Address, new_admin: Address) -> (r: Result<(), TokenError>)
        requires
            old(self).wf(),
        ensures
            final(self).wf(),
            committed(old(self)@, final(self)@, r, old(self)@.set_admin(caller, new_admin)),
    {
        if !self.is_administrator(caller) {
            return Err(TokenError::Unauthorized);
        }
        self.administrator = Some(new_admin);
        self.emit(Event::SetAdmin { admin: caller, new_admin });
        Ok(())
    }

    /// The number of decimals.
    pub fn decimals(&self) -> (decimal: u32)
        ensures
            decimal == self@.decimal,
    {
        self.decimal
    }

    /// The name of the asset.
    pub fn name(&self) -> (name: String)
        ensures
            name@ == self@.name,
    {
        self.name.clone()
    }

    /// The symbol of the asset.
    pub fn symbol(&self) -> (symbol: String)
        ensures
            symbol@ == self@.symbol,
    {
        self.symbol.clone()
    }

    /// The balance of `id`.
    pub fn read_balance(&self, id: Address) -> (balance: i128)
        ensures
            balance == self@.balance_of(id),
            self.wf() ==> balance >= 0,
    {
        broadcast use vstd::std_specs::hash::group_hash_axioms;

        match self.balances.get(&id) {
            Some(balance) => {
                assert(self@.balances.contains_key(id));
                *balance
            },
            None => 0,
        }
    }

    /// Replaces the balance of `id`.
    pub(crate) fn write_balance(&mut self, id: Address, balance: i128)
        requires
            old(self).wf(),
            balance >= 0,
        ensures
            final(self).wf(),
            final(self)@ == old(self)@.with_balance(id, balance),
    {
        broadcast use vstd::std_specs::hash::group_hash_axioms;

        self.balances.insert(id, balance);
    }

    /// The recorded allowance of `spender` on `from`, if there is one.
    pub fn read_allowance(&self, from: Address, spender: Address) -> (entry: Option<
        AllowanceValue,
    >)
        ensures
            entry is Some <==> self@.allowances.contains_key((from, spender)),
            entry is Some ==> entry->0 == self@.allowances[(from, spender)],
    {
        broadcast use vstd::std_specs::hash::group_hash_axioms;

        let key = allowance_key(from, spender);
        match self.allowances.get(&key) {
            Some(value) => Some(*value),
            None => None,
        }
    }

    /// Replaces the recorded allowance of `spender` on `from`.
    pub(crate) fn write_allowance_entry(&mut self, from: Address, spender: Address, value: AllowanceValue)
        requires
            old(self).wf(),
            value.amount >= 0,
        ensures
            final(self).wf(),
            final(self)@ == (TokenView {
                allowances: old(self)@.allowances.insert((from, spender), value),
                ..old(self)@
            }),
    {
        broadcast use vstd::std_specs::hash::group_hash_axioms;

        let key = allowance_key(from, spender);
        self.allowances.insert(key, value);
        proof {
            assert forall|pair: (Address, Address)|
                (pair_key(pair.0, pair.1) == key) == (pair == (from, spender)) by {
                lemma_pair_key_injective(pair.0, pair.1, from, spender);
            }
            assert(self@.allowances =~= old(self)@.allowances.insert((from, spender), value));
        }
    }

    /// Whether `account` is frozen.
    pub fn is_account_frozen(&self, account: Address) -> (frozen: bool)
        ensures
            frozen == self@.is_frozen(account),
    {
        broadcast use vstd::std_specs::hash::group_hash_axioms;

        self.frozen.contains(&account)
    }

    /// Sets or clears the frozen flag of `account`.
    pub(crate) fn write_frozen(&mut self, account: Address, frozen: bool)
        requires
            old(self).wf(),
        ensures
            final(self).wf(),
            frozen ==> final(self)@ == (TokenView {
                frozen: old(self)@.frozen.insert(account),
                ..old(self)@
            }),
            !frozen ==> final(self)@ == (TokenView {
                frozen: old(self)@.frozen.remove(account),
                ..old(self)@
            }),
    {
        broadcast use vstd::std_specs::hash::group_hash_axioms;

        if frozen {
            self.frozen.insert(account);
        } else {
            self.frozen.remove(&account);
        }
    }

    /// The owners of the current multisig configuration; none while there is
    /// no configuration.
    pub fn get_multisig_owners(&self) -> (owners: &Vec<Address>)
        ensures
            owners@ == self@.owners,
    {
        &self.multisig_owners
    }

    /// The number of approvals a proposal needs before it is executed.
    pub fn multisig_threshold(&self) -> (threshold: u32)
        ensures
            threshold == self@.threshold,
    {
        self.multisig_threshold
    }

    /// Whether `who` is an owner of the current multisig configuration.
    pub fn is_multisig_owner(&self, who: Address) -> (yes: bool)
        ensures
            yes == self@.is_owner(who),
    {
        self.multisig_required && contains_address(&self.multisig_owners, who)
    }

    /// Replaces the multisig configuration.
    pub(crate) fn write_multisig(&mut self, owners: Vec<Address>, threshold: u32)
        requires
            old(self).wf(),
            1 <= threshold <= owners@.len(),
        ensures
            final(self).wf(),
            final(self)@ == (TokenView {
                multisig_required: true,
                owners: owners@,
                threshold,
                ..old(self)@
            }),
    {
        self.multisig_required = true;
        self.multisig_owners = owners;
        self.multisig_threshold = threshold;
    }

    /// The number of proposals made so far, which is the id of the next one.
    pub fn transaction_count(&self) -> (count: u64)
        ensures
            count == self@.proposals.len(),
    {
        self.proposals.len() as u64
    }

    /// The proposal with the given id, if there is one.
    pub fn read_transaction(&self, id: u64) -> (transaction: Option<MultiSigTransaction>)
        ensures
            transaction is Some <==> id < self@.proposals.len(),
            transaction is Some ==> transaction->0 == self@.proposals[id as int].transaction,
    {
        if id < self.proposals.len() as u64 {
            Some(self.proposals[id as usize].transaction)
        } else {
            None
        }
    }

    /// The owners that approved the proposal with the given id, in order;
    /// none if there is no such proposal.
    pub fn read_approvals(&self, id: u64) -> (approvals: Vec<Address>)
        ensures
            id < self@.proposals.len() ==> approvals@ == self@.proposals[id as int].approvals,
            id >= self@.proposals.len() ==> approvals@.len() == 0,
    {
        let mut approvals: Vec<Address> = Vec::new();
        if id < self.proposals.len() as u64 {
            let recorded = &self.proposals[id as usize].approvals;
            let mut i: usize = 0;
            while i < recorded.len()
                invariant
                    0 <= i <= recorded@.len(),
                    approvals@ == recorded@.subrange(0, i as int),
                decreases recorded@.len() - i,
            {
                approvals.push(recorded[i]);
                proof {
                    assert(approvals@ =~= recorded@.subrange(0, i + 1));
                }
                i += 1;
            }
            proof {
                assert(approvals@ =~= recorded@);
            }
        }
        approvals
    }

    /// The position of the proposal with the given id, if there is one.
    pub(crate) fn transaction_index(&self, id: u64) -> (index: Option<usize>)
        ensures
            index is Some <==> id < self@.proposals.len(),
            index is Some ==> index->0 == id,
    {
        if id < self.proposals.len() as u64 {
            Some(id as usize)
        } else {
            None
        }
    }

    /// The proposal at position `id`.
    pub(crate) fn transaction_at(&self, id: usize) -> (transaction: MultiSigTransaction)
        requires
            id < self@.proposals.len(),
        ensures
            transaction == self@.proposals[id as int].transaction,
    {
        self.proposals[id].transaction
    }

    /// The number of approvals of proposal `id`.
    pub(crate) fn approval_count(&self, id: usize) -> (count: usize)
        requires
            id < self@.proposals.len(),
        ensures
            count == self@.proposals[id as int].approvals.len(),
    {
        self.proposals[id].approvals.len()
    }

    /// Appends a proposal whose only approval is that of `sender`.
    pub(crate) fn push_proposal(&mut self, transaction: MultiSigTransaction, sender: Address)
        requires
            old(self).wf(),
        ensures
            final(self).wf(),
            final(self)@ == (TokenView {
                proposals: old(self)@.proposals.push(
                    ProposalView { transaction, approvals: seq![sender] },
                ),
                ..old(self)@
            }),
    {
        let mut approvals: Vec<Address> = Vec::new();
        approvals.push(sender);
        self.proposals.push(Proposal { transaction, approvals });
        proof {
            assert(approvals@ =~= seq![sender]);
            assert(self@.proposals =~= old(self)@.proposals.push(
                ProposalView { transaction, approvals: seq![sender] },
            ));
        }
    }

    /// Records the approval of `who` for proposal `id`, unless it is there
    /// already. Says whether it was added.
    pub(crate) fn add_approval(&mut self, id: usize, who: Address) -> (added: bool)
        requires
            old(self).wf(),
            id < old(self)@.proposals.len(),
        ensures
            final(self).wf(),
            final(self)@ == old(self)@.with_approval(id as int, who),
            added == !old(self)@.proposals[id as int].approvals.contains(who),
    {
        if contains_address(&self.proposals[id].approvals, who) {
            return false;
        }
        let proposal = &mut self.proposals[id];
        proposal.approvals.push(who);
        proof {
            let before = old(self)@.proposals[id as int];
            assert(self@.proposals =~= old(self)@.proposals.update(
                id as int,
                ProposalView { approvals: before.approvals.push(who), ..before },
            ));
        }
        true
    }

    /// Takes back the latest approval of proposal `id`.
    pub(crate) fn drop_last_approval(&mut self, id: usize)
        requires
            old(self).wf(),
            id < old(self)@.proposals.len(),
            old(self)@.proposals[id as int].approvals.len() > 0,
        ensures
            final(self).wf(),
            final(self)@ == (TokenView {
                proposals: old(self)@.proposals.update(
                    id as int,
                    ProposalView {
                        approvals: old(self)@.proposals[id as int].approvals.drop_last(),
                        ..old(self)@.proposals[id as int]
                    },
                ),
                ..old(self)@
            }),
    {
        let proposal = &mut self.proposals[id];
        proposal.approvals.pop();
        proof {
            let before = old(self)@.proposals[id as int];
            assert(self@.proposals =~= old(self)@.proposals.update(
                id as int,
                ProposalView { approvals: before.approvals.drop_last(), ..before },
            ));
        }
    }

    /// Marks proposal `id` as executed.
    pub(crate) fn mark_executed(&mut self, id: usize)
        requires
            old(self).wf(),
            id < old(self)@.proposals.len(),
        ensures
            final(self).wf(),
            final(self)@ == old(self)@.with_executed(id as int),
    {
        let proposal = &mut self.proposals[id];
        proposal.transaction.executed = true;
        proof {
            let before = old(self)@.proposals[id as int];
            assert(self@.proposals =~= old(self)@.proposals.update(
                id as int,
                ProposalView {
                    transaction: MultiSigTransaction { executed: true, ..before.transaction },
                    ..before
                },
            ));
        }
    }
}

/// Whether `who` occurs in `list`.
pub(crate) fn contains_address(list: &Vec<Address>, who: Address) -> (found: bool)
    ensures
        found == list@.contains(who),
{
    let mut i: usize = 0;
    while i < list.len()
        invariant
            0 <= i <= list@.len(),
            forall|j: int| 0 <= j < i ==> list@[j] != who,
        decreases list@.len() - i,
    {
        if list[i] == who {
            return true;
        }
        i += 1;
    }
    false
}

} // verus!
