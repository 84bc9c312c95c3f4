//! The mathematical model of the ledger: its abstract state and, for each
//! operation, the state that the operation leads to or the failure it
//! reports.

use vstd::prelude::*;
use crate::error::TokenError;

verus! {

/// The identity of an account, an administrator or a multisig owner.
/// Identities are only ever compared for equality.
pub type Address = u64;

/// A privileged operation that a multisig proposal can carry.
#[derive(Clone, Copy, Debug, PartialEq, Eq, Structural)]
pub enum Operation {
    /// Debit the target, then credit the same target.
    Transfer,
    /// Credit the target.
    Mint,
    /// Debit the target.
    Burn,
    /// Any other tag. A proposal may carry it, but executing it fails.
    Other,
}

/// What a spender may still debit from an owner, and until when.
#[derive(Clone, Copy, Debug, PartialEq, Eq, Structural)]
pub struct AllowanceValue {
    pub amount: i128,
    pub expiration_ledger: u32,
}

/// A proposed privileged operation.
#[derive(Clone, Copy, Debug, PartialEq, Eq, Structural)]
pub struct MultiSigTransaction {
    pub operation: Operation,
    pub target: Address,
    pub amount: i128,
    pub expiration: u64,
    pub executed: bool,
}

/// A notification of a committed change, for the host to publish.
#[derive(Clone, Copy, Debug, PartialEq, Eq, Structural)]
pub enum Event {
    Mint { admin: Address, to: Address, amount: i128 },
    SetAdmin { admin: Address, new_admin: Address },
    FreezeAccount { admin: Address, account: Address },
    UnfreezeAccount { admin: Address, account: Address },
    Approve { from: Address, spender: Address, amount: i128, expiration_ledger: u32 },
    Transfer { from: Address, to: Address, amount: i128 },
    Burn { from: Address, amount: i128 },
    SetupMultisig { admin: Address, owner_count: u64, threshold: u32 },
    ProposeMultisigTransaction {
        sender: Address,
        transaction_id: u64,
        operation: Operation,
        target: Address,
        amount: i128,
        expiration: u64,
    },
    ApproveMultisigTransaction { sender: Address, transaction_id: u64 },
    ExecuteMultisigTransaction {
        transaction_id: u64,
        operation: Operation,
        target: Address,
        amount: i128,
    },
}

/// A proposal together with the owners that approved it, in order of
/// approval.
pub struct ProposalView {
    pub transaction: MultiSigTransaction,
    pub approvals: Seq<Address>,
}

/// The abstract state of the ledger.
pub struct TokenView {
    pub administrator: Option<Address>,
    pub decimal: u32,
    pub name: Seq<char>,
    pub symbol: Seq<char>,
    /// Balances of the accounts that were ever credited or debited.
    pub balances: Map<Address, i128>,
    /// Allowances by (owner, spender).
    pub allowances: Map<(Address, Address), AllowanceValue>,
    pub frozen: Set<Address>,
    /// Whether a multisig configuration exists.
    pub multisig_required: bool,
    pub owners: Seq<Address>,
    pub threshold: u32,
    /// All proposals ever made; a proposal's id is its position.
    pub proposals: Seq<ProposalView>,
    /// The notifications of the changes committed since the host last
    /// collected them, oldest first.
    pub events: Seq<Event>,
}

/// The balance after adding `amount` to `balance`.
pub open spec fn credited(balance: i128, amount: i128) -> Result<i128, TokenError> {
    if balance + amount < 0 {
        Err(TokenError::InsufficientBalance)
    } else if balance + amount > i128::MAX {
        Err(TokenError::BalanceOverflow)
    } else {
        Ok((balance + amount) as i128)
    }
}

/// The balance after taking `amount` from `balance`.
pub open spec fn debited(balance: i128, amount: i128) -> Result<i128, TokenError> {
    if balance < amount {
        Err(TokenError::InsufficientBalance)
    } else if balance - amount > i128::MAX {
        Err(TokenError::BalanceOverflow)
    } else {
        Ok((balance - amount) as i128)
    }
}

/// An operation without a result either commits the state the model gives
/// and succeeds, or reports the model's failure and changes nothing.
pub open spec fn committed(
    pre: TokenView,
    post: TokenView,
    result: Result<(), TokenError>,
    step: Result<TokenView, TokenError>,
) -> bool {
    match step {
        Ok(next) => result is Ok && post == next,
        Err(e) => result == Err::<(), TokenError>(e) && post == pre,
    }
}

/// As [`committed`], for an operation that also returns a value.
pub open spec fn committed_with<T>(
    pre: TokenView,
    post: TokenView,
    result: Result<T, TokenError>,
    step: Result<(TokenView, T), TokenError>,
) -> bool {
    match step {
        Ok(next) => result == Ok::<T, TokenError>(next.1) && post == next.0,
        Err(e) => result == Err::<T, TokenError>(e) && post == pre,
    }
}

impl TokenView {
    /// The state of a ledger on which nothing has happened yet.
    pub open spec fn empty() -> TokenView {
        TokenView {
            administrator: None,
            decimal: 0,
            name: Seq::empty(),
            symbol: Seq::empty(),
            balances: Map::empty(),
            allowances: Map::empty(),
            frozen: Set::empty(),
            multisig_required: false,
            owners: Seq::empty(),
            threshold: 0,
            proposals: Seq::empty(),
            events: Seq::empty(),
        }
    }

    /// The data invariant: no balance and no allowance is negative, the
    /// decimals fit in eight bits, a multisig configuration has a threshold
    /// between one and the number of owners, and no owner is recorded twice
    /// among the approvals of a proposal.
    pub open spec fn wf(self) -> bool {
        &&& forall|id: Address| #[trigger]
            self.balances.contains_key(id) ==> self.balances[id] >= 0
        &&& forall|pair: (Address, Address)| #[trigger]
            self.allowances.contains_key(pair) ==> self.allowances[pair].amount >= 0
        &&& self.decimal <= 255
        &&& self.multisig_required ==> 1 <= self.threshold <= self.owners.len()
        &&& forall|i: int|
            0 <= i < self.proposals.len() ==> (#[trigger] self.proposals[i]).approvals.no_duplicates()
    }

    /// The balance of `id`; an account never touched holds nothing.
    pub open spec fn balance_of(self, id: Address) -> i128 {
        if self.balances.contains_key(id) {
            self.balances[id]
        } else {
            0
        }
    }

    /// This state with the balance of `id` replaced.
    pub open spec fn with_balance(self, id: Address, balance: i128) -> TokenView {
        TokenView { balances: self.balances.insert(id, balance), ..self }
    }

    /// What `spender` may debit from `from` at sequence number `now`: the
    /// recorded amount while the allowance has not expired, else nothing.
    pub open spec fn allowance_of(self, from: Address, spender: Address, now: u32) -> i128 {
        if self.allowances.contains_key((from, spender)) && self.allowances[(
            from,
            spender,
        )].expiration_ledger >= now {
            self.allowances[(from, spender)].amount
        } else {
            0
        }
    }

    /// This state with one more notification to publish.
    pub open spec fn emit(self, event: Event) -> TokenView {
        TokenView { events: self.events.push(event), ..self }
    }

    /// Whether nothing can be debited from `id`.
    pub open spec fn is_frozen(self, id: Address) -> bool {
        self.frozen.contains(id)
    }

    /// Whether `who` is the administrator.
    pub open spec fn is_administrator(self, who: Address) -> bool {
        self.administrator == Some(who)
    }

    /// Whether `who` is an owner of the current multisig configuration.
    pub open spec fn is_owner(self, who: Address) -> bool {
        self.multisig_required && self.owners.contains(who)
    }

    /// Set the administrator and the metadata. This can be done once, and
    /// the decimals must fit in eight bits.
    pub open spec fn initialize(
        self,
        admin: Address,
        decimal: u32,
        name: Seq<char>,
        symbol: Seq<char>,
    ) -> Result<TokenView, TokenError> {
        if self.administrator is Some {
            Err(TokenError::AlreadyInitialized)
        } else if decimal > 255 {
            Err(TokenError::DecimalOverflow)
        } else {
            Ok(TokenView { administrator: Some(admin), decimal, name, symbol, ..self })
        }
    }

    /// Replace the administrator, in the name of the current one.
    pub open spec fn set_admin(self, caller: Address, new_admin: Address) -> Result<
        TokenView,
        TokenError,
    > {
        if !self.is_administrator(caller) {
            Err(TokenError::Unauthorized)
        } else {
            Ok(
                TokenView { administrator: Some(new_admin), ..self }.emit(
                    Event::SetAdmin { admin: caller, new_admin },
                ),
            )
        }
    }

    /// Credit `id` with `amount`.
    pub open spec fn receive_balance(self, id: Address, amount: i128) -> Result<
        TokenView,
        TokenError,
    > {
        match credited(self.balance_of(id), amount) {
            Ok(balance) => Ok(self.with_balance(id, balance)),
            Err(e) => Err(e),
        }
    }

    /// Debit `id` by `amount`.
    pub open spec fn spend_balance(self, id: Address, amount: i128) -> Result<
        TokenView,
        TokenError,
    > {
        match debited(self.balance_of(id), amount) {
            Ok(balance) => Ok(self.with_balance(id, balance)),
            Err(e) => Err(e),
        }
    }

    /// Debit `from`, then credit `to`.
    pub open spec fn move_balance(self, from: Address, to: Address, amount: i128) -> Result<
        TokenView,
        TokenError,
    > {
        match self.spend_balance(from, amount) {
            Ok(spent) => spent.receive_balance(to, amount),
            Err(e) => Err(e),
        }
    }

    /// Credit `to` with a non-negative amount, in the administrator's name.
    /// A frozen account can be credited too.
    pub open spec fn mint(self, caller: Address, to: Address, amount: i128) -> Result<
        TokenView,
        TokenError,
    > {
        if amount < 0 {
            Err(TokenError::NegativeAmount)
        } else if !self.is_administrator(caller) {
            Err(TokenError::Unauthorized)
        } else {
            match self.receive_balance(to, amount) {
                Ok(next) => Ok(next.emit(Event::Mint { admin: caller, to, amount })),
                Err(e) => Err(e),
            }
        }
    }

    /// Freeze `account`, in the administrator's name. Freezing a frozen
    /// account changes nothing but is notified.
    pub open spec fn freeze_account(self, caller: Address, account: Address) -> Result<
        TokenView,
        TokenError,
    > {
        if !self.is_administrator(caller) {
            Err(TokenError::Unauthorized)
        } else {
            Ok(
                TokenView { frozen: self.frozen.insert(account), ..self }.emit(
                    Event::FreezeAccount { admin: caller, account },
                ),
            )
        }
    }

    /// Lift the freeze of `account`, in the administrator's name.
    pub open spec fn unfreeze_account(self, caller: Address, account: Address) -> Result<
        TokenView,
        TokenError,
    > {
        if !self.is_administrator(caller) {
            Err(TokenError::Unauthorized)
        } else {
            Ok(
                TokenView { frozen: self.frozen.remove(account), ..self }.emit(
                    Event::UnfreezeAccount { admin: caller, account },
                ),
            )
        }
    }

    /// Overwrite the allowance of `spender` on `from`.
    pub open spec fn write_allowance(
        self,
        from: Address,
        spender: Address,
        amount: i128,
        expiration_ledger: u32,
    ) -> Result<TokenView, TokenError> {
        if amount < 0 {
            Err(TokenError::NegativeAmount)
        } else {
            Ok(
                TokenView {
                    allowances: self.allowances.insert(
                        (from, spender),
                        AllowanceValue { amount, expiration_ledger },
                    ),
                    ..self
                },
            )
        }
    }

    /// Grant `spender` an allowance on `from`, replacing any earlier one.
    /// Only `from` may do so.
    pub open spec fn approve(
        self,
        caller: Address,
        from: Address,
        spender: Address,
        amount: i128,
        expiration_ledger: u32,
    ) -> Result<TokenView, TokenError> {
        if caller != from {
            Err(TokenError::Unauthorized)
        } else {
            match self.write_allowance(from, spender, amount, expiration_ledger) {
                Ok(next) => Ok(
                    next.emit(Event::Approve { from, spender, amount, expiration_ledger }),
                ),
                Err(e) => Err(e),
            }
        }
    }

    /// Take `amount` from the allowance of `spender` on `from`. Without a
    /// recorded allowance only nothing can be taken; a recorded one must not
    /// have expired and must cover the amount.
    pub open spec fn spend_allowance(
        self,
        from: Address,
        spender: Address,
        amount: i128,
        now: u32,
    ) -> Result<TokenView, TokenError> {
        if amount < 0 {
            Err(TokenError::NegativeAmount)
        } else if !self.allowances.contains_key((from, spender)) {
            if amount > 0 {
                Err(TokenError::InsufficientAllowance)
            } else {
                Ok(self)
            }
        } else {
            let recorded = self.allowances[(from, spender)];
            if recorded.expiration_ledger < now {
                Err(TokenError::AllowanceExpired)
            } else if recorded.amount < amount {
                Err(TokenError::InsufficientAllowance)
            } else {
                Ok(
                    TokenView {
                        allowances: self.allowances.insert(
                            (from, spender),
                            AllowanceValue {
                                amount: (recorded.amount - amount) as i128,
                                expiration_ledger: recorded.expiration_ledger,
                            },
                        ),
                        ..self
                    },
                )
            }
        }
    }

    /// Move a non-negative amount from `from`, which must not be frozen, to
    /// `to`. Only `from` may do so.
    pub open spec fn transfer(self, caller: Address, from: Address, to: Address, amount: i128) -> Result<
        TokenView,
        TokenError,
    > {
        if caller != from {
            Err(TokenError::Unauthorized)
        } else if amount < 0 {
            Err(TokenError::NegativeAmount)
        } else if self.is_frozen(from) {
            Err(TokenError::AccountFrozen)
        } else {
            match self.move_balance(from, to, amount) {
                Ok(next) => Ok(next.emit(Event::Transfer { from, to, amount })),
                Err(e) => Err(e),
            }
        }
    }

    /// Move a non-negative amount from `from`, which must not be frozen, to
    /// `to`, on the allowance of `spender`. Only `spender` may do so.
    pub open spec fn transfer_from(
        self,
        caller: Address,
        spender: Address,
        from: Address,
        to: Address,
        amount: i128,
        now: u32,
    ) -> Result<TokenView, TokenError> {
        if caller != spender {
            Err(TokenError::Unauthorized)
        } else if amount < 0 {
            Err(TokenError::NegativeAmount)
        } else if self.is_frozen(from) {
            Err(TokenError::AccountFrozen)
        } else {
            match self.spend_allowance(from, spender, amount, now) {
                Ok(allowed) => match allowed.move_balance(from, to, amount) {
                    Ok(next) => Ok(next.emit(Event::Transfer { from, to, amount })),
                    Err(e) => Err(e),
                },
                Err(e) => Err(e),
            }
        }
    }

    /// Debit `from`, which must not be frozen, by a non-negative amount.
    /// Only `from` may do so.
    pub open spec fn burn(self, caller: Address, from: Address, amount: i128) -> Result<
        TokenView,
        TokenError,
    > {
        if caller != from {
            Err(TokenError::Unauthorized)
        } else if amount < 0 {
            Err(TokenError::NegativeAmount)
        } else if self.is_frozen(from) {
            Err(TokenError::AccountFrozen)
        } else {
            match self.spend_balance(from, amount) {
                Ok(next) => Ok(next.emit(Event::Burn { from, amount })),
                Err(e) => Err(e),
            }
        }
    }

    /// Debit `from`, which must not be frozen, by a non-negative amount, on
    /// the allowance of `spender`. Only `spender` may do so.
    pub open spec fn burn_from(
        self,
        caller: Address,
        spender: Address,
        from: Address,
        amount: i128,
        now: u32,
    ) -> Result<TokenView, TokenError> {
        if caller != spender {
            Err(TokenError::Unauthorized)
        } else if amount < 0 {
            Err(TokenError::NegativeAmount)
        } else if self.is_frozen(from) {
            Err(TokenError::AccountFrozen)
        } else {
            match self.spend_allowance(from, spender, amount, now) {
                Ok(allowed) => match allowed.spend_balance(from, amount) {
                    Ok(next) => Ok(next.emit(Event::Burn { from, amount })),
                    Err(e) => Err(e),
                },
                Err(e) => Err(e),
            }
        }
    }

    /// Set the owners and the threshold, in the administrator's name. There
    /// must be an owner, and the threshold must lie between one and the
    /// number of owners. Proposals made before stay as they are.
    pub open spec fn setup_multisig(self, caller: Address, owners: Seq<Address>, threshold: u32) -> Result<
        TokenView,
        TokenError,
    > {
        if !self.is_administrator(caller) {
            Err(TokenError::Unauthorized)
        } else if owners.len() == 0 {
            Err(TokenError::EmptyOwnerList)
        } else if threshold == 0 || threshold > owners.len() {
            Err(TokenError::InvalidThreshold)
        } else {
            Ok(
                TokenView { multisig_required: true, owners, threshold, ..self }.emit(
                    Event::SetupMultisig { admin: caller, owner_count: owners.len() as u64, threshold },
                ),
            )
        }
    }

    /// Record a new proposal, approved by its proposer. Its id is the number
    /// of proposals made before it.
    pub open spec fn propose_multisig_transaction(
        self,
        sender: Address,
        operation: Operation,
        target: Address,
        amount: i128,
        expiration: u64,
    ) -> Result<(TokenView, u64), TokenError> {
        if !self.is_owner(sender) {
            Err(TokenError::NotAnOwner)
        } else {
            let proposal = ProposalView {
                transaction: MultiSigTransaction {
                    operation,
                    target,
                    amount,
                    expiration,
                    executed: false,
                },
                approvals: seq![sender],
            };
            let transaction_id = self.proposals.len() as u64;
            Ok(
                (
                    TokenView { proposals: self.proposals.push(proposal), ..self }.emit(
                        Event::ProposeMultisigTransaction {
                            sender,
                            transaction_id,
                            operation,
                            target,
                            amount,
                            expiration,
                        },
                    ),
                    transaction_id,
                ),
            )
        }
    }

    /// This state with `who` among the approvals of proposal `id`.
    pub open spec fn with_approval(self, id: int, who: Address) -> TokenView
        recommends
            0 <= id < self.proposals.len(),
    {
        let proposal = self.proposals[id];
        if proposal.approvals.contains(who) {
            self
        } else {
            TokenView {
                proposals: self.proposals.update(
                    id,
                    ProposalView { approvals: proposal.approvals.push(who), ..proposal },
                ),
                ..self
            }
        }
    }

    /// This state with proposal `id` marked as executed.
    pub open spec fn with_executed(self, id: int) -> TokenView
        recommends
            0 <= id < self.proposals.len(),
    {
        let proposal = self.proposals[id];
        TokenView {
            proposals: self.proposals.update(
                id,
                ProposalView {
                    transaction: MultiSigTransaction { executed: true, ..proposal.transaction },
                    ..proposal
                },
            ),
            ..self
        }
    }

    /// The effect of a proposal's operation on the balances. The operation
    /// is carried out in the administrator's name and needs the
    /// administrator's authorization. A transfer debits and credits the
    /// target, so that its balance stays as it is.
    pub open spec fn apply_operation(
        self,
        operation: Operation,
        target: Address,
        amount: i128,
        admin_authorized: bool,
    ) -> Result<TokenView, TokenError> {
        match (operation, self.administrator) {
            (Operation::Other, _) => Err(TokenError::UnknownOperation),
            (_, None) => Err(TokenError::Unauthorized),
            (_, Some(_)) if !admin_authorized => Err(TokenError::Unauthorized),
            (Operation::Transfer, Some(admin)) => match self.move_balance(target, target, amount) {
                Ok(next) => Ok(next.emit(Event::Transfer { from: admin, to: target, amount })),
                Err(e) => Err(e),
            },
            (Operation::Mint, Some(admin)) => match self.receive_balance(target, amount) {
                Ok(next) => Ok(next.emit(Event::Mint { admin, to: target, amount })),
                Err(e) => Err(e),
            },
            (Operation::Burn, Some(admin)) => match self.spend_balance(target, amount) {
                Ok(next) => Ok(next.emit(Event::Burn { from: admin, amount })),
                Err(e) => Err(e),
            },
        }
    }

    /// Execute proposal `id` if enough owners approved it. The result says
    /// whether it was executed. A proposal expires for execution only after
    /// its expiration sequence number has passed.
    pub open spec fn execute_multisig_transaction_if_approved(
        self,
        id: int,
        now: u32,
        admin_authorized: bool,
    ) -> Result<(TokenView, bool), TokenError>
        recommends
            0 <= id < self.proposals.len(),
    {
        let proposal = self.proposals[id];
        let transaction = proposal.transaction;
        if transaction.executed {
            Err(TokenError::AlreadyExecuted)
        } else if now > transaction.expiration {
            Err(TokenError::TransactionExpired)
        } else if proposal.approvals.len() < self.threshold {
            Ok((self, false))
        } else {
            match self.apply_operation(
                transaction.operation,
                transaction.target,
                transaction.amount,
                admin_authorized,
            ) {
                Ok(applied) => Ok(
                    (
                        applied.with_executed(id).emit(
                            Event::ExecuteMultisigTransaction {
                                transaction_id: id as u64,
                                operation: transaction.operation,
                                target: transaction.target,
                                amount: transaction.amount,
                            },
                        ),
                        true,
                    ),
                ),
                Err(e) => Err(e),
            }
        }
    }

    /// Record the approval of `sender` for proposal `id`, then attempt to
    /// execute the proposal. A proposal can no longer be approved once the
    /// sequence number has reached its expiration.
    pub open spec fn approve_multisig_transaction(
        self,
        sender: Address,
        id: u64,
        now: u32,
        admin_authorized: bool,
    ) -> Result<(TokenView, bool), TokenError> {
        if !self.is_owner(sender) {
            Err(TokenError::NotAnOwner)
        } else if id >= self.proposals.len() {
            Err(TokenError::TransactionNotFound)
        } else if self.proposals[id as int].transaction.executed {
            Err(TokenError::AlreadyExecuted)
        } else if now >= self.proposals[id as int].transaction.expiration {
            Err(TokenError::TransactionExpired)
        } else {
            self.with_approval(id as int, sender).emit(
                Event::ApproveMultisigTransaction { sender, transaction_id: id },
            ).execute_multisig_transaction_if_approved(id as int, now, admin_authorized)
        }
    }
}

} // verus!
