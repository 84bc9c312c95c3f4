//! Laws of the ledger, proved of the model that every operation follows.

use vstd::prelude::*;
use crate::error::TokenError;
use crate::model::{Address, Operation, TokenView};

verus! {

/// No account holds a negative balance.
pub proof fn law_balance_nonnegative(state: TokenView, id: Address)
    requires
        state.wf(),
    ensures
        state.balance_of(id) >= 0,
{
}

/// Crediting, debiting and moving balances keep the data invariant, so no
/// balance is negative after them, whatever the amount.
pub proof fn law_balance_steps_keep_invariant(state: TokenView, from: Address, to: Address, amount: i128)
    requires
        state.wf(),
    ensures
        state.receive_balance(to, amount) is Ok ==> state.receive_balance(to, amount)->Ok_0.wf(),
        state.spend_balance(from, amount) is Ok ==> state.spend_balance(from, amount)->Ok_0.wf(),
        state.move_balance(from, to, amount) is Ok ==> state.move_balance(from, to, amount)->Ok_0.wf(),
{
}

/// Every operation that succeeds on a state that meets the data invariant
/// leads to a state that meets it: after any sequence of successful
/// operations no balance and no allowance is negative.
pub proof fn law_operations_keep_invariant(
    state: TokenView,
    caller: Address,
    from: Address,
    to: Address,
    amount: i128,
    decimal: u32,
    name: Seq<char>,
    symbol: Seq<char>,
    until: u32,
    now: u32,
    owners: Seq<Address>,
    threshold: u32,
    operation: Operation,
    expiration: u64,
    id: u64,
    authorized: bool,
)
    requires
        state.wf(),
    ensures
        TokenView::empty().wf(),
        state.initialize(caller, decimal, name, symbol) is Ok ==> state.initialize(
            caller,
            decimal,
            name,
            symbol,
        )->Ok_0.wf(),
        state.set_admin(caller, to) is Ok ==> state.set_admin(caller, to)->Ok_0.wf(),
        state.mint(caller, to, amount) is Ok ==> state.mint(caller, to, amount)->Ok_0.wf(),
        state.freeze_account(caller, to) is Ok ==> state.freeze_account(caller, to)->Ok_0.wf(),
        state.unfreeze_account(caller, to) is Ok ==> state.unfreeze_account(caller, to)->Ok_0.wf(),
        state.approve(from, from, to, amount, until) is Ok ==> state.approve(from, from, to, amount, until)->Ok_0.wf(),
        state.spend_allowance(from, caller, amount, now) is Ok ==> state.spend_allowance(
            from,
            caller,
            amount,
            now,
        )->Ok_0.wf(),
        state.transfer(from, from, to, amount) is Ok ==> state.transfer(from, from, to, amount)->Ok_0.wf(),
        state.transfer_from(caller, caller, from, to, amount, now) is Ok ==> state.transfer_from(
            caller,
            caller,
            from,
            to,
            amount,
            now,
        )->Ok_0.wf(),
        state.burn(from, from, amount) is Ok ==> state.burn(from, from, amount)->Ok_0.wf(),
        state.burn_from(caller, caller, from, amount, now) is Ok ==> state.burn_from(
            caller,
            caller,
            from,
            amount,
            now,
        )->Ok_0.wf(),
        state.setup_multisig(caller, owners, threshold) is Ok ==> state.setup_multisig(
            caller,
            owners,
            threshold,
        )->Ok_0.wf(),
        state.propose_multisig_transaction(caller, operation, to, amount, expiration) is Ok
            ==> state.propose_multisig_transaction(caller, operation, to, amount, expiration)->Ok_0.0.wf(),
        state.approve_multisig_transaction(caller, id, now, authorized) is Ok ==> state.approve_multisig_transaction(
            caller,
            id,
            now,
            authorized,
        )->Ok_0.0.wf(),
{
    if state.approve_multisig_transaction(caller, id, now, authorized) is Ok {
        let approved = state.with_approval(id as int, caller);
        assert(approved.wf());
    }
}

/// A debit that the balance does not cover fails with `InsufficientBalance`,
/// be it a plain debit, or a burn or a transfer that the account itself asks
/// for.
pub proof fn law_overdraft_rejected(state: TokenView, from: Address, to: Address, amount: i128)
    requires
        state.wf(),
        amount >= 0,
        !state.is_frozen(from),
        state.balance_of(from) < amount,
    ensures
        state.spend_balance(from, amount) == Err::<TokenView, TokenError>(
            TokenError::InsufficientBalance,
        ),
        state.burn(from, from, amount) == Err::<TokenView, TokenError>(TokenError::InsufficientBalance),
        state.transfer(from, from, to, amount) == Err::<TokenView, TokenError>(
            TokenError::InsufficientBalance,
        ),
{
}

/// A transfer takes the amount from the sender and gives it to the
/// receiver, and touches no other balance.
pub proof fn law_transfer_moves_amount(
    state: TokenView,
    from: Address,
    to: Address,
    amount: i128,
    other: Address,
)
    requires
        state.wf(),
        from != to,
        other != from,
        other != to,
        state.transfer(from, from, to, amount) is Ok,
    ensures
        state.transfer(from, from, to, amount)->Ok_0.balance_of(from) == state.balance_of(from) - amount,
        state.transfer(from, from, to, amount)->Ok_0.balance_of(to) == state.balance_of(to) + amount,
        state.transfer(from, from, to, amount)->Ok_0.balance_of(other) == state.balance_of(other),
{
}

/// After a successful spend the allowance is the one before less the amount
/// spent.
pub proof fn law_spend_allowance_subtracts(
    state: TokenView,
    from: Address,
    spender: Address,
    amount: i128,
    now: u32,
)
    requires
        state.wf(),
        state.spend_allowance(from, spender, amount, now) is Ok,
    ensures
        state.spend_allowance(from, spender, amount, now)->Ok_0.allowance_of(from, spender, now)
            == state.allowance_of(from, spender, now) - amount,
{
}

/// Spending more than the allowance that remains fails.
pub proof fn law_overspend_rejected(
    state: TokenView,
    from: Address,
    spender: Address,
    amount: i128,
    now: u32,
)
    requires
        state.wf(),
        amount > state.allowance_of(from, spender, now),
    ensures
        state.spend_allowance(from, spender, amount, now) is Err,
{
}

/// Once the administrator has frozen an account, every debit of it that its
/// rightful caller asks for fails with `AccountFrozen`, whatever the
/// non-negative amount.
pub proof fn law_freeze_blocks_debits(
    state: TokenView,
    admin: Address,
    account: Address,
    spender: Address,
    to: Address,
    amount: i128,
    now: u32,
)
    requires
        state.is_administrator(admin),
        amount >= 0,
    ensures
        state.freeze_account(admin, account) is Ok,
        ({
            let frozen = state.freeze_account(admin, account)->Ok_0;
            let refused = Err::<TokenView, TokenError>(TokenError::AccountFrozen);
            &&& frozen.transfer(account, account, to, amount) == refused
            &&& frozen.burn(account, account, amount) == refused
            &&& frozen.transfer_from(spender, spender, account, to, amount, now) == refused
            &&& frozen.burn_from(spender, spender, account, amount, now) == refused
        }),
{
}

/// Freezing does not stop credits: the administrator can still mint to a
/// frozen account.
pub proof fn law_freeze_allows_credits(state: TokenView, admin: Address, account: Address, amount: i128)
    requires
        state.wf(),
        state.is_administrator(admin),
        amount >= 0,
        state.balance_of(account) + amount <= i128::MAX,
    ensures
        state.freeze_account(admin, account)->Ok_0.mint(admin, account, amount) is Ok,
{
}

/// Once the administrator has unfrozen an account, a burn that the account
/// asks for succeeds exactly when the balance covers it, and a transfer
/// exactly when the balance covers it and the receiver's balance stays in
/// range.
pub proof fn law_unfreeze_restores_debits(
    state: TokenView,
    admin: Address,
    account: Address,
    to: Address,
    amount: i128,
)
    requires
        state.wf(),
        state.is_administrator(admin),
        amount >= 0,
    ensures
        state.unfreeze_account(admin, account) is Ok,
        ({
            let thawed = state.unfreeze_account(admin, account)->Ok_0;
            &&& thawed.burn(account, account, amount) is Ok <==> state.balance_of(account) >= amount
            &&& thawed.transfer(account, account, to, amount) is Ok <==> (state.balance_of(account) >= amount
                && (to == account || state.balance_of(to) + amount <= i128::MAX))
        }),
{
}

/// A proposal whose expiration the sequence number has reached takes no
/// further approval: the attempt fails, with `TransactionExpired` if an
/// owner makes it on a proposal not yet executed, and the state stays as it
/// is.
pub proof fn law_expired_proposal_rejects_approval(
    state: TokenView,
    sender: Address,
    id: u64,
    now: u32,
    authorized: bool,
)
    requires
        id < state.proposals.len(),
        now >= state.proposals[id as int].transaction.expiration,
    ensures
        state.approve_multisig_transaction(sender, id, now, authorized) is Err,
        state.is_owner(sender) && !state.proposals[id as int].transaction.executed
            ==> state.approve_multisig_transaction(sender, id, now, authorized) == Err::<
            (TokenView, bool),
            TokenError,
        >(TokenError::TransactionExpired),
{
}

/// A proposal is executed only with at least as many approvals as the
/// current threshold, and an executed proposal takes no further approval.
pub proof fn law_threshold_enforced(
    state: TokenView,
    sender: Address,
    id: u64,
    now: u32,
    authorized: bool,
)
    requires
        state.wf(),
        state.approve_multisig_transaction(sender, id, now, authorized) is Ok,
    ensures
        ({
            let next = state.approve_multisig_transaction(sender, id, now, authorized)->Ok_0;
            &&& next.0.proposals.len() == state.proposals.len()
            &&& next.0.proposals[id as int].transaction.executed == next.1
            &&& next.1 <==> next.0.proposals[id as int].approvals.len() >= state.threshold
            &&& next.0.proposals[id as int].approvals.contains(sender)
            &&& next.1 ==> forall|again: Address, later: u32|
                state.is_owner(again) ==> next.0.approve_multisig_transaction(again, id, later, authorized) == Err::<
                    (TokenView, bool),
                    TokenError,
                >(TokenError::AlreadyExecuted)
        }),
{
    let before = state.proposals[id as int].approvals;
    if !before.contains(sender) {
        assert(before.push(sender)[before.len() as int] == sender);
    }
}

/// Execution is final: an executed proposal takes no further approval from
/// any owner, at any sequence number.
pub proof fn law_executed_proposal_rejects_approval(
    state: TokenView,
    sender: Address,
    id: u64,
    now: u32,
    authorized: bool,
)
    requires
        id < state.proposals.len(),
        state.proposals[id as int].transaction.executed,
        state.is_owner(sender),
    ensures
        state.approve_multisig_transaction(sender, id, now, authorized) == Err::<(TokenView, bool), TokenError>(
            TokenError::AlreadyExecuted,
        ),
{
}

/// Only a registered owner can propose or approve.
pub proof fn law_only_owners_propose_and_approve(
    state: TokenView,
    sender: Address,
    operation: Operation,
    target: Address,
    amount: i128,
    expiration: u64,
    id: u64,
    now: u32,
    authorized: bool,
)
    requires
        !state.is_owner(sender),
    ensures
        state.propose_multisig_transaction(sender, operation, target, amount, expiration) == Err::<
            (TokenView, u64),
            TokenError,
        >(TokenError::NotAnOwner),
        state.approve_multisig_transaction(sender, id, now, authorized) == Err::<(TokenView, bool), TokenError>(
            TokenError::NotAnOwner,
        ),
{
}

/// A proposal is executed only with the administrator's authorization, and
/// only while there is an administrator.
pub proof fn law_execution_needs_administrator(
    state: TokenView,
    sender: Address,
    id: u64,
    now: u32,
    authorized: bool,
)
    requires
        state.approve_multisig_transaction(sender, id, now, authorized) is Ok,
        state.approve_multisig_transaction(sender, id, now, authorized)->Ok_0.1,
    ensures
        authorized,
        state.administrator is Some,
{
}

/// Every operation that changes the ledger is refused with `Unauthorized`
/// unless the caller is the identity it requires: the account debited or
/// granting, the spender of an allowance, or the administrator.
pub proof fn law_operations_need_their_caller(
    state: TokenView,
    caller: Address,
    from: Address,
    spender: Address,
    to: Address,
    amount: i128,
    until: u32,
    now: u32,
    owners: Seq<Address>,
    threshold: u32,
)
    ensures
        caller != from ==> {
            &&& state.approve(caller, from, spender, amount, until) == Err::<TokenView, TokenError>(
                TokenError::Unauthorized,
            )
            &&& state.transfer(caller, from, to, amount) == Err::<TokenView, TokenError>(
                TokenError::Unauthorized,
            )
            &&& state.burn(caller, from, amount) == Err::<TokenView, TokenError>(
                TokenError::Unauthorized,
            )
        },
        caller != spender ==> {
            &&& state.transfer_from(caller, spender, from, to, amount, now) == Err::<
                TokenView,
                TokenError,
            >(TokenError::Unauthorized)
            &&& state.burn_from(caller, spender, from, amount, now) == Err::<TokenView, TokenError>(
                TokenError::Unauthorized,
            )
        },
        !state.is_administrator(caller) ==> {
            &&& amount >= 0 ==> state.mint(caller, to, amount) == Err::<TokenView, TokenError>(
                TokenError::Unauthorized,
            )
            &&& state.set_admin(caller, to) == Err::<TokenView, TokenError>(TokenError::Unauthorized)
            &&& state.freeze_account(caller, to) == Err::<TokenView, TokenError>(
                TokenError::Unauthorized,
            )
            &&& state.unfreeze_account(caller, to) == Err::<TokenView, TokenError>(
                TokenError::Unauthorized,
            )
            &&& state.setup_multisig(caller, owners, threshold) == Err::<TokenView, TokenError>(
                TokenError::Unauthorized,
            )
        },
{
}

/// Proposal ids count up from zero: a new proposal gets the number of
/// proposals made before it, and earlier proposals stay as they are.
pub proof fn law_proposal_ids_increase(
    state: TokenView,
    sender: Address,
    operation: Operation,
    target: Address,
    amount: i128,
    expiration: u64,
)
    requires
        state.proposals.len() < u64::MAX,
        state.propose_multisig_transaction(sender, operation, target, amount, expiration) is Ok,
    ensures
        ({
            let next = state.propose_multisig_transaction(sender, operation, target, amount, expiration)->Ok_0;
            &&& next.1 == state.proposals.len()
            &&& next.0.proposals.len() == state.proposals.len() + 1
            &&& next.0.proposals[next.1 as int].approvals == seq![sender]
            &&& !next.0.proposals[next.1 as int].transaction.executed
            &&& forall|i: int| 0 <= i < state.proposals.len() ==> next.0.proposals[i] == state.proposals[i]
        }),
{
}

} // verus!
