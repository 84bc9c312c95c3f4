//! The multisig registry and the proposal, approval and execution of
//! privileged operations.

use vstd::prelude::*;
use crate::error::TokenError;
use crate::model::{committed, committed_with, Address, Event, MultiSigTransaction, Operation};
use crate::token::Token;

verus! {

impl Token {
    /// Sets the owners and the number of approvals a proposal needs,
    /// replacing any earlier configuration. Proposals already made stay as
    /// they are. Only the administrator may do so.
    pub fn setup_multisig(&mut self, caller: Address, owners: Vec<Address>, threshold: u32) -> (r:
        Result<(), TokenError>)
        requires
            old(self).wf(),
        ensures
            final(self).wf(),
            committed(old(self)@, final(self)@, r, old(self)@.setup_multisig(caller, owners@, threshold)),
    {
        if !self.is_administrator(caller) {
            return Err(TokenError::Unauthorized);
        }
        if owners.len() == 0 {
            return Err(TokenError::EmptyOwnerList);
        }
        let owner_count: u64 = owners.len() as u64;
        let wanted: u64 = threshold as u64;
        if threshold == 0 || wanted > owner_count {
            return Err(TokenError::InvalidThreshold);
        }
        self.write_multisig(owners, threshold);
        self.emit(Event::SetupMultisig { admin: caller, owner_count, threshold });
        Ok(())
    }

    /// Records a proposal by the owner `sender`, who thereby approves it,
    /// and returns its id.
    pub fn propose_multisig_transaction(
        &mut self,
        sender: Address,
        operation: Operation,
        target: Address,
        amount: i128,
        expiration: u64,
    ) -> (r: Result<u64, TokenError>)
        requires
            old(self).wf(),
        ensures
            final(self).wf(),
            committed_with(
                old(self)@,
                final(self)@,
                r,
                old(self)@.propose_multisig_transaction(sender, operation, target, amount, expiration),
            ),
    {
        if !self.is_multisig_owner(sender) {
            return Err(TokenError::NotAnOwner);
        }
        let transaction_id = self.transaction_count();
        let transaction = MultiSigTransaction { operation, target, amount, expiration, executed: false };
        self.push_proposal(transaction, sender);
        self.emit(
            Event::ProposeMultisigTransaction {
                sender,
                transaction_id,
                operation,
                target,
                amount,
                expiration,
            },
        );
        Ok(transaction_id)
    }

    /// Records the approval of the owner `sender` for a proposal and
    /// executes the proposal if it now has enough approvals. Returns whether
    /// it was executed. The execution needs the administrator's
    /// authorization: `admin_authorized` says whether the invocation has it.
    /// If the execution fails, the approval is not recorded either.
    pub fn approve_multisig_transaction(
        &mut self,
        sender: Address,
        transaction_id: u64,
        current_sequence: u32,
        admin_authorized: bool,
    ) -> (r: Result<bool, TokenError>)
        requires
            old(self).wf(),
        ensures
            final(self).wf(),
            committed_with(
                old(self)@,
                final(self)@,
                r,
                old(self)@.approve_multisig_transaction(
                    sender,
                    transaction_id,
                    current_sequence,
                    admin_authorized,
                ),
            ),
    {
        if !self.is_multisig_owner(sender) {
            return Err(TokenError::NotAnOwner);
        }
        let id: usize = match self.transaction_index(transaction_id) {
            Some(id) => id,
            None => { return Err(TokenError::TransactionNotFound); },
        };
        let transaction = self.transaction_at(id);
        if transaction.executed {
            return Err(TokenError::AlreadyExecuted);
        }
        let now: u64 = current_sequence as u64;
        if now >= transaction.expiration {
            return Err(TokenError::TransactionExpired);
        }
        let added = self.add_approval(id, sender);
        self.emit(Event::ApproveMultisigTransaction { sender, transaction_id });
        match self.execute_multisig_transaction_if_approved(id, current_sequence, admin_authorized) {
            Ok(executed) => Ok(executed),
            Err(e) => {
                self.drop_last_event();
                proof {
                    assert(self@.events =~= old(self)@.events);
                }
                if added {
                    self.drop_last_approval(id);
                    proof {
                        let before = old(self)@.proposals[id as int];
                        assert(before.approvals.push(sender).drop_last() =~= before.approvals);
                        assert(self@.proposals =~= old(self)@.proposals);
                    }
                }
                Err(e)
            },
        }
    }

    /// Carries out a proposal's operation in the administrator's name.
    fn apply_operation(
        &mut self,
        operation: Operation,
        target: Address,
        amount: i128,
        admin_authorized: bool,
    ) -> (r: Result<(), TokenError>)
        requires
            old(self).wf(),
        ensures
            final(self).wf(),
            committed(
                old(self)@,
                final(self)@,
                r,
                old(self)@.apply_operation(operation, target, amount, admin_authorized),
            ),
    {
        if let Operation::Other = operation {
            return Err(TokenError::UnknownOperation);
        }
        let admin = match self.read_administrator() {
            Some(admin) => admin,
            None => { return Err(TokenError::Unauthorized); },
        };
        if !admin_authorized {
            return Err(TokenError::Unauthorized);
        }
        match operation {
            Operation::Transfer => match self.move_balance(target, target, amount) {
                Ok(()) => {
                    self.emit(Event::Transfer { from: admin, to: target, amount });
                    Ok(())
                },
                Err(e) => Err(e),
            },
            Operation::Mint => match self.receive_balance(target, amount) {
                Ok(()) => {
                    self.emit(Event::Mint { admin, to: target, amount });
                    Ok(())
                },
                Err(e) => Err(e),
            },
            Operation::Burn => match self.spend_balance(target, amount) {
                Ok(()) => {
                    self.emit(Event::Burn { from: admin, amount });
                    Ok(())
                },
                Err(e) => Err(e),
            },
            Operation::Other => Err(TokenError::UnknownOperation),
        }
    }

    /// Executes proposal `id` if it has enough approvals under the current
    /// threshold, and returns whether it did.
    fn execute_multisig_transaction_if_approved(
        &mut self,
        id: usize,
        current_sequence: u32,
        admin_authorized: bool,
    ) -> (r: Result<bool, TokenError>)
        requires
            old(self).wf(),
            id < old(self)@.proposals.len(),
        ensures
            final(self).wf(),
            committed_with(
                old(self)@,
                final(self)@,
                r,
                old(self)@.execute_multisig_transaction_if_approved(
                    id as int,
                    current_sequence,
                    admin_authorized,
                ),
            ),
    {
        let transaction = self.transaction_at(id);
        if transaction.executed {
            return Err(TokenError::AlreadyExecuted);
        }
        let now: u64 = current_sequence as u64;
        if now > transaction.expiration {
            return Err(TokenError::TransactionExpired);
        }
        let approvals: u64 = self.approval_count(id) as u64;
        let threshold: u64 = self.multisig_threshold() as u64;
        if approvals < threshold {
            return Ok(false);
        }
        match self.apply_operation(
            transaction.operation,
            transaction.target,
            transaction.amount,
            admin_authorized,
        ) {
            Ok(()) => {
                self.mark_executed(id);
                self.emit(
                    Event::ExecuteMultisigTransaction {
                        transaction_id: id as u64,
                        operation: transaction.operation,
                        target: transaction.target,
                        amount: transaction.amount,
                    },
                );
                Ok(true)
            },
            Err(e) => Err(e),
        }
    }
}

} // verus!
