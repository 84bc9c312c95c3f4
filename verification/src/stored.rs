//! The ledger as plain lists, for a host that persists it between
//! invocations, and the way back from such lists to a ledger.

use vstd::prelude::*;
use crate::model::{Address, AllowanceValue, TokenView};
use crate::token::{Proposal, Token};

verus! {

/// The persisted form of a ledger. Where a list names an account or a pair
/// twice, the later entry counts.
pub struct StoredLedger {
    pub administrator: Option<Address>,
    pub decimal: u32,
    pub name: String,
    pub symbol: String,
    pub balances: Vec<(Address, i128)>,
    pub allowances: Vec<(Address, Address, AllowanceValue)>,
    pub frozen: Vec<Address>,
    pub multisig_required: bool,
    pub multisig_owners: Vec<Address>,
    pub multisig_threshold: u32,
    pub proposals: Vec<Proposal>,
}

/// The balances that a list of entries stands for.
pub open spec fn balances_of(entries: Seq<(Address, i128)>) -> Map<Address, i128>
    decreases entries.len(),
{
    if entries.len() == 0 {
        Map::empty()
    } else {
        balances_of(entries.drop_last()).insert(entries.last().0, entries.last().1)
    }
}

/// The allowances that a list of entries stands for.
pub open spec fn allowances_of(entries: Seq<(Address, Address, AllowanceValue)>) -> Map<
    (Address, Address),
    AllowanceValue,
>
    decreases entries.len(),
{
    if entries.len() == 0 {
        Map::empty()
    } else {
        allowances_of(entries.drop_last()).insert(
            (entries.last().0, entries.last().1),
            entries.last().2,
        )
    }
}

impl StoredLedger {
    /// Whether the lists describe a ledger that meets the data invariant:
    /// no negative balance or allowance, decimals within eight bits, a
    /// threshold between one and the number of owners if there is a
    /// multisig configuration, and no owner twice among the approvals of a
    /// proposal.
    pub open spec fn valid(&self) -> bool {
        &&& forall|i: int| 0 <= i < self.balances@.len() ==> (#[trigger] self.balances@[i]).1 >= 0
        &&& forall|i: int|
            0 <= i < self.allowances@.len() ==> (#[trigger] self.allowances@[i]).2.amount >= 0
        &&& self.decimal <= 255
        &&& self.multisig_required ==> 1 <= self.multisig_threshold <= self.multisig_owners@.len()
        &&& forall|i: int|
            0 <= i < self.proposals@.len() ==> (#[trigger] self.proposals@[i]).approvals@.no_duplicates()
    }
}

impl View for StoredLedger {
    type V = TokenView;

    /// The ledger that the lists describe; it has no notification to
    /// publish.
    open spec fn view(&self) -> TokenView {
        TokenView {
            administrator: self.administrator,
            decimal: self.decimal,
            name: self.name@,
            symbol: self.symbol@,
            balances: balances_of(self.balances@),
            allowances: allowances_of(self.allowances@),
            frozen: Set::new(|account: Address| self.frozen@.contains(account)),
            multisig_required: self.multisig_required,
            owners: self.multisig_owners@,
            threshold: self.multisig_threshold,
            proposals: Seq::new(self.proposals@.len(), |i: int| self.proposals@[i]@),
            events: Seq::empty(),
        }
    }
}

/// Whether no identity occurs twice in `list`.
pub fn has_no_duplicates(list: &Vec<Address>) -> (unique: bool)
    ensures
        unique == list@.no_duplicates(),
{
    let mut i: usize = 0;
    while i < list.len()
        invariant
            0 <= i <= list@.len(),
            forall|a: int, b: int| 0 <= a < i && 0 <= b < i && a != b ==> list@[a] != list@[b],
        decreases list@.len() - i,
    {
        let mut j: usize = 0;
        while j < i
            invariant
                0 <= j <= i < list@.len(),
                forall|k: int| 0 <= k < j ==> list@[k] != list@[i as int],
            decreases i - j,
        {
            if list[j] == list[i] {
                assert(list@[j as int] == list@[i as int] && j != i);
                return false;
            }
            j += 1;
        }
        i += 1;
    }
    true
}

impl Token {
    /// The ledger that `stored` describes, if it is valid.
    pub fn restore(stored: StoredLedger) -> (restored: Option<Token>)
        ensures
            restored is Some <==> stored.valid(),
            restored is Some ==> restored->0.wf() && restored->0@ == stored@,
    {
        if stored.decimal > 255 {
            return None;
        }
        let owner_count: u64 = stored.multisig_owners.len() as u64;
        let threshold: u64 = stored.multisig_threshold as u64;
        if stored.multisig_required && (threshold == 0 || threshold > owner_count) {
            return None;
        }
        let mut p: usize = 0;
        while p < stored.proposals.len()
            invariant
                0 <= p <= stored.proposals@.len(),
                forall|i: int| 0 <= i < p ==> (#[trigger] stored.proposals@[i]).approvals@.no_duplicates(),
            decreases stored.proposals@.len() - p,
        {
            if !has_no_duplicates(&stored.proposals[p].approvals) {
                return None;
            }
            p += 1;
        }
        let mut token = Token::new();
        token.administrator = stored.administrator;
        token.decimal = stored.decimal;
        token.name = stored.name;
        token.symbol = stored.symbol;
        token.multisig_required = stored.multisig_required;
        token.multisig_owners = stored.multisig_owners;
        token.multisig_threshold = stored.multisig_threshold;
        token.proposals = stored.proposals;
        let ghost base = token@;
        assert(base.balances =~= balances_of(stored.balances@.subrange(0, 0)));
        assert(base.allowances =~= allowances_of(stored.allowances@.subrange(0, 0)));
        assert(token.wf());
        let mut b: usize = 0;
        while b < stored.balances.len()
            invariant
                0 <= b <= stored.balances@.len(),
                token.wf(),
                token@ == (TokenView {
                    balances: balances_of(stored.balances@.subrange(0, b as int)),
                    ..base
                }),
                forall|i: int| 0 <= i < b ==> (#[trigger] stored.balances@[i]).1 >= 0,
            decreases stored.balances@.len() - b,
        {
            let entry = stored.balances[b];
            if entry.1 < 0 {
                return None;
            }
            token.write_balance(entry.0, entry.1);
            proof {
                let next = stored.balances@.subrange(0, b + 1);
                assert(next.drop_last() =~= stored.balances@.subrange(0, b as int));
                assert(next.last() == entry);
            }
            b += 1;
        }
        assert(stored.balances@.subrange(0, b as int) =~= stored.balances@);
        let ghost base = token@;
        let mut a: usize = 0;
        while a < stored.allowances.len()
            invariant
                0 <= a <= stored.allowances@.len(),
                token.wf(),
                token@ == (TokenView {
                    allowances: allowances_of(stored.allowances@.subrange(0, a as int)),
                    ..base
                }),
                forall|i: int| 0 <= i < a ==> (#[trigger] stored.allowances@[i]).2.amount >= 0,
            decreases stored.allowances@.len() - a,
        {
            let entry = stored.allowances[a];
            if entry.2.amount < 0 {
                return None;
            }
            token.write_allowance_entry(entry.0, entry.1, entry.2);
            proof {
                let next = stored.allowances@.subrange(0, a + 1);
                assert(next.drop_last() =~= stored.allowances@.subrange(0, a as int));
                assert(next.last() == entry);
            }
            a += 1;
        }
        assert(stored.allowances@.subrange(0, a as int) =~= stored.allowances@);
        let ghost base = token@;
        assert(base.frozen =~= Set::new(
            |account: Address| stored.frozen@.subrange(0, 0).contains(account),
        ));
        let mut f: usize = 0;
        while f < stored.frozen.len()
            invariant
                0 <= f <= stored.frozen@.len(),
                token.wf(),
                token@ == (TokenView {
                    frozen: Set::new(
                        |account: Address| stored.frozen@.subrange(0, f as int).contains(account),
                    ),
                    ..base
                }),
            decreases stored.frozen@.len() - f,
        {
            let ghost before = stored.frozen@.subrange(0, f as int);
            token.write_frozen(stored.frozen[f], true);
            proof {
                let next = stored.frozen@.subrange(0, f + 1);
                assert(next.drop_last() =~= before);
                assert forall|account: Address|
                    next.contains(account) == (before.contains(account) || account
                        == stored.frozen@[f as int]) by {
                    if next.contains(account) {
                        let k = choose|k: int| 0 <= k < next.len() && next[k] == account;
                        if k < f {
                            assert(before[k] == account);
                        }
                    }
                    if before.contains(account) {
                        let k = choose|k: int| 0 <= k < before.len() && before[k] == account;
                        assert(next[k] == account);
                    }
                    assert(next[f as int] == stored.frozen@[f as int]);
                }
                assert(token@.frozen =~= Set::new(|account: Address| next.contains(account)));
            }
            f += 1;
        }
        assert(stored.frozen@.subrange(0, f as int) =~= stored.frozen@);
        Some(token)
    }
}

} // verus!
