//! The records the engine consumes and keeps.

use crate::amount::Amount;
use crate::text::{equals_ignoring_case, folded_code, same_word};
use vstd::prelude::*;

verus! {

/// What a transaction asks for.
#[derive(Debug, Clone, Copy, PartialEq, Eq, Structural)]
pub enum TransactionType {
    Deposit,
    Withdrawal,
    Dispute,
    Resolve,
    Chargeback,
}

impl TransactionType {
    /// Whether this is a dispute, a resolve or a chargeback: a transaction
    /// that refers to an earlier one and carries no amount.
    pub open spec fn is_dispute_family(self) -> bool {
        self is Dispute || self is Resolve || self is Chargeback
    }

    /// The word that names this kind in a transaction file.
    pub open spec fn word(self) -> Seq<char> {
        match self {
            TransactionType::Deposit => "deposit"@,
            TransactionType::Withdrawal => "withdrawal"@,
            TransactionType::Dispute => "dispute"@,
            TransactionType::Resolve => "resolve"@,
            TransactionType::Chargeback => "chargeback"@,
        }
    }

    /// The word that names this kind in a transaction file.
    pub fn token(self) -> (r: &'static str)
        ensures
            r@ == self.word(),
    {
        match self {
            TransactionType::Deposit => "deposit",
            TransactionType::Withdrawal => "withdrawal",
            TransactionType::Dispute => "dispute",
            TransactionType::Resolve => "resolve",
            TransactionType::Chargeback => "chargeback",
        }
    }

    /// The kind that `token` names, if it names one: the kind whose word it
    /// is, in small or capital letters.
    pub open spec fn spec_from_token(token: Seq<char>) -> Option<TransactionType> {
        if same_word(token, TransactionType::Deposit.word()) {
            Some(TransactionType::Deposit)
        } else if same_word(token, TransactionType::Withdrawal.word()) {
            Some(TransactionType::Withdrawal)
        } else if same_word(token, TransactionType::Dispute.word()) {
            Some(TransactionType::Dispute)
        } else if same_word(token, TransactionType::Resolve.word()) {
            Some(TransactionType::Resolve)
        } else if same_word(token, TransactionType::Chargeback.word()) {
            Some(TransactionType::Chargeback)
        } else {
            None
        }
    }

    /// The kind that `token` names, if it names one: `deposit`,
    /// `withdrawal`, `dispute`, `resolve` or `chargeback`, in small or
    /// capital letters.
    pub fn from_token(token: &str) -> (r: Option<TransactionType>)
        ensures
            r == TransactionType::spec_from_token(token@),
    {
        if equals_ignoring_case(token, "deposit") {
            Some(TransactionType::Deposit)
        } else if equals_ignoring_case(token, "withdrawal") {
            Some(TransactionType::Withdrawal)
        } else if equals_ignoring_case(token, "dispute") {
            Some(TransactionType::Dispute)
        } else if equals_ignoring_case(token, "resolve") {
            Some(TransactionType::Resolve)
        } else if equals_ignoring_case(token, "chargeback") {
            Some(TransactionType::Chargeback)
        } else {
            None
        }
    }
}

/// Every kind is named by its own word and by no other kind's: a token names
/// a kind exactly if it is that kind's word, in small or capital letters.
pub proof fn lemma_words_name_their_kinds(kind: TransactionType, token: Seq<char>)
    ensures
        TransactionType::spec_from_token(kind.word()) == Some(kind),
        TransactionType::spec_from_token(token) == Some(kind) <==> same_word(
            token,
            kind.word(),
        ),
{
    reveal_strlit("deposit");
    reveal_strlit("withdrawal");
    reveal_strlit("dispute");
    reveal_strlit("resolve");
    reveal_strlit("chargeback");
    let deposit = TransactionType::Deposit.word();
    let withdrawal = TransactionType::Withdrawal.word();
    let dispute = TransactionType::Dispute.word();
    let resolve = TransactionType::Resolve.word();
    let chargeback = TransactionType::Chargeback.word();
    // words of one length differ in their first or second letter
    assert(deposit.len() == 7 && dispute.len() == 7 && resolve.len() == 7);
    assert(withdrawal.len() == 10 && chargeback.len() == 10);
    assert(deposit[1] == 'e' && dispute[1] == 'i' && resolve[0] == 'r' && deposit[0] == 'd');
    assert(withdrawal[0] == 'w' && chargeback[0] == 'c');
    if same_word(token, deposit) {
        assert(folded_code(token[0]) == folded_code(deposit[0]));
        assert(folded_code(token[1]) == folded_code(deposit[1]));
    }
    if same_word(token, dispute) {
        assert(folded_code(token[0]) == folded_code(dispute[0]));
        assert(folded_code(token[1]) == folded_code(dispute[1]));
    }
    if same_word(token, withdrawal) {
        assert(folded_code(token[0]) == folded_code(withdrawal[0]));
    }
}

/// One transaction as it arrives. `amount` is there for deposits and
/// withdrawals only.
#[derive(Debug, Clone, Copy)]
pub struct Transaction {
    pub kind: TransactionType,
    pub client: u16,
    pub tx: u32,
    pub amount: Option<Amount>,
}

/// Where a recorded transaction stands in the dispute lifecycle:
/// `Undisputed`, then `Disputed`, then `Resolved` or `ChargedBack`, and no
/// way back.
#[derive(Debug, Clone, Copy, PartialEq, Eq, Structural)]
pub enum DisputeState {
    Undisputed,
    Disputed,
    Resolved,
    ChargedBack,
}

impl DisputeState {
    /// `Resolved` and `ChargedBack` are final.
    pub open spec fn is_settled(self) -> bool {
        self is Resolved || self is ChargedBack
    }

    /// How far along the lifecycle a state is: 0 for `Undisputed`, 1 for
    /// `Disputed`, 2 for the two final states.
    pub open spec fn rank(self) -> nat {
        match self {
            DisputeState::Undisputed => 0,
            DisputeState::Disputed => 1,
            DisputeState::Resolved | DisputeState::ChargedBack => 2,
        }
    }

    /// The state that an operation of kind `kind` moves a record in this
    /// state to, if it may run at all: a dispute opens what is undisputed, a
    /// resolve or a chargeback closes what is disputed, and nothing else
    /// moves.
    pub open spec fn spec_next(self, kind: TransactionType) -> Option<DisputeState> {
        match (self, kind) {
            (DisputeState::Undisputed, TransactionType::Dispute) => Some(DisputeState::Disputed),
            (DisputeState::Disputed, TransactionType::Resolve) => Some(DisputeState::Resolved),
            (DisputeState::Disputed, TransactionType::Chargeback) => Some(
                DisputeState::ChargedBack,
            ),
            _ => None,
        }
    }

    /// The state that an operation of kind `kind` moves a record in this
    /// state to, if it may run at all.
    #[verifier::when_used_as_spec(spec_next)]
    pub fn next(self, kind: TransactionType) -> (r: Option<DisputeState>)
        ensures
            r == self.spec_next(kind),
    {
        match (self, kind) {
            (DisputeState::Undisputed, TransactionType::Dispute) => Some(DisputeState::Disputed),
            (DisputeState::Disputed, TransactionType::Resolve) => Some(DisputeState::Resolved),
            (DisputeState::Disputed, TransactionType::Chargeback) => Some(
                DisputeState::ChargedBack,
            ),
            _ => None,
        }
    }
}

/// Every move in the lifecycle is one step forward, only a dispute leaves
/// `Undisputed`, only a resolve or a chargeback leaves `Disputed`, and
/// nothing leaves `Resolved` or `ChargedBack`.
pub proof fn lemma_lifecycle_is_one_way(state: DisputeState, kind: TransactionType)
    ensures
        state.next(kind) matches Some(to) ==> to.rank() == state.rank() + 1,
        state.next(kind) is Some ==> kind.is_dispute_family(),
        state.is_settled() ==> state.next(kind) is None,
        state is Undisputed ==> (state.next(kind) is Some <==> kind is Dispute),
        state is Disputed ==> (state.next(kind) is Some <==> kind is Resolve || kind
            is Chargeback),
{
}

/// A deposit or withdrawal that was carried out, with its dispute state.
#[derive(Debug, Clone, Copy)]
pub struct TransactionRecord {
    pub transaction: Transaction,
    pub dispute_state: DisputeState,
}

/// Anything that can hand over transactions in the order they arrived.
pub trait TransactionSource {
    fn transactions(&mut self) -> Vec<Transaction>;
}

/// A source of transactions named by the path of a CSV file. Reading the
/// file is left to the program around this library.
pub struct CsvTransactionSource {
    pub path: String,
}

impl CsvTransactionSource {
    pub fn new(path: &str) -> (r: CsvTransactionSource)
        ensures
            r.path@ == path@,
    {
        CsvTransactionSource { path: path.to_string() }
    }
}

} // verus!
