//! Relevance classifier: does a transaction mutate the protocol's
//! valuation-relevant state?
//!
//! The strategy implemented here inspects instructions.  An instruction is
//! counted when its program identifier resolves to the target protocol's
//! program and its payload's first eight bytes are a registered
//! state-mutating tag.  Program resolution covers addresses introduced via
//! on-chain address-lookup tables, which extend the static address list.
//! Instructions with a payload shorter than eight bytes cannot carry a tag
//! and are skipped; tags outside the registry are assumed non-mutating, a
//! documented conservative bias.

use vstd::prelude::*;
use vstd::slice::slice_subrange;
use crate::tags::{bytes_eq, TagRegistry};

verus! {

/// One instruction of a transaction: the position of its program
/// identifier in the transaction's combined address list, and its raw
/// payload.
#[derive(Clone, Debug)]
pub struct InstructionView {
    /// Index of the program identifier within the combined address list
    /// (static addresses first, then addresses loaded via lookup tables).
    pub program_index: usize,
    /// The instruction's raw payload; its first eight bytes are its tag
    /// when present.
    pub data: Vec<u8>,
}

/// A decoded transaction, reduced to what classification and snapshot
/// assembly read.
#[derive(Clone, Debug)]
pub struct TransactionView {
    /// The transaction's static address list, in order.
    pub static_account_keys: Vec<Vec<u8>>,
    /// Addresses loaded via on-chain address-lookup tables; they extend
    /// the static list.
    pub loaded_account_keys: Vec<Vec<u8>>,
    /// The transaction's instructions, in order.
    pub instructions: Vec<InstructionView>,
    /// The slot the transaction was confirmed in.
    pub slot: u64,
    /// The block time, when the chain recorded one.
    pub block_time: Option<i64>,
}

/// The combined address list: static addresses first, then addresses
/// loaded via lookup tables.
pub open spec fn combined_keys(tx: TransactionView) -> Seq<Seq<u8>> {
    tx.static_account_keys@.map_values(|k: Vec<u8>| k@) + tx.loaded_account_keys@.map_values(
        |k: Vec<u8>| k@,
    )
}

/// Whether instruction `i` of `tx` names the target program: its program
/// index resolves within the combined address list and the address there
/// equals `program`.
pub open spec fn ix_targets_program(tx: TransactionView, i: int, program: Seq<u8>) -> bool {
    let ix = tx.instructions@[i];
    &&& ix.program_index < combined_keys(tx).len()
    &&& combined_keys(tx)[ix.program_index as int] == program
}

/// Whether instruction `i` of `tx` carries a registered state-mutating
/// tag: its payload is at least eight bytes and the first eight are in
/// `tags`.
pub open spec fn ix_has_mutating_tag(tx: TransactionView, i: int, tags: Seq<Seq<u8>>) -> bool {
    let ix = tx.instructions@[i];
    &&& ix.data@.len() >= 8
    &&& tags.contains(ix.data@.take(8))
}

/// Whether a transaction is relevant: at least one instruction both names
/// the target program and carries a registered state-mutating tag.
pub open spec fn tx_relevant(tx: TransactionView, program: Seq<u8>, tags: Seq<Seq<u8>>) -> bool {
    exists|i: int|
        0 <= i < tx.instructions@.len() && ix_targets_program(tx, i, program)
            && ix_has_mutating_tag(tx, i, tags)
}

/// Resolve the address at `index` in the combined address list, if the
/// index is in range.
fn resolve_key<'a>(tx: &'a TransactionView, index: usize) -> (r: Option<&'a Vec<u8>>)
    ensures
        r is Some <==> index < combined_keys(*tx).len(),
        r is Some ==> r->0@ == combined_keys(*tx)[index as int],
{
    let n_static = tx.static_account_keys.len();
    if index < n_static {
        Some(&tx.static_account_keys[index])
    } else if index - n_static < tx.loaded_account_keys.len() {
        Some(&tx.loaded_account_keys[index - n_static])
    } else {
        None
    }
}

/// Classify a transaction against the target program and the registered
/// state-mutating tags.
pub fn is_relevant(tx: &TransactionView, program: &[u8], registry: &TagRegistry) -> (r: bool)
    ensures
        r == tx_relevant(*tx, program@, registry@),
{
    let mut i: usize = 0;
    while i < tx.instructions.len()
        invariant
            i <= tx.instructions@.len(),
            forall|j: int|
                0 <= j < i ==> !(ix_targets_program(*tx, j, program@) && ix_has_mutating_tag(
                    *tx,
                    j,
                    registry@,
                )),
        decreases tx.instructions@.len() - i,
    {
        let ix = &tx.instructions[i];
        let targets = match resolve_key(tx, ix.program_index) {
            Some(key) => bytes_eq(key.as_slice(), program),
            None => false,
        };
        if targets && ix.data.len() >= 8 {
            let tag = slice_subrange(ix.data.as_slice(), 0, 8);
            if registry.contains_tag(tag) {
                proof {
                    assert(tag@ =~= tx.instructions@[i as int].data@.take(8));
                    assert(ix_targets_program(*tx, i as int, program@));
                    assert(ix_has_mutating_tag(*tx, i as int, registry@));
                }
                return true;
            }
        }
        i = i + 1;
    }
    false
}

/// Locate an account's position within the combined address list: the
/// first index holding `account`, or nothing when the address does not
/// appear at all.
pub fn find_account_index(tx: &TransactionView, account: &[u8]) -> (r: Option<usize>)
    requires
        combined_keys(*tx).len() <= usize::MAX,
    ensures
        match r {
            Some(i) => i < combined_keys(*tx).len() && combined_keys(*tx)[i as int] == account@
                && forall|j: int| 0 <= j < i ==> combined_keys(*tx)[j] != account@,
            None => forall|j: int|
                0 <= j < combined_keys(*tx).len() ==> combined_keys(*tx)[j] != account@,
        },
{
    let mut i: usize = 0;
    loop
        invariant
            combined_keys(*tx).len() <= usize::MAX,
            i <= combined_keys(*tx).len(),
            forall|j: int| 0 <= j < i ==> combined_keys(*tx)[j] != account@,
        decreases combined_keys(*tx).len() - i,
    {
        match resolve_key(tx, i) {
            Some(key) => {
                if bytes_eq(key.as_slice(), account) {
                    return Some(i);
                }
            },
            None => {
                return None;
            },
        }
        i = i + 1;
    }
}

/// A transaction with no instruction naming the target program is never
/// relevant.
pub proof fn lemma_no_target_never_relevant(
    tx: TransactionView,
    program: Seq<u8>,
    tags: Seq<Seq<u8>>,
)
    requires
        forall|i: int| 0 <= i < tx.instructions@.len() ==> !ix_targets_program(tx, i, program),
    ensures
        !tx_relevant(tx, program, tags),
{
}

/// A transaction with an instruction that names the target program and
/// carries a registered state-mutating tag is always relevant.
pub proof fn lemma_mutating_target_relevant(
    tx: TransactionView,
    program: Seq<u8>,
    tags: Seq<Seq<u8>>,
    i: int,
)
    requires
        0 <= i < tx.instructions@.len(),
        ix_targets_program(tx, i, program),
        ix_has_mutating_tag(tx, i, tags),
    ensures
        tx_relevant(tx, program, tags),
{
}

} // verus!
