//! The chain data that the signer's decisions read.

use vstd::prelude::*;

verus! {

/// Whether two byte arrays hold the same bytes.
fn same_bytes<const N: usize>(a: &[u8; N], b: &[u8; N]) -> (same: bool)
    ensures
        same == (*a == *b),
{
    let mut i: usize = 0;
    while i < N
        invariant
            i <= N,
            forall|j: int| 0 <= j < i ==> a@[j] == b@[j],
        decreases N - i,
    {
        if a[i] != b[i] {
            return false;
        }
        i = i + 1;
    }
    assert(*a =~= *b);
    true
}

/// Identifies a sortition, and with it the tenure that its winner may mine.
#[derive(Debug, Clone, Copy, Eq)]
pub struct ConsensusHash(pub [u8; 20]);

impl ConsensusHash {
    /// The consensus hash of twenty zero bytes.
    pub open spec fn spec_empty() -> ConsensusHash {
        ConsensusHash([0u8; 20usize])
    }

    /// The consensus hash that stands for "no sortition seen yet".
    pub fn empty() -> (hash: ConsensusHash)
        ensures
            hash == Self::spec_empty(),
            forall|i: int| 0 <= i < 20 ==> hash.0@[i] == 0,
    {
        ConsensusHash([0u8; 20usize])
    }
}

impl PartialEq for ConsensusHash {
    fn eq(&self, other: &Self) -> (equal: bool) {
        same_bytes(&self.0, &other.0)
    }
}

impl vstd::std_specs::cmp::PartialEqSpecImpl for ConsensusHash {
    open spec fn obeys_eq_spec() -> bool {
        true
    }

    open spec fn eq_spec(&self, other: &Self) -> bool {
        *self == *other
    }
}

/// Identifies a Stacks block across forks.
#[derive(Debug, Clone, Copy, Eq)]
pub struct StacksBlockId(pub [u8; 32]);

impl PartialEq for StacksBlockId {
    fn eq(&self, other: &Self) -> (equal: bool) {
        same_bytes(&self.0, &other.0)
    }
}

impl vstd::std_specs::cmp::PartialEqSpecImpl for StacksBlockId {
    open spec fn obeys_eq_spec() -> bool {
        true
    }

    open spec fn eq_spec(&self, other: &Self) -> bool {
        *self == *other
    }
}

/// The hash of a public key.
#[derive(Debug, Clone, Copy, Eq)]
pub struct Hash160(pub [u8; 20]);

impl PartialEq for Hash160 {
    fn eq(&self, other: &Self) -> (equal: bool) {
        same_bytes(&self.0, &other.0)
    }
}

impl vstd::std_specs::cmp::PartialEqSpecImpl for Hash160 {
    open spec fn obeys_eq_spec() -> bool {
        true
    }

    open spec fn eq_spec(&self, other: &Self) -> bool {
        *self == *other
    }
}

/// What the node reports of the burn chain tip it has processed.
#[derive(Debug, Clone, Copy, PartialEq, Eq)]
pub struct PeerInfo {
    /// The height of the burn chain tip.
    pub burn_block_height: u64,
    /// The consensus hash at the burn chain tip.
    pub pox_consensus: ConsensusHash,
}

/// The winner of a sortition, as far as the choice of a miner depends on it.
#[derive(Debug, Clone, Copy, PartialEq, Eq)]
pub struct SortitionState {
    /// The hash of the public key that the winner signs blocks with.
    pub miner_pkh: Hash160,
    /// The tenure that the winner builds on.
    pub parent_tenure_id: ConsensusHash,
    /// The tenure that the winner may mine.
    pub consensus_hash: ConsensusHash,
}

/// The two most recent sortitions that had a winner. Each comes as the winner's
/// data, or as the error met when the node's report was read; there may be no
/// second one.
#[derive(Debug, PartialEq, Eq)]
pub struct CurrentAndLastSortition<E> {
    /// The latest sortition with a winner.
    pub current_sortition: Result<SortitionState, E>,
    /// The sortition with a winner before that.
    pub last_sortition: Option<Result<SortitionState, E>>,
}

/// A block by its height and its identifier.
#[derive(Debug, Clone, Copy, PartialEq, Eq)]
pub struct BlockTip {
    /// How many blocks the chain has up to this one.
    pub height: u64,
    /// The block's identifier.
    pub block_id: StacksBlockId,
}

/// The durations that decide when a miner is given up on, in nanoseconds.
#[derive(Debug, Clone, Copy, PartialEq, Eq)]
pub struct ProposalEvalConfig {
    /// How long a miner may stay inactive before its tenure times out.
    pub block_proposal_timeout: u128,
    /// How long a block proposed in a tenure counts as that tenure's last block
    /// before it has been accepted by the network.
    pub tenure_last_block_proposal_timeout: u128,
    /// How long after its burn block a first proposal may still reorganize the
    /// tenure before it.
    pub first_proposal_burn_block_timing: u128,
}

/// The header of a block in a tenure.
#[derive(Debug, PartialEq, Eq)]
pub struct NakamotoBlockHeader {
    /// The header's format version.
    pub version: u8,
    /// How many blocks the chain has up to this one.
    pub chain_length: u64,
    /// The burn tokens spent up to this block.
    pub burn_spent: u64,
    /// The tenure of the block.
    pub consensus_hash: ConsensusHash,
    /// The block's parent; `None` for the parent of the first mined block.
    pub parent_block_id: Option<StacksBlockId>,
    /// The Merkle root of the block's transactions.
    pub tx_merkle_root: [u8; 32],
    /// The root of the state after the block.
    pub state_index_root: [u8; 32],
    /// When the block was made, in seconds since the Unix epoch.
    pub timestamp: u64,
    /// The miner's signature; `None` for the empty signature.
    pub miner_signature: Option<[u8; 65]>,
    /// The signers' signatures.
    pub signer_signature: Vec<[u8; 65]>,
    /// Which reward addresses are treated with payments.
    pub pox_treatment: Vec<bool>,
}

/// A block in a tenure, with its serialized transactions.
#[derive(Debug, PartialEq, Eq)]
pub struct NakamotoBlock {
    /// The block's header.
    pub header: NakamotoBlockHeader,
    /// The block's transactions, in serialized form.
    pub txs: Vec<Vec<u8>>,
}

impl NakamotoBlock {
    /// Whether this block stands in for the first block of the tenure
    /// `consensus_hash` before any block of it is known: it names the tenure, its
    /// parent is that of the first mined block, a single reward address is treated
    /// with payments, and everything else is zero or empty.
    pub open spec fn is_standin_for(self, consensus_hash: ConsensusHash) -> bool {
        &&& self.header.version == 0
        &&& self.header.chain_length == 0
        &&& self.header.burn_spent == 0
        &&& self.header.consensus_hash == consensus_hash
        &&& self.header.parent_block_id is None
        &&& self.header.tx_merkle_root == [0u8; 32usize]
        &&& self.header.state_index_root == [0u8; 32usize]
        &&& self.header.timestamp == 0
        &&& self.header.miner_signature is None
        &&& self.header.signer_signature@ == Seq::<[u8; 65]>::empty()
        &&& self.header.pox_treatment@ == seq![true]
        &&& self.txs@ == Seq::<Vec<u8>>::empty()
    }

    /// The block that stands in for the first block of the tenure `consensus_hash`.
    pub fn standin(consensus_hash: ConsensusHash) -> (block: NakamotoBlock)
        ensures
            block.is_standin_for(consensus_hash),
            block.header.consensus_hash == consensus_hash,
            block.header.version == 0,
            block.header.chain_length == 0,
            block.header.burn_spent == 0,
            block.header.timestamp == 0,
            block.header.parent_block_id is None,
            block.header.miner_signature is None,
            block.header.signer_signature@.len() == 0,
            block.header.pox_treatment@ == seq![true],
            block.txs@.len() == 0,
            forall|i: int| 0 <= i < 32 ==> #[trigger] block.header.tx_merkle_root@[i] == 0,
            forall|i: int| 0 <= i < 32 ==> #[trigger] block.header.state_index_root@[i] == 0,
    {
        let mut pox_treatment: Vec<bool> = Vec::new();
        pox_treatment.push(true);
        NakamotoBlock {
            header: NakamotoBlockHeader {
                version: 0,
                chain_length: 0,
                burn_spent: 0,
                consensus_hash,
                parent_block_id: None,
                tx_merkle_root: [0u8; 32usize],
                state_index_root: [0u8; 32usize],
                timestamp: 0,
                miner_signature: None,
                signer_signature: Vec::new(),
                pox_treatment,
            },
            txs: Vec::new(),
        }
    }
}

} // verus!
