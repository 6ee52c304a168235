use vstd::prelude::*;

verus! {

/// The most assets whose balances a ledger can hold.
pub const MAX_ASSETS: usize = 10;

/// A 32-byte account address, held as four little-endian 64-bit words.
#[derive(Clone, Copy, Debug, PartialEq, Eq, Structural)]
pub struct Pubkey {
    pub w0: u64,
    pub w1: u64,
    pub w2: u64,
    pub w3: u64,
}

impl Pubkey {
    /// The all-zero address, which stands for "no protocol".
    pub open spec fn zero() -> Pubkey {
        Pubkey { w0: 0, w1: 0, w2: 0, w3: 0 }
    }
}

impl Default for Pubkey {
    fn default() -> (r: Pubkey)
        ensures
            r == Pubkey::zero(),
    {
        Pubkey { w0: 0, w1: 0, w2: 0, w3: 0 }
    }
}

/// The protocols that funds can be placed in.
#[derive(Clone, Copy, Debug, PartialEq, Eq, Structural)]
pub enum Protocol {
    Raydium,
    Serum,
    Solend,
}

/// The balance of one asset, named by its mint.
#[derive(Clone, Copy, Debug, PartialEq, Eq, Structural)]
pub struct PubkeyAmount {
    pub pubkey: Pubkey,
    pub amount: u64,
}

/// The ledger of one owner.
#[derive(Clone, Debug, PartialEq, Eq)]
pub struct UserFunds {
    /// The owner of the funds; fixed when the ledger is created.
    pub owner: Pubkey,
    /// A balance per asset, at most one per mint.
    pub balances: Vec<PubkeyAmount>,
    /// The protocol that holds the funds; the zero address before the first reallocation.
    pub current_protocol: Pubkey,
    /// When the last reallocation completed (or the ledger was created), in Unix seconds.
    pub last_reallocation: i64,
}

impl UserFunds {
    /// At most `MAX_ASSETS` balances, and no mint twice.
    pub open spec fn wf(&self) -> bool {
        &&& self.balances@.len() <= MAX_ASSETS
        &&& forall|i: int, j: int|
            0 <= i < j < self.balances@.len() ==> #[trigger] self.balances@[i].pubkey
                != #[trigger] self.balances@[j].pubkey
    }
}

/// The governance record: who may change the fee, and the fee.
#[derive(Clone, Copy, Debug, PartialEq, Eq, Structural)]
pub struct GovernanceAccount {
    /// The only key allowed to change `fee_rate`.
    pub authority: Pubkey,
    /// The platform fee in basis points (100 is one percent).
    pub fee_rate: u64,
}

impl GovernanceAccount {
    /// The fee never exceeds the whole amount.
    pub open spec fn wf(&self) -> bool {
        self.fee_rate <= crate::fees::FEE_RATE_DENOMINATOR
    }
}

} // verus!
