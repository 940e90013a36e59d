//! The accounts that the auction keeps, as plain values.
use vstd::prelude::*;

verus! {

broadcast use vstd::array::group_array_axioms;

/// A 32-byte account address (the bytes of a public key).
pub type Key = [u8; 32];

/// The length of the fixed auction name field.
pub const NAME_LEN: usize = 10;

/// The state kept for each depositor.
#[derive(Debug, Clone, Copy, PartialEq, Eq)]
pub struct UserStateAccount {
    /// Deposited lpUSD, counted in shares of the pool (only lpUSD can be deposited).
    pub lpusd_amount: u64,
    pub owner: Key,
    pub bump: u8,
    pub temp_amount: u64,
}

/// The bump seeds of the program-derived addresses of an auction.
#[derive(Debug, Clone, Copy, PartialEq, Eq)]
pub struct AuctionBumps {
    pub state_account: u8,
    pub pool_usdc: u8,
    pub pool_btc: u8,
    pub pool_lpusd: u8,
    pub pool_lpsol: u8,
    pub pool_msol: u8,
}

/// The global state of one auction.
#[derive(Debug, Clone, Copy, PartialEq, Eq)]
pub struct AuctionStateAccount {
    pub auction_name: [u8; 10],
    pub bumps: AuctionBumps,
    pub owner: Key,
    pub lpsol_mint: Key,
    pub lpusd_mint: Key,
    pub msol_mint: Key,
    pub btc_mint: Key,
    pub usdc_mint: Key,
    pub pool_btc: Key,
    pub pool_usdc: Key,
    pub pool_lpsol: Key,
    pub pool_lpusd: Key,
    pub pool_msol: Key,
    pub total_deposited_lpusd: u64,
    pub total_lpusd: u64,
    pub total_percent: u64,
    pub epoch_duration: u64,
    pub last_epoch_percent: u64,
    pub last_epoch_profit: u64,
}

/// The errors that the auction's instructions return.
#[derive(Debug, Clone, Copy, PartialEq, Eq, Structural)]
pub enum ErrorCode {
    /// Insufficient User's Amount
    InsufficientAmount,
    /// Insufficient Pool's Amount
    InsufficientPoolAmount,
    /// Invalid Amount
    InvalidAmount,
    /// Exceed Amount
    ExceedAmount,
}

/// Every byte of `s` is zero.
pub open spec fn all_zero(s: Seq<u8>) -> bool {
    forall|i: int| 0 <= i < s.len() ==> #[trigger] s[i] == 0
}

impl UserStateAccount {
    /// Every field zero, as a freshly allocated account reads.
    pub open spec fn is_zeroed(self) -> bool {
        &&& self.lpusd_amount == 0
        &&& all_zero(self.owner@)
        &&& self.bump == 0
        &&& self.temp_amount == 0
    }
}

impl AuctionBumps {
    pub open spec fn is_zeroed(self) -> bool {
        &&& self.state_account == 0
        &&& self.pool_usdc == 0
        &&& self.pool_btc == 0
        &&& self.pool_lpusd == 0
        &&& self.pool_lpsol == 0
        &&& self.pool_msol == 0
    }
}

impl AuctionStateAccount {
    /// Every field zero, as a freshly allocated account reads.
    pub open spec fn is_zeroed(self) -> bool {
        &&& all_zero(self.auction_name@)
        &&& self.bumps.is_zeroed()
        &&& all_zero(self.owner@)
        &&& all_zero(self.lpsol_mint@)
        &&& all_zero(self.lpusd_mint@)
        &&& all_zero(self.msol_mint@)
        &&& all_zero(self.btc_mint@)
        &&& all_zero(self.usdc_mint@)
        &&& all_zero(self.pool_btc@)
        &&& all_zero(self.pool_usdc@)
        &&& all_zero(self.pool_lpsol@)
        &&& all_zero(self.pool_lpusd@)
        &&& all_zero(self.pool_msol@)
        &&& self.total_deposited_lpusd == 0
        &&& self.total_lpusd == 0
        &&& self.total_percent == 0
        &&& self.epoch_duration == 0
        &&& self.last_epoch_percent == 0
        &&& self.last_epoch_profit == 0
    }

    /// This state with the two lpUSD totals replaced, every other field kept.
    pub open spec fn with_totals(self, total_lpusd: u64, total_deposited_lpusd: u64) -> Self {
        AuctionStateAccount { total_lpusd, total_deposited_lpusd, ..self }
    }
}

impl Default for UserStateAccount {
    fn default() -> (r: Self)
        ensures
            r.is_zeroed(),
    {
        UserStateAccount { lpusd_amount: 0, owner: [0u8; 32], bump: 0, temp_amount: 0 }
    }
}

impl Default for AuctionBumps {
    fn default() -> (r: Self)
        ensures
            r.is_zeroed(),
    {
        AuctionBumps {
            state_account: 0,
            pool_usdc: 0,
            pool_btc: 0,
            pool_lpusd: 0,
            pool_lpsol: 0,
            pool_msol: 0,
        }
    }
}

impl Default for AuctionStateAccount {
    fn default() -> (r: Self)
        ensures
            r.is_zeroed(),
    {
        AuctionStateAccount {
            auction_name: [0u8; 10],
            bumps: AuctionBumps::default(),
            owner: [0u8; 32],
            lpsol_mint: [0u8; 32],
            lpusd_mint: [0u8; 32],
            msol_mint: [0u8; 32],
            btc_mint: [0u8; 32],
            usdc_mint: [0u8; 32],
            pool_btc: [0u8; 32],
            pool_usdc: [0u8; 32],
            pool_lpsol: [0u8; 32],
            pool_lpusd: [0u8; 32],
            pool_msol: [0u8; 32],
            total_deposited_lpusd: 0,
            total_lpusd: 0,
            total_percent: 0,
            epoch_duration: 0,
            last_epoch_percent: 0,
            last_epoch_profit: 0,
        }
    }
}

} // verus!
