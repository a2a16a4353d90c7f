use vstd::prelude::*;

verus! {

/// Reason an operation was rejected. Every rejected operation leaves all
/// state unchanged; the reason is the only observable effect.
#[derive(Clone, Copy, Debug, PartialEq, Eq, Structural)]
pub enum Error {
    /// `initialize` was called on an instance that already has an administrator.
    AlreadyInitialized,
    /// The caller's identity does not match the stored administrator.
    Unauthorized,
    /// The requested maturity date is not in the future.
    InvalidMaturity,
    /// `set_matured` was called before the maturity date.
    BeforeMaturity,
    /// `set_liquidated` was called at or after the maturity date.
    PastMaturity,
    /// `set_matured` was called after the liquidated flag was set.
    AlreadyLiquidated,
    /// `set_liquidated` was called after the matured flag was set.
    AlreadyMatured,
    /// `liquidate` was called without the liquidated flag being set.
    NotLiquidated,
    /// `mature` was called without the matured flag being set.
    NotMatured,
    /// No record exists under the given hedge identifier.
    NotFound,
    /// A record already exists under the given hedge identifier.
    DuplicateHedge,
}

} // verus!
