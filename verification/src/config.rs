use vstd::prelude::*;

verus! {

/// Identifies a client, and with it the client's account.
pub type ClientId = i16;

/// Identifies a transaction. Deposits and withdrawals share one id space
/// across all clients.
pub type TransactionId = i32;

/// Number of fractional digits an amount may carry. The smallest unit of an
/// amount is ten to the power of minus this number: one ten-thousandth.
pub const MAX_DECIMAL_PLACES: u8 = 4;

/// Largest number of smallest units an amount can hold. It is the largest
/// 96-bit number, so every amount is also a decimal with a 96-bit mantissa
/// at the fixed scale.
pub const MAX_UNITS: u128 = 0xFFFF_FFFF_FFFF_FFFF_FFFF_FFFF;

} // verus!
