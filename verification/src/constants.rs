use vstd::prelude::*;

verus! {

/// Denominator of every fee ratio: a percent argument counts ten-thousandths.
pub const FEE_DENOM: u64 = 10000;

/// Seed of the program authority's derived address: the ASCII bytes of "authority".
pub const AUTHORITY_SEED: [u8; 9] = [97, 117, 116, 104, 111, 114, 105, 116, 121];

/// Seed of the program's wrapped-SOL escrow address: the ASCII bytes of "wsol".
pub const WSOL_SEED: [u8; 4] = [119, 115, 111, 108];

/// Size in bytes of a token account's storage.
pub const TOKEN_ACCOUNT_LEN: u64 = 165;

/// The ledger's number for storage that is not what an account should be.
pub const INVALID_ACCOUNT_DATA: u64 = 17179869184;

/// The ledger's number for storage that no program has initialised.
pub const UNINITIALIZED_ACCOUNT: u64 = 42949672960;

/// Address of the wrapped-SOL mint, So11111111111111111111111111111111111111112.
pub const NATIVE_MINT: [u8; 32] = [
    6, 155, 136, 87, 254, 171, 129, 132, 251, 104, 127, 99, 70, 24, 192, 53,
    218, 196, 57, 220, 26, 235, 59, 85, 152, 160, 240, 0, 0, 0, 0, 1,
];

/// Address of the protocol's fee owner, 6sp6GWkpHzzS8Mow5ZtyqG9DUVNXy5rXXZy1mNuRS1VJ.
pub const UNIZEN: [u8; 32] = [
    87, 78, 184, 137, 52, 219, 63, 55, 131, 205, 4, 180, 94, 228, 80, 176,
    154, 4, 165, 207, 8, 146, 194, 205, 162, 98, 79, 206, 233, 242, 99, 145,
];

/// Address of the swap engine, JUP6LkbZbjS1jKKwapdHNy74zcZ3tLUZoi5QNyVTaV4.
pub const JUPITER: [u8; 32] = [
    4, 121, 213, 91, 242, 49, 192, 110, 238, 116, 197, 110, 206, 104, 21, 7,
    253, 177, 178, 222, 163, 244, 142, 81, 2, 177, 205, 162, 86, 188, 19, 143,
];

} // verus!
