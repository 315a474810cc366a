//! Addresses of the programs and sysvars that the instructions name.

use vstd::prelude::*;
use crate::address::Address;

verus! {

/// The token program, `TokenkegQfeZyiNwAJbNbGKPFXCWuBvf9Ss623VQ5DA`.
pub const TOKEN_PROGRAM: [u8; 32] = [
    6, 221, 246, 225, 215, 101, 161, 147,
    217, 203, 225, 70, 206, 235, 121, 172,
    28, 180, 133, 237, 95, 91, 55, 145,
    58, 140, 245, 133, 126, 255, 0, 169,
];

/// The token program, as an address.
pub fn token_program() -> (id: Address)
    ensures
        id@ == TOKEN_PROGRAM@,
{
    Address { bytes: TOKEN_PROGRAM }
}

/// The token program with extensions, `TokenzQdBNbLqP5VEhdkAS6EPFLC1PHnBqCXEpPxuEb`.
pub const TOKEN_2022_PROGRAM: [u8; 32] = [
    6, 221, 246, 225, 238, 117, 143, 222,
    24, 66, 93, 188, 228, 108, 205, 218,
    182, 26, 252, 77, 131, 185, 13, 39,
    254, 189, 249, 40, 216, 161, 139, 252,
];

/// The token program with extensions, as an address.
pub fn token_2022_program() -> (id: Address)
    ensures
        id@ == TOKEN_2022_PROGRAM@,
{
    Address { bytes: TOKEN_2022_PROGRAM }
}

/// The memo program, `MemoSq4gqABAXKb96qnH8TysNcWxMyWCqXgDLGmfcHr`.
pub const MEMO_PROGRAM: [u8; 32] = [
    5, 74, 83, 90, 153, 41, 33, 6,
    77, 36, 232, 113, 96, 218, 56, 124,
    124, 53, 181, 221, 188, 146, 187, 129,
    228, 31, 168, 64, 65, 5, 68, 141,
];

/// The memo program, as an address.
pub fn memo_program() -> (id: Address)
    ensures
        id@ == MEMO_PROGRAM@,
{
    Address { bytes: MEMO_PROGRAM }
}

/// The system program, `11111111111111111111111111111111`.
pub const SYSTEM_PROGRAM: [u8; 32] = [
    0, 0, 0, 0, 0, 0, 0, 0,
    0, 0, 0, 0, 0, 0, 0, 0,
    0, 0, 0, 0, 0, 0, 0, 0,
    0, 0, 0, 0, 0, 0, 0, 0,
];

/// The system program, as an address.
pub fn system_program() -> (id: Address)
    ensures
        id@ == SYSTEM_PROGRAM@,
{
    Address { bytes: SYSTEM_PROGRAM }
}

/// The rent sysvar, `SysvarRent111111111111111111111111111111111`.
pub const RENT_SYSVAR: [u8; 32] = [
    6, 167, 213, 23, 25, 44, 92, 81,
    33, 140, 201, 76, 61, 74, 241, 127,
    88, 218, 238, 8, 155, 161, 253, 68,
    227, 219, 217, 138, 0, 0, 0, 0,
];

/// The rent sysvar, as an address.
pub fn rent_sysvar() -> (id: Address)
    ensures
        id@ == RENT_SYSVAR@,
{
    Address { bytes: RENT_SYSVAR }
}

/// The instructions sysvar, `Sysvar1nstructions1111111111111111111111111`.
pub const INSTRUCTIONS_SYSVAR: [u8; 32] = [
    6, 167, 213, 23, 24, 123, 209, 102,
    53, 218, 212, 4, 85, 253, 194, 192,
    193, 36, 198, 143, 33, 86, 117, 165,
    219, 186, 203, 95, 8, 0, 0, 0,
];

/// The instructions sysvar, as an address.
pub fn instructions_sysvar() -> (id: Address)
    ensures
        id@ == INSTRUCTIONS_SYSVAR@,
{
    Address { bytes: INSTRUCTIONS_SYSVAR }
}

/// The associated token account program, `ATokenGPvbdGVxr1b2hvZbsiqW5xWH25efTNsLJA8knL`.
pub const ASSOCIATED_TOKEN_PROGRAM: [u8; 32] = [
    140, 151, 37, 143, 78, 36, 137, 241,
    187, 61, 16, 41, 20, 142, 13, 131,
    11, 90, 19, 153, 218, 255, 16, 132,
    4, 142, 123, 216, 219, 233, 248, 89,
];

/// The associated token account program, as an address.
pub fn associated_token_program() -> (id: Address)
    ensures
        id@ == ASSOCIATED_TOKEN_PROGRAM@,
{
    Address { bytes: ASSOCIATED_TOKEN_PROGRAM }
}

} // verus!
