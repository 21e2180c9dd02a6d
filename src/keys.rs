//! Account identifiers, the programs this one talks to, and the fixed seed
//! labels of every derived address.
use vstd::prelude::*;

verus! {

/// A 32-byte account identifier.
pub type Address = [u8; 32];

/// Byte-wise equality of two identifiers.
pub fn keys_equal(x: &Address, y: &Address) -> (r: bool)
    ensures
        r == (x@ == y@),
{
    let mut i: usize = 0;
    while i < 32
        invariant
            i <= 32,
            x@.len() == 32,
            y@.len() == 32,
            forall|j: int| 0 <= j < i ==> x@[j] == y@[j],
        decreases 32 - i,
    {
        if x[i] != y[i] {
            return false;
        }
        i = i + 1;
    }
    assert(x@ =~= y@);
    true
}

/// Seed of the custodial authority of concentrated positions.
pub open spec fn clmm_auth_label() -> Seq<u8> {
    seq![112u8, 114, 111, 103, 114, 97, 109, 95, 97, 117, 116, 104, 111, 114, 105, 116, 121, 95, 115, 101, 101, 100]
}

/// Seed of the custodial authority of constant-product stakes.
pub open spec fn cp_auth_label() -> Seq<u8> {
    seq![108u8, 111, 99, 107, 95, 99, 112, 95, 97, 117, 116, 104, 111, 114, 105, 116, 121, 95, 115, 101, 101, 100]
}

/// Seed prefix of a concentrated-position lock record.
pub open spec fn locked_position_label() -> Seq<u8> {
    seq![108u8, 111, 99, 107, 101, 100, 95, 112, 111, 115, 105, 116, 105, 111, 110]
}

/// Seed prefix of a constant-product lock record.
pub open spec fn locked_liquidity_label() -> Seq<u8> {
    seq![108u8, 111, 99, 107, 101, 100, 95, 108, 105, 113, 117, 105, 100, 105, 116, 121]
}

/// Seed prefix of the concentrated engine's protocol position.
pub open spec fn protocol_position_label() -> Seq<u8> {
    seq![112u8, 111, 115, 105, 116, 105, 111, 110]
}

/// Seed of the constant-product engine's vault and mint authority.
pub open spec fn cp_engine_auth_label() -> Seq<u8> {
    seq![118u8, 97, 117, 108, 116, 95, 97, 110, 100, 95, 108, 112, 95, 109, 105, 110, 116, 95, 97, 117, 116, 104, 95, 115, 101, 101, 100]
}

/// `"program_authority_seed"`
pub fn clmm_auth_seed() -> (r: Vec<u8>)
    ensures
        r@ == clmm_auth_label(),
{
    let v: Vec<u8> = vec![112u8, 114, 111, 103, 114, 97, 109, 95, 97, 117, 116, 104, 111, 114, 105, 116, 121, 95, 115, 101, 101, 100];
    assert(v@ =~= clmm_auth_label());
    v
}

/// `"lock_cp_authority_seed"`
pub fn cp_auth_seed() -> (r: Vec<u8>)
    ensures
        r@ == cp_auth_label(),
{
    let v: Vec<u8> = vec![108u8, 111, 99, 107, 95, 99, 112, 95, 97, 117, 116, 104, 111, 114, 105, 116, 121, 95, 115, 101, 101, 100];
    assert(v@ =~= cp_auth_label());
    v
}

/// `"locked_position"`
pub fn locked_position_seed() -> (r: Vec<u8>)
    ensures
        r@ == locked_position_label(),
{
    let v: Vec<u8> = vec![108u8, 111, 99, 107, 101, 100, 95, 112, 111, 115, 105, 116, 105, 111, 110];
    assert(v@ =~= locked_position_label());
    v
}

/// `"locked_liquidity"`
pub fn locked_liquidity_seed() -> (r: Vec<u8>)
    ensures
        r@ == locked_liquidity_label(),
{
    let v: Vec<u8> = vec![108u8, 111, 99, 107, 101, 100, 95, 108, 105, 113, 117, 105, 100, 105, 116, 121];
    assert(v@ =~= locked_liquidity_label());
    v
}

/// `"position"`
pub fn protocol_position_seed() -> (r: Vec<u8>)
    ensures
        r@ == protocol_position_label(),
{
    let v: Vec<u8> = vec![112u8, 111, 115, 105, 116, 105, 111, 110];
    assert(v@ =~= protocol_position_label());
    v
}

/// `"vault_and_lp_mint_auth_seed"`
pub fn cp_engine_auth_seed() -> (r: Vec<u8>)
    ensures
        r@ == cp_engine_auth_label(),
{
    let v: Vec<u8> = vec![118u8, 97, 117, 108, 116, 95, 97, 110, 100, 95, 108, 112, 95, 109, 105, 110, 116, 95, 97, 117, 116, 104, 95, 115, 101, 101, 100];
    assert(v@ =~= cp_engine_auth_label());
    v
}

/// This program: `LockrWmn6K5twhz3y9w1dQERbmgSaRkfnTeTKbpofwE`.
pub const LOCKING_PROGRAM_ID: Address = [5, 18, 190, 171, 44, 232, 223, 74, 228, 223, 62, 241, 201, 145, 37, 113, 91, 164, 37, 151, 9, 37, 235, 181, 220, 6, 46, 111, 211, 75, 182, 129];

/// The token program: `TokenkegQfeZyiNwAJbNbGKPFXCWuBvf9Ss623VQ5DA`.
pub const TOKEN_PROGRAM_ID: Address = [6, 221, 246, 225, 215, 101, 161, 147, 217, 203, 225, 70, 206, 235, 121, 172, 28, 180, 133, 237, 95, 91, 55, 145, 58, 140, 245, 133, 126, 255, 0, 169];

/// The token program with extensions: `TokenzQdBNbLqP5VEhdkAS6EPFLC1PHnBqCXEpPxuEb`.
pub const TOKEN_2022_PROGRAM_ID: Address = [6, 221, 246, 225, 238, 117, 143, 222, 24, 66, 93, 188, 228, 108, 205, 218, 182, 26, 252, 77, 131, 185, 13, 39, 254, 189, 249, 40, 216, 161, 139, 252];

/// The associated token account program: `ATokenGPvbdGVxr1b2hvZbsiqW5xWH25efTNsLJA8knL`.
pub const ASSOCIATED_TOKEN_PROGRAM_ID: Address = [140, 151, 37, 143, 78, 36, 137, 241, 187, 61, 16, 41, 20, 142, 13, 131, 11, 90, 19, 153, 218, 255, 16, 132, 4, 142, 123, 216, 219, 233, 248, 89];

/// The concentrated-liquidity engine: `CAMMCzo5YL8w4VFF8KVHrK22GGUsp5VTaW7grrKgrWqK`.
pub const CLMM_PROGRAM_ID: Address = [165, 213, 202, 158, 4, 207, 93, 181, 144, 183, 20, 186, 47, 227, 44, 177, 89, 19, 63, 193, 193, 146, 183, 34, 87, 253, 7, 211, 156, 176, 64, 30];

/// The constant-product engine: `CPMMoo8L3F4NbTegBCKVNunggL7H1ZpdTHKxQB5qKP1C`.
pub const CPMM_PROGRAM_ID: Address = [169, 42, 90, 139, 79, 41, 89, 82, 132, 37, 80, 170, 147, 253, 91, 149, 181, 172, 230, 168, 235, 146, 12, 147, 148, 46, 67, 105, 12, 32, 236, 115];

/// The two token programs that may hold a locked position token.
pub open spec fn is_token_program(p: Seq<u8>) -> bool {
    p == TOKEN_PROGRAM_ID@ || p == TOKEN_2022_PROGRAM_ID@
}

} // verus!
