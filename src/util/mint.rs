use crate::state::pubkey::Pubkey;
use vstd::prelude::*;

verus! {

/// The address of the mint of wrapped SOL, the chain's native token.
pub open spec fn native_mint_bytes() -> Seq<u8> {
    seq![
        6u8, 155, 136, 87, 254, 171, 129, 132, 251, 104, 127, 99, 70, 24, 192, 53,
        218, 196, 57, 220, 26, 235, 59, 85, 152, 160, 240, 0, 0, 0, 0, 1,
    ]
}

/// Relies on spl_token::native_mint::check_id: true exactly for the address
/// of the wrapped-SOL mint.
#[verifier::external_body]
pub(crate) fn is_native_mint(key: &Pubkey) -> (r: bool)
    ensures
        r == (key.bytes@ == native_mint_bytes()),
{
    spl_token::native_mint::check_id(&solana_program::pubkey::Pubkey::new_from_array(key.bytes))
}

/// Whether the four bytes at `at` tag an optional address: 0 for none, 1 for
/// one, as little-endian 32-bit words.
pub open spec fn coption_tag_valid(data: Seq<u8>, at: int) -> bool {
    &&& data[at] == 0 || data[at] == 1
    &&& data[at + 1] == 0
    &&& data[at + 2] == 0
    &&& data[at + 3] == 0
}

/// Whether `data` is the 82-byte layout of an initialised token mint: the
/// mint authority (a tag and 32 bytes), the supply (8 bytes), the decimals
/// (1 byte), the initialised flag (1 byte) and the freeze authority.
pub open spec fn mint_layout_valid(data: Seq<u8>) -> bool {
    &&& data.len() == 82
    &&& coption_tag_valid(data, 0)
    &&& data[45] == 1
    &&& coption_tag_valid(data, 46)
}

/// Relies on spl_token's `Pack::unpack` for `Mint`: it accepts exactly the
/// initialised 82-byte layout, and the decimals are its byte 44.
#[verifier::external_body]
pub(crate) fn unpack_mint_decimals(data: &[u8]) -> (r: Option<u8>)
    ensures
        r == (if mint_layout_valid(data@) {
            Some(data@[44])
        } else {
            None
        }),
{
    <spl_token::state::Mint as solana_program::program_pack::Pack>::unpack(data).ok().map(|m| m.decimals)
}

} // verus!
