use anchor_lang::AccountDeserialize;
use vstd::prelude::*;
use crate::error::ErrorCode;
use crate::identity::Identity;

verus! {

/// The two fields of a token account that the vault inspects: which asset it
/// holds and who may move it.
#[derive(Clone, Copy, Debug, PartialEq, Eq)]
pub struct TokenAccountKeys {
    pub mint: Identity,
    pub owner: Identity,
}

/// Anchor's error type, returned by its account decoders; carried opaque.
#[verifier::external_type_specification]
#[verifier::external_body]
pub struct ExAnchorError(anchor_lang::error::Error);

/// The four-byte tag of an optional field at `at`: zero for none, one for some.
pub open spec fn option_tag_valid(d: Seq<u8>, at: int) -> bool {
    &&& d[at] == 0u8 || d[at] == 1u8
    &&& d[at + 1] == 0u8
    &&& d[at + 2] == 0u8
    &&& d[at + 3] == 0u8
}

/// The layout of an initialized (or frozen) token account: mint at 0, owner
/// at 32, amount at 64, optional delegate at 72, state at 108, optional native
/// reserve at 109, delegated amount at 121, optional close authority at 129.
pub open spec fn token_account_decodes(d: Seq<u8>) -> bool {
    &&& d.len() == 165
    &&& option_tag_valid(d, 72)
    &&& d[108] == 1u8 || d[108] == 2u8
    &&& option_tag_valid(d, 109)
    &&& option_tag_valid(d, 129)
}

/// The mint recorded in token account bytes.
pub open spec fn token_account_mint(d: Seq<u8>) -> Seq<u8> {
    d.subrange(0, 32)
}

/// The owner recorded in token account bytes.
pub open spec fn token_account_owner(d: Seq<u8>) -> Seq<u8> {
    d.subrange(32, 64)
}

/// Relies on anchor_spl's `TokenAccount::try_deserialize`, which is
/// spl-token's `Account::unpack`: it accepts exactly the 165-byte layout above
/// with a known state other than uninitialized and valid option tags, and
/// reads the mint and the owner from the first 64 bytes.
#[verifier::external_body]
fn deserialize_token_account(data: &[u8]) -> (r: Result<TokenAccountKeys, anchor_lang::error::Error>)
    ensures
        r is Ok <==> token_account_decodes(data@),
        r matches Ok(k) ==> k.mint.bytes@ == token_account_mint(data@)
            && k.owner.bytes@ == token_account_owner(data@),
{
    let mut buf: &[u8] = data;
    match anchor_spl::token::TokenAccount::try_deserialize(&mut buf) {
        Ok(a) => Ok(TokenAccountKeys {
            mint: Identity { bytes: a.mint.to_bytes() },
            owner: Identity { bytes: a.owner.to_bytes() },
        }),
        Err(e) => Err(e),
    }
}

/// Decodes the mint and owner of a token account from its raw bytes.
pub fn read_token_account(data: &[u8]) -> (r: Result<TokenAccountKeys, ErrorCode>)
    ensures
        r is Ok <==> token_account_decodes(data@),
        r is Err ==> r == Err::<TokenAccountKeys, ErrorCode>(ErrorCode::AccountDidNotDeserialize),
        r matches Ok(k) ==> k.mint.bytes@ == token_account_mint(data@)
            && k.owner.bytes@ == token_account_owner(data@),
{
    match deserialize_token_account(data) {
        Ok(k) => Ok(k),
        Err(_) => Err(ErrorCode::AccountDidNotDeserialize),
    }
}

} // verus!
