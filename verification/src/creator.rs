//! The creator of a listed mint, read from its token-metadata account: the
//! desk takes the second entry of the metadata's creator list.
use vstd::prelude::*;
use crate::address::Address;
use crate::direct_sales::ErrorCode;
use mpl_token_metadata::accounts::Metadata;

verus! {

/// One entry of a metadata account's creator list.
#[derive(Clone, Copy, Debug)]
pub struct CreatorInfo {
    pub address: Address,
    pub verified: bool,
    pub share: u8,
}

/// The creator list that a token-metadata account decodes to: `None` where
/// the bytes are not a metadata account, `Some(None)` where the account has
/// no creator list.
pub uninterp spec fn metadata_creators(data: Seq<u8>) -> Option<Option<Seq<CreatorInfo>>>;

/// The decoded creator list, taken by its contents.
pub open spec fn decoded_view(decoded: Option<Option<Vec<CreatorInfo>>>) -> Option<Option<Seq<CreatorInfo>>> {
    match decoded {
        None => None,
        Some(None) => Some(None),
        Some(Some(v)) => Some(Some(v@)),
    }
}

/// Decodes `data` with `mpl_token_metadata::accounts::Metadata::from_bytes`
/// (Borsh, trailing bytes allowed) and hands out the `creators` field, each
/// entry converted field by field. The result is named, not stated: it is
/// `metadata_creators(data)`.
#[verifier::external_body]
fn decode_creators(data: &[u8]) -> (r: Option<Option<Vec<CreatorInfo>>>)
    ensures
        decoded_view(r) == metadata_creators(data@),
{
    match Metadata::from_bytes(data) {
        Err(_) => None,
        Ok(m) => Some(m.creators.map(|cs| cs.iter().map(|c| CreatorInfo {
            address: Address { bytes: c.address.to_bytes() },
            verified: c.verified,
            share: c.share,
        }).collect())),
    }
}

/// The second creator of a creator list, or `NoCreator` where there is none.
pub fn second_creator(creators: &Vec<CreatorInfo>) -> (r: Result<CreatorInfo, ErrorCode>)
    ensures
        creators@.len() >= 2 ==> r == Ok::<CreatorInfo, ErrorCode>(creators@[1]),
        creators@.len() < 2 ==> r == Err::<CreatorInfo, ErrorCode>(ErrorCode::NoCreator),
{
    if creators.len() >= 2 {
        Ok(creators[1])
    } else {
        Err(ErrorCode::NoCreator)
    }
}

/// The second creator named in the metadata account `data`. The account must
/// decode and carry a creator list (elsewhere the lookup aborts).
pub fn get_creator(data: &[u8]) -> (r: Result<CreatorInfo, ErrorCode>)
    requires
        metadata_creators(data@) matches Some(Some(_)),
    ensures
        ({
            let creators = metadata_creators(data@)->Some_0->Some_0;
            &&& creators.len() >= 2 ==> r == Ok::<CreatorInfo, ErrorCode>(creators[1])
            &&& creators.len() < 2 ==> r == Err::<CreatorInfo, ErrorCode>(ErrorCode::NoCreator)
        }),
{
    let decoded = decode_creators(data);
    match decoded {
        Some(Some(creators)) => second_creator(&creators),
        _ => Err(ErrorCode::NoCreator),
    }
}

/// The second creator named in the metadata account `data`, or `None` where
/// the account does not decode or carries no creator list.
pub fn find_creator(data: &[u8]) -> (r: Option<Result<CreatorInfo, ErrorCode>>)
    ensures
        match metadata_creators(data@) {
            Some(Some(creators)) => {
                &&& creators.len() >= 2 ==> r == Some(Ok::<CreatorInfo, ErrorCode>(creators[1]))
                &&& creators.len() < 2 ==> r == Some(Err::<CreatorInfo, ErrorCode>(ErrorCode::NoCreator))
            },
            _ => r is None,
        },
{
    let decoded = decode_creators(data);
    match decoded {
        Some(Some(_)) => Some(get_creator(data)),
        _ => None,
    }
}

} // verus!
