use direct_sales::address::Address;
use direct_sales::creator::{find_creator, get_creator, second_creator, CreatorInfo};
use direct_sales::direct_sales::ErrorCode;

fn put_string(out: &mut Vec<u8>, s: &str) {
    out.extend_from_slice(&(s.len() as u32).to_le_bytes());
    out.extend_from_slice(s.as_bytes());
}

/// Borsh encoding of a token-metadata account with the given creator list.
fn metadata_bytes(creators: Option<&[([u8; 32], bool, u8)]>) -> Vec<u8> {
    let mut out = vec![4u8]; // Key::MetadataV1
    out.extend_from_slice(&[1u8; 32]); // update authority
    out.extend_from_slice(&[2u8; 32]); // mint
    put_string(&mut out, "Name");
    put_string(&mut out, "SYM");
    put_string(&mut out, "https://example.com");
    out.extend_from_slice(&500u16.to_le_bytes());
    match creators {
        None => out.push(0),
        Some(cs) => {
            out.push(1);
            out.extend_from_slice(&(cs.len() as u32).to_le_bytes());
            for (address, verified, share) in cs {
                out.extend_from_slice(address);
                out.push(*verified as u8);
                out.push(*share);
            }
        }
    }
    out.push(0); // primary sale happened
    out.push(1); // is mutable
    out.extend_from_slice(&[0u8; 6]); // the trailing options, all absent
    out
}

#[test]
fn get_creator_takes_second_entry() {
    let data = metadata_bytes(Some(&[([7u8; 32], true, 40), ([9u8; 32], false, 60)]));
    let c = get_creator(&data).unwrap();
    assert_eq!(c.address.bytes, [9u8; 32]);
    assert!(!c.verified);
    assert_eq!(c.share, 60);
}

#[test]
fn get_creator_with_one_creator_is_no_creator() {
    let data = metadata_bytes(Some(&[([7u8; 32], true, 100)]));
    assert_eq!(get_creator(&data).unwrap_err(), ErrorCode::NoCreator);
}

#[test]
fn get_creator_with_empty_list_is_no_creator() {
    let data = metadata_bytes(Some(&[]));
    assert_eq!(get_creator(&data).unwrap_err(), ErrorCode::NoCreator);
}

#[test]
fn find_creator_on_account_without_creator_list() {
    let data = metadata_bytes(None);
    assert!(find_creator(&data).is_none());
}

#[test]
fn find_creator_on_bytes_that_are_not_metadata() {
    assert!(find_creator(&[4u8, 1, 2]).is_none());
    assert!(find_creator(&[]).is_none());
}

#[test]
fn find_creator_on_good_metadata() {
    let data = metadata_bytes(Some(&[([7u8; 32], true, 40), ([9u8; 32], false, 30), ([3u8; 32], true, 30)]));
    let c = find_creator(&data).unwrap().unwrap();
    assert_eq!(c.address.bytes, [9u8; 32]);
    assert_eq!(c.share, 30);
}

#[test]
fn second_creator_of_lists() {
    let a = CreatorInfo { address: Address { bytes: [1u8; 32] }, verified: true, share: 10 };
    let b = CreatorInfo { address: Address { bytes: [2u8; 32] }, verified: false, share: 90 };
    assert_eq!(second_creator(&vec![a, b]).unwrap().address.bytes, [2u8; 32]);
    assert_eq!(second_creator(&vec![a]).unwrap_err(), ErrorCode::NoCreator);
    assert_eq!(second_creator(&vec![]).unwrap_err(), ErrorCode::NoCreator);
}
