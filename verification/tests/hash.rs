use hdi::prelude::{ActionHash, AgentPubKey, AnyLinkableHash, EntryHash};
use tool_library::hash::{
    EntryId, ExternalId, HashError, LinkableHash, Principal, RevisionId, PREFIX_LEN, RAW_LEN,
};

fn numbered(first: u8) -> [u8; 36] {
    let mut bytes = [0u8; 36];
    for (i, byte) in bytes.iter_mut().enumerate() {
        *byte = first.wrapping_add(i as u8);
    }
    bytes
}

fn raw(prefix: [u8; 3], bytes: [u8; 36]) -> Vec<u8> {
    let mut raw = prefix.to_vec();
    raw.extend_from_slice(&bytes);
    raw
}

#[test]
fn lengths_of_the_wire_form() {
    assert_eq!(RAW_LEN, 39);
    assert_eq!(PREFIX_LEN, 3);
}

#[test]
fn revision_id_is_read_from_its_wire_form() {
    let bytes = numbered(7);
    let decoded = RevisionId::from_raw_39(&raw([0x84, 0x29, 0x24], bytes));
    assert_eq!(decoded, Ok(RevisionId { bytes }));
}

#[test]
fn revision_id_drops_the_prefix() {
    let bytes = numbered(1);
    let id = RevisionId::from_raw_39(&raw([0x84, 0x29, 0x24], bytes)).unwrap();
    assert_eq!(id.bytes[0], 1);
    assert_eq!(id.bytes[35], 36);
    assert_eq!(id.bytes.len(), 36);
}

#[test]
fn principal_is_read_from_its_wire_form() {
    let bytes = numbered(100);
    let decoded = Principal::from_raw_39(&raw([0x84, 0x20, 0x24], bytes));
    assert_eq!(decoded, Ok(Principal { bytes }));
}

#[test]
fn revision_id_refuses_the_prefix_of_a_principal() {
    let decoded = RevisionId::from_raw_39(&raw([0x84, 0x20, 0x24], numbered(0)));
    assert_eq!(decoded, Err(HashError::BadPrefix));
}

#[test]
fn principal_refuses_the_prefix_of_a_revision() {
    let decoded = Principal::from_raw_39(&raw([0x84, 0x29, 0x24], numbered(0)));
    assert_eq!(decoded, Err(HashError::BadPrefix));
}

#[test]
fn short_input_is_refused_without_panic() {
    assert_eq!(RevisionId::from_raw_39(&vec![]), Err(HashError::BadSize));
    assert_eq!(RevisionId::from_raw_39(&vec![0x84, 0x29]), Err(HashError::BadSize));
    assert_eq!(RevisionId::from_raw_39(&vec![0x84; 38]), Err(HashError::BadSize));
    assert_eq!(Principal::from_raw_39(&vec![]), Err(HashError::BadSize));
    assert_eq!(Principal::from_raw_39(&vec![0x84, 0x20, 0x24]), Err(HashError::BadSize));
}

#[test]
fn long_input_is_refused_without_panic() {
    let mut long = raw([0x84, 0x29, 0x24], numbered(0));
    long.push(0);
    assert_eq!(long.len(), 40);
    assert_eq!(RevisionId::from_raw_39(&long), Err(HashError::BadSize));
    let mut long = raw([0x84, 0x20, 0x24], numbered(0));
    long.push(0);
    assert_eq!(Principal::from_raw_39(&long), Err(HashError::BadSize));
}

#[test]
fn size_is_checked_before_the_prefix() {
    assert_eq!(RevisionId::from_raw_39(&vec![0u8; 5]), Err(HashError::BadSize));
    assert_eq!(RevisionId::from_raw_39(&vec![0u8; 39]), Err(HashError::BadPrefix));
}

#[test]
fn revision_id_round_trip() {
    let id = RevisionId { bytes: numbered(42) };
    let written = id.get_raw_39();
    assert_eq!(written.len(), 39);
    assert_eq!(&written[0..3], &[0x84, 0x29, 0x24]);
    assert_eq!(&written[3..], &numbered(42));
    assert_eq!(RevisionId::from_raw_39(&written), Ok(id));
}

#[test]
fn principal_round_trip() {
    let key = Principal { bytes: numbered(200) };
    let written = key.get_raw_39();
    assert_eq!(written.len(), 39);
    assert_eq!(&written[0..3], &[0x84, 0x20, 0x24]);
    assert_eq!(&written[3..], &numbered(200));
    assert_eq!(Principal::from_raw_39(&written), Ok(key));
}

#[test]
fn wire_form_of_a_revision_is_that_of_an_action_hash() {
    let bytes = numbered(9);
    let theirs = ActionHash::from_raw_36(bytes.to_vec());
    let ours = RevisionId { bytes };
    assert_eq!(ours.get_raw_39(), theirs.get_raw_39().to_vec());
    assert_eq!(RevisionId::from_raw_39(&theirs.get_raw_39().to_vec()), Ok(ours));
}

#[test]
fn wire_form_of_a_principal_is_that_of_an_agent_key() {
    let bytes = numbered(77);
    let theirs = AgentPubKey::from_raw_36(bytes.to_vec());
    let ours = Principal { bytes };
    assert_eq!(ours.get_raw_39(), theirs.get_raw_39().to_vec());
    assert_eq!(Principal::from_raw_39(&theirs.get_raw_39().to_vec()), Ok(ours));
}

#[test]
fn an_agent_key_at_the_end_of_an_edge_is_content() {
    let bytes = numbered(3);
    let theirs: AnyLinkableHash = AgentPubKey::from_raw_36(bytes.to_vec()).into();
    assert!(theirs.clone().into_entry_hash().is_some());
    assert!(theirs.clone().into_action_hash().is_none());
    assert_eq!(
        theirs.into_agent_pub_key().unwrap().get_raw_36().to_vec(),
        bytes.to_vec()
    );
    let ours = LinkableHash::from_agent_pub_key(Principal { bytes });
    assert_eq!(ours, LinkableHash::Entry(EntryId { bytes }));
    assert_eq!(ours.into_agent_pub_key(), Some(Principal { bytes }));
    assert_eq!(ours.into_entry_hash(), Some(EntryId { bytes }));
    assert_eq!(ours.into_action_hash(), None);
}

#[test]
fn content_at_the_end_of_an_edge_reads_as_an_agent_key_too() {
    let bytes = numbered(5);
    let theirs: AnyLinkableHash = EntryHash::from_raw_36(bytes.to_vec()).into();
    assert_eq!(
        theirs.into_agent_pub_key().unwrap().get_raw_36().to_vec(),
        bytes.to_vec()
    );
    let ours = LinkableHash::from_entry_hash(EntryId { bytes });
    assert_eq!(ours.into_agent_pub_key(), Some(Principal { bytes }));
}

#[test]
fn a_revision_at_the_end_of_an_edge() {
    let id = RevisionId { bytes: numbered(11) };
    let hash = LinkableHash::from_action_hash(id);
    assert_eq!(hash, LinkableHash::Action(id));
    assert_eq!(hash.into_action_hash(), Some(id));
    assert_eq!(hash.into_entry_hash(), None);
    assert_eq!(hash.into_agent_pub_key(), None);
}

#[test]
fn something_outside_the_store_is_neither_revision_nor_content() {
    let hash = LinkableHash::External(ExternalId { bytes: numbered(1) });
    assert_eq!(hash.into_action_hash(), None);
    assert_eq!(hash.into_entry_hash(), None);
    assert_eq!(hash.into_agent_pub_key(), None);
}

#[test]
fn identifiers_are_equal_exactly_when_their_bytes_are() {
    let a = RevisionId { bytes: numbered(1) };
    let mut other = numbered(1);
    other[35] ^= 1;
    let b = RevisionId { bytes: other };
    assert_eq!(a, RevisionId { bytes: numbered(1) });
    assert_ne!(a, b);
    assert_eq!(Principal { bytes: [4; 36] }, Principal { bytes: [4; 36] });
    assert_ne!(Principal { bytes: [4; 36] }, Principal { bytes: [5; 36] });
    assert_eq!(EntryId { bytes: [4; 36] }, EntryId { bytes: [4; 36] });
    assert_ne!(EntryId { bytes: [4; 36] }, EntryId { bytes: [5; 36] });
    assert_eq!(ExternalId { bytes: [4; 36] }, ExternalId { bytes: [4; 36] });
    assert_ne!(ExternalId { bytes: [4; 36] }, ExternalId { bytes: [5; 36] });
}

#[test]
fn ends_of_edges_of_different_kinds_differ() {
    let bytes = numbered(8);
    assert_ne!(
        LinkableHash::Entry(EntryId { bytes }),
        LinkableHash::Action(RevisionId { bytes })
    );
    assert_ne!(
        LinkableHash::External(ExternalId { bytes }),
        LinkableHash::Action(RevisionId { bytes })
    );
    assert_eq!(
        LinkableHash::External(ExternalId { bytes }),
        LinkableHash::External(ExternalId { bytes })
    );
}

#[test]
fn messages_of_hash_errors() {
    assert_eq!(HashError::BadSize.message(), "Holo Hash has incorrect size");
    assert_eq!(HashError::BadPrefix.message(), "Holo Hash has unknown prefix");
}
