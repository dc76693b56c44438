//! Typed identifiers.
//!
//! Every identifier names something by 36 bytes: a 32 byte digest followed by
//! 4 location bytes. What kind of thing is named is carried by the Rust type,
//! and shows on the wire as a 3 byte prefix in front of the 36 bytes.

use vstd::prelude::*;
use vstd::std_specs::cmp::PartialEqSpecImpl;

verus! {

/// Number of bytes of an identifier on the wire: prefix, digest and location.
pub const RAW_LEN: usize = 39;

/// Number of prefix bytes on the wire.
pub const PREFIX_LEN: usize = 3;

/// The wire prefix of a revision identifier.
pub open spec fn revision_prefix() -> Seq<u8> {
    seq![0x84u8, 0x29u8, 0x24u8]
}

/// The wire prefix of a principal.
pub open spec fn principal_prefix() -> Seq<u8> {
    seq![0x84u8, 0x20u8, 0x24u8]
}

/// The wire form of an identifier whose 36 bytes are `bytes`.
pub open spec fn wire_form(prefix: Seq<u8>, bytes: [u8; 36]) -> Seq<u8> {
    prefix + bytes@
}

/// Whether `raw` is the wire form of some identifier with the given prefix.
pub open spec fn is_wire_form(prefix: Seq<u8>, raw: Seq<u8>) -> bool {
    raw.len() == 39 && raw.subrange(0, 3) == prefix
}

/// Why bytes were not accepted as an identifier.
#[derive(Clone, Copy, Debug, PartialEq, Eq, Structural)]
pub enum HashError {
    /// The input is not 39 bytes long.
    BadSize,
    /// The first three bytes are not the prefix of the expected kind.
    BadPrefix,
}

impl HashError {
    pub open spec fn spec_message(self) -> Seq<char> {
        match self {
            HashError::BadSize => "Holo Hash has incorrect size"@,
            HashError::BadPrefix => "Holo Hash has unknown prefix"@,
        }
    }

    /// A sentence for people.
    pub fn message(&self) -> (text: String)
        ensures
            text@ == self.spec_message(),
    {
        match self {
            HashError::BadSize => "Holo Hash has incorrect size".to_string(),
            HashError::BadPrefix => "Holo Hash has unknown prefix".to_string(),
        }
    }
}

fn bytes_equal(a: &[u8; 36], b: &[u8; 36]) -> (same: bool)
    ensures
        same == (*a == *b),
{
    let mut i: usize = 0;
    while i < 36
        invariant
            i <= 36,
            forall|j: int| 0 <= j < i ==> a[j] == b[j],
        decreases 36 - i,
    {
        if a[i] != b[i] {
            return false;
        }
        i += 1;
    }
    assert(*a =~= *b);
    true
}

fn wire_bytes(first: u8, second: u8, third: u8, bytes: &[u8; 36]) -> (raw: Vec<u8>)
    ensures
        raw@ == wire_form(seq![first, second, third], *bytes),
{
    let mut raw: Vec<u8> = Vec::with_capacity(39);
    raw.push(first);
    raw.push(second);
    raw.push(third);
    let mut i: usize = 0;
    while i < 36
        invariant
            i <= 36,
            raw@ == seq![first, second, third] + bytes@.subrange(0, i as int),
        decreases 36 - i,
    {
        raw.push(bytes[i]);
        i += 1;
    }
    assert(bytes@.subrange(0, 36) =~= bytes@);
    raw
}

/// An actor: the holder of a signing key.
#[derive(Clone, Copy, Debug, Eq, Hash)]
pub struct Principal {
    pub bytes: [u8; 36],
}

/// The identity of a revision: of the record that created, updated or
/// removed something, or that made or removed an edge.
#[derive(Clone, Copy, Debug, Eq, Hash)]
pub struct RevisionId {
    pub bytes: [u8; 36],
}

/// The identity of a piece of content, whichever record carries it.
#[derive(Clone, Copy, Debug, Eq, Hash)]
pub struct EntryId {
    pub bytes: [u8; 36],
}

/// The identity of something that lives outside the store.
#[derive(Clone, Copy, Debug, Eq, Hash)]
pub struct ExternalId {
    pub bytes: [u8; 36],
}

impl PartialEq for Principal {
    fn eq(&self, other: &Self) -> (same: bool) {
        bytes_equal(&self.bytes, &other.bytes)
    }
}

impl PartialEqSpecImpl for Principal {
    open spec fn obeys_eq_spec() -> bool {
        true
    }

    open spec fn eq_spec(&self, other: &Self) -> bool {
        *self == *other
    }
}

impl PartialEq for RevisionId {
    fn eq(&self, other: &Self) -> (same: bool) {
        bytes_equal(&self.bytes, &other.bytes)
    }
}

impl PartialEqSpecImpl for RevisionId {
    open spec fn obeys_eq_spec() -> bool {
        true
    }

    open spec fn eq_spec(&self, other: &Self) -> bool {
        *self == *other
    }
}

impl PartialEq for EntryId {
    fn eq(&self, other: &Self) -> (same: bool) {
        bytes_equal(&self.bytes, &other.bytes)
    }
}

impl PartialEqSpecImpl for EntryId {
    open spec fn obeys_eq_spec() -> bool {
        true
    }

    open spec fn eq_spec(&self, other: &Self) -> bool {
        *self == *other
    }
}

impl PartialEq for ExternalId {
    fn eq(&self, other: &Self) -> (same: bool) {
        bytes_equal(&self.bytes, &other.bytes)
    }
}

impl PartialEqSpecImpl for ExternalId {
    open spec fn obeys_eq_spec() -> bool {
        true
    }

    open spec fn eq_spec(&self, other: &Self) -> bool {
        *self == *other
    }
}

/// `holo_hash::HoloHashError`, the failure of `from_raw_39`. It is carried
/// from where it comes up to where it is turned into a [`HashError`]; nothing
/// is read from it.
#[verifier::external_type_specification]
#[verifier::external_body]
pub struct ExHoloHashError(hdi::prelude::holo_hash::HoloHashError);

/// `holo_hash::HoloHash::<hash_type::Action>::from_raw_39`, on 39 bytes, and
/// `get_raw_36` on what it gives.
///
/// The first keeps the bytes as they are when the first three are the prefix
/// of an action hash, and fails otherwise; the second hands out what stands
/// behind the first three. Input of another length makes the first panic
/// where assertions are on, and input of less than three bytes everywhere,
/// so only 39 bytes are admitted here.
#[verifier::external_body]
fn action_hash_from_raw_39(raw: &Vec<u8>) -> (decoded: Result<
    RevisionId,
    hdi::prelude::holo_hash::HoloHashError,
>)
    requires
        raw@.len() == 39,
    ensures
        decoded is Ok <==> raw@.subrange(0, 3) == revision_prefix(),
        decoded is Ok ==> decoded->Ok_0.bytes@ == raw@.subrange(3, 39),
{
    match hdi::prelude::ActionHash::from_raw_39(raw.clone()) {
        Ok(hash) => {
            let mut bytes = [0u8; 36];
            bytes.copy_from_slice(hash.get_raw_36());
            Ok(RevisionId { bytes })
        },
        Err(e) => Err(e),
    }
}

/// `holo_hash::HoloHash::<hash_type::Agent>::from_raw_39`, on 39 bytes, and
/// `get_raw_36` on what it gives.
///
/// The first keeps the bytes as they are when the first three are the prefix
/// of an agent key, and fails otherwise; the second hands out what stands
/// behind the first three. Input of another length makes the first panic
/// where assertions are on, and input of less than three bytes everywhere,
/// so only 39 bytes are admitted here.
#[verifier::external_body]
fn agent_pub_key_from_raw_39(raw: &Vec<u8>) -> (decoded: Result<
    Principal,
    hdi::prelude::holo_hash::HoloHashError,
>)
    requires
        raw@.len() == 39,
    ensures
        decoded is Ok <==> raw@.subrange(0, 3) == principal_prefix(),
        decoded is Ok ==> decoded->Ok_0.bytes@ == raw@.subrange(3, 39),
{
    match hdi::prelude::AgentPubKey::from_raw_39(raw.clone()) {
        Ok(hash) => {
            let mut bytes = [0u8; 36];
            bytes.copy_from_slice(hash.get_raw_36());
            Ok(Principal { bytes })
        },
        Err(e) => Err(e),
    }
}

/// What reading `raw` as an identifier with the given prefix gives: the 36
/// bytes behind the prefix, or the reason why there are none.
pub open spec fn spec_untyped(prefix: Seq<u8>, raw: Seq<u8>) -> Result<Seq<u8>, HashError> {
    if raw.len() != 39 {
        Err(HashError::BadSize)
    } else if raw.subrange(0, 3) != prefix {
        Err(HashError::BadPrefix)
    } else {
        Ok(raw.subrange(3, 39))
    }
}

impl RevisionId {
    /// The 39 bytes that name this revision on the wire.
    pub open spec fn spec_raw_39(self) -> Seq<u8> {
        wire_form(revision_prefix(), self.bytes)
    }

    /// The revision identifier whose 36 bytes are `bytes`.
    pub open spec fn spec_from_raw_36(bytes: Seq<u8>) -> RevisionId {
        choose|id: RevisionId| id.bytes@ == bytes
    }

    /// What reading `raw` as a revision identifier gives.
    pub open spec fn spec_from_raw_39(raw: Seq<u8>) -> Result<RevisionId, HashError> {
        match spec_untyped(revision_prefix(), raw) {
            Ok(bytes) => Ok(Self::spec_from_raw_36(bytes)),
            Err(e) => Err(e),
        }
    }

    /// Reads a revision identifier from its wire form. Input of any length is
    /// answered: nothing here panics.
    pub fn from_raw_39(raw: &Vec<u8>) -> (decoded: Result<RevisionId, HashError>)
        ensures
            decoded == Self::spec_from_raw_39(raw@),
            decoded is Ok <==> is_wire_form(revision_prefix(), raw@),
            decoded is Ok ==> decoded->Ok_0.spec_raw_39() == raw@,
            raw@.len() != 39 ==> decoded == Err::<RevisionId, HashError>(HashError::BadSize),
    {
        if raw.len() != RAW_LEN {
            return Err(HashError::BadSize);
        }
        match action_hash_from_raw_39(raw) {
            Ok(id) => {
                proof {
                    assert(id.spec_raw_39() =~= raw@);
                    lemma_revision_id_from_bytes(id);
                }
                Ok(id)
            },
            Err(_) => Err(HashError::BadPrefix),
        }
    }

    /// Writes the wire form.
    pub fn get_raw_39(&self) -> (raw: Vec<u8>)
        ensures
            raw@ == self.spec_raw_39(),
            Self::spec_from_raw_39(raw@) == Ok::<RevisionId, HashError>(*self),
    {
        let raw = wire_bytes(0x84, 0x29, 0x24, &self.bytes);
        proof {
            lemma_revision_id_round_trip(*self);
        }
        raw
    }
}

impl Principal {
    /// The 39 bytes that name this principal on the wire.
    pub open spec fn spec_raw_39(self) -> Seq<u8> {
        wire_form(principal_prefix(), self.bytes)
    }

    /// The principal whose 36 bytes are `bytes`.
    pub open spec fn spec_from_raw_36(bytes: Seq<u8>) -> Principal {
        choose|key: Principal| key.bytes@ == bytes
    }

    /// What reading `raw` as a principal gives.
    pub open spec fn spec_from_raw_39(raw: Seq<u8>) -> Result<Principal, HashError> {
        match spec_untyped(principal_prefix(), raw) {
            Ok(bytes) => Ok(Self::spec_from_raw_36(bytes)),
            Err(e) => Err(e),
        }
    }

    /// Reads a principal from its wire form. Input of any length is
    /// answered: nothing here panics.
    pub fn from_raw_39(raw: &Vec<u8>) -> (decoded: Result<Principal, HashError>)
        ensures
            decoded == Self::spec_from_raw_39(raw@),
            decoded is Ok <==> is_wire_form(principal_prefix(), raw@),
            decoded is Ok ==> decoded->Ok_0.spec_raw_39() == raw@,
            raw@.len() != 39 ==> decoded == Err::<Principal, HashError>(HashError::BadSize),
    {
        if raw.len() != RAW_LEN {
            return Err(HashError::BadSize);
        }
        match agent_pub_key_from_raw_39(raw) {
            Ok(key) => {
                proof {
                    assert(key.spec_raw_39() =~= raw@);
                    lemma_principal_from_bytes(key);
                }
                Ok(key)
            },
            Err(_) => Err(HashError::BadPrefix),
        }
    }

    /// Writes the wire form.
    pub fn get_raw_39(&self) -> (raw: Vec<u8>)
        ensures
            raw@ == self.spec_raw_39(),
            Self::spec_from_raw_39(raw@) == Ok::<Principal, HashError>(*self),
    {
        let raw = wire_bytes(0x84, 0x20, 0x24, &self.bytes);
        proof {
            lemma_principal_round_trip(*self);
        }
        raw
    }
}

/// A revision identifier is known by its 36 bytes.
pub proof fn lemma_revision_id_from_bytes(id: RevisionId)
    ensures
        RevisionId::spec_from_raw_36(id.bytes@) == id,
{
    let bytes = id.bytes@;
    assert(exists|other: RevisionId| other.bytes@ == bytes) by {
        assert(id.bytes@ == bytes);
    }
    let other = RevisionId::spec_from_raw_36(bytes);
    assert(other.bytes =~= id.bytes);
}

/// A principal is known by its 36 bytes.
pub proof fn lemma_principal_from_bytes(key: Principal)
    ensures
        Principal::spec_from_raw_36(key.bytes@) == key,
{
    let bytes = key.bytes@;
    assert(exists|other: Principal| other.bytes@ == bytes) by {
        assert(key.bytes@ == bytes);
    }
    let other = Principal::spec_from_raw_36(bytes);
    assert(other.bytes =~= key.bytes);
}

/// Writing a revision identifier and reading it back gives the identifier.
pub proof fn lemma_revision_id_round_trip(id: RevisionId)
    ensures
        RevisionId::spec_from_raw_39(id.spec_raw_39()) == Ok::<RevisionId, HashError>(id),
{
    let raw = id.spec_raw_39();
    assert(raw.subrange(0, 3) =~= revision_prefix());
    assert(raw.subrange(3, 39) =~= id.bytes@);
    lemma_revision_id_from_bytes(id);
}

/// Writing a principal and reading it back gives the principal.
pub proof fn lemma_principal_round_trip(key: Principal)
    ensures
        Principal::spec_from_raw_39(key.spec_raw_39()) == Ok::<Principal, HashError>(key),
{
    let raw = key.spec_raw_39();
    assert(raw.subrange(0, 3) =~= principal_prefix());
    assert(raw.subrange(3, 39) =~= key.bytes@);
    lemma_principal_from_bytes(key);
}

/// Anything an edge can start from or point to.
#[derive(Clone, Copy, Debug, Eq, Hash)]
pub enum LinkableHash {
    /// A piece of content. A principal used as an end of an edge is of this
    /// kind too.
    Entry(EntryId),
    /// A revision.
    Action(RevisionId),
    /// Something outside the store.
    External(ExternalId),
}

impl PartialEq for LinkableHash {
    fn eq(&self, other: &Self) -> (same: bool) {
        match (self, other) {
            (LinkableHash::Entry(a), LinkableHash::Entry(b)) => bytes_equal(&a.bytes, &b.bytes),
            (LinkableHash::Action(a), LinkableHash::Action(b)) => bytes_equal(&a.bytes, &b.bytes),
            (LinkableHash::External(a), LinkableHash::External(b)) => bytes_equal(
                &a.bytes,
                &b.bytes,
            ),
            _ => false,
        }
    }
}

impl PartialEqSpecImpl for LinkableHash {
    open spec fn obeys_eq_spec() -> bool {
        true
    }

    open spec fn eq_spec(&self, other: &Self) -> bool {
        *self == *other
    }
}

impl LinkableHash {
    pub open spec fn spec_into_action_hash(self) -> Option<RevisionId> {
        match self {
            LinkableHash::Action(id) => Some(id),
            _ => None,
        }
    }

    pub open spec fn spec_into_entry_hash(self) -> Option<EntryId> {
        match self {
            LinkableHash::Entry(id) => Some(id),
            _ => None,
        }
    }

    pub open spec fn spec_into_agent_pub_key(self) -> Option<Principal> {
        match self {
            LinkableHash::Entry(id) => Some(Principal { bytes: id.bytes }),
            _ => None,
        }
    }

    /// A principal as an end of an edge.
    pub open spec fn from_agent(key: Principal) -> LinkableHash {
        LinkableHash::Entry(EntryId { bytes: key.bytes })
    }

    /// The revision this names, if it names one.
    pub fn into_action_hash(self) -> (id: Option<RevisionId>)
        ensures
            id == self.spec_into_action_hash(),
    {
        match self {
            LinkableHash::Action(id) => Some(id),
            _ => None,
        }
    }

    /// The content this names, if it names content.
    pub fn into_entry_hash(self) -> (id: Option<EntryId>)
        ensures
            id == self.spec_into_entry_hash(),
    {
        match self {
            LinkableHash::Entry(id) => Some(id),
            _ => None,
        }
    }

    /// The principal this names, if it names content: a principal at the
    /// end of an edge is held as content with the same 36 bytes.
    pub fn into_agent_pub_key(self) -> (key: Option<Principal>)
        ensures
            key == self.spec_into_agent_pub_key(),
    {
        match self {
            LinkableHash::Entry(id) => Some(Principal { bytes: id.bytes }),
            _ => None,
        }
    }

    /// A revision as an end of an edge.
    pub fn from_action_hash(id: RevisionId) -> (hash: LinkableHash)
        ensures
            hash == LinkableHash::Action(id),
            hash.spec_into_action_hash() == Some(id),
    {
        LinkableHash::Action(id)
    }

    /// A principal as an end of an edge.
    pub fn from_agent_pub_key(key: Principal) -> (hash: LinkableHash)
        ensures
            hash == LinkableHash::from_agent(key),
            hash.spec_into_agent_pub_key() == Some(key),
    {
        LinkableHash::Entry(EntryId { bytes: key.bytes })
    }

    /// Content as an end of an edge.
    pub fn from_entry_hash(id: EntryId) -> (hash: LinkableHash)
        ensures
            hash == LinkableHash::Entry(id),
            hash.spec_into_entry_hash() == Some(id),
    {
        LinkableHash::Entry(id)
    }
}

} // verus!
