use vstd::prelude::*;
use vstd::utf8::encode_utf8;

verus! {

/// Length of the type tag that precedes a record's fields in its slot.
pub const ANCHOR_DISCRIMINATOR_LENGTH: usize = 8;

/// Length of an identity (a public key) in bytes.
pub const IDENTITY_LEN: usize = 32;

/// Length of the prefix that carries a string's byte length.
pub const STRING_PREFIX_LEN: usize = 4;

/// Largest title, in bytes.
pub const MAX_TITLE_LEN: usize = 32;

/// Largest content hash or integrity hash, in bytes.
pub const MAX_HASH_LEN: usize = 64;

/// Space taken by the fields of a record whose strings are at their bounds.
pub const INIT_SPACE: usize = IDENTITY_LEN + STRING_PREFIX_LEN + MAX_TITLE_LEN
    + STRING_PREFIX_LEN + MAX_HASH_LEN + STRING_PREFIX_LEN + MAX_HASH_LEN;

/// Space allocated for every slot: the type tag and the largest record.
pub const RECORD_SPACE: usize = INIT_SPACE + ANCHOR_DISCRIMINATOR_LENGTH;

/// Number of bytes of a string's UTF-8 encoding.
pub open spec fn byte_len(s: Seq<char>) -> nat {
    encode_utf8(s).len()
}

/// Whether the three text fields are within their bounds.
pub open spec fn fields_fit(title: Seq<char>, ipfs_hash: Seq<char>, sha256_hash: Seq<char>) -> bool {
    &&& byte_len(title) <= MAX_TITLE_LEN
    &&& byte_len(ipfs_hash) <= MAX_HASH_LEN
    &&& byte_len(sha256_hash) <= MAX_HASH_LEN
}

/// A record as values: the owner's key bytes and the three text fields.
pub struct BlogRecord {
    pub owner: Seq<u8>,
    pub title: Seq<char>,
    pub ipfs_hash: Seq<char>,
    pub sha256_hash: Seq<char>,
}

impl BlogRecord {
    /// A record is well formed when its owner is a full identity and its
    /// fields are within their bounds.
    pub open spec fn wf(self) -> bool {
        self.owner.len() == IDENTITY_LEN && fields_fit(self.title, self.ipfs_hash, self.sha256_hash)
    }

    /// Bytes that the record takes in its slot: tag, owner, then each string
    /// with its length prefix.
    pub open spec fn serialized_size(self) -> int {
        ANCHOR_DISCRIMINATOR_LENGTH + self.owner.len() + STRING_PREFIX_LEN + byte_len(self.title)
            + STRING_PREFIX_LEN + byte_len(self.ipfs_hash) + STRING_PREFIX_LEN + byte_len(
            self.sha256_hash,
        )
    }
}

/// The stored blog record.
pub struct BlogState {
    pub owner: [u8; 32],
    pub title: String,
    pub ipfs_hash: String,
    pub sha256_hash: String,
}

impl View for BlogState {
    type V = BlogRecord;

    open spec fn view(&self) -> BlogRecord {
        BlogRecord {
            owner: self.owner@,
            title: self.title@,
            ipfs_hash: self.ipfs_hash@,
            sha256_hash: self.sha256_hash@,
        }
    }
}

impl BlogState {
    /// Copies the record field by field.
    pub fn duplicate(&self) -> (r: BlogState)
        ensures
            r@ == self@,
    {
        BlogState {
            owner: self.owner,
            title: self.title.clone(),
            ipfs_hash: self.ipfs_hash.clone(),
            sha256_hash: self.sha256_hash.clone(),
        }
    }
}

/// Tells whether the three text fields are within their bounds.
pub fn check_fields(title: &String, ipfs_hash: &String, sha256_hash: &String) -> (r: bool)
    ensures
        r == fields_fit(title@, ipfs_hash@, sha256_hash@),
{
    title.as_str().as_bytes().len() <= MAX_TITLE_LEN && ipfs_hash.as_str().as_bytes().len() <= MAX_HASH_LEN
        && sha256_hash.as_str().as_bytes().len() <= MAX_HASH_LEN
}

/// A well-formed record never outgrows the space allocated for its slot.
pub proof fn lemma_record_fits_slot(r: BlogRecord)
    requires
        r.wf(),
    ensures
        r.serialized_size() <= RECORD_SPACE,
        r.serialized_size() == RECORD_SPACE <== (byte_len(r.title) == MAX_TITLE_LEN && byte_len(r.ipfs_hash) == MAX_HASH_LEN && byte_len(r.sha256_hash) == MAX_HASH_LEN),
{
}

/// Tells whether two identities are the same bytes.
pub fn same_identity(a: &[u8; 32], b: &[u8; 32]) -> (r: bool)
    ensures
        r == (a@ == b@),
{
    let mut i: usize = 0;
    while i < 32
        invariant
            0 <= i <= 32,
            a@.len() == 32,
            b@.len() == 32,
            forall|k: int| 0 <= k < i ==> a@[k] == b@[k],
        decreases 32 - i,
    {
        if a[i] != b[i] {
            return false;
        }
        i = i + 1;
    }
    assert(a@ =~= b@);
    true
}

} // verus!
