use crate::record::{fields_fit, BlogRecord};
use crate::store::{
    delete_step, fresh_record, initialize_step, read_step, update_step, BlogError, StoreModel,
};
use vstd::prelude::*;

verus! {

/// Creating a record with valid inputs at a free address succeeds, and a read
/// then returns exactly the supplied fields, owned by the signer.
pub proof fn law_initialize_then_read(
    m: StoreModel,
    address: Seq<u8>,
    signer: Seq<u8>,
    funds: u64,
    rent: u64,
    title: Seq<char>,
    ipfs_hash: Seq<char>,
    sha256_hash: Seq<char>,
)
    requires
        !m.contains_key(address),
        fields_fit(title, ipfs_hash, sha256_hash),
        funds >= rent,
    ensures
        ({
            let (r, m2) = initialize_step(
                m,
                Some(address),
                signer,
                signer,
                funds,
                rent,
                title,
                ipfs_hash,
                sha256_hash,
            );
            &&& r == Ok::<u64, BlogError>(rent)
            &&& read_step(m2, Some(address)) == Ok::<BlogRecord, BlogError>(
                BlogRecord { owner: signer, title, ipfs_hash, sha256_hash },
            )
        }),
{
}

/// Overwriting an existing record as its owner succeeds, and a read then
/// returns exactly the new fields with the owner unchanged.
pub proof fn law_update_then_read(
    m: StoreModel,
    address: Seq<u8>,
    title: Seq<char>,
    ipfs_hash: Seq<char>,
    sha256_hash: Seq<char>,
)
    requires
        m.contains_key(address),
        fields_fit(title, ipfs_hash, sha256_hash),
    ensures
        ({
            let owner = m[address].state.owner;
            let (r, m2) = update_step(m, Some(address), owner, title, ipfs_hash, sha256_hash);
            &&& r == Ok::<(), BlogError>(())
            &&& read_step(m2, Some(address)) == Ok::<BlogRecord, BlogError>(
                BlogRecord { owner, title, ipfs_hash, sha256_hash },
            )
        }),
{
}

/// Closing a record as its owner frees the address: a read then finds no
/// record, and creating one again at the same address succeeds with only the
/// newly supplied fields.
pub proof fn law_delete_then_reinitialize(
    m: StoreModel,
    address: Seq<u8>,
    funds: u64,
    rent: u64,
    title: Seq<char>,
    ipfs_hash: Seq<char>,
    sha256_hash: Seq<char>,
)
    requires
        m.contains_key(address),
        fields_fit(title, ipfs_hash, sha256_hash),
        funds >= rent,
    ensures
        ({
            let owner = m[address].state.owner;
            let (r, m2) = delete_step(m, Some(address), owner);
            let (r3, m3) = initialize_step(
                m2,
                Some(address),
                owner,
                owner,
                funds,
                rent,
                title,
                ipfs_hash,
                sha256_hash,
            );
            &&& r == Ok::<u64, BlogError>(m[address].lamports)
            &&& read_step(m2, Some(address)) == Err::<BlogRecord, BlogError>(
                BlogError::SlotNotFound,
            )
            &&& r3 == Ok::<u64, BlogError>(rent)
            &&& read_step(m3, Some(address)) == Ok::<BlogRecord, BlogError>(
                fresh_record(owner, title, ipfs_hash, sha256_hash),
            )
        }),
{
}

/// After a record has been created, creating one again at the same address
/// without closing it fails with `SlotAlreadyExists` and changes nothing.
pub proof fn law_initialize_twice(
    m: StoreModel,
    address: Seq<u8>,
    signer: Seq<u8>,
    funds: u64,
    rent: u64,
    title: Seq<char>,
    ipfs_hash: Seq<char>,
    sha256_hash: Seq<char>,
    funds2: u64,
    title2: Seq<char>,
    ipfs_hash2: Seq<char>,
    sha256_hash2: Seq<char>,
)
    ensures
        ({
            let (r, m2) = initialize_step(
                m,
                Some(address),
                signer,
                signer,
                funds,
                rent,
                title,
                ipfs_hash,
                sha256_hash,
            );
            r is Ok ==> initialize_step(
                m2,
                Some(address),
                signer,
                signer,
                funds2,
                rent,
                title2,
                ipfs_hash2,
                sha256_hash2,
            ) == (Err::<u64, BlogError>(BlogError::SlotAlreadyExists), m2)
        }),
{
}

/// Any operation signed by someone other than the record's owner fails with
/// `Unauthorized` and leaves the store unchanged.
pub proof fn law_only_owner_mutates(
    m: StoreModel,
    address: Seq<u8>,
    signer: Seq<u8>,
    owner: Seq<u8>,
    funds: u64,
    rent: u64,
    title: Seq<char>,
    ipfs_hash: Seq<char>,
    sha256_hash: Seq<char>,
)
    requires
        signer != owner,
    ensures
        initialize_step(
            m,
            Some(address),
            signer,
            owner,
            funds,
            rent,
            title,
            ipfs_hash,
            sha256_hash,
        ) == (Err::<u64, BlogError>(BlogError::Unauthorized), m),
        m.contains_key(address) && m[address].state.owner == owner ==> update_step(
            m,
            Some(address),
            signer,
            title,
            ipfs_hash,
            sha256_hash,
        ) == (Err::<(), BlogError>(BlogError::Unauthorized), m),
        m.contains_key(address) && m[address].state.owner == owner ==> delete_step(
            m,
            Some(address),
            signer,
        ) == (Err::<u64, BlogError>(BlogError::Unauthorized), m),
{
}

} // verus!
