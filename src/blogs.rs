use crate::host::{derive_address, program_address_of, rent_exempt_minimum};
use crate::record::{BlogState, RECORD_SPACE};
use crate::store::{
    delete_step, initialize_step, read_step, update_step, BlogError, BlogStore,
};
use vstd::prelude::*;

verus! {

/// Lamports that fund one slot: the rent exemption for its allocated space.
pub open spec fn slot_rent() -> u64 {
    ((128 + RECORD_SPACE) * 6960) as u64
}

/// Who takes part in creating a record: the owner whose key seeds the
/// address, the identity that signed, and the lamports the payer holds.
pub struct InitializeBlog {
    pub owner: [u8; 32],
    pub signer: [u8; 32],
    pub payer_lamports: u64,
}

/// Who takes part in overwriting a record.
pub struct UpdateBlog {
    pub owner: [u8; 32],
    pub signer: [u8; 32],
}

/// Who takes part in closing a record.
pub struct DeleteBlog {
    pub owner: [u8; 32],
    pub signer: [u8; 32],
}

/// Creates the record for `blog_id` and the context's owner; on success the
/// rent charged to the payer is returned.
pub fn initialize_blog(
    store: &mut BlogStore,
    ctx: &InitializeBlog,
    blog_id: String,
    title: String,
    ipfs_hash: String,
    sha256_hash: String,
) -> (r: Result<u64, BlogError>)
    requires
        old(store).wf(),
    ensures
        final(store).wf(),
        final(store).program() == old(store).program(),
        (r, final(store)@) == initialize_step(
            old(store)@,
            program_address_of(blog_id@, ctx.owner@, old(store).program()),
            ctx.signer@,
            ctx.owner@,
            ctx.payer_lamports,
            slot_rent(),
            title@,
            ipfs_hash@,
            sha256_hash@,
        ),
{
    let program_id = store.program_id();
    let address = derive_address(blog_id.as_str(), &ctx.owner, &program_id);
    let rent = rent_exempt_minimum(RECORD_SPACE);
    store.apply_initialize(
        address,
        &ctx.signer,
        &ctx.owner,
        ctx.payer_lamports,
        rent,
        title,
        ipfs_hash,
        sha256_hash,
    )
}

/// Overwrites the three text fields of the record for `blog_id` and the
/// context's owner; every field is replaced by the one supplied.
pub fn update_blog(
    store: &mut BlogStore,
    ctx: &UpdateBlog,
    blog_id: String,
    title: String,
    ipfs_hash: String,
    sha256_hash: String,
) -> (r: Result<(), BlogError>)
    requires
        old(store).wf(),
    ensures
        final(store).wf(),
        final(store).program() == old(store).program(),
        (r, final(store)@) == update_step(
            old(store)@,
            program_address_of(blog_id@, ctx.owner@, old(store).program()),
            ctx.signer@,
            title@,
            ipfs_hash@,
            sha256_hash@,
        ),
{
    let program_id = store.program_id();
    let address = derive_address(blog_id.as_str(), &ctx.owner, &program_id);
    store.apply_update(address, &ctx.signer, title, ipfs_hash, sha256_hash)
}

/// Closes the record for `blog_id` and the context's owner; on success the
/// lamports that funded its slot are returned to the owner.
pub fn delete_blog(store: &mut BlogStore, ctx: &DeleteBlog, blog_id: String) -> (r: Result<
    u64,
    BlogError,
>)
    requires
        old(store).wf(),
    ensures
        final(store).wf(),
        final(store).program() == old(store).program(),
        (r, final(store)@) == delete_step(
            old(store)@,
            program_address_of(blog_id@, ctx.owner@, old(store).program()),
            ctx.signer@,
        ),
{
    let program_id = store.program_id();
    let address = derive_address(blog_id.as_str(), &ctx.owner, &program_id);
    store.apply_delete(address, &ctx.signer)
}

/// Reads the record for `blog_id` and `owner`; anyone may read.
pub fn read_blog(store: &BlogStore, owner: &[u8; 32], blog_id: &str) -> (r: Result<
    BlogState,
    BlogError,
>)
    requires
        store.wf(),
    ensures
        read_step(store@, program_address_of(blog_id@, owner@, store.program())) == match r {
            Ok(s) => Ok(s@),
            Err(e) => Err(e),
        },
{
    let program_id = store.program_id();
    let address = derive_address(blog_id, owner, &program_id);
    store.read(address)
}

} // verus!
