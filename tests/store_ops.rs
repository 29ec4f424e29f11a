use anchor_lang::prelude::Pubkey;
use blogs::blogs::{delete_blog, initialize_blog, read_blog, update_blog, DeleteBlog, InitializeBlog, UpdateBlog};
use blogs::record::{check_fields, BlogState, RECORD_SPACE};
use blogs::store::{BlogError, BlogStore};

const RENT: u64 = 2_366_400;

fn program() -> [u8; 32] {
    [9u8; 32]
}

fn alice() -> [u8; 32] {
    [1u8; 32]
}

fn bob() -> [u8; 32] {
    [2u8; 32]
}

fn init_ctx(owner: [u8; 32], signer: [u8; 32]) -> InitializeBlog {
    InitializeBlog { owner, signer, payer_lamports: 10_000_000 }
}

fn create(store: &mut BlogStore, owner: [u8; 32], key: &str, title: &str) -> Result<u64, BlogError> {
    initialize_blog(
        store,
        &init_ctx(owner, owner),
        key.to_string(),
        title.to_string(),
        "QmContent".to_string(),
        "abc123".to_string(),
    )
}

#[test]
fn initialize_then_read_returns_fields() {
    let mut store = BlogStore::new(program());
    assert_eq!(create(&mut store, alice(), "post-1", "Hello"), Ok(RENT));
    let state = read_blog(&store, &alice(), "post-1").unwrap();
    assert_eq!(state.owner, alice());
    assert_eq!(state.title, "Hello");
    assert_eq!(state.ipfs_hash, "QmContent");
    assert_eq!(state.sha256_hash, "abc123");
    assert_eq!(store.len(), 1);
}

#[test]
fn update_then_read_returns_new_fields() {
    let mut store = BlogStore::new(program());
    create(&mut store, alice(), "post-1", "Hello").unwrap();
    let ctx = UpdateBlog { owner: alice(), signer: alice() };
    let r = update_blog(&mut store, &ctx, "post-1".to_string(), "New".to_string(), "QmNew".to_string(), "def456".to_string());
    assert_eq!(r, Ok(()));
    let state = read_blog(&store, &alice(), "post-1").unwrap();
    assert_eq!(state.owner, alice());
    assert_eq!(state.title, "New");
    assert_eq!(state.ipfs_hash, "QmNew");
    assert_eq!(state.sha256_hash, "def456");
}

#[test]
fn update_missing_record_is_not_found() {
    let mut store = BlogStore::new(program());
    let ctx = UpdateBlog { owner: alice(), signer: alice() };
    let r = update_blog(&mut store, &ctx, "none".to_string(), "t".to_string(), "h".to_string(), "s".to_string());
    assert_eq!(r, Err(BlogError::SlotNotFound));
}

#[test]
fn delete_then_read_fails_and_reinitialize_is_fresh() {
    let mut store = BlogStore::new(program());
    create(&mut store, alice(), "post-1", "Old title").unwrap();
    let ctx = DeleteBlog { owner: alice(), signer: alice() };
    assert_eq!(delete_blog(&mut store, &ctx, "post-1".to_string()), Ok(RENT));
    assert_eq!(read_blog(&store, &alice(), "post-1").err(), Some(BlogError::SlotNotFound));
    assert_eq!(store.len(), 0);
    let r = initialize_blog(&mut store, &init_ctx(alice(), alice()), "post-1".to_string(), "T".to_string(), String::new(), String::new());
    assert_eq!(r, Ok(RENT));
    let state = read_blog(&store, &alice(), "post-1").unwrap();
    assert_eq!(state.title, "T");
    assert_eq!(state.ipfs_hash, "");
    assert_eq!(state.sha256_hash, "");
}

#[test]
fn delete_missing_record_is_not_found() {
    let mut store = BlogStore::new(program());
    let ctx = DeleteBlog { owner: alice(), signer: alice() };
    assert_eq!(delete_blog(&mut store, &ctx, "post-1".to_string()), Err(BlogError::SlotNotFound));
}

#[test]
fn initialize_twice_fails_with_slot_already_exists() {
    let mut store = BlogStore::new(program());
    create(&mut store, alice(), "post-1", "First").unwrap();
    assert_eq!(create(&mut store, alice(), "post-1", "Second"), Err(BlogError::SlotAlreadyExists));
    assert_eq!(read_blog(&store, &alice(), "post-1").unwrap().title, "First");
}

#[test]
fn same_key_for_two_owners_does_not_collide() {
    let mut store = BlogStore::new(program());
    create(&mut store, alice(), "post-1", "A").unwrap();
    create(&mut store, bob(), "post-1", "B").unwrap();
    assert_eq!(read_blog(&store, &alice(), "post-1").unwrap().title, "A");
    assert_eq!(read_blog(&store, &bob(), "post-1").unwrap().title, "B");
    assert_eq!(store.len(), 2);
}

#[test]
fn initialize_with_other_signer_is_unauthorized() {
    let mut store = BlogStore::new(program());
    let r = initialize_blog(&mut store, &init_ctx(alice(), bob()), "post-1".to_string(), "T".to_string(), "h".to_string(), "s".to_string());
    assert_eq!(r, Err(BlogError::Unauthorized));
    assert_eq!(store.len(), 0);
}

#[test]
fn update_and_delete_with_other_signer_are_unauthorized() {
    let mut store = BlogStore::new(program());
    create(&mut store, alice(), "post-1", "Hello").unwrap();
    let up = UpdateBlog { owner: alice(), signer: bob() };
    let r = update_blog(&mut store, &up, "post-1".to_string(), "Hacked".to_string(), "h".to_string(), "s".to_string());
    assert_eq!(r, Err(BlogError::Unauthorized));
    let del = DeleteBlog { owner: alice(), signer: bob() };
    assert_eq!(delete_blog(&mut store, &del, "post-1".to_string()), Err(BlogError::Unauthorized));
    let state = read_blog(&store, &alice(), "post-1").unwrap();
    assert_eq!(state.title, "Hello");
    assert_eq!(state.ipfs_hash, "QmContent");
    assert_eq!(store.len(), 1);
}

#[test]
fn title_bound_is_32_bytes() {
    let mut store = BlogStore::new(program());
    assert_eq!(create(&mut store, alice(), "a", &"t".repeat(32)), Ok(RENT));
    assert_eq!(create(&mut store, alice(), "b", &"t".repeat(33)), Err(BlogError::FieldTooLong));
    assert_eq!(store.len(), 1);
}

#[test]
fn title_bound_counts_utf8_bytes() {
    let mut store = BlogStore::new(program());
    let eleven_wide = "\u{20ac}".repeat(11);
    assert_eq!(create(&mut store, alice(), "a", &eleven_wide), Err(BlogError::FieldTooLong));
    let ten_wide = "\u{20ac}".repeat(10);
    assert_eq!(create(&mut store, alice(), "a", &ten_wide), Ok(RENT));
}

#[test]
fn hash_bounds_are_64_bytes() {
    let mut store = BlogStore::new(program());
    let ok = "h".repeat(64);
    let long = "h".repeat(65);
    let ctx = init_ctx(alice(), alice());
    let r = initialize_blog(&mut store, &ctx, "a".to_string(), "T".to_string(), ok.clone(), ok.clone());
    assert_eq!(r, Ok(RENT));
    let r = initialize_blog(&mut store, &ctx, "b".to_string(), "T".to_string(), long.clone(), ok.clone());
    assert_eq!(r, Err(BlogError::FieldTooLong));
    let r = initialize_blog(&mut store, &ctx, "c".to_string(), "T".to_string(), ok.clone(), long.clone());
    assert_eq!(r, Err(BlogError::FieldTooLong));
    let up = UpdateBlog { owner: alice(), signer: alice() };
    let r = update_blog(&mut store, &up, "a".to_string(), "T".to_string(), long.clone(), ok.clone());
    assert_eq!(r, Err(BlogError::FieldTooLong));
    let r = update_blog(&mut store, &up, "a".to_string(), "T".to_string(), ok.clone(), long);
    assert_eq!(r, Err(BlogError::FieldTooLong));
    assert!(check_fields(&"t".repeat(32), &ok, &ok));
    assert!(!check_fields(&"t".repeat(33), &ok, &ok));
}

#[test]
fn insufficient_funds_is_refused() {
    let mut store = BlogStore::new(program());
    let poor = InitializeBlog { owner: alice(), signer: alice(), payer_lamports: RENT - 1 };
    let r = initialize_blog(&mut store, &poor, "a".to_string(), "T".to_string(), "h".to_string(), "s".to_string());
    assert_eq!(r, Err(BlogError::InsufficientFunds));
    let exact = InitializeBlog { owner: alice(), signer: alice(), payer_lamports: RENT };
    let r = initialize_blog(&mut store, &exact, "a".to_string(), "T".to_string(), "h".to_string(), "s".to_string());
    assert_eq!(r, Ok(RENT));
}

#[test]
fn key_longer_than_a_seed_has_no_address() {
    let mut store = BlogStore::new(program());
    let key = "k".repeat(33);
    assert_eq!(create(&mut store, alice(), &key, "T"), Err(BlogError::InvalidSeeds));
    assert_eq!(create(&mut store, alice(), &"k".repeat(32), "T"), Ok(RENT));
}

#[test]
fn scenario_post_lifecycle() {
    let mut store = BlogStore::new(program());
    let a = alice();
    let r = initialize_blog(&mut store, &init_ctx(a, a), "post-1".to_string(), "Hello".to_string(), "Qm123".to_string(), "abc123".to_string());
    assert_eq!(r, Ok(RENT));
    let state = read_blog(&store, &a, "post-1").unwrap();
    assert_eq!(state.owner, a);
    assert_eq!(state.title, "Hello");
    let up = UpdateBlog { owner: a, signer: a };
    let r = update_blog(&mut store, &up, "post-1".to_string(), "Hello v2".to_string(), "Qm123".to_string(), "abc123".to_string());
    assert_eq!(r, Ok(()));
    let state = read_blog(&store, &a, "post-1").unwrap();
    assert_eq!(state.title, "Hello v2");
    assert_eq!(state.ipfs_hash, "Qm123");
    assert_eq!(state.sha256_hash, "abc123");
    let del = DeleteBlog { owner: a, signer: a };
    assert_eq!(delete_blog(&mut store, &del, "post-1".to_string()), Ok(RENT));
    assert_eq!(store.len(), 0);
}

#[test]
fn store_slots_sit_at_the_program_address() {
    let mut store = BlogStore::new(program());
    create(&mut store, alice(), "post-1", "Hello").unwrap();
    let (expected, _) = Pubkey::find_program_address(&[b"post-1", &alice()], &Pubkey::new_from_array(program()));
    assert_eq!(store.read(Some(expected.to_bytes())).unwrap().title, "Hello");
    assert_eq!(store.read(Some([0u8; 32])).err(), Some(BlogError::SlotNotFound));
    assert_eq!(store.read(None).err(), Some(BlogError::InvalidSeeds));
    assert_eq!(store.program_id(), program());
}

#[test]
fn apply_steps_on_given_addresses() {
    let mut store = BlogStore::new(program());
    let addr = Some([5u8; 32]);
    let r = store.apply_initialize(addr, &alice(), &alice(), 100, 60, "T".to_string(), "h".to_string(), "s".to_string());
    assert_eq!(r, Ok(60));
    let r = store.apply_initialize(addr, &alice(), &alice(), 100, 60, "T".to_string(), "h".to_string(), "s".to_string());
    assert_eq!(r, Err(BlogError::SlotAlreadyExists));
    let r = store.apply_initialize(Some([6u8; 32]), &alice(), &alice(), 59, 60, "T".to_string(), "h".to_string(), "s".to_string());
    assert_eq!(r, Err(BlogError::InsufficientFunds));
    let r = store.apply_initialize(None, &alice(), &alice(), 100, 60, "T".to_string(), "h".to_string(), "s".to_string());
    assert_eq!(r, Err(BlogError::InvalidSeeds));
    assert_eq!(store.apply_update(addr, &bob(), "X".to_string(), String::new(), String::new()), Err(BlogError::Unauthorized));
    assert_eq!(store.apply_update(addr, &alice(), "X".to_string(), String::new(), String::new()), Ok(()));
    assert_eq!(store.read(addr).unwrap().title, "X");
    assert_eq!(store.apply_delete(addr, &bob()), Err(BlogError::Unauthorized));
    assert_eq!(store.apply_delete(addr, &alice()), Ok(60));
    assert_eq!(store.apply_delete(addr, &alice()), Err(BlogError::SlotNotFound));
}

#[test]
fn serialize_lays_out_tag_owner_and_prefixed_strings() {
    let state = BlogState { owner: alice(), title: "Hi".to_string(), ipfs_hash: "Qm".to_string(), sha256_hash: "ab".to_string() };
    let bytes = state.serialize();
    assert_eq!(bytes.len(), RECORD_SPACE);
    assert_eq!(RECORD_SPACE, 212);
    assert_eq!(&bytes[..8], &[244, 86, 195, 29, 196, 144, 214, 46]);
    assert_eq!(&bytes[8..40], &alice());
    assert_eq!(&bytes[40..46], &[2, 0, 0, 0, b'H', b'i']);
    assert_eq!(&bytes[46..52], &[2, 0, 0, 0, b'Q', b'm']);
    assert_eq!(&bytes[52..58], &[2, 0, 0, 0, b'a', b'b']);
    assert!(bytes[58..].iter().all(|b| *b == 0));
    let copy = state.duplicate();
    assert_eq!(copy.serialize(), bytes);
}
