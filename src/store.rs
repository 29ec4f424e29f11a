use crate::record::{
    check_fields, fields_fit, lemma_record_fits_slot, same_identity, BlogRecord, BlogState,
    RECORD_SPACE,
};
use vstd::prelude::*;

verus! {

/// Why an operation on the store was refused.
#[derive(Debug, Clone, Copy, PartialEq, Eq, Structural)]
pub enum BlogError {
    /// The signer is not the record's owner.
    Unauthorized,
    /// A record already occupies the derived address.
    SlotAlreadyExists,
    /// No record occupies the derived address.
    SlotNotFound,
    /// A text field is longer than its bound.
    FieldTooLong,
    /// The payer cannot fund the slot's storage.
    InsufficientFunds,
    /// No address can be derived from the key and owner.
    InvalidSeeds,
}

/// What an occupied slot holds: the record and the funding that backs it.
pub struct SlotModel {
    pub state: BlogRecord,
    pub lamports: u64,
}

/// The store as values: occupied slots by address.
pub type StoreModel = Map<Seq<u8>, SlotModel>;

/// The record that a fresh slot holds.
pub open spec fn fresh_record(
    owner: Seq<u8>,
    title: Seq<char>,
    ipfs_hash: Seq<char>,
    sha256_hash: Seq<char>,
) -> BlogRecord {
    BlogRecord { owner, title, ipfs_hash, sha256_hash }
}

/// Outcome of creating a record at `address` and the store after it: the
/// signer must be the owner, the address free, the fields within bounds and
/// the funds enough for the rent, which the slot then holds.
pub open spec fn initialize_step(
    m: StoreModel,
    address: Option<Seq<u8>>,
    signer: Seq<u8>,
    owner: Seq<u8>,
    funds: u64,
    rent: u64,
    title: Seq<char>,
    ipfs_hash: Seq<char>,
    sha256_hash: Seq<char>,
) -> (Result<u64, BlogError>, StoreModel) {
    if signer != owner {
        (Err(BlogError::Unauthorized), m)
    } else if address is None {
        (Err(BlogError::InvalidSeeds), m)
    } else if m.contains_key(address->0) {
        (Err(BlogError::SlotAlreadyExists), m)
    } else if !fields_fit(title, ipfs_hash, sha256_hash) {
        (Err(BlogError::FieldTooLong), m)
    } else if funds < rent {
        (Err(BlogError::InsufficientFunds), m)
    } else {
        (
            Ok(rent),
            m.insert(
                address->0,
                SlotModel { state: fresh_record(owner, title, ipfs_hash, sha256_hash), lamports: rent },
            ),
        )
    }
}

/// Outcome of overwriting the text fields of the record at `address`: the
/// record must exist, the signer be its owner and the fields within bounds.
/// The owner and the funding stay as they were.
pub open spec fn update_step(
    m: StoreModel,
    address: Option<Seq<u8>>,
    signer: Seq<u8>,
    title: Seq<char>,
    ipfs_hash: Seq<char>,
    sha256_hash: Seq<char>,
) -> (Result<(), BlogError>, StoreModel) {
    if address is None {
        (Err(BlogError::InvalidSeeds), m)
    } else if !m.contains_key(address->0) {
        (Err(BlogError::SlotNotFound), m)
    } else if m[address->0].state.owner != signer {
        (Err(BlogError::Unauthorized), m)
    } else if !fields_fit(title, ipfs_hash, sha256_hash) {
        (Err(BlogError::FieldTooLong), m)
    } else {
        let old_slot = m[address->0];
        (
            Ok(()),
            m.insert(
                address->0,
                SlotModel {
                    state: fresh_record(old_slot.state.owner, title, ipfs_hash, sha256_hash),
                    lamports: old_slot.lamports,
                },
            ),
        )
    }
}

/// Outcome of closing the record at `address`: the record must exist and the
/// signer be its owner; the slot is freed and its funding refunded.
pub open spec fn delete_step(m: StoreModel, address: Option<Seq<u8>>, signer: Seq<u8>) -> (Result<
    u64,
    BlogError,
>, StoreModel) {
    if address is None {
        (Err(BlogError::InvalidSeeds), m)
    } else if !m.contains_key(address->0) {
        (Err(BlogError::SlotNotFound), m)
    } else if m[address->0].state.owner != signer {
        (Err(BlogError::Unauthorized), m)
    } else {
        (Ok(m[address->0].lamports), m.remove(address->0))
    }
}

/// Outcome of reading the record at `address`.
pub open spec fn read_step(m: StoreModel, address: Option<Seq<u8>>) -> Result<BlogRecord, BlogError> {
    if address is None {
        Err(BlogError::InvalidSeeds)
    } else if !m.contains_key(address->0) {
        Err(BlogError::SlotNotFound)
    } else {
        Ok(m[address->0].state)
    }
}

/// The address bytes of an optional derived address.
pub open spec fn address_view(address: Option<[u8; 32]>) -> Option<Seq<u8>> {
    match address {
        Some(a) => Some(a@),
        None => None,
    }
}

/// An occupied slot: its address, its record and the lamports that fund it.
pub struct BlogAccount {
    pub address: [u8; 32],
    pub state: BlogState,
    pub lamports: u64,
}

impl BlogAccount {
    pub open spec fn model(&self) -> SlotModel {
        SlotModel { state: self.state@, lamports: self.lamports }
    }
}

/// The occupied slots of one program.
pub struct BlogStore {
    program_id: [u8; 32],
    accounts: Vec<BlogAccount>,
    model: Ghost<StoreModel>,
}

impl View for BlogStore {
    type V = StoreModel;

    closed spec fn view(&self) -> StoreModel {
        self.model@
    }
}

impl BlogStore {
    /// The slots hold distinct addresses, the model is exactly what they hold,
    /// and every record is well formed.
    pub closed spec fn wf(&self) -> bool {
        &&& forall|i: int, j: int|
            0 <= i < j < self.accounts@.len() ==> #[trigger] self.accounts@[i].address@
                != #[trigger] self.accounts@[j].address@
        &&& forall|i: int|
            0 <= i < self.accounts@.len() ==> self.model@.contains_key(
                #[trigger] self.accounts@[i].address@,
            ) && self.model@[self.accounts@[i].address@] == self.accounts@[i].model()
        &&& forall|a: Seq<u8>|
            #[trigger] self.model@.contains_key(a) ==> exists|i: int|
                0 <= i < self.accounts@.len() && #[trigger] self.accounts@[i].address@ == a
        &&& forall|a: Seq<u8>| #[trigger] self.model@.contains_key(a) ==> self.model@[a].state.wf()
    }

    /// Key bytes of the program whose slots these are.
    pub closed spec fn program(&self) -> Seq<u8> {
        self.program_id@
    }

    /// Key of the program whose slots these are.
    pub fn program_id(&self) -> (r: [u8; 32])
        ensures
            r@ == self.program(),
    {
        self.program_id
    }

    /// Every record that the store holds is well formed, so it never
    /// outgrows the space allocated for its slot.
    pub proof fn lemma_records_fit_slots(&self, a: Seq<u8>)
        requires
            self.wf(),
            self@.contains_key(a),
        ensures
            self@[a].state.wf(),
            self@[a].state.serialized_size() <= RECORD_SPACE,
    {
        lemma_record_fits_slot(self@[a].state);
    }

    /// An empty store for the program with the given id.
    pub fn new(program_id: [u8; 32]) -> (r: BlogStore)
        ensures
            r.wf(),
            r@ == StoreModel::empty(),
            r.program() == program_id@,
    {
        BlogStore { program_id, accounts: Vec::new(), model: Ghost(Map::empty()) }
    }

    /// Number of occupied slots.
    pub fn len(&self) -> (r: usize)
        requires
            self.wf(),
        ensures
            r == self@.len(),
    {
        proof {
            self.lemma_len();
        }
        self.accounts.len()
    }

    proof fn lemma_len(&self)
        requires
            self.wf(),
        ensures
            self@.len() == self.accounts@.len(),
        decreases self.accounts@.len(),
    {
        let keys = Set::new(|i: int| 0 <= i < self.accounts@.len()).map(
            |i: int| self.accounts@[i].address@,
        );
        assert(self@.dom() =~= keys) by {
            assert forall|a: Seq<u8>| self@.contains_key(a) implies keys.contains(a) by {
                let i = choose|i: int|
                    0 <= i < self.accounts@.len() && #[trigger] self.accounts@[i].address@ == a;
                assert(Set::new(|i: int| 0 <= i < self.accounts@.len()).contains(i));
            }
        }
        let idx = Set::new(|i: int| 0 <= i < self.accounts@.len());
        vstd::set_lib::lemma_int_range(0, self.accounts@.len() as int);
        assert(idx =~= vstd::set_lib::set_int_range(0, self.accounts@.len() as int));
        vstd::set_lib::lemma_map_size(idx, keys, |i: int| self.accounts@[i].address@);
    }

    /// Outcome of creating a record at a derived `address` (`None` when no
    /// address could be derived), where `rent` is what the slot costs and
    /// `funds` what the payer holds.
    pub fn apply_initialize(
        &mut self,
        address: Option<[u8; 32]>,
        signer: &[u8; 32],
        owner: &[u8; 32],
        funds: u64,
        rent: u64,
        title: String,
        ipfs_hash: String,
        sha256_hash: String,
    ) -> (r: Result<u64, BlogError>)
        requires
            old(self).wf(),
        ensures
            final(self).wf(),
            final(self).program() == old(self).program(),
            (r, final(self)@) == initialize_step(
                old(self)@,
                address_view(address),
                signer@,
                owner@,
                funds,
                rent,
                title@,
                ipfs_hash@,
                sha256_hash@,
            ),
    {
        if !same_identity(signer, owner) {
            return Err(BlogError::Unauthorized);
        }
        let address = match address {
            Some(a) => a,
            None => {
                return Err(BlogError::InvalidSeeds);
            },
        };
        if self.position(&address).is_some() {
            return Err(BlogError::SlotAlreadyExists);
        }
        if !check_fields(&title, &ipfs_hash, &sha256_hash) {
            return Err(BlogError::FieldTooLong);
        }
        if funds < rent {
            return Err(BlogError::InsufficientFunds);
        }
        let account = BlogAccount {
            address,
            state: BlogState { owner: *owner, title, ipfs_hash, sha256_hash },
            lamports: rent,
        };
        let ghost slot = account.model();
        self.accounts.push(account);
        proof {
            self.model@ = self.model@.insert(address@, slot);
            assert(owner@.len() == 32);
            let n = self.accounts@.len() - 1;
            assert forall|a: Seq<u8>| #[trigger] self.model@.contains_key(a) implies exists|i: int|
                0 <= i < self.accounts@.len() && #[trigger] self.accounts@[i].address@ == a by {
                if a == address@ {
                    assert(self.accounts@[n].address@ == a);
                } else {
                    let i = choose|i: int|
                        0 <= i < old(self).accounts@.len() && #[trigger] old(
                            self,
                        ).accounts@[i].address@ == a;
                    assert(self.accounts@[i].address@ == a);
                }
            }
        }
        Ok(rent)
    }

    /// Outcome of overwriting the text fields of the record at a derived
    /// `address`.
    pub fn apply_update(
        &mut self,
        address: Option<[u8; 32]>,
        signer: &[u8; 32],
        title: String,
        ipfs_hash: String,
        sha256_hash: String,
    ) -> (r: Result<(), BlogError>)
        requires
            old(self).wf(),
        ensures
            final(self).wf(),
            final(self).program() == old(self).program(),
            (r, final(self)@) == update_step(
                old(self)@,
                address_view(address),
                signer@,
                title@,
                ipfs_hash@,
                sha256_hash@,
            ),
    {
        let address = match address {
            Some(a) => a,
            None => {
                return Err(BlogError::InvalidSeeds);
            },
        };
        let i = match self.position(&address) {
            Some(i) => i,
            None => {
                return Err(BlogError::SlotNotFound);
            },
        };
        let owner = self.accounts[i].state.owner;
        let lamports = self.accounts[i].lamports;
        if !same_identity(&owner, signer) {
            return Err(BlogError::Unauthorized);
        }
        if !check_fields(&title, &ipfs_hash, &sha256_hash) {
            return Err(BlogError::FieldTooLong);
        }
        let account = BlogAccount {
            address,
            state: BlogState { owner, title, ipfs_hash, sha256_hash },
            lamports,
        };
        let ghost slot = account.model();
        self.accounts.set(i, account);
        proof {
            self.model@ = self.model@.insert(address@, slot);
            assert forall|a: Seq<u8>| #[trigger] self.model@.contains_key(a) implies exists|k: int|
                0 <= k < self.accounts@.len() && #[trigger] self.accounts@[k].address@ == a by {
                let k = choose|k: int|
                    0 <= k < old(self).accounts@.len() && #[trigger] old(
                        self,
                    ).accounts@[k].address@ == a;
                assert(self.accounts@[k].address@ == a);
            }
            assert forall|j: int, k: int|
                0 <= j < k < self.accounts@.len() implies #[trigger] self.accounts@[j].address@
                != #[trigger] self.accounts@[k].address@ by {
                assert(old(self).accounts@[j].address@ == self.accounts@[j].address@);
                assert(old(self).accounts@[k].address@ == self.accounts@[k].address@);
            }
        }
        Ok(())
    }

    /// Outcome of closing the record at a derived `address`; on success the
    /// lamports that funded the slot are returned.
    pub fn apply_delete(&mut self, address: Option<[u8; 32]>, signer: &[u8; 32]) -> (r: Result<
        u64,
        BlogError,
    >)
        requires
            old(self).wf(),
        ensures
            final(self).wf(),
            final(self).program() == old(self).program(),
            (r, final(self)@) == delete_step(old(self)@, address_view(address), signer@),
    {
        let address = match address {
            Some(a) => a,
            None => {
                return Err(BlogError::InvalidSeeds);
            },
        };
        let i = match self.position(&address) {
            Some(i) => i,
            None => {
                return Err(BlogError::SlotNotFound);
            },
        };
        if !same_identity(&self.accounts[i].state.owner, signer) {
            return Err(BlogError::Unauthorized);
        }
        let closed = self.accounts.remove(i);
        proof {
            let old_accounts = old(self).accounts@;
            self.model@ = self.model@.remove(address@);
            assert forall|j: int|
                0 <= j < self.accounts@.len() implies #[trigger] self.accounts@[j]
                == old_accounts[if j < i { j } else { j + 1 }] by {}
            assert forall|j: int, k: int|
                0 <= j < k < self.accounts@.len() implies #[trigger] self.accounts@[j].address@
                != #[trigger] self.accounts@[k].address@ by {
                let oj = if j < i { j } else { j + 1 };
                let ok = if k < i { k } else { k + 1 };
                assert(self.accounts@[j] == old_accounts[oj]);
                assert(self.accounts@[k] == old_accounts[ok]);
                assert(old_accounts[oj].address@ != old_accounts[ok].address@);
            }
            assert forall|j: int| 0 <= j < self.accounts@.len() implies self.model@.contains_key(
                #[trigger] self.accounts@[j].address@,
            ) && self.model@[self.accounts@[j].address@] == self.accounts@[j].model() by {
                let oj = if j < i { j } else { j + 1 };
                assert(self.accounts@[j] == old_accounts[oj]);
                assert(old_accounts[oj].address@ != old_accounts[i as int].address@);
            }
            assert forall|a: Seq<u8>| #[trigger] self.model@.contains_key(a) implies exists|k: int|
                0 <= k < self.accounts@.len() && #[trigger] self.accounts@[k].address@ == a by {
                let k = choose|k: int|
                    0 <= k < old_accounts.len() && #[trigger] old_accounts[k].address@ == a;
                let nk = if k < i { k } else { k - 1 };
                assert(self.accounts@[nk] == old_accounts[k]);
            }
        }
        Ok(closed.lamports)
    }

    /// The record at a derived `address`.
    pub fn read(&self, address: Option<[u8; 32]>) -> (r: Result<BlogState, BlogError>)
        requires
            self.wf(),
        ensures
            read_step(self@, address_view(address)) == match r {
                Ok(s) => Ok(s@),
                Err(e) => Err(e),
            },
    {
        let address = match address {
            Some(a) => a,
            None => {
                return Err(BlogError::InvalidSeeds);
            },
        };
        match self.position(&address) {
            Some(i) => Ok(self.accounts[i].state.duplicate()),
            None => Err(BlogError::SlotNotFound),
        }
    }

    /// Index of the slot at `address`, if one is occupied.
    fn position(&self, address: &[u8; 32]) -> (r: Option<usize>)
        requires
            self.wf(),
        ensures
            r matches Some(i) ==> i < self.accounts@.len() && self.accounts@[i as int].address@
                == address@,
            r is None <==> !self@.contains_key(address@),
    {
        let mut i: usize = 0;
        while i < self.accounts.len()
            invariant
                self.wf(),
                0 <= i <= self.accounts@.len(),
                forall|k: int| 0 <= k < i ==> self.accounts@[k].address@ != address@,
            decreases self.accounts@.len() - i,
        {
            if same_identity(&self.accounts[i].address, address) {
                return Some(i);
            }
            i = i + 1;
        }
        None
    }
}

} // verus!
