use crate::record::{byte_len, lemma_record_fits_slot, BlogRecord, BlogState, RECORD_SPACE};
use vstd::prelude::*;
use vstd::utf8::encode_utf8;

verus! {

/// The type tag of a record: the first eight bytes of the SHA-256 digest of
/// `account:BlogState`.
pub open spec fn discriminator() -> Seq<u8> {
    seq![244u8, 86u8, 195u8, 29u8, 196u8, 144u8, 214u8, 46u8]
}

/// A number below 2^32 as four little-endian bytes.
pub open spec fn le32(n: nat) -> Seq<u8> {
    seq![
        (n % 256) as u8,
        ((n / 256) % 256) as u8,
        ((n / 65536) % 256) as u8,
        ((n / 16777216) % 256) as u8,
    ]
}

/// A string as stored: its byte length, then its UTF-8 bytes.
pub open spec fn string_field(s: Seq<char>) -> Seq<u8> {
    le32(byte_len(s)) + encode_utf8(s)
}

/// A record as stored: type tag, owner, title, content hash, integrity hash.
pub open spec fn encoded(r: BlogRecord) -> Seq<u8> {
    discriminator() + r.owner + string_field(r.title) + string_field(r.ipfs_hash) + string_field(
        r.sha256_hash,
    )
}

/// The full contents of a record's slot: the encoded record, then zeros up
/// to the allocated space.
pub open spec fn slot_image(r: BlogRecord) -> Seq<u8> {
    encoded(r) + Seq::new((RECORD_SPACE - encoded(r).len()) as nat, |i: int| 0u8)
}

fn push_discriminator(out: &mut Vec<u8>)
    ensures
        final(out)@ == old(out)@ + discriminator(),
{
    out.push(244);
    out.push(86);
    out.push(195);
    out.push(29);
    out.push(196);
    out.push(144);
    out.push(214);
    out.push(46);
    assert(final(out)@ =~= old(out)@ + discriminator());
}

fn push_bytes(out: &mut Vec<u8>, bytes: &[u8])
    ensures
        final(out)@ == old(out)@ + bytes@,
{
    let mut i: usize = 0;
    while i < bytes.len()
        invariant
            0 <= i <= bytes@.len(),
            out@ == old(out)@ + bytes@.subrange(0, i as int),
        decreases bytes@.len() - i,
    {
        out.push(bytes[i]);
        i = i + 1;
        assert(out@ =~= old(out)@ + bytes@.subrange(0, i as int));
    }
    assert(bytes@.subrange(0, i as int) =~= bytes@);
}

fn push_string(out: &mut Vec<u8>, s: &String)
    requires
        byte_len(s@) < 4294967296,
    ensures
        final(out)@ == old(out)@ + string_field(s@),
{
    let bytes = s.as_str().as_bytes();
    let n = bytes.len();
    out.push((n % 256) as u8);
    out.push(((n / 256) % 256) as u8);
    out.push(((n / 65536) % 256) as u8);
    out.push(((n / 16777216) % 256) as u8);
    let ghost mid = out@;
    assert(mid =~= old(out)@ + le32(byte_len(s@)));
    push_bytes(out, bytes);
    assert(final(out)@ =~= old(out)@ + string_field(s@));
}

impl BlogState {
    /// The bytes of the record's slot: the encoded record padded with zeros to
    /// the allocated space.
    pub fn serialize(&self) -> (r: Vec<u8>)
        requires
            self@.wf(),
        ensures
            r@ == slot_image(self@),
            r@.len() == RECORD_SPACE,
            encoded(self@).len() == self@.serialized_size(),
    {
        proof {
            lemma_record_fits_slot(self@);
        }
        let mut out: Vec<u8> = Vec::new();
        push_discriminator(&mut out);
        push_bytes(&mut out, self.owner.as_slice());
        push_string(&mut out, &self.title);
        push_string(&mut out, &self.ipfs_hash);
        push_string(&mut out, &self.sha256_hash);
        assert(out@ =~= encoded(self@));
        let used = out.len();
        let mut k: usize = used;
        while k < RECORD_SPACE
            invariant
                used == encoded(self@).len(),
                used <= k <= RECORD_SPACE,
                out@ == encoded(self@) + Seq::new((k - used) as nat, |i: int| 0u8),
            decreases RECORD_SPACE - k,
        {
            out.push(0);
            k = k + 1;
            assert(out@ =~= encoded(self@) + Seq::new((k - used) as nat, |i: int| 0u8));
        }
        assert(out@ =~= slot_image(self@));
        out
    }
}

} // verus!
