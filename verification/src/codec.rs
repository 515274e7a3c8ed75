use vstd::prelude::*;

use vstd::bytes::{
    lemma_auto_spec_u32_to_from_le_bytes, lemma_auto_spec_u64_to_from_le_bytes,
    spec_u32_from_le_bytes, spec_u32_to_le_bytes, spec_u64_from_le_bytes, spec_u64_to_le_bytes,
    u32_from_le_bytes, u32_to_le_bytes, u64_from_le_bytes, u64_to_le_bytes,
};
use vstd::slice::{slice_subrange, slice_to_vec};

use crate::error::CampaignError;
use crate::keys::Pubkey;

verus! {

/// A campaign record as persisted in a campaign account's data region.
///
/// The text fields are free-form bytes; this design imposes no length or
/// content restriction on them beyond what the 32-bit length prefixes of
/// the encoding can carry.
#[derive(Debug)]
pub struct CampaignDetails {
    pub admin: Pubkey,
    pub name: Vec<u8>,
    pub description: Vec<u8>,
    pub image_link: Vec<u8>,
    /// Cumulative value received by the campaign, in the ledger's base unit.
    pub amount_donated: u64,
}

/// Mathematical view of a campaign record.
#[verifier::ext_equal]
pub ghost struct CampaignModel {
    pub admin: Pubkey,
    pub name: Seq<u8>,
    pub description: Seq<u8>,
    pub image_link: Seq<u8>,
    pub amount_donated: u64,
}

impl View for CampaignDetails {
    type V = CampaignModel;

    open spec fn view(&self) -> CampaignModel {
        CampaignModel {
            admin: self.admin,
            name: self.name@,
            description: self.description@,
            image_link: self.image_link@,
            amount_donated: self.amount_donated,
        }
    }
}

impl CampaignModel {
    /// Each text field fits its 32-bit length prefix, so the record is
    /// encodable.
    pub open spec fn wf(self) -> bool {
        &&& self.name.len() <= u32::MAX
        &&& self.description.len() <= u32::MAX
        &&& self.image_link.len() <= u32::MAX
    }
}

impl CampaignDetails {
    pub open spec fn wf(&self) -> bool {
        self@.wf()
    }
}

/// A withdrawal request, carried only in the instruction payload.
#[derive(Debug, Clone, Copy, PartialEq, Eq, Structural)]
pub struct WithdrawalRequest {
    pub amount: u64,
}

/// An address encodes as its 32 bytes: the four words in order, each
/// little-endian.
pub open spec fn spec_encode_pubkey(k: Pubkey) -> Seq<u8> {
    spec_u64_to_le_bytes(k.w0) + spec_u64_to_le_bytes(k.w1) + spec_u64_to_le_bytes(k.w2)
        + spec_u64_to_le_bytes(k.w3)
}

pub open spec fn spec_decode_pubkey(d: Seq<u8>) -> Pubkey
    recommends
        d.len() == 32,
{
    Pubkey {
        w0: spec_u64_from_le_bytes(d.subrange(0, 8)),
        w1: spec_u64_from_le_bytes(d.subrange(8, 16)),
        w2: spec_u64_from_le_bytes(d.subrange(16, 24)),
        w3: spec_u64_from_le_bytes(d.subrange(24, 32)),
    }
}

/// A campaign record encodes as the admin address, then each text field
/// prefixed by its little-endian 32-bit length, then the 64-bit
/// little-endian donation counter. Field order is fixed and there is no
/// padding, so the encoding of a record is unique.
pub open spec fn spec_encode_campaign(m: CampaignModel) -> Seq<u8> {
    spec_encode_pubkey(m.admin) + spec_u32_to_le_bytes(m.name.len() as u32) + m.name
        + spec_u32_to_le_bytes(m.description.len() as u32) + m.description
        + spec_u32_to_le_bytes(m.image_link.len() as u32) + m.image_link
        + spec_u64_to_le_bytes(m.amount_donated)
}

/// Total encoded size of a record: 32 address bytes, three 4-byte length
/// prefixes, the text bytes themselves, and the 8-byte counter.
pub open spec fn spec_encoded_len(m: CampaignModel) -> int {
    52 + m.name.len() as int + m.description.len() as int + m.image_link.len() as int
}

/// Decoding succeeds exactly on byte sequences that are the encoding of a
/// well-formed record, and consumes the whole sequence: a truncated field
/// or trailing bytes make it fail.
pub open spec fn spec_decode_campaign(d: Seq<u8>) -> Option<CampaignModel> {
    if d.len() < 36 {
        None
    } else {
        let admin = spec_decode_pubkey(d.subrange(0, 32));
        let nlen = spec_u32_from_le_bytes(d.subrange(32, 36)) as int;
        if d.len() < 40 + nlen {
            None
        } else {
            let name = d.subrange(36, 36 + nlen);
            let o2 = 36 + nlen;
            let dlen = spec_u32_from_le_bytes(d.subrange(o2, o2 + 4)) as int;
            if d.len() < o2 + 8 + dlen {
                None
            } else {
                let description = d.subrange(o2 + 4, o2 + 4 + dlen);
                let o3 = o2 + 4 + dlen;
                let ilen = spec_u32_from_le_bytes(d.subrange(o3, o3 + 4)) as int;
                if d.len() != o3 + 12 + ilen {
                    None
                } else {
                    let image_link = d.subrange(o3 + 4, o3 + 4 + ilen);
                    let amount_donated = spec_u64_from_le_bytes(
                        d.subrange(o3 + 4 + ilen, o3 + 12 + ilen),
                    );
                    Some(CampaignModel { admin, name, description, image_link, amount_donated })
                }
            }
        }
    }
}

/// A withdrawal request encodes as the 8 little-endian bytes of its amount.
pub open spec fn spec_encode_withdrawal(amount: u64) -> Seq<u8> {
    spec_u64_to_le_bytes(amount)
}

/// Decoding a withdrawal request consumes exactly 8 bytes.
pub open spec fn spec_decode_withdrawal(d: Seq<u8>) -> Option<u64> {
    if d.len() == 8 {
        Some(spec_u64_from_le_bytes(d))
    } else {
        None
    }
}

pub proof fn lemma_pubkey_round_trip(k: Pubkey)
    ensures
        spec_encode_pubkey(k).len() == 32,
        spec_decode_pubkey(spec_encode_pubkey(k)) == k,
{
    lemma_auto_spec_u64_to_from_le_bytes();
    let e = spec_encode_pubkey(k);
    assert(e.subrange(0, 8) =~= spec_u64_to_le_bytes(k.w0));
    assert(e.subrange(8, 16) =~= spec_u64_to_le_bytes(k.w1));
    assert(e.subrange(16, 24) =~= spec_u64_to_le_bytes(k.w2));
    assert(e.subrange(24, 32) =~= spec_u64_to_le_bytes(k.w3));
}

/// Any 32 bytes are the encoding of the address they decode to: the
/// address encoding is a bijection on 32-byte sequences.
pub proof fn lemma_pubkey_canonical(d: Seq<u8>)
    requires
        d.len() == 32,
    ensures
        spec_encode_pubkey(spec_decode_pubkey(d)) == d,
{
    lemma_auto_spec_u64_to_from_le_bytes();
    assert(spec_encode_pubkey(spec_decode_pubkey(d)) =~= d);
}

pub proof fn lemma_encode_campaign_len(m: CampaignModel)
    ensures
        spec_encode_campaign(m).len() == spec_encoded_len(m),
{
    lemma_auto_spec_u32_to_from_le_bytes();
    lemma_auto_spec_u64_to_from_le_bytes();
    lemma_pubkey_round_trip(m.admin);
}

/// Encode then decode gives the record back: the decoder accepts every
/// encoding of a well-formed record and reconstructs it exactly.
pub proof fn lemma_campaign_round_trip(m: CampaignModel)
    requires
        m.wf(),
    ensures
        spec_decode_campaign(spec_encode_campaign(m)) == Some(m),
{
    lemma_auto_spec_u32_to_from_le_bytes();
    lemma_auto_spec_u64_to_from_le_bytes();
    lemma_pubkey_round_trip(m.admin);
    lemma_encode_campaign_len(m);
    let e = spec_encode_campaign(m);
    let n = m.name.len() as int;
    let d = m.description.len() as int;
    let i = m.image_link.len() as int;
    assert(e.subrange(0, 32) =~= spec_encode_pubkey(m.admin));
    assert(e.subrange(32, 36) =~= spec_u32_to_le_bytes(m.name.len() as u32));
    assert(e.subrange(36, 36 + n) =~= m.name);
    assert(e.subrange(36 + n, 40 + n) =~= spec_u32_to_le_bytes(m.description.len() as u32));
    assert(e.subrange(40 + n, 40 + n + d) =~= m.description);
    assert(e.subrange(40 + n + d, 44 + n + d) =~= spec_u32_to_le_bytes(m.image_link.len() as u32));
    assert(e.subrange(44 + n + d, 44 + n + d + i) =~= m.image_link);
    assert(e.subrange(44 + n + d + i, 52 + n + d + i) =~= spec_u64_to_le_bytes(m.amount_donated));
    assert(spec_decode_campaign(e) matches Some(r) && r =~= m);
}

/// Decoding is canonical: a byte sequence that decodes is exactly the
/// encoding of the well-formed record it decodes to. In particular the
/// encoding is injective, and a decodable data region has precisely the
/// record's encoded length.
pub proof fn lemma_campaign_canonical(d: Seq<u8>)
    requires
        spec_decode_campaign(d) is Some,
    ensures
        ({
            let m = spec_decode_campaign(d)->Some_0;
            &&& m.wf()
            &&& spec_encode_campaign(m) == d
            &&& spec_encoded_len(m) == d.len()
        }),
{
    lemma_auto_spec_u32_to_from_le_bytes();
    lemma_auto_spec_u64_to_from_le_bytes();
    lemma_pubkey_canonical(d.subrange(0, 32));
    let m = spec_decode_campaign(d)->Some_0;
    let n = spec_u32_from_le_bytes(d.subrange(32, 36)) as int;
    let o2 = 36 + n;
    let dd = spec_u32_from_le_bytes(d.subrange(o2, o2 + 4)) as int;
    let o3 = o2 + 4 + dd;
    let i = spec_u32_from_le_bytes(d.subrange(o3, o3 + 4)) as int;
    assert(m.name.len() == n && m.description.len() == dd && m.image_link.len() == i);
    assert(spec_u32_to_le_bytes(m.name.len() as u32) == d.subrange(32, 36));
    assert(spec_u32_to_le_bytes(m.description.len() as u32) == d.subrange(o2, o2 + 4));
    assert(spec_u32_to_le_bytes(m.image_link.len() as u32) == d.subrange(o3, o3 + 4));
    assert(spec_encode_campaign(m) =~= d);
    lemma_encode_campaign_len(m);
}

/// Encode then decode gives a withdrawal request back, and any 8 bytes are
/// the encoding of the amount they decode to.
pub proof fn lemma_withdrawal_round_trip(amount: u64, d: Seq<u8>)
    ensures
        spec_decode_withdrawal(spec_encode_withdrawal(amount)) == Some(amount),
        d.len() == 8 ==> spec_encode_withdrawal(spec_decode_withdrawal(d)->Some_0) == d,
{
    lemma_auto_spec_u64_to_from_le_bytes();
}

fn append_bytes(out: &mut Vec<u8>, src: &Vec<u8>)
    ensures
        final(out)@ == old(out)@ + src@,
{
    let mut i: usize = 0;
    while i < src.len()
        invariant
            i <= src.len(),
            out@ == old(out)@ + src@.subrange(0, i as int),
        decreases src.len() - i,
    {
        out.push(src[i]);
        proof {
            assert(old(out)@ + src@.subrange(0, i as int) + seq![src@[i as int]] =~= old(out)@
                + src@.subrange(0, i as int + 1));
        }
        i = i + 1;
    }
    proof {
        assert(src@.subrange(0, src@.len() as int) =~= src@);
    }
}

fn append_pubkey(out: &mut Vec<u8>, k: &Pubkey)
    ensures
        final(out)@ == old(out)@ + spec_encode_pubkey(*k),
{
    let mut b = u64_to_le_bytes(k.w0);
    out.append(&mut b);
    let mut b = u64_to_le_bytes(k.w1);
    out.append(&mut b);
    let mut b = u64_to_le_bytes(k.w2);
    out.append(&mut b);
    let mut b = u64_to_le_bytes(k.w3);
    out.append(&mut b);
}

/// Serialize a record into the byte layout the data region holds. The
/// result is fully determined by the record's value.
pub fn encode_campaign(c: &CampaignDetails) -> (r: Vec<u8>)
    requires
        c.wf(),
    ensures
        r@ == spec_encode_campaign(c@),
{
    let mut out: Vec<u8> = Vec::new();
    append_pubkey(&mut out, &c.admin);
    let mut b = u32_to_le_bytes(c.name.len() as u32);
    out.append(&mut b);
    append_bytes(&mut out, &c.name);
    let mut b = u32_to_le_bytes(c.description.len() as u32);
    out.append(&mut b);
    append_bytes(&mut out, &c.description);
    let mut b = u32_to_le_bytes(c.image_link.len() as u32);
    out.append(&mut b);
    append_bytes(&mut out, &c.image_link);
    let mut b = u64_to_le_bytes(c.amount_donated);
    out.append(&mut b);
    out
}

/// The 32 encoded bytes of an address, little-endian word by word.
pub(crate) fn key_bytes(k: &Pubkey) -> (r: Vec<u8>)
    ensures
        r@ == spec_encode_pubkey(*k),
{
    let mut out: Vec<u8> = Vec::new();
    append_pubkey(&mut out, k);
    out
}

pub(crate) fn read_pubkey(data: &[u8], off: usize) -> (k: Pubkey)
    requires
        off + 32 <= data@.len(),
    ensures
        k == spec_decode_pubkey(data@.subrange(off as int, off as int + 32)),
{
    // bind the slice's length so the offset arithmetic below is known to
    // stay within the machine's range
    let _n: usize = data.len();
    let w0 = u64_from_le_bytes(slice_subrange(data, off, off + 8));
    let w1 = u64_from_le_bytes(slice_subrange(data, off + 8, off + 16));
    let w2 = u64_from_le_bytes(slice_subrange(data, off + 16, off + 24));
    let w3 = u64_from_le_bytes(slice_subrange(data, off + 24, off + 32));
    proof {
        let o = off as int;
        let s = data@.subrange(o, o + 32);
        assert(data@.subrange(o, o + 8) =~= s.subrange(0, 8));
        assert(data@.subrange(o + 8, o + 16) =~= s.subrange(8, 16));
        assert(data@.subrange(o + 16, o + 24) =~= s.subrange(16, 24));
        assert(data@.subrange(o + 24, o + 32) =~= s.subrange(24, 32));
    }
    Pubkey { w0, w1, w2, w3 }
}

/// Deserialize a record from a data region or a creation payload.
/// Succeeds exactly when the bytes are the encoding of one record, with
/// nothing missing and nothing left over.
pub fn decode_campaign(data: &[u8]) -> (r: Result<CampaignDetails, CampaignError>)
    ensures
        match r {
            Ok(c) => spec_decode_campaign(data@) == Some(c@) && c.wf(),
            Err(e) => spec_decode_campaign(data@) is None && e == CampaignError::MalformedPayload,
        },
{
    let total = data.len();
    if total < 36 {
        return Err(CampaignError::MalformedPayload);
    }
    let admin = read_pubkey(data, 0);
    let nlen = u32_from_le_bytes(slice_subrange(data, 32, 36)) as usize;
    let rem = total - 36;
    if rem < nlen || rem - nlen < 4 {
        return Err(CampaignError::MalformedPayload);
    }
    let name = slice_to_vec(slice_subrange(data, 36, 36 + nlen));
    let o2 = 36 + nlen;
    let dlen = u32_from_le_bytes(slice_subrange(data, o2, o2 + 4)) as usize;
    let rem2 = rem - nlen - 4;
    if rem2 < dlen || rem2 - dlen < 4 {
        return Err(CampaignError::MalformedPayload);
    }
    let description = slice_to_vec(slice_subrange(data, o2 + 4, o2 + 4 + dlen));
    let o3 = o2 + 4 + dlen;
    let ilen = u32_from_le_bytes(slice_subrange(data, o3, o3 + 4)) as usize;
    let rem3 = rem2 - dlen - 4;
    if rem3 < ilen || rem3 - ilen != 8 {
        return Err(CampaignError::MalformedPayload);
    }
    let image_link = slice_to_vec(slice_subrange(data, o3 + 4, o3 + 4 + ilen));
    let amount_donated = u64_from_le_bytes(slice_subrange(data, o3 + 4 + ilen, o3 + 12 + ilen));
    let c = CampaignDetails { admin, name, description, image_link, amount_donated };
    proof {
        assert(spec_decode_campaign(data@) matches Some(m) && m =~= c@);
    }
    Ok(c)
}

/// Serialize a withdrawal request into its payload bytes.
pub fn encode_withdrawal_request(req: &WithdrawalRequest) -> (r: Vec<u8>)
    ensures
        r@ == spec_encode_withdrawal(req.amount),
{
    u64_to_le_bytes(req.amount)
}

/// Deserialize a withdrawal request; exactly 8 bytes are accepted.
pub fn decode_withdrawal_request(data: &[u8]) -> (r: Result<WithdrawalRequest, CampaignError>)
    ensures
        match r {
            Ok(w) => spec_decode_withdrawal(data@) == Some(w.amount),
            Err(e) => spec_decode_withdrawal(data@) is None && e
                == CampaignError::MalformedPayload,
        },
{
    if data.len() != 8 {
        return Err(CampaignError::MalformedPayload);
    }
    let amount = u64_from_le_bytes(slice_subrange(data, 0, 8));
    proof {
        assert(data@.subrange(0, 8) =~= data@);
    }
    Ok(WithdrawalRequest { amount })
}

} // verus!
