//! The signature trailer that the kernel's module loader looks for at the end
//! of a signed module: the signature blob, a fixed 12-byte record describing
//! it, and a literal marker.
use vstd::prelude::*;

use vstd::string::StringSliceAdditionalSpecFns;

use crate::error::SignError;

verus! {

/// Key identifier type that marks the signature as a PKCS#7 / CMS blob.
pub const PKEY_ID_PKCS7: u8 = 2;

/// Marker that ends every signed module.
pub const MAGIC_NUMBER: &'static str = "~Module signature appended~\n";

/// Width in bytes of the marker.
pub const MAGIC_LEN: usize = 28;

/// Width in bytes of the serialized record.
pub const RECORD_LEN: usize = 12;

/// The metadata record placed between the signature blob and the marker.
pub struct ModuleSignature {
    /// Public-key algorithm (unused, always 0).
    pub algo: u8,
    /// Digest algorithm (unused, always 0).
    pub hash: u8,
    /// Key identifier type.
    pub id_type: u8,
    /// Length of the signer's name (always 0).
    pub signer_len: u8,
    /// Length of the key identifier (always 0).
    pub key_id_len: u8,
    /// Reserved, always zero.
    pub pad: [u8; 3],
    /// Length in bytes of the signature blob before the record.
    pub sig_len: u32,
}

/// The four bytes of `x`, most significant first.
pub open spec fn be32(x: u32) -> Seq<u8> {
    seq![(x >> 24u32) as u8, (x >> 16u32) as u8, (x >> 8u32) as u8, x as u8]
}

/// The integer that four bytes spell, most significant first.
pub open spec fn read_be32(b: Seq<u8>) -> u32 {
    ((b[0] as u32) << 24u32) | ((b[1] as u32) << 16u32) | ((b[2] as u32) << 8u32) | (b[3] as u32)
}

/// The serialized record for a signature blob of `sig_len` bytes.
pub open spec fn record_bytes(sig_len: u32) -> Seq<u8> {
    seq![0u8, 0u8, PKEY_ID_PKCS7, 0u8, 0u8, 0u8, 0u8, 0u8] + be32(sig_len)
}

/// The bytes of the marker.
pub open spec fn magic_bytes() -> Seq<u8> {
    MAGIC_NUMBER.spec_bytes()
}

/// A module `content` with `sig` appended as the loader expects it.
pub open spec fn signed_module(content: Seq<u8>, sig: Seq<u8>) -> Seq<u8> {
    content + sig + record_bytes(sig.len() as u32) + magic_bytes()
}

/// What a verifier reads from a file by scanning backward from its end: the
/// marker, the record before it, and `sig_len` bytes of signature before that.
/// `None` when the file does not end that way.
pub open spec fn split_signed(f: Seq<u8>) -> Option<(Seq<u8>, Seq<u8>)> {
    let n = f.len() as int;
    let m = magic_bytes().len() as int;
    let r = RECORD_LEN as int;
    if n < m + r || f.subrange(n - m, n) != magic_bytes() {
        None
    } else {
        let record = f.subrange(n - m - r, n - m);
        let sig_len = read_be32(record.subrange(8, 12)) as int;
        if sig_len > n - m - r {
            None
        } else {
            let sig_start = n - m - r - sig_len;
            Some((f.subrange(0, sig_start), f.subrange(sig_start, n - m - r)))
        }
    }
}

impl ModuleSignature {
    /// The bytes of this record in the loader's layout: five single bytes,
    /// the padding, then `sig_len` big-endian.
    pub open spec fn spec_bytes(&self) -> Seq<u8> {
        seq![self.algo, self.hash, self.id_type, self.signer_len, self.key_id_len] + self.pad@
            + be32(self.sig_len)
    }

    /// The record for a PKCS#7 signature blob of `length` bytes.
    pub fn new(length: u32) -> (r: ModuleSignature)
        ensures
            r.algo == 0,
            r.hash == 0,
            r.id_type == PKEY_ID_PKCS7,
            r.signer_len == 0,
            r.key_id_len == 0,
            r.pad@ == seq![0u8, 0u8, 0u8],
            r.sig_len == length,
            r.spec_bytes() == record_bytes(length),
    {
        let r = ModuleSignature {
            algo: 0,
            hash: 0,
            id_type: PKEY_ID_PKCS7,
            signer_len: 0,
            key_id_len: 0,
            pad: [0, 0, 0],
            sig_len: length,
        };
        assert(r.pad@ =~= seq![0u8, 0u8, 0u8]);
        assert(r.spec_bytes() =~= record_bytes(length));
        r
    }
}

/// The marker is plain ASCII, 28 bytes long.
pub proof fn lemma_magic_len()
    ensures
        magic_bytes().len() == MAGIC_LEN,
{
    reveal_strlit("~Module signature appended~\n");
    vstd::string::is_ascii_spec_bytes(MAGIC_NUMBER);
    assert(vstd::string::is_ascii(MAGIC_NUMBER));
}

/// Errors of bincode's encoder.
#[verifier::external_type_specification]
#[verifier::external_body]
pub struct ExEncodeError(bincode::error::EncodeError);

/// Relies on `bincode::encode_to_vec` with fixed-width big-endian integers:
/// the fields in order, a `u8` as its byte, a `[u8; 3]` as its three bytes with
/// no length prefix, a `u32` as four bytes most significant first. Writing
/// into a `Vec` never fails.
#[verifier::external_body]
fn encode_record(r: &ModuleSignature) -> (out: Result<Vec<u8>, bincode::error::EncodeError>)
    ensures
        out is Ok,
        out->Ok_0@ == r.spec_bytes(),
{
    let fields = (r.algo, r.hash, r.id_type, r.signer_len, r.key_id_len, r.pad, r.sig_len);
    bincode::encode_to_vec(
        fields,
        bincode::config::standard().with_fixed_int_encoding().with_big_endian(),
    )
}

impl ModuleSignature {
    /// The record in the loader's layout, every reserved byte written out.
    pub fn to_bytes(&self) -> (r: Vec<u8>)
        ensures
            r@ == self.spec_bytes(),
    {
        match encode_record(self) {
            Ok(v) => v,
            Err(_) => {
                proof {
                    assert(false);
                }
                Vec::new()
            },
        }
    }
}

/// The 12-byte record describing a signature blob of `sig_len` bytes.
pub fn serialize(sig_len: u32) -> (r: Vec<u8>)
    ensures
        r@ == record_bytes(sig_len),
        r@.len() == RECORD_LEN,
{
    ModuleSignature::new(sig_len).to_bytes()
}

/// Appends `bytes` to the end of `out`.
fn push_all(out: &mut Vec<u8>, bytes: &[u8])
    ensures
        final(out)@ == old(out)@ + bytes@,
{
    let mut i: usize = 0;
    while i < bytes.len()
        invariant
            i <= bytes@.len(),
            out@ == old(out)@ + bytes@.subrange(0, i as int),
        decreases bytes@.len() - i,
    {
        out.push(bytes[i]);
        i += 1;
        assert(bytes@.subrange(0, i as int) =~= bytes@.subrange(0, i - 1) + seq![bytes@[i - 1]]);
    }
    assert(bytes@.subrange(0, i as int) =~= bytes@);
}

/// The module `content` followed by `signature`, its record and the marker.
/// Fails with `Encoding` exactly when the signature is too long for the
/// record's 32-bit length field.
pub fn append_signature(content: &[u8], signature: &[u8]) -> (r: Result<Vec<u8>, SignError>)
    ensures
        signature@.len() > u32::MAX ==> r == Err::<Vec<u8>, SignError>(SignError::Encoding),
        signature@.len() <= u32::MAX ==> (r matches Ok(v) && v@ == signed_module(
            content@,
            signature@,
        )),
{
    if signature.len() > u32::MAX as usize {
        return Err(SignError::Encoding);
    }
    let mut out: Vec<u8> = Vec::new();
    push_all(&mut out, content);
    push_all(&mut out, signature);
    let record = serialize(signature.len() as u32);
    push_all(&mut out, record.as_slice());
    push_all(&mut out, MAGIC_NUMBER.as_bytes());
    Ok(out)
}

/// Reading the length back out of four big-endian bytes gives the length.
pub proof fn lemma_be32_round_trip(x: u32)
    ensures
        be32(x).len() == 4,
        read_be32(be32(x)) == x,
{
    let b0 = (x >> 24u32) as u8;
    let b1 = (x >> 16u32) as u8;
    let b2 = (x >> 8u32) as u8;
    let b3 = x as u8;
    assert(((b0 as u32) << 24u32) | ((b1 as u32) << 16u32) | ((b2 as u32) << 8u32) | (b3 as u32)
        == x) by (bit_vector)
        requires
            b0 == (x >> 24u32) as u8,
            b1 == (x >> 16u32) as u8,
            b2 == (x >> 8u32) as u8,
            b3 == x as u8,
    ;
}

/// Taking a serialized record apart field by field gives back the length it
/// was made for, the PKCS#7 identifier type, and zero in every reserved field.
pub proof fn lemma_record_fields(sig_len: u32)
    ensures
        record_bytes(sig_len).len() == RECORD_LEN,
        record_bytes(sig_len)[0] == 0,
        record_bytes(sig_len)[1] == 0,
        record_bytes(sig_len)[2] == PKEY_ID_PKCS7,
        record_bytes(sig_len)[3] == 0,
        record_bytes(sig_len)[4] == 0,
        record_bytes(sig_len)[5] == 0,
        record_bytes(sig_len)[6] == 0,
        record_bytes(sig_len)[7] == 0,
        read_be32(record_bytes(sig_len).subrange(8, 12)) == sig_len,
{
    lemma_be32_round_trip(sig_len);
    assert(record_bytes(sig_len).subrange(8, 12) =~= be32(sig_len));
}

/// Scanning a signed module backward from its end recovers exactly the
/// content and signature it was made from, for any content and any signature whose
/// length fits the record.
pub proof fn lemma_split_signed_module(content: Seq<u8>, sig: Seq<u8>)
    requires
        sig.len() <= u32::MAX,
    ensures
        split_signed(signed_module(content, sig)) == Some((content, sig)),
{
    lemma_magic_len();
    lemma_record_fields(sig.len() as u32);
    let f = signed_module(content, sig);
    let n = f.len() as int;
    let m = magic_bytes().len() as int;
    let body = content + sig;
    assert(f == body + record_bytes(sig.len() as u32) + magic_bytes());
    assert(f.subrange(n - m, n) =~= magic_bytes());
    assert(f.subrange(n - m - 12, n - m) =~= record_bytes(sig.len() as u32));
    assert(f.subrange(0, content.len() as int) =~= content);
    assert(f.subrange(content.len() as int, n - m - 12) =~= sig);
}

/// Appending twice is not idempotent: the file then holds two signature
/// sections one after the other, and a backward scan finds the outer one,
/// whose content is the module as it was after the first append.
pub proof fn lemma_append_twice(content: Seq<u8>, sig1: Seq<u8>, sig2: Seq<u8>)
    requires
        sig1.len() <= u32::MAX,
        sig2.len() <= u32::MAX,
    ensures
        signed_module(signed_module(content, sig1), sig2) == content + sig1 + record_bytes(
            sig1.len() as u32,
        ) + magic_bytes() + sig2 + record_bytes(sig2.len() as u32) + magic_bytes(),
        split_signed(signed_module(signed_module(content, sig1), sig2)) == Some(
            (signed_module(content, sig1), sig2),
        ),
{
    lemma_split_signed_module(signed_module(content, sig1), sig2);
    assert(signed_module(signed_module(content, sig1), sig2) =~= content + sig1 + record_bytes(
        sig1.len() as u32,
    ) + magic_bytes() + sig2 + record_bytes(sig2.len() as u32) + magic_bytes());
}

} // verus!
