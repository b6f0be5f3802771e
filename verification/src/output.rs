//! What a run commits to, and its canonical bytes.

use crate::error::BenchError;
use crate::little_endian::{le_bytes, le_word, lemma_word_of_le_bytes};
use vstd::prelude::*;

verus! {

/// A 32-byte commitment: a tree root or a hash.
pub type Digest = [u8; 32];

/// Number of bytes of a [`ProofOutput`] in canonical form.
pub const OUTPUT_WIRE_LEN: usize = 164;

/// What the state transition commits to.
#[derive(Clone, Copy, Debug, PartialEq, Eq)]
pub struct ProofOutput {
    pub prev_local_exit_root: Digest,
    pub prev_pessimistic_root: Digest,
    pub l1_info_root: Digest,
    pub origin_network: u32,
    pub new_local_exit_root: Digest,
    pub new_pessimistic_root: Digest,
}

/// A [`ProofOutput`] as a mathematical value.
pub struct ProofOutputView {
    pub prev_local_exit_root: Seq<u8>,
    pub prev_pessimistic_root: Seq<u8>,
    pub l1_info_root: Seq<u8>,
    pub origin_network: u32,
    pub new_local_exit_root: Seq<u8>,
    pub new_pessimistic_root: Seq<u8>,
}

impl ProofOutputView {
    /// Every root has 32 bytes.
    pub open spec fn wf(self) -> bool {
        &&& self.prev_local_exit_root.len() == 32
        &&& self.prev_pessimistic_root.len() == 32
        &&& self.l1_info_root.len() == 32
        &&& self.new_local_exit_root.len() == 32
        &&& self.new_pessimistic_root.len() == 32
    }
}

impl View for ProofOutput {
    type V = ProofOutputView;

    open spec fn view(&self) -> ProofOutputView {
        ProofOutputView {
            prev_local_exit_root: self.prev_local_exit_root@,
            prev_pessimistic_root: self.prev_pessimistic_root@,
            l1_info_root: self.l1_info_root@,
            origin_network: self.origin_network,
            new_local_exit_root: self.new_local_exit_root@,
            new_pessimistic_root: self.new_pessimistic_root@,
        }
    }
}

/// The canonical bytes of an output: its fields in the order of their
/// declaration, each root as its 32 bytes, the network id as four bytes,
/// least significant first.
pub open spec fn output_wire(o: ProofOutputView) -> Seq<u8> {
    o.prev_local_exit_root + o.prev_pessimistic_root + o.l1_info_root + le_bytes(o.origin_network)
        + o.new_local_exit_root + o.new_pessimistic_root
}

/// The output that the first 164 bytes spell; none where fewer are there.
/// Bytes after these are not looked at.
pub open spec fn parse_output(bytes: Seq<u8>) -> Option<ProofOutputView> {
    if bytes.len() >= 164 {
        Some(
            ProofOutputView {
                prev_local_exit_root: bytes.subrange(0, 32),
                prev_pessimistic_root: bytes.subrange(32, 64),
                l1_info_root: bytes.subrange(64, 96),
                origin_network: le_word(bytes[96], bytes[97], bytes[98], bytes[99]),
                new_local_exit_root: bytes.subrange(100, 132),
                new_pessimistic_root: bytes.subrange(132, 164),
            },
        )
    } else {
        None
    }
}

/// The canonical bytes of an output are 164, and reading them back gives
/// the output, whatever follows them.
pub proof fn lemma_output_roundtrip(o: ProofOutputView, rest: Seq<u8>)
    requires
        o.wf(),
    ensures
        output_wire(o).len() == 164,
        parse_output(output_wire(o) + rest) == Some(o),
{
    let bytes = output_wire(o) + rest;
    let n = o.origin_network;
    assert(le_bytes(n).len() == 4);
    assert(bytes.subrange(0, 32) =~= o.prev_local_exit_root);
    assert(bytes.subrange(32, 64) =~= o.prev_pessimistic_root);
    assert(bytes.subrange(64, 96) =~= o.l1_info_root);
    assert(bytes.subrange(100, 132) =~= o.new_local_exit_root);
    assert(bytes.subrange(132, 164) =~= o.new_pessimistic_root);
    assert(bytes[96] == le_bytes(n)[0] && bytes[97] == le_bytes(n)[1] && bytes[98] == le_bytes(
        n,
    )[2] && bytes[99] == le_bytes(n)[3]);
    lemma_word_of_le_bytes(n);
}

/// Two outputs with the same canonical bytes are the same output.
pub proof fn lemma_output_wire_injective(a: ProofOutputView, b: ProofOutputView)
    requires
        a.wf(),
        b.wf(),
        output_wire(a) == output_wire(b),
    ensures
        a == b,
{
    lemma_output_roundtrip(a, Seq::empty());
    lemma_output_roundtrip(b, Seq::empty());
}

#[verifier::external_type_specification]
#[verifier::external_body]
pub struct ExBincodeErrorKind(bincode::ErrorKind);

/// `bincode::serialize` on the six fields as a tuple. That function writes
/// integers at fixed width, least significant byte first; a tuple becomes
/// its elements in order and a byte array its bytes, with no length in
/// front. None of this can fail for a value of these types.
#[verifier::external_body]
fn bincode_serialize(o: &ProofOutput) -> (r: Result<Vec<u8>, Box<bincode::ErrorKind>>)
    ensures
        r is Ok,
        r->Ok_0@ == output_wire(o@),
{
    bincode::serialize(&(
        o.prev_local_exit_root,
        o.prev_pessimistic_root,
        o.l1_info_root,
        o.origin_network,
        o.new_local_exit_root,
        o.new_pessimistic_root,
    ))
}

/// `bincode::deserialize` into the six fields as a tuple. It reads the
/// bytes that the fields take from the front, fails when the input ends
/// before them, and leaves what follows unread.
#[verifier::external_body]
fn bincode_deserialize(bytes: &Vec<u8>) -> (r: Result<ProofOutput, Box<bincode::ErrorKind>>)
    ensures
        match r {
            Ok(o) => parse_output(bytes@) == Some(o@),
            Err(_) => parse_output(bytes@) is None,
        },
{
    let t: (Digest, Digest, Digest, u32, Digest, Digest) = bincode::deserialize(bytes.as_slice())?;
    Ok(ProofOutput {
        prev_local_exit_root: t.0,
        prev_pessimistic_root: t.1,
        l1_info_root: t.2,
        origin_network: t.3,
        new_local_exit_root: t.4,
        new_pessimistic_root: t.5,
    })
}

/// The canonical bytes of `o`.
pub fn serialize_output(o: &ProofOutput) -> (bytes: Vec<u8>)
    ensures
        bytes@ == output_wire(o@),
{
    bincode_serialize(o).unwrap()
}

/// Reads an output from the front of `bytes`. Fewer than 164 bytes are an
/// encoding error.
pub fn deserialize_output(bytes: &Vec<u8>) -> (r: Result<ProofOutput, BenchError>)
    ensures
        match r {
            Ok(o) => parse_output(bytes@) == Some(o@),
            Err(e) => parse_output(bytes@) is None && e == BenchError::EncodingError,
        },
{
    match bincode_deserialize(bytes) {
        Ok(o) => Ok(o),
        Err(_) => Err(BenchError::EncodingError),
    }
}

/// The sixteen digits of lower-case hexadecimal.
pub open spec fn hex_digits() -> Seq<char> {
    seq!['0', '1', '2', '3', '4', '5', '6', '7', '8', '9', 'a', 'b', 'c', 'd', 'e', 'f']
}

/// Bytes in lower-case hexadecimal: two digits for each byte, the high
/// half first.
pub open spec fn hex_spec(bytes: Seq<u8>) -> Seq<char> {
    Seq::new(
        2 * bytes.len(),
        |i: int|
            if i % 2 == 0 {
                hex_digits()[bytes[i / 2] as int / 16]
            } else {
                hex_digits()[bytes[i / 2] as int % 16]
            },
    )
}

/// `hex::encode`: each byte as two lower-case hexadecimal digits, in the
/// order of the bytes.
#[verifier::external_body]
fn hex_encode(root: &Digest) -> (text: String)
    ensures
        text@ == hex_spec(root@),
{
    hex::encode(root)
}

/// The previous and the new local exit root of an output, each in
/// lower-case hexadecimal.
pub fn output_roots_hex(output: &ProofOutput) -> (roots: (String, String))
    ensures
        roots.0@ == hex_spec(output@.prev_local_exit_root),
        roots.1@ == hex_spec(output@.new_local_exit_root),
{
    (hex_encode(&output.prev_local_exit_root), hex_encode(&output.new_local_exit_root))
}

} // verus!
