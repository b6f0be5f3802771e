//! The two ways in which the input reaches a guest program, and the three
//! ways in which its output comes back.

use crate::error::BenchError;
use crate::input::{MultiBatchHeader, NetworkState};
use crate::output::{
    deserialize_output, lemma_output_roundtrip, output_wire, parse_output, serialize_output,
    ProofOutput, ProofOutputView, OUTPUT_WIRE_LEN,
};
use crate::stdin::{stdin_from_bytes, stdin_new, stdin_read, stdin_write_bytes, StdIn};
use crate::word_reveal::{
    lemma_reveal_roundtrip, reassemble, reassemble_spec, reassembles, reveal_spec, reveal_words,
    RevealedWord,
};
use vstd::prelude::*;

verus! {

/// How the state and the header are laid out for the guest program.
#[derive(Clone, Copy, Debug, PartialEq, Eq, Structural)]
pub enum InputCodec {
    /// One record: the state's bytes, then the header's, with no length
    /// between them. The reader of the state says where it stopped.
    Concatenated,
    /// Two records, the state first, read in the same order.
    SequentialRecords,
}

/// How the guest program hands its output back.
#[derive(Clone, Copy, Debug, PartialEq, Eq, Structural)]
pub enum OutputCodec {
    /// The canonical bytes, published four at a time as numbered words.
    WordReveal,
    /// The canonical bytes as one buffer.
    ByteBuffer,
    /// The output as a value; nothing is left to put together.
    Typed,
}

/// What came back from a run, before it is decoded.
#[derive(Debug, PartialEq, Eq)]
pub enum RawOutput {
    Words(Vec<RevealedWord>),
    Bytes(Vec<u8>),
    Typed(ProofOutput),
}

/// A [`RawOutput`] as a mathematical value.
pub enum RawOutputView {
    Words(Seq<RevealedWord>),
    Bytes(Seq<u8>),
    Typed(ProofOutputView),
}

impl View for RawOutput {
    type V = RawOutputView;

    open spec fn view(&self) -> RawOutputView {
        match self {
            RawOutput::Words(words) => RawOutputView::Words(words@),
            RawOutput::Bytes(bytes) => RawOutputView::Bytes(bytes@),
            RawOutput::Typed(output) => RawOutputView::Typed(output@),
        }
    }
}

/// The records that carry a state and a header.
pub open spec fn encode_spec(codec: InputCodec, state: Seq<u8>, header: Seq<u8>) -> Seq<Seq<u8>> {
    match codec {
        InputCodec::Concatenated => seq![state + header],
        InputCodec::SequentialRecords => seq![state, header],
    }
}

/// What a guest program reads from the records: the state's bytes and the
/// header's. `consumed` is the number of bytes that the reader of the
/// state took from a concatenated record.
pub open spec fn guest_input_spec(codec: InputCodec, records: Seq<Seq<u8>>, consumed: nat) -> Option<
    (Seq<u8>, Seq<u8>),
> {
    match codec {
        InputCodec::Concatenated => if records.len() >= 1 && consumed <= records[0].len() {
            Some(
                (
                    records[0].subrange(0, consumed as int),
                    records[0].subrange(consumed as int, records[0].len() as int),
                ),
            )
        } else {
            None
        },
        InputCodec::SequentialRecords => if records.len() >= 2 {
            Some((records[0], records[1]))
        } else {
            None
        },
    }
}

/// What a guest program hands back for an output.
pub open spec fn commit_spec(codec: OutputCodec, output: ProofOutputView) -> RawOutputView {
    match codec {
        OutputCodec::WordReveal => RawOutputView::Words(reveal_spec(output_wire(output))),
        OutputCodec::ByteBuffer => RawOutputView::Bytes(output_wire(output)),
        OutputCodec::Typed => RawOutputView::Typed(output),
    }
}

/// The output that a raw result stands for under a convention; none where
/// the result is of another kind, or too short, or a word is missing or there
/// twice. The words may stand in any order.
pub open spec fn decode_spec(codec: OutputCodec, raw: RawOutputView) -> Option<ProofOutputView> {
    match (codec, raw) {
        (OutputCodec::WordReveal, RawOutputView::Words(words)) => if reassembles(words, 164) {
            parse_output(reassemble_spec(words, 164))
        } else {
            None
        },
        (OutputCodec::ByteBuffer, RawOutputView::Bytes(bytes)) => parse_output(bytes),
        (OutputCodec::Typed, RawOutputView::Typed(output)) => Some(output),
        _ => None,
    }
}

/// Lays the state and the header out for a guest program.
pub fn encode_input(codec: InputCodec, state: &NetworkState, header: &MultiBatchHeader) -> (stdin:
    StdIn)
    ensures
        stdin@ == encode_spec(codec, state@, header@),
{
    match codec {
        InputCodec::Concatenated => {
            let mut data = state.bytes.clone();
            let mut tail = header.bytes.clone();
            data.append(&mut tail);
            stdin_from_bytes(&data)
        },
        InputCodec::SequentialRecords => {
            let mut stdin = stdin_new();
            stdin_write_bytes(&mut stdin, &state.bytes);
            stdin_write_bytes(&mut stdin, &header.bytes);
            assert(stdin@ =~= seq![state@, header@]);
            stdin
        },
    }
}

/// Cuts a concatenated record where the reader of the state stopped. A
/// stop past the record's end is an encoding error.
pub fn split_concatenated(record: &Vec<u8>, consumed: usize) -> (r: Result<
    (Vec<u8>, Vec<u8>),
    BenchError,
>)
    ensures
        match r {
            Ok((state, header)) => guest_input_spec(
                InputCodec::Concatenated,
                seq![record@],
                consumed as nat,
            ) == Some((state@, header@)),
            Err(e) => consumed > record@.len() && e == BenchError::EncodingError,
        },
{
    if consumed > record.len() {
        return Err(BenchError::EncodingError);
    }
    let mut state: Vec<u8> = Vec::new();
    let mut header: Vec<u8> = Vec::new();
    let mut i: usize = 0;
    while i < record.len()
        invariant
            consumed <= record@.len(),
            i <= record@.len(),
            i <= consumed ==> state@ == record@.subrange(0, i as int) && header@.len() == 0,
            i > consumed ==> state@ == record@.subrange(0, consumed as int) && header@
                == record@.subrange(consumed as int, i as int),
        decreases record@.len() - i,
    {
        if i < consumed {
            state.push(record[i]);
            assert(state@ =~= record@.subrange(0, i + 1));
        } else {
            header.push(record[i]);
            assert(header@ =~= record@.subrange(consumed as int, i + 1));
        }
        i = i + 1;
    }
    assert(header@ =~= record@.subrange(consumed as int, record@.len() as int));
    Ok((state, header))
}

/// Takes the state and the header off the queue, in this order. A queue
/// with fewer than two records is an encoding error, and is left empty.
pub fn read_sequential(stdin: &mut StdIn) -> (r: Result<(Vec<u8>, Vec<u8>), BenchError>)
    ensures
        match r {
            Ok((state, header)) => guest_input_spec(InputCodec::SequentialRecords, old(stdin)@, 0)
                == Some((state@, header@)) && final(stdin)@ == old(stdin)@.skip(2),
            Err(e) => old(stdin)@.len() < 2 && e == BenchError::EncodingError && final(stdin)@.len()
                == 0,
        },
{
    let state = match stdin_read(stdin) {
        Some(bytes) => bytes,
        None => { return Err(BenchError::EncodingError); },
    };
    let header = match stdin_read(stdin) {
        Some(bytes) => bytes,
        None => { return Err(BenchError::EncodingError); },
    };
    assert(final(stdin)@ =~= old(stdin)@.skip(2));
    Ok((state, header))
}

/// Hands an output back as a guest program does under `codec`.
pub fn commit_output(codec: OutputCodec, output: &ProofOutput) -> (raw: RawOutput)
    ensures
        raw@ == commit_spec(codec, output@),
{
    match codec {
        OutputCodec::WordReveal => RawOutput::Words(reveal_words(&serialize_output(output))),
        OutputCodec::ByteBuffer => RawOutput::Bytes(serialize_output(output)),
        OutputCodec::Typed => RawOutput::Typed(*output),
    }
}

/// Decodes what came back from a run. A result of another kind than the
/// convention's, one that is too short, and words of which one is missing or
/// there twice are encoding errors.
pub fn decode_output(codec: OutputCodec, raw: &RawOutput) -> (r: Result<ProofOutput, BenchError>)
    ensures
        match r {
            Ok(output) => decode_spec(codec, raw@) == Some(output@),
            Err(e) => decode_spec(codec, raw@) is None && e == BenchError::EncodingError,
        },
{
    match (codec, raw) {
        (OutputCodec::WordReveal, RawOutput::Words(words)) => {
            match reassemble(words, OUTPUT_WIRE_LEN) {
                Ok(bytes) => deserialize_output(&bytes),
                Err(e) => Err(e),
            }
        },
        (OutputCodec::ByteBuffer, RawOutput::Bytes(bytes)) => deserialize_output(bytes),
        (OutputCodec::Typed, RawOutput::Typed(output)) => Ok(*output),
        _ => Err(BenchError::EncodingError),
    }
}

/// Under either convention the guest program reads the very bytes that
/// were encoded, provided the reader of the state stops where the state's
/// bytes end.
pub proof fn lemma_input_roundtrip(codec: InputCodec, state: Seq<u8>, header: Seq<u8>)
    ensures
        guest_input_spec(codec, encode_spec(codec, state, header), state.len()) == Some(
            (state, header),
        ),
{
    let whole = state + header;
    assert(whole.subrange(0, state.len() as int) =~= state);
    assert(whole.subrange(state.len() as int, whole.len() as int) =~= header);
}

/// The bytes of the state and of the header that a guest program reads are
/// the same under both conventions.
pub proof fn lemma_input_same_for_every_codec(
    first: InputCodec,
    second: InputCodec,
    state: Seq<u8>,
    header: Seq<u8>,
)
    ensures
        guest_input_spec(first, encode_spec(first, state, header), state.len())
            == guest_input_spec(second, encode_spec(second, state, header), state.len()),
{
    lemma_input_roundtrip(first, state, header);
    lemma_input_roundtrip(second, state, header);
}

/// Under every convention, decoding what the guest program hands back for
/// an output gives that output.
pub proof fn lemma_output_codec_roundtrip(codec: OutputCodec, output: ProofOutputView)
    requires
        output.wf(),
    ensures
        decode_spec(codec, commit_spec(codec, output)) == Some(output),
{
    lemma_output_roundtrip(output, Seq::empty());
    assert(output_wire(output) + Seq::<u8>::empty() =~= output_wire(output));
    lemma_reveal_roundtrip(output_wire(output));
}

/// What one backend reports for a fixture: the guest program reads the
/// encoded input, applies the state transition, and hands the output back;
/// the host decodes it. `transition` stands for the state transition, which
/// gives no output where it rejects the fixture.
pub open spec fn backend_result(
    input: InputCodec,
    output: OutputCodec,
    transition: spec_fn(Seq<u8>, Seq<u8>) -> Option<ProofOutputView>,
    state: Seq<u8>,
    header: Seq<u8>,
) -> Option<ProofOutputView> {
    match guest_input_spec(input, encode_spec(input, state, header), state.len()) {
        Some((read_state, read_header)) => match transition(read_state, read_header) {
            Some(committed) => decode_spec(output, commit_spec(output, committed)),
            None => None,
        },
        None => None,
    }
}

/// Whether every output of the state transition has roots of 32 bytes.
pub open spec fn gives_outputs(transition: spec_fn(Seq<u8>, Seq<u8>) -> Option<ProofOutputView>) -> bool {
    forall|state: Seq<u8>, header: Seq<u8>| #[trigger]
        transition(state, header) is Some ==> transition(state, header)->Some_0.wf()
}

/// What a backend reports is what the state transition gives when it is
/// applied to the fixture directly, off any virtual machine.
pub proof fn lemma_backend_matches_local(
    input: InputCodec,
    output: OutputCodec,
    transition: spec_fn(Seq<u8>, Seq<u8>) -> Option<ProofOutputView>,
    state: Seq<u8>,
    header: Seq<u8>,
)
    requires
        gives_outputs(transition),
    ensures
        backend_result(input, output, transition, state, header) == transition(state, header),
{
    lemma_input_roundtrip(input, state, header);
    if transition(state, header) is Some {
        lemma_output_codec_roundtrip(output, transition(state, header)->Some_0);
    }
}

/// Two backends report the same for the same fixture, whatever their
/// conventions.
pub proof fn lemma_backends_agree(
    first: (InputCodec, OutputCodec),
    second: (InputCodec, OutputCodec),
    transition: spec_fn(Seq<u8>, Seq<u8>) -> Option<ProofOutputView>,
    state: Seq<u8>,
    header: Seq<u8>,
)
    requires
        gives_outputs(transition),
    ensures
        backend_result(first.0, first.1, transition, state, header) == backend_result(
            second.0,
            second.1,
            transition,
            state,
            header,
        ),
{
    lemma_backend_matches_local(first.0, first.1, transition, state, header);
    lemma_backend_matches_local(second.0, second.1, transition, state, header);
}

} // verus!
