//! The input stream of a guest program: a queue of byte records.

use openvm_stark_sdk::openvm_stark_backend::p3_field::PrimeField32;
use vstd::prelude::*;

verus! {

/// The queue of records that a guest program reads its input from, oldest
/// record first. It is OpenVM's `StdIn`, filled with bytes only.
#[verifier::external_body]
pub struct StdIn {
    inner: openvm_sdk::StdIn,
}

/// The records waiting in the queue, oldest first, each as its bytes.
pub uninterp spec fn stdin_records(stdin: StdIn) -> Seq<Seq<u8>>;

impl View for StdIn {
    type V = Seq<Seq<u8>>;

    open spec fn view(&self) -> Seq<Seq<u8>> {
        stdin_records(*self)
    }
}

/// `StdIn::default`: a queue with no record in it.
#[verifier::external_body]
pub(crate) fn stdin_new() -> (stdin: StdIn)
    ensures
        stdin_records(stdin) == Seq::<Seq<u8>>::empty(),
{
    StdIn { inner: openvm_sdk::StdIn::default() }
}

/// `StdIn::write_bytes`: puts the bytes at the back of the queue as one
/// record.
#[verifier::external_body]
pub(crate) fn stdin_write_bytes(stdin: &mut StdIn, data: &Vec<u8>)
    ensures
        stdin_records(*final(stdin)) == stdin_records(*old(stdin)).push(data@),
{
    stdin.inner.write_bytes(data.as_slice())
}

/// `StdIn::from_bytes`: a queue that holds the bytes as its only record.
#[verifier::external_body]
pub(crate) fn stdin_from_bytes(data: &Vec<u8>) -> (stdin: StdIn)
    ensures
        stdin_records(stdin) == seq![data@],
{
    StdIn { inner: openvm_sdk::StdIn::from_bytes(data.as_slice()) }
}

/// `StdIn::read`: takes the oldest record off the queue, if there is one,
/// and hands out its bytes.
#[verifier::external_body]
pub(crate) fn stdin_read(stdin: &mut StdIn) -> (record: Option<Vec<u8>>)
    ensures
        stdin_records(*old(stdin)).len() == 0 ==> record is None && stdin_records(*final(stdin))
            == stdin_records(*old(stdin)),
        stdin_records(*old(stdin)).len() > 0 ==> record is Some && record->Some_0@
            == stdin_records(*old(stdin))[0] && stdin_records(*final(stdin)) == stdin_records(
            *old(stdin),
        ).drop_first(),
{
    let record = stdin.inner.read();
    record.map(|fields| fields.iter().map(|f| f.as_canonical_u32() as u8).collect())
}

impl StdIn {
    /// Takes every record off the queue, oldest first.
    pub fn into_records(self) -> (records: Vec<Vec<u8>>)
        ensures
            records@.len() == self@.len(),
            forall|i: int| 0 <= i < records@.len() ==> (#[trigger] records@[i])@ == self@[i],
    {
        let ghost all = self@;
        let mut stdin = self;
        let mut records: Vec<Vec<u8>> = Vec::new();
        loop
            invariant
                all == self@,
                records@.len() + stdin@.len() == all.len(),
                forall|i: int| 0 <= i < records@.len() ==> (#[trigger] records@[i])@ == all[i],
                forall|i: int| 0 <= i < stdin@.len() ==> stdin@[i] == all[records@.len() + i],
            decreases stdin@.len(),
        {
            match stdin_read(&mut stdin) {
                Some(record) => {
                    records.push(record);
                },
                None => {
                    return records;
                },
            }
        }
    }
}

} // verus!
