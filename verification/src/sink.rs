//! Record sinks: streams of CSV records on their way to storage.
//!
//! A sink takes records, encodes each as one CSV line and keeps the bytes
//! until they are handed to storage. A reset discards what storage holds:
//! the sink then asks for storage to be emptied before anything is appended.

use vstd::prelude::*;

verus! {

/// What the `csv` crate makes of one record with the fields `fields`, written
/// with its default settings: the bytes of the record's line, terminator
/// included, or `None` where its writer reports an error.
pub uninterp spec fn csv_record(fields: Seq<Seq<char>>) -> Option<Seq<u8>>;

/// `csv::Error`, carried from the encoder to where its text is taken.
#[verifier::external_type_specification]
#[verifier::external_body]
pub struct ExCsvError(csv::Error);

/// `csv::Writer::write_record` on a writer of its own over an empty buffer,
/// then `csv::Writer::into_inner`: the bytes of one record, or the writer's
/// error. The writer starts anew for each record and writes to memory, so
/// what comes back depends on the fields alone; it is named, not spelled
/// out.
#[verifier::external_body]
fn csv_encode(fields: &Vec<String>) -> (r: Result<Vec<u8>, csv::Error>)
    ensures
        csv_record(fields.deep_view()) == match r {
            Ok(bytes) => Some(bytes@),
            Err(_) => None::<Seq<u8>>,
        },
{
    let mut writer = csv::Writer::from_writer(Vec::new());
    writer.write_record(fields)?;
    writer.into_inner().map_err(|e| csv::Error::from(e.into_error()))
}

/// The `Display` text of a `csv::Error`.
#[verifier::external_body]
fn csv_error_text(e: &csv::Error) -> String {
    e.to_string()
}

/// A record could not be written.
#[derive(Debug)]
pub struct SinkError {
    /// What went wrong, in words.
    pub message: String,
}

/// Encodes `fields` as one CSV record. This succeeds where the encoder does,
/// with the encoder's bytes; where it does not, the error carries the
/// encoder's words.
pub fn encode_record(fields: &Vec<String>) -> (r: Result<Vec<u8>, SinkError>)
    ensures
        r is Ok <==> csv_record(fields.deep_view()) is Some,
        r matches Ok(bytes) ==> csv_record(fields.deep_view()) == Some(bytes@),
        comes_of(written(r), csv_record(fields.deep_view())),
{
    match csv_encode(fields) {
        Ok(bytes) => Ok(bytes),
        Err(e) => Err(SinkError { message: csv_error_text(&e) }),
    }
}

/// A stream of encoded records between the monitor and storage.
#[derive(Debug)]
pub struct RecordSink {
    /// Storage is to be emptied before `pending` is appended.
    pub truncate: bool,
    /// No record went in since the sink was made or last reset.
    pub fresh: bool,
    /// Encoded records that storage has not taken yet.
    pub pending: Vec<u8>,
}

/// A [`RecordSink`] as mathematical data.
#[verifier::ext_equal]
pub struct SinkView {
    pub truncate: bool,
    pub fresh: bool,
    pub pending: Seq<u8>,
}

impl View for RecordSink {
    type V = SinkView;

    open spec fn view(&self) -> SinkView {
        SinkView { truncate: self.truncate, fresh: self.fresh, pending: self.pending@ }
    }
}

/// What a write came to, as mathematical data: the bytes that went in, or
/// the message of the failure.
pub type Written = Result<Seq<u8>, Seq<char>>;

/// The outcome of encoding a record, seen as the outcome of a write.
pub open spec fn written(encoded: Result<Vec<u8>, SinkError>) -> Written {
    match encoded {
        Ok(bytes) => Ok(bytes@),
        Err(e) => Err(e.message@),
    }
}

/// Whether `outcome` is what a write comes to when the encoder gives
/// `encoding`: the encoder's bytes go in, and there is a failure exactly
/// where the encoder gave none. What the message of a failure says is the
/// encoder's affair.
pub open spec fn comes_of(outcome: Written, encoding: Option<Seq<u8>>) -> bool {
    match encoding {
        Some(bytes) => outcome == Ok::<Seq<u8>, Seq<char>>(bytes),
        None => outcome is Err,
    }
}

impl SinkView {
    /// A sink that starts over: storage is emptied, nothing is pending.
    pub open spec fn cleared() -> SinkView {
        SinkView { truncate: true, fresh: true, pending: Seq::empty() }
    }

    /// The sink after `bytes` went in.
    pub open spec fn wrote(self, bytes: Seq<u8>) -> SinkView {
        SinkView { truncate: self.truncate, fresh: false, pending: self.pending + bytes }
    }

    /// The sink after a write that came to `outcome`: a failed write leaves
    /// it as it was.
    pub open spec fn after(self, outcome: Written) -> SinkView {
        match outcome {
            Ok(bytes) => self.wrote(bytes),
            Err(_) => self,
        }
    }

    /// The sink after storage took what was pending.
    pub open spec fn drained(self) -> SinkView {
        SinkView { truncate: false, fresh: self.fresh, pending: Seq::empty() }
    }

    /// What storage holds once it has taken what is pending, if it held
    /// `stored` before.
    pub open spec fn applied_to(self, stored: Seq<u8>) -> Seq<u8> {
        if self.truncate {
            self.pending
        } else {
            stored + self.pending
        }
    }
}

impl RecordSink {
    /// A sink over storage that is to start empty.
    pub fn new() -> (r: RecordSink)
        ensures
            r@ == SinkView::cleared(),
    {
        RecordSink { truncate: true, fresh: true, pending: Vec::new() }
    }

    /// Starts over: what storage holds and what is pending are discarded.
    pub fn reset(&mut self)
        ensures
            final(self)@ == SinkView::cleared(),
    {
        self.truncate = true;
        self.fresh = true;
        self.pending = Vec::new();
    }

    /// Takes in the outcome of encoding: the bytes of a record that was
    /// encoded go in, a failure is handed on and changes nothing.
    pub fn accept(&mut self, encoded: Result<Vec<u8>, SinkError>) -> (r: Result<(), SinkError>)
        ensures
            final(self)@ == old(self)@.after(written(encoded)),
            match encoded {
                Ok(_) => r is Ok,
                Err(e) => r == Err::<(), SinkError>(e),
            },
    {
        match encoded {
            Ok(mut bytes) => {
                self.pending.append(&mut bytes);
                self.fresh = false;
                Ok(())
            },
            Err(e) => Err(e),
        }
    }

    /// Writes one record: where the encoder gives its bytes, they go in and
    /// the write succeeds; where it gives none, the write fails and the sink
    /// is left as it was.
    pub fn write_record(&mut self, fields: &Vec<String>) -> (r: Result<(), SinkError>)
        ensures
            match csv_record(fields.deep_view()) {
                Some(bytes) => r is Ok && final(self)@ == old(self)@.wrote(bytes),
                None => r is Err && final(self)@ == old(self)@,
            },
    {
        let encoded = encode_record(fields);
        self.accept(encoded)
    }

    /// Hands what is pending to storage: whether storage is to be emptied
    /// first, and the bytes to append after that.
    pub fn drain(&mut self) -> (r: (bool, Vec<u8>))
        ensures
            r.0 == old(self).truncate,
            r.1@ == old(self).pending@,
            final(self)@ == old(self)@.drained(),
    {
        let truncate = self.truncate;
        let mut bytes: Vec<u8> = Vec::new();
        bytes.append(&mut self.pending);
        self.truncate = false;
        (truncate, bytes)
    }
}

/// Storage ends up with the same content whether or not it takes what is
/// pending before a write.
pub proof fn lemma_drain_keeps_content(sink: SinkView, stored: Seq<u8>, bytes: Seq<u8>)
    ensures
        sink.drained().wrote(bytes).applied_to(sink.applied_to(stored)) == sink.wrote(
            bytes,
        ).applied_to(stored),
{
}

/// A write puts its bytes at the end of what storage ends up with.
pub proof fn lemma_write_appends(sink: SinkView, stored: Seq<u8>, bytes: Seq<u8>)
    ensures
        sink.wrote(bytes).applied_to(stored) == sink.applied_to(stored) + bytes,
{
}

/// After a reset, nothing of what storage held before is left, whatever it
/// was: storage ends up with the records written since.
pub proof fn lemma_reset_discards(stored: Seq<u8>, bytes: Seq<u8>)
    ensures
        SinkView::cleared().applied_to(stored) == Seq::<u8>::empty(),
        SinkView::cleared().wrote(bytes).applied_to(stored) == bytes,
{
}

} // verus!
