//! Errors and the single-slot, last-write-wins error channel.
use vstd::prelude::*;
use vstd::utf8::encode_utf8;

verus! {

/// The category of a failure.
#[derive(Clone, Copy, Debug, PartialEq, Eq, Structural)]
pub enum ErrorKind {
    /// Missing input, or an unusable output buffer.
    InvalidArgument,
    /// The PNG or JPEG stream could not be decoded.
    DecodeFailure,
    /// The input decodes to a pixel layout that is not handled (CMYK JPEG).
    UnsupportedFormat,
    /// The AVIF encoder reported a failure.
    EncodeFailure,
}

/// A failure with its category and the human-readable message that the
/// error channel hands out.
#[derive(Debug)]
pub struct FfiAvifError {
    pub kind: ErrorKind,
    pub details: String,
}

/// What a caller can observe of an error: its category and its message.
pub type ErrorModel = (ErrorKind, Seq<char>);

impl FfiAvifError {
    pub open spec fn model(&self) -> ErrorModel {
        (self.kind, self.details@)
    }

    /// The rendered message as the UTF-8 bytes that a reader receives.
    pub open spec fn message_bytes(&self) -> Seq<u8> {
        encode_utf8(self.details@)
    }

    pub fn new(kind: ErrorKind, msg: &str) -> (r: FfiAvifError)
        ensures
            r.kind == kind,
            r.details@ == msg@,
    {
        FfiAvifError { kind, details: msg.to_string() }
    }

    /// Builds an error that carries an already owned message.
    pub fn with_message(kind: ErrorKind, details: String) -> (r: FfiAvifError)
        ensures
            r.kind == kind,
            r.details@ == details@,
    {
        FfiAvifError { kind, details }
    }

    /// The message, as the string a caller reads back.
    pub fn message(&self) -> (r: &str)
        ensures
            r@ == self.details@,
    {
        self.details.as_str()
    }
}

/// One thread's error slot: it holds the most recent failure, if any.
pub struct ErrorSlot {
    pub last: Option<FfiAvifError>,
}

impl ErrorSlot {
    pub open spec fn model(&self) -> Option<ErrorModel> {
        match self.last {
            Some(e) => Some(e.model()),
            None => None,
        }
    }

    /// A slot that holds no error, as a thread starts with.
    pub fn new() -> (r: ErrorSlot)
        ensures
            r.last.is_none(),
            length_report(r) == 0,
    {
        ErrorSlot { last: None }
    }
}

/// The value `last_error_length` reports: 0 for an empty slot, else the
/// message's byte length plus one for the terminator, saturated at the
/// largest C `int` for a message that no C `int` can describe.
pub open spec fn length_report(slot: ErrorSlot) -> int {
    match slot.last {
        None => 0,
        Some(e) => if e.message_bytes().len() + 1 <= i32::MAX {
            e.message_bytes().len() + 1 as int
        } else {
            i32::MAX as int
        },
    }
}

/// The value `last_error_message` returns for a buffer of `capacity` bytes.
pub open spec fn message_report(slot: ErrorSlot, capacity: nat) -> int {
    match slot.last {
        None => 0,
        Some(e) => if e.message_bytes().len() < capacity {
            e.message_bytes().len() as int
        } else {
            -1
        },
    }
}

/// The slot after a `last_error_message` call: a read always consumes the
/// stored error, also when the buffer turns out too small for it.
pub open spec fn slot_after_read(slot: ErrorSlot, capacity: nat) -> ErrorSlot {
    ErrorSlot { last: None }
}

/// The buffer after a successful `last_error_message` call: the message's
/// bytes, one terminating zero, and the rest of the buffer as it was.
pub open spec fn written_buffer(old_buf: Seq<u8>, msg: Seq<u8>) -> Seq<u8> {
    msg + seq![0u8] + old_buf.skip(msg.len() + 1 as int)
}

/// Stores `err`, replacing whatever the slot held before.
pub fn update_last_error(slot: &mut ErrorSlot, err: FfiAvifError)
    ensures
        final(slot).last == Some(err),
{
    slot.last = Some(err);
}

/// Hands out the stored error and leaves the slot empty.
pub fn take_last_error(slot: &mut ErrorSlot) -> (r: Option<FfiAvifError>)
    ensures
        r == old(slot).last,
        final(slot).last.is_none(),
{
    slot.last.take()
}

/// The byte length of the stored message plus one, or 0 when the slot is
/// empty. The slot is left as it is.
pub fn last_error_length(slot: &ErrorSlot) -> (r: i32)
    ensures
        r as int == length_report(*slot),
{
    match &slot.last {
        None => 0,
        Some(e) => {
            let n = e.details.as_str().as_bytes().len();
            if n < i32::MAX as usize {
                (n + 1) as i32
            } else {
                i32::MAX
            }
        },
    }
}

/// Moves the stored message into `buffer` as UTF-8 followed by a zero byte
/// and returns its byte length; returns 0, writing nothing, when no error is
/// stored. A read always consumes the stored error: when the message and its
/// terminator do not fit, the error is dropped, nothing is written, and -1
/// comes back.
pub fn last_error_message(slot: &mut ErrorSlot, buffer: &mut [u8]) -> (r: i32)
    requires
        old(buffer)@.len() <= i32::MAX,
    ensures
        r as int == message_report(*old(slot), old(buffer)@.len()),
        *final(slot) == slot_after_read(*old(slot), old(buffer)@.len()),
        match old(slot).last {
            Some(e) if r >= 0 => final(buffer)@ == written_buffer(old(buffer)@, e.message_bytes()),
            _ => final(buffer)@ == old(buffer)@,
        },
{
    let err = match take_last_error(slot) {
        Some(e) => e,
        None => return 0,
    };
    let bytes = err.details.as_str().as_bytes();
    let n = bytes.len();
    if n >= buffer.len() {
        return -1;
    }
    let ghost before = buffer@;
    let mut i: usize = 0;
    while i < n
        invariant
            i <= n,
            n < buffer@.len(),
            bytes@ == err.message_bytes(),
            n == bytes@.len(),
            buffer@.len() == before.len(),
            forall|j: int| 0 <= j < i ==> buffer@[j] == bytes@[j],
            forall|j: int| i <= j < before.len() ==> buffer@[j] == before[j],
        decreases n - i,
    {
        buffer[i] = bytes[i];
        i = i + 1;
    }
    buffer[n] = 0;
    assert(buffer@ =~= written_buffer(before, bytes@));
    n as i32
}

/// The slot after `update_last_error(slot, err)`.
pub open spec fn recorded(err: FfiAvifError) -> ErrorSlot {
    ErrorSlot { last: Some(err) }
}

/// A fresh slot reports length 0, and so does every slot that a read with a
/// buffer has just drained, whatever it held before.
pub proof fn lemma_empty_slot_reports_zero(slot: ErrorSlot, capacity: nat)
    ensures
        length_report(ErrorSlot { last: None }) == 0,
        length_report(slot_after_read(slot, capacity)) == 0,
{
}

/// After an error with an `L`-byte message is recorded, the length report is
/// `L + 1`; a read with room for `L + 1` bytes returns `L` and leaves the
/// length report at 0; a read with less room returns -1.
pub proof fn lemma_recorded_error_round_trip(before: ErrorSlot, err: FfiAvifError, capacity: nat)
    requires
        err.message_bytes().len() + 1 <= i32::MAX,
    ensures
        ({
            let l = err.message_bytes().len();
            let s = recorded(err);
            &&& length_report(s) == l + 1
            &&& capacity >= l + 1 ==> message_report(s, capacity) == l
            &&& length_report(slot_after_read(s, capacity)) == 0
            &&& capacity < l + 1 ==> message_report(s, capacity) == -1
        }),
{
}

} // verus!
