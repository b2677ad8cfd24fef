//! The inbound text message: at most `MESSAGE_CAPACITY` bytes, held in a
//! fixed-capacity heapless vector; longer writes are truncated.
use vstd::prelude::*;

verus! {

/// Largest number of bytes of the text attribute.
pub const MESSAGE_CAPACITY: usize = 20;

#[verifier::external_type_specification]
#[verifier::external_body]
#[verifier::reject_recursive_types(T)]
pub struct ExHeaplessVec<T, const N: usize>(heapless::Vec<T, N>);

/// The bytes that a message buffer holds.
pub uninterp spec fn message_bytes(v: heapless::Vec<u8, 20>) -> Seq<u8>;

/// Relies on `heapless::Vec::from_slice`: fails exactly when the slice is
/// longer than the capacity, else holds a copy of it.
#[verifier::external_body]
fn buffer_from_slice(data: &[u8]) -> (r: Result<heapless::Vec<u8, 20>, ()>)
    ensures
        r is Ok <==> data@.len() <= 20,
        r is Ok ==> message_bytes(r->Ok_0) == data@,
{
    heapless::Vec::from_slice(data)
}

/// Relies on `heapless::Vec::as_slice`: the bytes held, copied out.
#[verifier::external_body]
fn buffer_bytes(v: &heapless::Vec<u8, 20>) -> (r: Vec<u8>)
    ensures
        r@ == message_bytes(*v),
{
    v.as_slice().to_vec()
}

/// `data` cut to its first `MESSAGE_CAPACITY` bytes.
pub open spec fn truncated(data: Seq<u8>) -> Seq<u8> {
    if data.len() > MESSAGE_CAPACITY {
        data.subrange(0, MESSAGE_CAPACITY as int)
    } else {
        data
    }
}

/// A text message of at most `MESSAGE_CAPACITY` bytes.
pub struct Message {
    buf: heapless::Vec<u8, 20>,
}

impl View for Message {
    type V = Seq<u8>;

    closed spec fn view(&self) -> Seq<u8> {
        message_bytes(self.buf)
    }
}

impl Message {
    /// A message never holds more than `MESSAGE_CAPACITY` bytes.
    pub open spec fn wf(&self) -> bool {
        self@.len() <= MESSAGE_CAPACITY
    }

    /// The message of the first `MESSAGE_CAPACITY` bytes of `data`.
    pub fn from_bytes(data: &[u8]) -> (m: Message)
        ensures
            m@ == truncated(data@),
            m.wf(),
    {
        let n = if data.len() > MESSAGE_CAPACITY { MESSAGE_CAPACITY } else { data.len() };
        let mut head: Vec<u8> = Vec::new();
        let mut i: usize = 0;
        while i < n
            invariant
                n <= data@.len(),
                n <= MESSAGE_CAPACITY,
                i <= n,
                head@ == data@.subrange(0, i as int),
            decreases n - i,
        {
            head.push(data[i]);
            i = i + 1;
            assert(head@ =~= data@.subrange(0, i as int));
        }
        assert(head@ =~= truncated(data@));
        match buffer_from_slice(head.as_slice()) {
            Ok(buf) => Message { buf },
            Err(()) => vstd::pervasive::unreached(),
        }
    }

    /// The bytes of the message.
    pub fn bytes(&self) -> (r: Vec<u8>)
        ensures
            r@ == self@,
    {
        buffer_bytes(&self.buf)
    }
}

} // verus!
