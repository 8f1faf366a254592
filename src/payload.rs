//! Deterministic request and response buffers for the benchmark loop.
use vstd::prelude::*;

verus! {

/// The byte that fills every request.
pub const REQUEST_BYTE: u8 = 1;

/// The byte that fills every response.
pub const RESPONSE_BYTE: u8 = 2;

/// `size` copies of `byte`.
pub open spec fn filled_with(size: nat, byte: u8) -> Seq<u8> {
    Seq::new(size, |_i: int| byte)
}

/// The request of a given size: a function of the size alone, so that a second
/// process derives the same bytes from the same number.
pub open spec fn request_of(size: nat) -> Seq<u8> {
    filled_with(size, REQUEST_BYTE)
}

/// The response of a given size.
pub open spec fn response_of(size: nat) -> Seq<u8> {
    filled_with(size, RESPONSE_BYTE)
}

fn filled(size: usize, byte: u8) -> (r: Vec<u8>)
    ensures
        r@ == filled_with(size as nat, byte),
{
    let mut v: Vec<u8> = Vec::with_capacity(size);
    let mut i: usize = 0;
    while i < size
        invariant
            i <= size,
            v@ == filled_with(i as nat, byte),
        decreases size - i,
    {
        v.push(byte);
        i = i + 1;
        assert(v@ =~= filled_with(i as nat, byte));
    }
    v
}

/// Builds the request and the response for payloads of `data_size` bytes.
pub fn get_payload(data_size: usize) -> (r: (Vec<u8>, Vec<u8>))
    ensures
        r.0@ == request_of(data_size as nat),
        r.1@ == response_of(data_size as nat),
{
    (filled(data_size, REQUEST_BYTE), filled(data_size, RESPONSE_BYTE))
}

/// For every size of at least one byte, the request and the response both have
/// that length and differ, so a receiver tells them apart from their bytes
/// alone. Both are spec functions of the size, so every call of `get_payload`
/// with the same size, in any process, yields the same bytes.
pub proof fn lemma_payload_distinct(size: nat)
    requires
        size >= 1,
    ensures
        request_of(size).len() == size,
        response_of(size).len() == size,
        request_of(size) != response_of(size),
{
    assert(request_of(size)[0] != response_of(size)[0]);
}

} // verus!
