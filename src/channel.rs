//! The byte layout of a shared channel and the only code that touches its raw
//! bytes: copying a payload in and viewing it in place.
//!
//! A region holds, in order, the owner's event (two bytes), the peer's event
//! (two bytes) and the payload. The two events carry a strict alternating
//! handshake: a side clears its own event, copies its payload in, then sets its
//! event; the other side waits on that event and then reads. Nothing here stops
//! two writers at once: the protocol is sound only while exactly one side holds
//! the turn, and a caller that breaks the alternation corrupts the channel
//! without any sign.
use vstd::prelude::*;
use crate::error::IpcError;

verus! {

/// Offset of the event that the region's owner signals.
pub const OWNER_EVENT_OFFSET: usize = 0;

/// Offset of the event that the attaching peer signals.
pub const PEER_EVENT_OFFSET: usize = 2;

/// Offset of the first payload byte.
pub const DATA_START: usize = 4;

/// Length of a region that carries payloads of `data_size` bytes.
pub open spec fn region_len(data_size: nat) -> nat {
    data_size + DATA_START as nat
}

/// The region's bytes after `data` was copied to the payload offset.
pub open spec fn with_payload(region: Seq<u8>, data: Seq<u8>) -> Seq<u8> {
    region.subrange(0, DATA_START as int) + data + region.subrange(
        DATA_START + data.len(),
        region.len() as int,
    )
}

/// The payload of `data_size` bytes that a region holds.
pub open spec fn payload_of(region: Seq<u8>, data_size: nat) -> Seq<u8> {
    region.subrange(DATA_START as int, DATA_START + data_size)
}

/// The length of the region for payloads of `data_size` bytes, or `None` where
/// it does not fit in a `usize`.
pub fn region_size(data_size: usize) -> (r: Option<usize>)
    ensures
        r matches Some(n) ==> n == region_len(data_size as nat),
        r is None <==> region_len(data_size as nat) > usize::MAX,
{
    data_size.checked_add(DATA_START)
}

/// The offsets of this side's own event and of the other side's event.
pub fn event_offsets(owner: bool) -> (r: (usize, usize))
    ensures
        r == (if owner {
            (OWNER_EVENT_OFFSET, PEER_EVENT_OFFSET)
        } else {
            (PEER_EVENT_OFFSET, OWNER_EVENT_OFFSET)
        }),
{
    if owner {
        (OWNER_EVENT_OFFSET, PEER_EVENT_OFFSET)
    } else {
        (PEER_EVENT_OFFSET, OWNER_EVENT_OFFSET)
    }
}

/// Checks that a region of `len` bytes has the layout for payloads of
/// `data_size` bytes.
pub fn check_layout(len: usize, data_size: usize) -> (r: Result<(), IpcError>)
    ensures
        r is Ok <==> len as nat == region_len(data_size as nat),
        r is Err ==> r == Err::<(), IpcError>(IpcError::LayoutMismatch),
{
    if len >= DATA_START && len - DATA_START == data_size {
        Ok(())
    } else {
        Err(IpcError::LayoutMismatch)
    }
}

/// Decides an attach from what opening the backing store gave: `None` where it
/// could not be opened, else the length of the region found.
pub fn check_attach(opened: Option<usize>, data_size: usize) -> (r: Result<(), IpcError>)
    ensures
        opened is None ==> r == Err::<(), IpcError>(IpcError::ResourceError),
        opened matches Some(len) ==> (r is Ok <==> len as nat == region_len(data_size as nat)),
        opened matches Some(len) && len as nat != region_len(data_size as nat) ==> r == Err::<
            (),
            IpcError,
        >(IpcError::LayoutMismatch),
{
    match opened {
        None => Err(IpcError::ResourceError),
        Some(len) => check_layout(len, data_size),
    }
}

/// Copies `data` to the payload offset of `region`; the events and the bytes
/// past the payload stay as they were.
pub fn write_payload(region: &mut [u8], data: &[u8])
    requires
        DATA_START + data@.len() <= old(region)@.len(),
    ensures
        final(region)@ == with_payload(old(region)@, data@),
{
    let n = data.len();
    let len = region.len();
    let mut i: usize = 0;
    while i < n
        invariant
            n == data@.len(),
            DATA_START + n <= region@.len(),
            len == region@.len(),
            region@.len() == old(region)@.len(),
            i <= n,
            forall|k: int| 0 <= k < DATA_START ==> region@[k] == old(region)@[k],
            forall|k: int| 0 <= k < i ==> region@[DATA_START + k] == data@[k],
            forall|k: int|
                DATA_START + i <= k < region@.len() ==> region@[k] == old(region)@[k],
        decreases n - i,
    {
        region[DATA_START + i] = data[i];
        i = i + 1;
    }
    assert(region@ =~= with_payload(old(region)@, data@));
}

/// The payload of `data_size` bytes, viewed in place.
pub fn read_payload(region: &[u8], data_size: usize) -> (r: &[u8])
    requires
        region_len(data_size as nat) <= region@.len(),
    ensures
        r@ == payload_of(region@, data_size as nat),
{
    let len = region.len();
    vstd::slice::slice_subrange(region, DATA_START, DATA_START + data_size)
}

/// Whether two byte strings are equal.
pub fn bytes_equal(a: &[u8], b: &[u8]) -> (r: bool)
    ensures
        r == (a@ == b@),
{
    if a.len() != b.len() {
        return false;
    }
    let mut i: usize = 0;
    while i < a.len()
        invariant
            a@.len() == b@.len(),
            i <= a@.len(),
            forall|k: int| 0 <= k < i ==> a@[k] == b@[k],
        decreases a@.len() - i,
    {
        if a[i] != b[i] {
            return false;
        }
        i = i + 1;
    }
    assert(a@ =~= b@);
    true
}

} // verus!
