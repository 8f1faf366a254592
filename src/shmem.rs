//! A channel region in a named OS shared-memory segment. The owner creates the
//! segment under a fresh identifier; the peer opens it by that identifier and
//! checks that its length fits the payload size before using it.
use vstd::prelude::*;
use shared_memory::{Shmem, ShmemConf, ShmemError};
use crate::channel::{check_attach, check_layout, region_len, region_size};
use crate::error::IpcError;

verus! {

#[verifier::external_type_specification]
#[verifier::external_body]
pub struct ExShmem(Shmem);

#[verifier::external_type_specification]
#[verifier::external_body]
pub struct ExShmemError(ShmemError);

/// Relies on `ShmemConf::size` and `ShmemConf::create`: a new segment under a
/// fresh identifier; a size of zero is refused with `MapSizeZero`.
#[verifier::external_body]
fn create_segment(size: usize) -> (r: Result<Shmem, ShmemError>)
    ensures
        size == 0 ==> r is Err,
{
    ShmemConf::new().size(size).create()
}

/// Relies on `ShmemConf::os_id` and `ShmemConf::open`: maps the existing
/// segment of that identifier, at whatever length it has.
#[verifier::external_body]
fn open_segment(os_id: &str, size: usize) -> (r: Result<Shmem, ShmemError>) {
    ShmemConf::new().size(size).os_id(os_id).open()
}

/// Relies on `Shmem::len`: the length of the mapping.
#[verifier::external_body]
fn segment_len(shmem: &Shmem) -> (r: usize) {
    shmem.len()
}

/// Relies on `Shmem::get_os_id`: the identifier a peer opens the segment by.
#[verifier::external_body]
fn segment_os_id(shmem: &Shmem) -> (r: String) {
    shmem.get_os_id().to_string()
}

/// A mapped segment whose length is `region_len(data_size)`.
pub struct ShmemRegion {
    pub shmem: Shmem,
    owner: bool,
    data_size: usize,
    len: usize,
}

impl ShmemRegion {
    pub closed spec fn spec_owner(&self) -> bool {
        self.owner
    }

    pub closed spec fn spec_data_size(&self) -> nat {
        self.data_size as nat
    }

    pub closed spec fn spec_len(&self) -> nat {
        self.len as nat
    }

    pub open spec fn wf(&self) -> bool {
        self.spec_len() == region_len(self.spec_data_size())
    }

    /// Creates a segment for payloads of `data_size` bytes. It fails with a
    /// resource error where the segment cannot be made (or its length does not
    /// fit in a `usize`), and with a layout mismatch where it came back with
    /// another length.
    pub fn create(data_size: usize) -> (r: Result<ShmemRegion, IpcError>)
        ensures
            r matches Ok(region) ==> {
                &&& region.wf()
                &&& region.spec_owner()
                &&& region.spec_data_size() == data_size
            },
            r is Err ==> r == Err::<ShmemRegion, IpcError>(IpcError::ResourceError) || r == Err::<
                ShmemRegion,
                IpcError,
            >(IpcError::LayoutMismatch),
            region_len(data_size as nat) > usize::MAX ==> r == Err::<ShmemRegion, IpcError>(
                IpcError::ResourceError,
            ),
    {
        let size = match region_size(data_size) {
            Some(size) => size,
            None => return Err(IpcError::ResourceError),
        };
        let shmem = match create_segment(size) {
            Ok(shmem) => shmem,
            Err(_) => return Err(IpcError::ResourceError),
        };
        let len = segment_len(&shmem);
        match check_layout(len, data_size) {
            Ok(()) => Ok(ShmemRegion { shmem, owner: true, data_size, len }),
            Err(e) => Err(e),
        }
    }

    /// Opens the segment named `os_id` for payloads of `data_size` bytes. It
    /// fails with a resource error where no such segment can be opened, and
    /// fails fast with a layout mismatch, before any byte is touched, where the
    /// segment's length is not `region_len(data_size)`.
    pub fn open(os_id: &str, data_size: usize) -> (r: Result<ShmemRegion, IpcError>)
        ensures
            r matches Ok(region) ==> {
                &&& region.wf()
                &&& !region.spec_owner()
                &&& region.spec_data_size() == data_size
            },
            r is Err ==> r == Err::<ShmemRegion, IpcError>(IpcError::ResourceError) || r == Err::<
                ShmemRegion,
                IpcError,
            >(IpcError::LayoutMismatch),
    {
        let shmem = match open_segment(os_id, data_size) {
            Ok(shmem) => shmem,
            Err(_) => return Err(IpcError::ResourceError),
        };
        let len = segment_len(&shmem);
        match check_attach(Some(len), data_size) {
            Ok(()) => Ok(ShmemRegion { shmem, owner: false, data_size, len }),
            Err(e) => Err(e),
        }
    }

    /// Whether this side created the segment.
    pub fn is_owner(&self) -> (r: bool)
        ensures
            r == self.spec_owner(),
    {
        self.owner
    }

    /// The payload size the region was made for.
    pub fn data_size(&self) -> (r: usize)
        ensures
            r == self.spec_data_size(),
    {
        self.data_size
    }

    /// The length of the whole region: events and payload.
    pub fn len(&self) -> (r: usize)
        ensures
            r == self.spec_len(),
    {
        self.len
    }

    /// The identifier that a peer passes to `open`.
    pub fn os_id(&self) -> String {
        segment_os_id(&self.shmem)
    }
}

} // verus!
