//! Raw buffer descriptors and per-buffer extraction planning.

use vstd::prelude::*;

use crate::format::NegotiatedFormat;

verus! {

/// Transport kind of a collaborator-owned buffer: process-local pointer,
/// anonymous shared-memory descriptor, DMA-capable descriptor, or something
/// this engine cannot read.
#[derive(Clone, Copy, PartialEq, Eq, Structural, Debug)]
pub enum Transport {
    MemPtr,
    MemFd,
    DmaBuf,
    Unrecognized,
}

/// Kind of one entry in a buffer's metadata block list.
#[derive(Clone, Copy, PartialEq, Eq, Structural, Debug)]
pub enum MetaKind {
    /// The header block that carries the presentation timestamp.
    Header,
    Other,
}

/// One entry of a buffer's metadata block list, decoded into plain values.
#[derive(Clone, Copy, PartialEq, Eq, Structural, Debug)]
pub struct MetaEntry {
    pub kind: MetaKind,
    /// Presentation timestamp; only meaningful on a `Header` entry.
    pub pts: i64,
}

/// A transient, collaborator-owned buffer descriptor, decoded into plain
/// values.  The engine reads it during one extraction and must hand the
/// underlying handle back afterwards, never retaining it.
#[derive(Clone, Debug)]
pub struct BufferDescriptor {
    pub transport: Transport,
    /// Number of data planes the buffer carries.
    pub n_datas: u32,
    /// Declared capacity of the first data plane, in bytes.
    pub declared_len: u32,
    /// Byte offset at which a descriptor-backed buffer must be mapped.
    pub offset: u64,
    /// Underlying file descriptor; only meaningful for `MemFd` and `DmaBuf`.
    pub fd: i32,
    /// The buffer's metadata block list.
    pub metas: Vec<MetaEntry>,
}

/// Why one buffer could not yield a frame.  Each value concerns that buffer
/// alone: the capture loop skips it and goes on.
#[derive(Clone, Copy, PartialEq, Eq, Structural, Debug)]
pub enum BufferFault {
    /// The transport kind is outside the three supported kinds; the engine
    /// has no general byte-extraction fallback.
    UnsupportedTransport,
    /// A non-zero tiling modifier: tiled memory cannot be read as a linear
    /// byte sequence.
    UnsupportedModifier,
    /// The negotiated pixel layout is outside the set dispatch can decode.
    UnsupportedLayout,
    /// Querying the allocation size of a descriptor-backed buffer failed.
    FileStatus,
    /// Mapping the allocation into this process failed.
    MapFailed,
    /// A begin/end CPU-access synchronisation call failed.
    CacheSync,
    /// The bytes read fall short of one full frame under the negotiated
    /// format.
    ShortPayload,
}

/// How to read one buffer, decided from its descriptor and the negotiated
/// format before any memory is touched.
#[derive(Clone, Copy, PartialEq, Eq, Structural, Debug)]
pub enum ExtractPlan {
    /// Fewer than one data plane: no frame, and no error.
    Skip,
    /// Read the declared capacity straight out of already-mapped memory.
    ReadMapped { len: u32 },
    /// Query the allocation size, map it at `offset`, and bracket the copy
    /// with begin/end CPU-access synchronisation on `fd`.
    ReadDma { fd: i32, offset: u64 },
}

/// The extraction decision for one buffer under one negotiated format.
pub open spec fn spec_plan(desc: BufferDescriptor, format: NegotiatedFormat) -> Result<
    ExtractPlan,
    BufferFault,
> {
    if desc.n_datas < 1 {
        Ok(ExtractPlan::Skip)
    } else {
        match desc.transport {
            Transport::DmaBuf => if format.modifier != 0 {
                Err(BufferFault::UnsupportedModifier)
            } else {
                Ok(ExtractPlan::ReadDma { fd: desc.fd, offset: desc.offset })
            },
            Transport::MemPtr => Ok(ExtractPlan::ReadMapped { len: desc.declared_len }),
            Transport::MemFd => Ok(ExtractPlan::ReadMapped { len: desc.declared_len }),
            Transport::Unrecognized => Err(BufferFault::UnsupportedTransport),
        }
    }
}

/// Decides how one buffer is to be read: buffers without a data plane are
/// skipped, pointer and shared-memory buffers are read at their declared
/// capacity, DMA buffers demand a linear tiling modifier and a bracketed
/// copy, and any other transport kind is refused.
pub fn plan_extraction(desc: &BufferDescriptor, format: &NegotiatedFormat) -> (r: Result<
    ExtractPlan,
    BufferFault,
>)
    ensures
        r == spec_plan(*desc, *format),
{
    if desc.n_datas < 1 {
        return Ok(ExtractPlan::Skip);
    }
    match desc.transport {
        Transport::DmaBuf => {
            if format.modifier != 0 {
                Err(BufferFault::UnsupportedModifier)
            } else {
                Ok(ExtractPlan::ReadDma { fd: desc.fd, offset: desc.offset })
            }
        },
        Transport::MemPtr => Ok(ExtractPlan::ReadMapped { len: desc.declared_len }),
        Transport::MemFd => Ok(ExtractPlan::ReadMapped { len: desc.declared_len }),
        Transport::Unrecognized => Err(BufferFault::UnsupportedTransport),
    }
}

/// The presentation timestamp of a metadata list: the `pts` of its first
/// header entry, or 0 when no header entry is present.
pub open spec fn spec_timestamp(metas: Seq<MetaEntry>) -> i64
    decreases metas.len(),
{
    if metas.len() == 0 {
        0
    } else if metas[0].kind is Header {
        metas[0].pts
    } else {
        spec_timestamp(metas.drop_first())
    }
}

/// Scans the metadata block list for a header entry and returns its
/// presentation timestamp; absence of a header is not an error and yields 0.
pub fn timestamp_of(metas: &Vec<MetaEntry>) -> (t: i64)
    ensures
        t == spec_timestamp(metas@),
{
    let mut i: usize = 0;
    proof {
        assert(metas@.skip(0) =~= metas@);
    }
    while i < metas.len()
        invariant
            0 <= i <= metas@.len(),
            spec_timestamp(metas@) == spec_timestamp(metas@.skip(i as int)),
        decreases metas@.len() - i,
    {
        proof {
            assert(metas@.skip(i as int)[0] == metas@[i as int]);
        }
        match metas[i].kind {
            MetaKind::Header => {
                return metas[i].pts;
            },
            MetaKind::Other => {},
        }
        proof {
            assert(metas@.skip(i as int).drop_first() =~= metas@.skip(i as int + 1));
        }
        i = i + 1;
    }
    0
}

/// Collaborator-supplied timestamps count from a monotonic origin; anything
/// at or below zero stands for "unavailable" and becomes 0.
pub open spec fn spec_display_time(pts: i64) -> u64 {
    if pts <= 0 {
        0
    } else {
        pts as u64
    }
}

/// Converts a raw presentation timestamp into the frame's display time.
pub fn display_time_of(pts: i64) -> (t: u64)
    ensures
        t == spec_display_time(pts),
{
    if pts <= 0 {
        0
    } else {
        pts as u64
    }
}

/// Relies on `rustix::param::page_size`: returns the process' memory page
/// size, `sysconf(_SC_PAGESIZE)`, which is at least one byte.
#[verifier::external_body]
fn host_page_size() -> (n: usize)
    ensures
        1 <= n,
{
    rustix::param::page_size()
}

/// `n` is `size` rounded up to a whole number of `page`-byte pages: the one
/// multiple of `page` in `[size, size + page)`.
pub open spec fn spec_rounded_to_page(n: u64, size: i64, page: u64) -> bool {
    &&& 1 <= page
    &&& 0 <= size <= n
    &&& n % page == 0
    &&& n < size + page
}

/// Rounds a queried allocation size up to a whole number of pages.  Only a
/// negative size is refused: the rounded length of any nonnegative `i64`
/// size fits, whatever the page size.
pub fn dma_map_len(st_size: i64, page: u64) -> (r: Option<u64>)
    requires
        1 <= page,
    ensures
        st_size < 0 <==> r is None,
        r matches Some(n) ==> spec_rounded_to_page(n, st_size, page),
{
    if st_size < 0 {
        return None;
    }
    let size: u64 = st_size as u64;
    let rem: u64 = size % page;
    if rem == 0 {
        Some(size)
    } else {
        let padding: u64 = page - rem;
        proof {
            let q = size as int / page as int;
            vstd::arithmetic::div_mod::lemma_fundamental_div_mod(size as int, page as int);
            if size < page {
                // The whole padded length is then one page, which fits.
                vstd::arithmetic::div_mod::lemma_small_mod(size as nat, page as nat);
            }
            assert((q + 1) * page as int == q * page as int + page as int) by (nonlinear_arith);
            vstd::arithmetic::div_mod::lemma_fundamental_div_mod_converse(
                size as int + padding as int,
                page as int,
                q + 1,
                0,
            );
        }
        Some(size + padding)
    }
}

/// Page-rounded mapping length for a DMA allocation, under the host page
/// size: a negative size is refused, and any other size yields its rounding
/// up to a whole number of the host's pages.
pub fn dma_map_len_host(st_size: i64) -> (r: Option<u64>)
    ensures
        st_size < 0 <==> r is None,
        r matches Some(n) ==> exists|page: u64| spec_rounded_to_page(n, st_size, page),
{
    let page: usize = host_page_size();
    let r = dma_map_len(st_size, page as u64);
    proof {
        match r {
            Some(n) => {
                assert(spec_rounded_to_page(n, st_size, page as u64));
            },
            None => {},
        }
    }
    r
}

} // verus!
