use vstd::prelude::*;
use std::io::IoSlice;
use tokio_io_utility::IoSliceExt;

verus! {

/// A contiguous run of bytes that can be measured and cut down to a prefix
/// of itself.
pub trait ByteBuf: Sized {
    /// The bytes the buffer holds.
    spec fn bytes_view(&self) -> Seq<u8>;

    /// The number of bytes held.
    fn byte_len(&self) -> (r: usize)
        ensures
            r == self.bytes_view().len(),
    ;

    /// A buffer holding the first `end` bytes of this one.
    fn head(&self, end: usize) -> (r: Self)
        requires
            end <= self.bytes_view().len(),
        ensures
            r.bytes_view() == self.bytes_view().take(end as int),
    ;
}

impl ByteBuf for Vec<u8> {
    open spec fn bytes_view(&self) -> Seq<u8> {
        self@
    }

    fn byte_len(&self) -> (r: usize) {
        self.len()
    }

    fn head(&self, end: usize) -> (r: Self) {
        let mut out: Vec<u8> = Vec::new();
        let mut i: usize = 0;
        while i < end
            invariant
                end <= self@.len(),
                i <= end,
                out@ == self@.take(i as int),
            decreases end - i,
        {
            out.push(self[i]);
            i = i + 1;
            assert(out@ =~= self@.take(i as int));
        }
        out
    }
}

#[verifier::external_type_specification]
#[verifier::external_body]
pub struct ExBytes(bytes::Bytes);

/// What a `bytes::Bytes` holds.
pub uninterp spec fn bytes_content(b: bytes::Bytes) -> Seq<u8>;

/// Relies on `bytes::Bytes::len`: the number of bytes in the buffer.
pub assume_specification[ bytes::Bytes::len ](b: &bytes::Bytes) -> (r: usize)
    ensures
        r == bytes_content(*b).len(),
;

/// Relies on `bytes::Bytes::slice`: `slice(0..end)` shares the first `end`
/// bytes of the buffer; it panics when `end` passes the length.
#[verifier::external_body]
fn bytes_head(b: &bytes::Bytes, end: usize) -> (r: bytes::Bytes)
    requires
        end <= bytes_content(*b).len(),
    ensures
        bytes_content(r) == bytes_content(*b).take(end as int),
{
    b.slice(0..end)
}

impl ByteBuf for bytes::Bytes {
    open spec fn bytes_view(&self) -> Seq<u8> {
        bytes_content(*self)
    }

    fn byte_len(&self) -> (r: usize) {
        self.len()
    }

    fn head(&self, end: usize) -> (r: Self) {
        bytes_head(self, end)
    }
}

#[verifier::external_type_specification]
#[verifier::external_body]
pub struct ExIoSlice<'a>(IoSlice<'a>);

/// The bytes an `std::io::IoSlice` points to.
pub uninterp spec fn io_slice_content(s: IoSlice<'_>) -> Seq<u8>;

/// Relies on `IoSlice`'s `Deref` to `[u8]`: the length of the slice it
/// points to.
#[verifier::external_body]
fn io_slice_len(s: &IoSlice<'_>) -> (r: usize)
    ensures
        r == io_slice_content(*s).len(),
{
    s.len()
}

/// Relies on `tokio_io_utility::IoSliceExt::into_inner`: the slice that an
/// `IoSlice` points to, for as long as the `IoSlice` may live; its first
/// `end` bytes are wrapped anew.
#[verifier::external_body]
fn io_slice_head<'a>(s: &IoSlice<'a>, end: usize) -> (r: IoSlice<'a>)
    requires
        end <= io_slice_content(*s).len(),
    ensures
        io_slice_content(r) == io_slice_content(*s).take(end as int),
{
    IoSlice::new(&(*s).into_inner()[..end])
}

impl<'a> ByteBuf for IoSlice<'a> {
    open spec fn bytes_view(&self) -> Seq<u8> {
        io_slice_content(*self)
    }

    fn byte_len(&self) -> (r: usize) {
        io_slice_len(self)
    }

    fn head(&self, end: usize) -> (r: Self) {
        io_slice_head(self, end)
    }
}

} // verus!
