//! Splitting a scatter/gather list of buffers into a batch that fits a byte
//! limit: the whole buffers that fit, then the front part of the first one
//! that does not.
use vstd::prelude::*;
use crate::buffers::ByteBuf;
use vstd::math::min;

verus! {

/// The contents of each buffer of a list.
pub open spec fn contents<T: ByteBuf>(bufs: Seq<T>) -> Seq<Seq<u8>> {
    bufs.map_values(|b: T| b.bytes_view())
}

/// All the bytes of a list of byte sequences, one after the other.
pub open spec fn flat(s: Seq<Seq<u8>>) -> Seq<u8>
    decreases s.len(),
{
    if s.len() == 0 {
        Seq::empty()
    } else {
        flat(s.drop_last()) + s.last()
    }
}

/// The number of bytes in a list of byte sequences.
pub open spec fn total(s: Seq<Seq<u8>>) -> nat {
    flat(s).len()
}

/// `end` is where the walk over `s` stops: the first `end` sequences fit
/// within `limit` together, and the next one, if any, would pass it.
pub open spec fn stops_at(s: Seq<Seq<u8>>, limit: nat, end: nat) -> bool {
    &&& end <= s.len()
    &&& total(s.take(end as int)) <= limit
    &&& end < s.len() ==> total(s.take(end + 1 as int)) > limit
}

/// What `take_slices` returns for the buffers `s` (by content) and `limit`:
/// nothing when they hold no byte; otherwise the byte count, the number of
/// whole buffers taken, and the content of the trimmed remainder.
pub open spec fn chunk_result(
    s: Seq<Seq<u8>>,
    limit: nat,
    r: Option<(nat, nat, Seq<u8>)>,
) -> bool {
    match r {
        None => total(s) == 0,
        Some((n, end, rem)) => {
            &&& total(s) > 0
            &&& stops_at(s, limit, end)
            &&& end < s.len() ==> {
                &&& n == limit
                &&& rem == s[end as int].take(limit - total(s.take(end as int)))
            }
            &&& end == s.len() ==> {
                &&& n == total(s)
                &&& rem.len() == 0
            }
        },
    }
}

pub proof fn lemma_flat_take_step(s: Seq<Seq<u8>>, i: int)
    requires
        0 <= i < s.len(),
    ensures
        flat(s.take(i + 1)) == flat(s.take(i)) + s[i],
{
    assert(s.take(i + 1).drop_last() =~= s.take(i));
}

pub proof fn lemma_flat_take_prefix(s: Seq<Seq<u8>>, k: int)
    requires
        0 <= k <= s.len(),
    ensures
        flat(s.take(k)).len() <= flat(s).len(),
        flat(s).take(flat(s.take(k)).len() as int) == flat(s.take(k)),
    decreases s.len(),
{
    if k == s.len() {
        assert(s.take(k) =~= s);
        assert(flat(s).take(flat(s).len() as int) =~= flat(s));
    } else {
        let d = s.drop_last();
        assert(d.take(k) =~= s.take(k));
        lemma_flat_take_prefix(d, k);
        assert(flat(s).take(flat(s.take(k)).len() as int) =~= flat(d).take(
            flat(d.take(k)).len() as int,
        ));
    }
}

/// Totals of longer prefixes are never smaller.
pub proof fn lemma_total_take_monotone(s: Seq<Seq<u8>>, j: int, k: int)
    requires
        0 <= j <= k <= s.len(),
    ensures
        total(s.take(j)) <= total(s.take(k)),
{
    let t = s.take(k);
    assert(t.take(j) =~= s.take(j));
    lemma_flat_take_prefix(t, j);
}

/// The batch never holds more than `limit` bytes nor more than there are:
/// its byte count is the smaller of the two, and the whole buffers taken
/// followed by the remainder are exactly the leading bytes of the list.
pub proof fn lemma_chunk_takes_leading_bytes(
    s: Seq<Seq<u8>>,
    limit: nat,
    r: Option<(nat, nat, Seq<u8>)>,
)
    requires
        s.len() > 0,
        limit > 0,
        chunk_result(s, limit, r),
    ensures
        match r {
            None => min(total(s) as int, limit as int) == 0,
            Some((n, end, rem)) => {
                &&& n == min(total(s) as int, limit as int)
                &&& n == total(s.take(end as int)) + rem.len()
                &&& flat(s.take(end as int)) + rem == flat(s).take(n as int)
            },
        },
{
    match r {
        None => {},
        Some((n, end, rem)) => {
            if end < s.len() {
                let e = end as int;
                lemma_flat_take_step(s, e);
                lemma_flat_take_prefix(s, e + 1);
                lemma_total_take_monotone(s, e + 1, s.len() as int);
                assert(s.take(s.len() as int) =~= s);
                assert(flat(s.take(e)) + rem =~= flat(s.take(e + 1)).take(n as int));
                assert(flat(s).take(n as int) =~= flat(s.take(e + 1)).take(n as int));
            } else {
                assert(s.take(end as int) =~= s);
                assert(flat(s.take(end as int)) + rem =~= flat(s).take(n as int));
            }
        },
    }
}

/// An empty list gives nothing, whatever the limit.
pub proof fn lemma_chunk_empty(limit: nat, r: Option<(nat, nat, Seq<u8>)>)
    requires
        chunk_result(Seq::empty(), limit, r),
    ensures
        r is None,
{
    assert(flat(Seq::<Seq<u8>>::empty()) =~= Seq::<u8>::empty());
}

/// A limit that falls exactly after the first `k` buffers, with no empty
/// buffer right behind them to be swept in, gives those `k` buffers and an
/// empty remainder.
pub proof fn lemma_chunk_on_boundary(
    s: Seq<Seq<u8>>,
    k: nat,
    limit: nat,
    r: Option<(nat, nat, Seq<u8>)>,
)
    requires
        k <= s.len(),
        limit > 0,
        total(s.take(k as int)) == limit,
        k < s.len() ==> s[k as int].len() > 0,
        chunk_result(s, limit, r),
    ensures
        r == Some((limit, k, Seq::<u8>::empty())),
{
    lemma_total_take_monotone(s, k as int, s.len() as int);
    assert(s.take(s.len() as int) =~= s);
    match r {
        None => {},
        Some((n, end, rem)) => {
            if end < k {
                lemma_total_take_monotone(s, end + 1 as int, k as int);
            }
            if end > k {
                lemma_flat_take_step(s, k as int);
                lemma_total_take_monotone(s, k + 1 as int, end as int);
            }
            assert(end == k);
            if end < s.len() {
                assert(rem =~= Seq::<u8>::empty());
            } else {
                assert(s.take(end as int) =~= s);
            }
        },
    }
}

/// Return `Some((n, prefix, [remainder]))` where
///  - `prefix` is the longest run of whole buffers at the front of `bufs`
///    whose lengths add up to at most `limit`;
///  - `remainder` is the first buffer after `prefix` cut down to the bytes
///    still allowed under `limit`, or, when every buffer fits, an empty cut
///    of the first buffer;
///  - `n` is the number of bytes in `prefix` and `remainder`.
///
/// Return `None` if `bufs` holds no byte at all.
pub fn take_slices<'a, T: ByteBuf>(bufs: &'a [T], limit: usize) -> (r: Option<(usize, &'a [T], [T; 1])>)
    ensures
        chunk_result(
            contents(bufs@),
            limit as nat,
            match r {
                None => None,
                Some((n, prefix, rem)) => Some((n as nat, prefix@.len(), rem[0].bytes_view())),
            },
        ),
        r matches Some((n, prefix, rem)) ==> prefix@ == bufs@.take(prefix@.len() as int),
{
    let ghost s = contents(bufs@);
    if bufs.len() == 0 {
        assert(s =~= Seq::<Seq<u8>>::empty());
        assert(flat(s) =~= Seq::<u8>::empty());
        return None;
    }
    let mut end: usize = 0;
    let mut n: usize = 0;
    while end < bufs.len()
        invariant
            s == contents(bufs@),
            end <= bufs@.len(),
            n <= limit,
            n == total(s.take(end as int)),
        ensures
            end <= bufs@.len(),
            n <= limit,
            n == total(s.take(end as int)),
            end < bufs@.len() ==> total(s.take(end + 1)) > limit,
        decreases bufs@.len() - end,
    {
        let len = bufs[end].byte_len();
        proof {
            lemma_flat_take_step(s, end as int);
        }
        if len > limit - n {
            break;
        }
        n = n + len;
        end = end + 1;
    }
    if end < bufs.len() {
        proof {
            lemma_flat_take_step(s, end as int);
            assert(s[end as int] == bufs@[end as int].bytes_view());
        }
        let cut = bufs[end].head(limit - n);
        let prefix = vstd::slice::slice_subrange(bufs, 0, end);
        proof {
            lemma_total_take_monotone(s, end + 1, s.len() as int);
            assert(s.take(s.len() as int) =~= s);
        }
        Some((limit, prefix, [cut]))
    } else {
        assert(s.take(end as int) =~= s);
        if n == 0 {
            return None;
        }
        let cut = bufs[0].head(0);
        assert(cut.bytes_view() =~= Seq::<u8>::empty());
        let prefix = vstd::slice::slice_subrange(bufs, 0, end);
        Some((n, prefix, [cut]))
    }
}

/// [`take_slices`] over the slices of a vectored write.
pub fn take_io_slices<'a>(io_slices: &'a [std::io::IoSlice<'a>], limit: usize) -> (r: Option<(usize, &'a [std::io::IoSlice<'a>], [std::io::IoSlice<'a>; 1])>)
    ensures
        chunk_result(
            contents(io_slices@),
            limit as nat,
            match r {
                None => None,
                Some((n, prefix, rem)) => Some((n as nat, prefix@.len(), rem[0].bytes_view())),
            },
        ),
        r matches Some((n, prefix, rem)) ==> prefix@ == io_slices@.take(prefix@.len() as int),
{
    take_slices(io_slices, limit)
}

/// [`take_slices`] over shared `bytes::Bytes` buffers.
pub fn take_bytes(bytes_slice: &[bytes::Bytes], limit: usize) -> (r: Option<(usize, &[bytes::Bytes], [bytes::Bytes; 1])>)
    ensures
        chunk_result(
            contents(bytes_slice@),
            limit as nat,
            match r {
                None => None,
                Some((n, prefix, rem)) => Some((n as nat, prefix@.len(), rem[0].bytes_view())),
            },
        ),
        r matches Some((n, prefix, rem)) ==> prefix@ == bytes_slice@.take(prefix@.len() as int),
{
    take_slices(bytes_slice, limit)
}

} // verus!
