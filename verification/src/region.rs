//! The byte convention of a segment's region: a payload is written at
//! offset zero with every byte after it zero-filled, and read back by
//! dropping every trailing zero byte.

use vstd::prelude::*;
use crate::errors::ShmError;

verus! {

/// Number of bytes a region holds once every trailing zero byte is dropped.
pub open spec fn trimmed_len(s: Seq<u8>) -> nat
    decreases s.len(),
{
    if s.len() == 0 {
        0
    } else if s.last() != 0 {
        s.len()
    } else {
        trimmed_len(s.drop_last())
    }
}

/// The payload a region holds under the trailing-zero-trimming convention:
/// its prefix up to and including the last non-zero byte.
pub open spec fn trim_spec(s: Seq<u8>) -> Seq<u8> {
    s.take(trimmed_len(s) as int)
}

/// A region of `capacity` bytes holding `payload` at offset zero and
/// zero bytes everywhere after it.
pub open spec fn zero_padded(payload: Seq<u8>, capacity: nat) -> Seq<u8> {
    Seq::new(capacity, |i: int| if i < payload.len() { payload[i] } else { 0u8 })
}

/// The trimmed length never exceeds the region's length, everything past it
/// is zero, and the byte just before it (if any) is non-zero.
pub proof fn lemma_trimmed_len_bounds(s: Seq<u8>)
    ensures
        trimmed_len(s) <= s.len(),
        forall|i: int| trimmed_len(s) <= i < s.len() ==> s[i] == 0,
        trimmed_len(s) > 0 ==> s[trimmed_len(s) - 1] != 0,
    decreases s.len(),
{
    if s.len() == 0 {
    } else if s.last() != 0 {
    } else {
        lemma_trimmed_len_bounds(s.drop_last());
        assert(forall|i: int| trimmed_len(s) <= i < s.len() - 1 ==> s.drop_last()[i] == s[i]);
    }
}

/// Zero-padding a payload to any larger capacity does not change the
/// trimmed length.
pub proof fn lemma_trimmed_len_padded(payload: Seq<u8>, capacity: nat)
    requires
        payload.len() <= capacity,
    ensures
        trimmed_len(zero_padded(payload, capacity)) == trimmed_len(payload),
    decreases capacity,
{
    if capacity == payload.len() {
        assert(zero_padded(payload, capacity) =~= payload);
    } else {
        let s = zero_padded(payload, capacity);
        assert(s.last() == 0);
        assert(s.drop_last() =~= zero_padded(payload, (capacity - 1) as nat));
        lemma_trimmed_len_padded(payload, (capacity - 1) as nat);
    }
}

/// Writing a payload that fits and reading the region back returns the
/// payload with its own trailing zero bytes stripped; a payload whose last
/// byte is non-zero comes back exactly.
pub proof fn lemma_write_then_read(payload: Seq<u8>, capacity: nat)
    requires
        payload.len() <= capacity,
    ensures
        trim_spec(zero_padded(payload, capacity)) == trim_spec(payload),
        payload.len() > 0 && payload.last() != 0 ==> trim_spec(
            zero_padded(payload, capacity),
        ) == payload,
{
    lemma_trimmed_len_padded(payload, capacity);
    lemma_trimmed_len_bounds(payload);
    assert(trim_spec(zero_padded(payload, capacity)) =~= trim_spec(payload));
    if payload.len() > 0 && payload.last() != 0 {
        assert(trimmed_len(payload) == payload.len());
        assert(trim_spec(payload) =~= payload);
    }
}

/// A region that has never been written — all zero bytes — reads back as
/// the empty payload.
pub proof fn lemma_fresh_region_reads_empty(capacity: nat)
    ensures
        trim_spec(zero_padded(Seq::<u8>::empty(), capacity)) == Seq::<u8>::empty(),
{
    lemma_write_then_read(Seq::<u8>::empty(), capacity);
    assert(trim_spec(Seq::<u8>::empty()) =~= Seq::<u8>::empty());
}

/// Writes `data` at offset zero of `region` and zero-fills every byte after
/// it, or leaves the region untouched and reports `TooLarge` when the
/// payload does not fit. The region's length never changes.
pub fn store_payload(region: &mut Vec<u8>, data: &[u8]) -> (r: Result<(), ShmError>)
    ensures
        final(region)@.len() == old(region)@.len(),
        data@.len() <= old(region)@.len() ==> r is Ok && final(region)@ == zero_padded(
            data@,
            old(region)@.len(),
        ),
        data@.len() > old(region)@.len() ==> r == Err::<(), ShmError>(ShmError::TooLarge)
            && final(region)@ == old(region)@,
{
    if data.len() > region.len() {
        return Err(ShmError::TooLarge);
    }
    let capacity: usize = region.len();
    let mut fresh: Vec<u8> = Vec::new();
    let mut i: usize = 0;
    while i < data.len()
        invariant
            i <= data@.len() <= capacity,
            fresh@.len() == i,
            forall|j: int| 0 <= j < i ==> fresh@[j] == data@[j],
        decreases data@.len() - i,
    {
        fresh.push(data[i]);
        i = i + 1;
    }
    while fresh.len() < capacity
        invariant
            data@.len() <= fresh@.len() <= capacity,
            forall|j: int| 0 <= j < data@.len() ==> fresh@[j] == data@[j],
            forall|j: int| data@.len() <= j < fresh@.len() ==> fresh@[j] == 0,
        decreases capacity - fresh@.len(),
    {
        fresh.push(0);
    }
    proof {
        assert(fresh@ =~= zero_padded(data@, capacity as nat));
    }
    *region = fresh;
    Ok(())
}

/// Reads the payload out of a region: scans backward past every trailing
/// zero byte and copies the prefix that ends at the last non-zero byte.
pub fn trim_trailing_zeros(region: &[u8]) -> (out: Vec<u8>)
    ensures
        out@ == trim_spec(region@),
{
    let mut end: usize = region.len();
    proof {
        assert(region@.take(end as int) =~= region@);
    }
    while end > 0 && region[end - 1] == 0
        invariant
            end <= region@.len(),
            trimmed_len(region@) == trimmed_len(region@.take(end as int)),
        decreases end,
    {
        proof {
            let t = region@.take(end as int);
            assert(t.last() == 0);
            assert(t.drop_last() =~= region@.take(end as int - 1));
        }
        end = end - 1;
    }
    proof {
        let t = region@.take(end as int);
        if end > 0 {
            assert(t.last() != 0);
            assert(trimmed_len(t) == end);
        } else {
            assert(t =~= Seq::<u8>::empty());
        }
        lemma_trimmed_len_bounds(region@);
    }
    let mut out: Vec<u8> = Vec::new();
    let mut i: usize = 0;
    while i < end
        invariant
            i <= end <= region@.len(),
            out@.len() == i,
            forall|j: int| 0 <= j < i ==> out@[j] == region@[j],
        decreases end - i,
    {
        out.push(region[i]);
        i = i + 1;
    }
    proof {
        assert(out@ =~= trim_spec(region@));
    }
    out
}

} // verus!
