use vstd::prelude::*;

verus! {

/// Index of a frame in a packet buffer area.
#[derive(Clone, Copy, Debug, PartialEq, Eq)]
pub struct BufIdx(pub u32);

/// The buffer indices that raw numbers stand for.
pub open spec fn indices(raw: Seq<u32>) -> Seq<BufIdx> {
    raw.map_values(|id: u32| BufIdx(id))
}

/// The raw numbers that buffer indices stand for.
pub open spec fn raw_numbers(idx: Seq<BufIdx>) -> Seq<u32> {
    idx.map_values(|id: BufIdx| id.0)
}

/// A slice of raw numbers, read in place as buffer indices. It is a borrow of the numbers: nothing
/// is copied.
#[derive(Clone, Copy, Debug)]
pub struct BufIdxSlice<'a> {
    pub raw: &'a [u32],
}

impl<'a> BufIdxSlice<'a> {
    pub open spec fn view(&self) -> Seq<BufIdx> {
        indices(self.raw@)
    }

    pub fn len(&self) -> (len: usize)
        ensures
            len == self@.len(),
    {
        self.raw.len()
    }

    pub fn get(&self, i: usize) -> (idx: BufIdx)
        requires
            i < self@.len(),
        ensures
            idx == self@[i as int],
    {
        BufIdx(self.raw[i])
    }

    /// Converts the buffer indices back to raw numbers, in place: the slice that was converted.
    pub fn to_slice(self) -> (id: &'a [u32])
        ensures
            id == self.raw,
            id@ == raw_numbers(self@),
    {
        proof {
            law_indices_to_raw(self.raw@);
        }
        self.raw
    }
}

/// A slice of buffer indices, read in place as raw numbers. It is a borrow of the indices: nothing
/// is copied.
#[derive(Clone, Copy, Debug)]
pub struct RawSlice<'a> {
    pub idx: &'a [BufIdx],
}

impl<'a> RawSlice<'a> {
    pub open spec fn view(&self) -> Seq<u32> {
        raw_numbers(self.idx@)
    }

    pub fn len(&self) -> (len: usize)
        ensures
            len == self@.len(),
    {
        self.idx.len()
    }

    pub fn get(&self, i: usize) -> (id: u32)
        requires
            i < self@.len(),
        ensures
            id == self@[i as int],
    {
        self.idx[i].0
    }

    /// Converts the raw numbers back to buffer indices, in place: the slice that was converted.
    pub fn from_slice(self) -> (idx: &'a [BufIdx])
        ensures
            idx == self.idx,
            idx@ == indices(self@),
    {
        proof {
            law_raw_to_indices(self.idx@);
        }
        self.idx
    }
}

/// A slice of raw numbers, read and written in place as buffer indices.
pub struct BufIdxSliceMut<'a> {
    pub raw: &'a mut [u32],
}

impl<'a> BufIdxSliceMut<'a> {
    pub open spec fn view(&self) -> Seq<BufIdx> {
        indices((*self.raw)@)
    }

    pub fn len(&self) -> (len: usize)
        ensures
            len == self@.len(),
    {
        self.raw.len()
    }

    pub fn get(&self, i: usize) -> (idx: BufIdx)
        requires
            i < self@.len(),
        ensures
            idx == self@[i as int],
    {
        BufIdx(self.raw[i])
    }

    /// Writes through to the slice: what it holds in the end is what the last writes left.
    pub fn set(&mut self, i: usize, idx: BufIdx)
        requires
            i < old(self)@.len(),
        ensures
            final(self)@ == old(self)@.update(i as int, idx),
            (*final(self).raw)@ == (*old(self).raw)@.update(i as int, idx.0),
            final(final(self).raw)@ == final(old(self).raw)@,
    {
        self.raw[i] = idx.0;
    }

    /// Converts the buffer indices back to raw numbers, in place. What is written to the numbers
    /// is in the end in the slice that was converted.
    pub fn to_mut_slice(self) -> (id: &'a mut [u32])
        ensures
            (*id)@ == old(self.raw)@,
            (*id)@ == raw_numbers(self@),
            final(id)@ == final(self.raw)@,
    {
        proof {
            law_indices_to_raw((*self.raw)@);
        }
        self.raw
    }
}

/// A slice of buffer indices, read and written in place as raw numbers.
pub struct RawSliceMut<'a> {
    pub idx: &'a mut [BufIdx],
}

impl<'a> RawSliceMut<'a> {
    pub open spec fn view(&self) -> Seq<u32> {
        raw_numbers((*self.idx)@)
    }

    pub fn len(&self) -> (len: usize)
        ensures
            len == self@.len(),
    {
        self.idx.len()
    }

    pub fn get(&self, i: usize) -> (id: u32)
        requires
            i < self@.len(),
        ensures
            id == self@[i as int],
    {
        self.idx[i].0
    }

    /// Writes through to the slice: what it holds in the end is what the last writes left.
    pub fn set(&mut self, i: usize, id: u32)
        requires
            i < old(self)@.len(),
        ensures
            final(self)@ == old(self)@.update(i as int, id),
            (*final(self).idx)@ == (*old(self).idx)@.update(i as int, BufIdx(id)),
            final(final(self).idx)@ == final(old(self).idx)@,
    {
        self.idx[i] = BufIdx(id);
    }

    /// Converts the raw numbers back to buffer indices, in place. What is written to the indices
    /// is in the end in the slice that was converted.
    pub fn from_mut_slice(self) -> (idx: &'a mut [BufIdx])
        ensures
            (*idx)@ == old(self.idx)@,
            (*idx)@ == indices(self@),
            final(idx)@ == final(self.idx)@,
    {
        proof {
            law_raw_to_indices((*self.idx)@);
        }
        self.idx
    }
}

impl BufIdx {
    /// Converts a slice of raw numbers to buffer indices, in place.
    pub fn from_slice(id: &[u32]) -> (idx: BufIdxSlice<'_>)
        ensures
            idx.raw == id,
            idx@ == indices(id@),
    {
        BufIdxSlice { raw: id }
    }

    /// Converts a slice of raw numbers to buffer indices, in place.
    pub fn from_mut_slice<'a>(id: &'a mut [u32]) -> (idx: BufIdxSliceMut<'a>)
        ensures
            idx@ == indices(old(id)@),
            (*idx.raw)@ == old(id)@,
            final(id)@ == final(idx.raw)@,
    {
        BufIdxSliceMut { raw: id }
    }

    /// Converts a slice of buffer indices to raw numbers, in place.
    pub fn to_slice(this: &[BufIdx]) -> (id: RawSlice<'_>)
        ensures
            id.idx == this,
            id@ == raw_numbers(this@),
    {
        RawSlice { idx: this }
    }

    /// Converts a slice of buffer indices to raw numbers, in place.
    pub fn to_mut_slice<'a>(this: &'a mut [BufIdx]) -> (id: RawSliceMut<'a>)
        ensures
            id@ == raw_numbers(old(this)@),
            (*id.idx)@ == old(this)@,
            final(this)@ == final(id.idx)@,
    {
        RawSliceMut { idx: this }
    }
}

/// Raw numbers converted to buffer indices and back are the same numbers.
pub proof fn law_indices_to_raw(raw: Seq<u32>)
    ensures
        raw_numbers(indices(raw)) == raw,
{
    assert(raw_numbers(indices(raw)) =~= raw);
}

/// Buffer indices converted to raw numbers and back are the same indices.
pub proof fn law_raw_to_indices(idx: Seq<BufIdx>)
    ensures
        indices(raw_numbers(idx)) == idx,
{
    assert(indices(raw_numbers(idx)) =~= idx);
}

/// Converting a slice of raw numbers to buffer indices and back gives that slice.
pub proof fn law_slice_round_trip(id: &[u32], idx: BufIdxSlice, back: &[u32])
    requires
        call_ensures(BufIdx::from_slice, (id,), idx),
        call_ensures(BufIdxSlice::to_slice, (idx,), back),
    ensures
        back == id,
{
}

/// Converting a slice of buffer indices to raw numbers and back gives that slice.
pub proof fn law_index_slice_round_trip(this: &[BufIdx], id: RawSlice, back: &[BufIdx])
    requires
        call_ensures(BufIdx::to_slice, (this,), id),
        call_ensures(RawSlice::from_slice, (id,), back),
    ensures
        back == this,
{
}

/// Converting a mutable slice of raw numbers to buffer indices and back gives the same numbers,
/// and what they are in the end is what the slice holds in the end.
pub proof fn law_mut_slice_round_trip(id: &mut [u32], idx: BufIdxSliceMut, back: &mut [u32])
    requires
        call_ensures(BufIdx::from_mut_slice, (id,), idx),
        call_ensures(BufIdxSliceMut::to_mut_slice, (idx,), back),
    ensures
        old(back)@ == old(id)@,
        final(back)@ == final(id)@,
{
}

/// Converting a mutable slice of buffer indices to raw numbers and back gives the same indices,
/// and what they are in the end is what the slice holds in the end.
pub proof fn law_mut_index_slice_round_trip(
    this: &mut [BufIdx],
    id: RawSliceMut,
    back: &mut [BufIdx],
)
    requires
        call_ensures(BufIdx::to_mut_slice, (this,), id),
        call_ensures(RawSliceMut::from_mut_slice, (id,), back),
    ensures
        old(back)@ == old(this)@,
        final(back)@ == final(this)@,
{
}

} // verus!
