//! A fixed window of 256 consecutive bins, and the pair of adjacent
//! windows a swap runs over so that the active id can travel up to 512
//! slots without refetching state.

use vstd::prelude::*;
use vstd::bytes::{
    lemma_auto_spec_u128_to_from_le_bytes, lemma_auto_spec_u32_to_from_le_bytes,
    lemma_auto_spec_u64_to_from_le_bytes, spec_u128_from_le_bytes, spec_u128_to_le_bytes,
    spec_u32_from_le_bytes, spec_u32_to_le_bytes, spec_u64_from_le_bytes, spec_u64_to_le_bytes,
    u128_from_le_bytes, u32_from_le_bytes, u32_to_le_bytes, u64_from_le_bytes,
};
use vstd::slice::slice_subrange;

use crate::bin::{spec_bin_bytes, Bin};
use crate::constants::{BIN_ARRAY_SIZE, BIN_ARRAY_SIZE_USIZE};
use crate::errors::ErrorCode;
use crate::pubkey::Pubkey;

verus! {

/// Mathematical image of a bin array: the owning pair's id bytes, the bin
/// sequence and the window index.
pub struct BinArrayView {
    pub pair: Seq<u8>,
    pub bins: Seq<Bin>,
    pub index: u32,
}

impl BinArrayView {
    /// A bin array always holds exactly `BIN_ARRAY_SIZE` bins.
    pub open spec fn wf(&self) -> bool {
        self.bins.len() == BIN_ARRAY_SIZE
    }
}

/// 256 consecutive bins; bin id `b` lives in the array with
/// `index == b / 256`.
#[derive(Clone, Debug)]
pub struct BinArray {
    pub pair: Pubkey,
    pub bins: Vec<Bin>,
    pub index: u32,
}

impl View for BinArray {
    type V = BinArrayView;

    open spec fn view(&self) -> BinArrayView {
        BinArrayView { pair: self.pair@, bins: self.bins@, index: self.index }
    }
}

/// The bin with the given id, when the window holds it.
pub open spec fn spec_array_get_bin(array: BinArrayView, bin_id: u32) -> Result<Bin, ErrorCode> {
    if bin_id / BIN_ARRAY_SIZE == array.index {
        Ok(array.bins[(bin_id % BIN_ARRAY_SIZE) as int])
    } else {
        Err(ErrorCode::BinNotFound)
    }
}

/// The window after replacing the bin with the given id; untouched when it
/// does not hold the id.
pub open spec fn spec_array_set_bin(array: BinArrayView, bin_id: u32, bin: Bin) -> BinArrayView {
    if bin_id / BIN_ARRAY_SIZE == array.index {
        BinArrayView { bins: array.bins.update((bin_id % BIN_ARRAY_SIZE) as int, bin), ..array }
    } else {
        array
    }
}

impl BinArray {
    /// A bin array always holds exactly `BIN_ARRAY_SIZE` bins.
    pub open spec fn wf(&self) -> bool {
        self@.wf()
    }

    /// An all-empty window at `index`, owned by `pair`.
    pub fn new(pair: Pubkey, index: u32) -> (r: BinArray)
        ensures
            r.wf(),
            r@.pair == pair@,
            r.index == index,
            forall|i: int|
                0 <= i < BIN_ARRAY_SIZE ==> r@.bins[i] == (Bin {
                    total_supply: 0u128,
                    reserve_x: 0u64,
                    reserve_y: 0u64,
                }),
    {
        let mut bins: Vec<Bin> = Vec::new();
        let mut i: usize = 0;
        while i < BIN_ARRAY_SIZE_USIZE
            invariant
                i <= BIN_ARRAY_SIZE_USIZE,
                bins@.len() == i,
                forall|j: int|
                    0 <= j < i ==> bins@[j] == (Bin {
                        total_supply: 0u128,
                        reserve_x: 0u64,
                        reserve_y: 0u64,
                    }),
            decreases BIN_ARRAY_SIZE_USIZE - i,
        {
            bins.push(Bin { total_supply: 0, reserve_x: 0, reserve_y: 0 });
            i = i + 1;
        }
        BinArray { pair, bins, index }
    }

    /// Serialise this window into its 8_248-byte account layout.
    pub fn pack(&self) -> (r: Vec<u8>)
        requires
            self.wf(),
        ensures
            r@ == spec_bin_array_bytes(self@),
            r@.len() == 8248,
    {
        proof {
            lemma_auto_spec_u32_to_from_le_bytes();
            lemma_bins_bytes_len(self@.bins);
        }
        let mut out: Vec<u8> = Vec::new();
        out.push(92);
        out.push(142);
        out.push(92);
        out.push(220);
        out.push(5);
        out.push(148);
        out.push(70);
        out.push(181);
        proof {
            assert(out@ =~= spec_bin_array_discriminator());
        }
        self.pair.append_to(&mut out);
        let mut i: usize = 0;
        while i < BIN_ARRAY_SIZE_USIZE
            invariant
                i <= BIN_ARRAY_SIZE_USIZE,
                self.wf(),
                out@ == spec_bin_array_discriminator() + self@.pair + spec_bins_bytes(
                    self@.bins.subrange(0, i as int),
                ),
            decreases BIN_ARRAY_SIZE_USIZE - i,
        {
            let mut bin_bytes = self.bins[i].pack();
            out.append(&mut bin_bytes);
            proof {
                assert(self@.bins.subrange(0, i + 1).drop_last() =~= self@.bins.subrange(
                    0,
                    i as int,
                ));
                assert(self@.bins.subrange(0, i + 1).last() == self@.bins[i as int]);
                assert(out@ =~= spec_bin_array_discriminator() + self@.pair + spec_bins_bytes(
                    self@.bins.subrange(0, i + 1),
                ));
            }
            i = i + 1;
        }
        proof {
            assert(self@.bins.subrange(0, 256) =~= self@.bins);
        }
        let mut index_bytes = u32_to_le_bytes(self.index);
        out.append(&mut index_bytes);
        let ghost before_padding: Seq<u8> = out@;
        let mut pad: usize = 0;
        while pad < 12
            invariant
                pad <= 12,
                out@ == before_padding + Seq::new(pad as nat, |j: int| 0u8),
            decreases 12 - pad,
        {
            out.push(0);
            proof {
                assert(out@ =~= before_padding + Seq::new((pad + 1) as nat, |j: int| 0u8));
            }
            pad = pad + 1;
        }
        proof {
            assert(out@ =~= spec_bin_array_bytes(self@));
        }
        out
    }

    /// Read a window back from its 8_248-byte account layout.
    pub fn unpack(data: &[u8]) -> (r: Option<BinArray>)
        ensures
            ({
                match spec_unpack_bin_array(data@) {
                    Some(view) => r matches Some(array) && array@ == view && array.wf(),
                    None => r is None,
                }
            }),
    {
        proof {
            lemma_auto_spec_u32_to_from_le_bytes();
        }
        if data.len() != 8248 {
            return None;
        }
        let pair = Pubkey::from_slice(slice_subrange(data, 8, 40));
        let mut bins: Vec<Bin> = Vec::new();
        let mut i: usize = 0;
        while i < BIN_ARRAY_SIZE_USIZE
            invariant
                data@.len() == 8248,
                i <= BIN_ARRAY_SIZE_USIZE,
                bins@.len() == i,
                forall|j: int| 0 <= j < i ==> bins@[j] == spec_read_bin(data@, j),
            decreases BIN_ARRAY_SIZE_USIZE - i,
        {
            let offset: usize = 40 + 32 * i;
            let total_supply = u128_from_le_bytes(slice_subrange(data, offset, offset + 16));
            let reserve_x = u64_from_le_bytes(slice_subrange(data, offset + 16, offset + 24));
            let reserve_y = u64_from_le_bytes(slice_subrange(data, offset + 24, offset + 32));
            bins.push(Bin { total_supply, reserve_x, reserve_y });
            i = i + 1;
        }
        let index = u32_from_le_bytes(slice_subrange(data, 8232, 8236));
        let array = BinArray { pair, bins, index };
        proof {
            assert(array@.bins =~= Seq::new(256, |j: int| spec_read_bin(data@, j)));
        }
        Some(array)
    }

    /// Re-point this window at a pair and array index.
    pub fn initialize(&mut self, pair: Pubkey, index: u32)
        ensures
            final(self).pair == pair,
            final(self).index == index,
            final(self).bins == old(self).bins,
    {
        self.pair = pair;
        self.index = index;
    }

    /// Index of the array a bin id belongs to.
    pub fn get_index_from_bin_id(bin_id: u32) -> (r: u32)
        ensures
            r == bin_id / BIN_ARRAY_SIZE,
    {
        bin_id / BIN_ARRAY_SIZE
    }

    /// Whether this window holds the given bin id.
    pub fn contains(&self, bin_id: u32) -> (r: bool)
        ensures
            r == (bin_id / BIN_ARRAY_SIZE == self.index),
    {
        bin_id / BIN_ARRAY_SIZE == self.index
    }

    /// The bin with the given id, or `BinNotFound` when it lies outside
    /// this window.
    pub fn get_bin(&self, bin_id: u32) -> (r: Result<Bin, ErrorCode>)
        requires
            self.wf(),
        ensures
            r == spec_array_get_bin(self@, bin_id),
    {
        if !self.contains(bin_id) {
            return Err(ErrorCode::BinNotFound);
        }
        Ok(self.bins[(bin_id % BIN_ARRAY_SIZE) as usize])
    }

    /// Replace the bin with the given id, or report `BinNotFound` and leave
    /// the window untouched.
    pub fn set_bin(&mut self, bin_id: u32, bin: Bin) -> (r: Result<(), ErrorCode>)
        requires
            old(self).wf(),
        ensures
            final(self).wf(),
            final(self)@ == spec_array_set_bin(old(self)@, bin_id, bin),
            r is Ok <==> bin_id / BIN_ARRAY_SIZE == old(self).index,
            r is Err ==> r == Err::<(), ErrorCode>(ErrorCode::BinNotFound),
    {
        if !self.contains(bin_id) {
            return Err(ErrorCode::BinNotFound);
        }
        self.bins[(bin_id % BIN_ARRAY_SIZE) as usize] = bin;
        Ok(())
    }
}

/// The fixed 8-byte account discriminator of a bin array.
pub open spec fn spec_bin_array_discriminator() -> Seq<u8> {
    seq![92u8, 142u8, 92u8, 220u8, 5u8, 148u8, 70u8, 181u8]
}

/// The concatenated 32-byte blocks of a bin sequence.
pub open spec fn spec_bins_bytes(bins: Seq<Bin>) -> Seq<u8>
    decreases bins.len(),
{
    if bins.len() == 0 {
        Seq::empty()
    } else {
        spec_bins_bytes(bins.drop_last()) + spec_bin_bytes(bins.last())
    }
}

/// Each bin contributes exactly 32 bytes.
pub proof fn lemma_bins_bytes_len(bins: Seq<Bin>)
    ensures
        spec_bins_bytes(bins).len() == 32 * bins.len(),
    decreases bins.len(),
{
    lemma_auto_spec_u128_to_from_le_bytes();
    lemma_auto_spec_u64_to_from_le_bytes();
    if bins.len() > 0 {
        lemma_bins_bytes_len(bins.drop_last());
    }
}

/// The bytes of bin `i` sit at offset `32 * i` of the concatenation.
pub proof fn lemma_bins_bytes_index(bins: Seq<Bin>, i: int)
    requires
        0 <= i < bins.len(),
    ensures
        spec_bins_bytes(bins).subrange(32 * i, 32 * i + 32) == spec_bin_bytes(bins[i]),
    decreases bins.len(),
{
    lemma_auto_spec_u128_to_from_le_bytes();
    lemma_auto_spec_u64_to_from_le_bytes();
    lemma_bins_bytes_len(bins);
    lemma_bins_bytes_len(bins.drop_last());
    if i == bins.len() - 1 {
        assert(spec_bins_bytes(bins).subrange(32 * i, 32 * i + 32) =~= spec_bin_bytes(
            bins.last(),
        ));
    } else {
        lemma_bins_bytes_index(bins.drop_last(), i);
        assert(spec_bins_bytes(bins).subrange(32 * i, 32 * i + 32) =~= spec_bins_bytes(
            bins.drop_last(),
        ).subrange(32 * i, 32 * i + 32));
    }
}

/// The full byte layout of a bin array:
/// `discriminator(8) | pair(32) | bins(256 * 32) | index(4) | padding(12)`.
pub open spec fn spec_bin_array_bytes(array: BinArrayView) -> Seq<u8> {
    spec_bin_array_discriminator() + array.pair + spec_bins_bytes(array.bins)
        + spec_u32_to_le_bytes(array.index) + Seq::new(12, |i: int| 0u8)
}

/// Bin `i` of a packed bin array, read in place.
pub open spec fn spec_read_bin(data: Seq<u8>, i: int) -> Bin {
    Bin {
        total_supply: spec_u128_from_le_bytes(data.subrange(40 + 32 * i, 56 + 32 * i)),
        reserve_x: spec_u64_from_le_bytes(data.subrange(56 + 32 * i, 64 + 32 * i)),
        reserve_y: spec_u64_from_le_bytes(data.subrange(64 + 32 * i, 72 + 32 * i)),
    }
}

/// The bin array encoded by 8_248 bytes; `None` on any other length. The
/// discriminator and padding bytes are not interpreted.
pub open spec fn spec_unpack_bin_array(data: Seq<u8>) -> Option<BinArrayView> {
    if data.len() != 8248 {
        None
    } else {
        Some(
            BinArrayView {
                pair: data.subrange(8, 40),
                bins: Seq::new(256, |i: int| spec_read_bin(data, i)),
                index: spec_u32_from_le_bytes(data.subrange(8232, 8236)),
            },
        )
    }
}

/// Packing then unpacking a bin array gives the array back.
pub proof fn lemma_bin_array_pack_roundtrip(array: BinArray)
    requires
        array.wf(),
    ensures
        spec_unpack_bin_array(spec_bin_array_bytes(array@)) == Some(array@),
{
    lemma_auto_spec_u128_to_from_le_bytes();
    lemma_auto_spec_u32_to_from_le_bytes();
    lemma_auto_spec_u64_to_from_le_bytes();
    lemma_bins_bytes_len(array@.bins);
    let data = spec_bin_array_bytes(array@);
    assert(data.len() == 8248);
    assert(data.subrange(8, 40) =~= array@.pair);
    assert(data.subrange(8232, 8236) =~= spec_u32_to_le_bytes(array.index));
    assert forall|i: int| 0 <= i < 256 implies spec_read_bin(data, i) == array@.bins[i] by {
        lemma_bins_bytes_index(array@.bins, i);
        let block = spec_bin_bytes(array@.bins[i]);
        assert(data.subrange(40 + 32 * i, 72 + 32 * i) =~= spec_bins_bytes(
            array@.bins,
        ).subrange(32 * i, 32 * i + 32));
        assert(data.subrange(40 + 32 * i, 56 + 32 * i) =~= block.subrange(0, 16));
        assert(data.subrange(56 + 32 * i, 64 + 32 * i) =~= block.subrange(16, 24));
        assert(data.subrange(64 + 32 * i, 72 + 32 * i) =~= block.subrange(24, 32));
        assert(block.subrange(0, 16) =~= spec_u128_to_le_bytes(array@.bins[i].total_supply));
        assert(block.subrange(16, 24) =~= spec_u64_to_le_bytes(array@.bins[i].reserve_x));
        assert(block.subrange(24, 32) =~= spec_u64_to_le_bytes(array@.bins[i].reserve_y));
    }
    assert(Seq::new(256, |i: int| spec_read_bin(data, i)) =~= array@.bins);
}

/// Mathematical image of a pair of adjacent bin arrays.
pub struct BinArrayPairView {
    pub lower: BinArrayView,
    pub upper: BinArrayView,
}

impl BinArrayPairView {
    /// Both windows are full-sized and the upper one follows the lower one
    /// directly.
    pub open spec fn wf(&self) -> bool {
        &&& self.lower.wf()
        &&& self.upper.wf()
        &&& self.upper.index == self.lower.index + 1
    }
}

/// The bin with the given id out of the two windows, the lower one first.
pub open spec fn spec_pair_get_bin(arrays: BinArrayPairView, bin_id: u32) -> Result<
    Bin,
    ErrorCode,
> {
    if bin_id / BIN_ARRAY_SIZE == arrays.lower.index {
        Ok(arrays.lower.bins[(bin_id % BIN_ARRAY_SIZE) as int])
    } else if bin_id / BIN_ARRAY_SIZE == arrays.upper.index {
        Ok(arrays.upper.bins[(bin_id % BIN_ARRAY_SIZE) as int])
    } else {
        Err(ErrorCode::BinNotFound)
    }
}

/// The two windows after replacing the bin with the given id: the lower
/// window when it holds the id, the upper one otherwise; a window that
/// does not hold the id is untouched.
pub open spec fn spec_pair_set_bin(
    arrays: BinArrayPairView,
    bin_id: u32,
    bin: Bin,
) -> BinArrayPairView {
    if bin_id / BIN_ARRAY_SIZE == arrays.lower.index {
        BinArrayPairView { lower: spec_array_set_bin(arrays.lower, bin_id, bin), ..arrays }
    } else {
        BinArrayPairView { upper: spec_array_set_bin(arrays.upper, bin_id, bin), ..arrays }
    }
}

/// Two adjacent bin arrays, lower first.
#[derive(Clone, Debug)]
pub struct BinArrayPair {
    pub bin_array_lower: BinArray,
    pub bin_array_upper: BinArray,
}

impl View for BinArrayPair {
    type V = BinArrayPairView;

    open spec fn view(&self) -> BinArrayPairView {
        BinArrayPairView { lower: self.bin_array_lower@, upper: self.bin_array_upper@ }
    }
}

impl BinArrayPair {
    /// Both windows are full-sized and adjacent.
    pub open spec fn wf(&self) -> bool {
        self@.wf()
    }

    /// Join two windows, insisting that they are adjacent.
    pub fn merge(bin_array_lower: BinArray, bin_array_upper: BinArray) -> (r: Result<
        BinArrayPair,
        ErrorCode,
    >)
        requires
            bin_array_lower.wf(),
            bin_array_upper.wf(),
        ensures
            bin_array_upper.index == bin_array_lower.index + 1 ==> (r matches Ok(arrays)
                && arrays.bin_array_lower == bin_array_lower && arrays.bin_array_upper
                == bin_array_upper && arrays.wf()),
            bin_array_upper.index != bin_array_lower.index + 1 ==> r == Err::<
                BinArrayPair,
                ErrorCode,
            >(ErrorCode::BinArrayIndexMismatch),
    {
        if bin_array_lower.index == u32::MAX || bin_array_upper.index != bin_array_lower.index
            + 1 {
            return Err(ErrorCode::BinArrayIndexMismatch);
        }
        Ok(BinArrayPair { bin_array_lower, bin_array_upper })
    }

    /// The bin with the given id, looked up in the lower window first.
    pub fn get_bin(&self, bin_id: u32) -> (r: Result<Bin, ErrorCode>)
        requires
            self.bin_array_lower.wf(),
            self.bin_array_upper.wf(),
        ensures
            r == spec_pair_get_bin(self@, bin_id),
    {
        match self.bin_array_lower.get_bin(bin_id) {
            Ok(bin) => Ok(bin),
            Err(_) => self.bin_array_upper.get_bin(bin_id),
        }
    }

    /// Replace the bin with the given id, or report `BinNotFound` and leave
    /// both windows untouched.
    pub fn set_bin(&mut self, bin_id: u32, bin: Bin) -> (r: Result<(), ErrorCode>)
        requires
            old(self).bin_array_lower.wf(),
            old(self).bin_array_upper.wf(),
        ensures
            final(self).bin_array_lower.wf(),
            final(self).bin_array_upper.wf(),
            final(self)@ == spec_pair_set_bin(old(self)@, bin_id, bin),
            r is Ok <==> spec_pair_get_bin(old(self)@, bin_id) is Ok,
            r is Err ==> r == Err::<(), ErrorCode>(ErrorCode::BinNotFound),
    {
        match self.bin_array_lower.set_bin(bin_id, bin) {
            Ok(()) => Ok(()),
            Err(_) => self.bin_array_upper.set_bin(bin_id, bin),
        }
    }
}

} // verus!
