//! A structural matcher for the ISO base-media container: a length-prefixed
//! "ftyp" box whose major or compatible brand is "mp4".

use crate::text::opt_content_type_view;
use vstd::prelude::*;

verus! {

/// The leading box size: the first four bytes read as a big-endian 32-bit
/// unsigned integer.
pub open spec fn mp4_box_size(data: Seq<u8>) -> int
    recommends
        data.len() >= 4,
{
    data[0] * 0x1000000 + data[1] * 0x10000 + data[2] * 0x100 + data[3]
}

/// The three bytes of `data` at `off` spell "mp4".
pub open spec fn mp4_brand_at(data: Seq<u8>, off: int) -> bool {
    &&& 0 <= off && off + 3 <= data.len()
    &&& data[off] == 0x6Du8
    &&& data[off + 1] == 0x70u8
    &&& data[off + 2] == 0x34u8
}

/// The buffer is an ISO base-media container whose brand is "mp4": the
/// declared box size fits in the buffer and is a multiple of four, bytes 4-7
/// spell "ftyp", and "mp4" stands either as the major brand (offset 8) or as
/// a compatible brand in one of the 4-byte-aligned fields from offset 16 up
/// to the declared box size.
pub open spec fn mp4_matches(data: Seq<u8>) -> bool {
    &&& data.len() >= 12
    &&& mp4_box_size(data) <= data.len()
    &&& mp4_box_size(data) % 4 == 0
    &&& data[4] == 0x66u8
    &&& data[5] == 0x74u8
    &&& data[6] == 0x79u8
    &&& data[7] == 0x70u8
    &&& (mp4_brand_at(data, 8) || exists|k: int|
        16 <= k < mp4_box_size(data) && k % 4 == 0 && #[trigger] mp4_brand_at(data, k))
}

/// What the structural matcher reports for a buffer: ("video","mp4") on a
/// match, nothing otherwise.
pub open spec fn mp4_classification(data: Seq<u8>) -> Option<(Seq<char>, Seq<char>)> {
    if mp4_matches(data) {
        Some(("video"@, "mp4"@))
    } else {
        None
    }
}

/// The specialised matcher for MP4-family containers.
pub struct Mp4Matcher;

impl Mp4Matcher {
    /// Whether the buffer carries a well-formed "ftyp" box declaring an "mp4"
    /// brand; truncated or misaligned buffers are clean non-matches.
    pub fn matches(&self, data: &Vec<u8>) -> (r: bool)
        ensures
            r == mp4_matches(data@),
    {
        if data.len() < 12 {
            return false;
        }
        let box_size: u64 = (data[0] as u64) * 0x1000000 + (data[1] as u64) * 0x10000 + (
        data[2] as u64) * 0x100 + (data[3] as u64);
        if (data.len() as u64) < box_size || box_size % 4 != 0 {
            return false;
        }
        if data[4] != 0x66 || data[5] != 0x74 || data[6] != 0x79 || data[7] != 0x70 {
            return false;
        }
        if data[8] == 0x6D && data[9] == 0x70 && data[10] == 0x34 {
            return true;
        }
        let bs = box_size as usize;
        let mut k: usize = 16;
        while k < bs
            invariant
                data@.len() >= 12,
                data@.len() <= usize::MAX,
                bs == mp4_box_size(data@),
                bs <= data@.len(),
                bs % 4 == 0,
                data@[4] == 0x66u8,
                data@[5] == 0x74u8,
                data@[6] == 0x79u8,
                data@[7] == 0x70u8,
                16 <= k,
                k % 4 == 0,
                forall|t: int| 16 <= t < k && t % 4 == 0 ==> !#[trigger] mp4_brand_at(data@, t),
            decreases bs - k,
        {
            if data[k] == 0x6D && data[k + 1] == 0x70 && data[k + 2] == 0x34 {
                assert(mp4_brand_at(data@, k as int));
                return true;
            }
            k += 4;
        }
        false
    }

    /// The matcher's answer as a content type: ("video","mp4") on a match.
    pub fn classify(&self, data: &Vec<u8>) -> (r: Option<(String, String)>)
        ensures
            opt_content_type_view(r) == mp4_classification(data@),
    {
        if self.matches(data) {
            Some(("video".to_owned(), "mp4".to_owned()))
        } else {
            None
        }
    }
}

} // verus!
