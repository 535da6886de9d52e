//! A single fixed byte signature: a pattern compared under a bitwise mask,
//! after an optional run of ignorable leading bytes.

use crate::text::opt_content_type_view;
use vstd::prelude::*;

verus! {

/// Mathematical content of a [`ByteMatcher`].
#[verifier::ext_equal]
pub ghost struct ByteMatcherModel {
    pub pattern: Seq<u8>,
    pub mask: Seq<u8>,
    pub leading_ignore: Seq<u8>,
    pub content_type: (Seq<char>, Seq<char>),
}

impl ByteMatcherModel {
    /// The mask covers the pattern exactly, and the pattern is never empty.
    pub open spec fn wf(&self) -> bool {
        self.mask.len() == self.pattern.len() && self.pattern.len() >= 1
    }
}

/// Index of the first byte of `data`, at or after `i`, that is not a member
/// of `ignore`; `data.len()` when every byte from `i` on is ignorable.
pub open spec fn skip_from(data: Seq<u8>, ignore: Seq<u8>, i: int) -> int
    decreases data.len() - i,
{
    if i < 0 || i >= data.len() {
        data.len() as int
    } else if ignore.contains(data[i]) {
        skip_from(data, ignore, i + 1)
    } else {
        i
    }
}

/// The masked pattern occurs in `data` at offset `off`.
pub open spec fn pattern_matches_at(
    data: Seq<u8>,
    pattern: Seq<u8>,
    mask: Seq<u8>,
    off: int,
) -> bool {
    forall|j: int|
        0 <= j < pattern.len() ==> (data[off + j] & mask[j]) == (pattern[j] & mask[j])
}

/// The matcher accepts `data`: after skipping the maximal run of ignorable
/// leading bytes, the masked pattern must start right there, and enough bytes
/// must remain.
pub open spec fn byte_matcher_matches(m: ByteMatcherModel, data: Seq<u8>) -> bool {
    let off = skip_from(data, m.leading_ignore, 0);
    &&& m.pattern.len() <= data.len()
    &&& off + m.pattern.len() <= data.len()
    &&& pattern_matches_at(data, m.pattern, m.mask, off)
}

/// What a matcher reports for a buffer: its content type on a match, nothing
/// otherwise.
pub open spec fn byte_matcher_classification(m: ByteMatcherModel, data: Seq<u8>) -> Option<
    (Seq<char>, Seq<char>),
> {
    if byte_matcher_matches(m, data) {
        Some(m.content_type)
    } else {
        None
    }
}

pub proof fn lemma_skip_from_bounds(data: Seq<u8>, ignore: Seq<u8>, i: int)
    requires
        0 <= i <= data.len(),
    ensures
        i <= skip_from(data, ignore, i) <= data.len(),
        forall|j: int| i <= j < skip_from(data, ignore, i) ==> ignore.contains(data[j]),
        skip_from(data, ignore, i) < data.len() ==> !ignore.contains(
            data[skip_from(data, ignore, i)],
        ),
    decreases data.len() - i,
{
    if i < data.len() && ignore.contains(data[i]) {
        lemma_skip_from_bounds(data, ignore, i + 1);
    }
}

/// If the bytes of `data` from `i` up to `end` are all ignorable and the byte
/// at `end` is not, the skip stops exactly at `end`.
pub proof fn lemma_skip_from_run(data: Seq<u8>, ignore: Seq<u8>, i: int, end: int)
    requires
        0 <= i <= end < data.len(),
        forall|j: int| i <= j < end ==> ignore.contains(data[j]),
        !ignore.contains(data[end]),
    ensures
        skip_from(data, ignore, i) == end,
    decreases end - i,
{
    if i < end {
        lemma_skip_from_run(data, ignore, i + 1, end);
    }
}

/// A buffer shorter than the pattern never matches.
pub proof fn lemma_short_data_never_matches(m: ByteMatcherModel, data: Seq<u8>)
    requires
        data.len() < m.pattern.len(),
    ensures
        !byte_matcher_matches(m, data),
{
}

/// A buffer that is exactly the pattern, preceded by any number of bytes drawn
/// from the leading-ignore set, matches — provided the pattern does not itself
/// begin with an ignorable byte.
pub proof fn lemma_ignorable_prefix_then_pattern_matches(m: ByteMatcherModel, prefix: Seq<u8>)
    requires
        m.wf(),
        forall|j: int| 0 <= j < prefix.len() ==> m.leading_ignore.contains(prefix[j]),
        !m.leading_ignore.contains(m.pattern[0]),
    ensures
        byte_matcher_matches(m, prefix + m.pattern),
{
    let data = prefix + m.pattern;
    assert(data[prefix.len() as int] == m.pattern[0]);
    lemma_skip_from_run(data, m.leading_ignore, 0, prefix.len() as int);
    assert forall|j: int| 0 <= j < m.pattern.len() implies (data[prefix.len() + j]
        & m.mask[j]) == (m.pattern[j] & m.mask[j]) by {
        assert(data[prefix.len() + j] == m.pattern[j]);
    }
}

/// Masking with all bits set leaves a byte unchanged.
pub broadcast proof fn lemma_mask_identity(x: u8)
    ensures
        #[trigger] (x & 0xFFu8) == x,
{
    assert(x & 0xFFu8 == x) by (bit_vector);
}

/// A matcher rejects any buffer whose first byte is not ignorable and
/// differs, under the mask, from the first pattern byte.
pub proof fn lemma_first_byte_mismatch(m: ByteMatcherModel, data: Seq<u8>)
    requires
        m.wf(),
        data.len() >= 1,
        !m.leading_ignore.contains(data[0]),
        data[0] & m.mask[0] != m.pattern[0] & m.mask[0],
    ensures
        !byte_matcher_matches(m, data),
{
    assert(skip_from(data, m.leading_ignore, 0) == 0);
    if byte_matcher_matches(m, data) {
        assert((data[0] & m.mask[0]) == (m.pattern[0] & m.mask[0]));
    }
}

/// One fixed signature (pattern, mask, ignorable leading bytes) together with
/// the content type it implies.
pub struct ByteMatcher {
    pub pattern: Vec<u8>,
    pub mask: Vec<u8>,
    pub leading_ignore: Vec<u8>,
    pub content_type: (String, String),
}

impl View for ByteMatcher {
    type V = ByteMatcherModel;

    open spec fn view(&self) -> ByteMatcherModel {
        ByteMatcherModel {
            pattern: self.pattern@,
            mask: self.mask@,
            leading_ignore: self.leading_ignore@,
            content_type: (self.content_type.0@, self.content_type.1@),
        }
    }
}

/// True when `b` occurs in `v`.
fn vec_contains_byte(v: &Vec<u8>, b: u8) -> (r: bool)
    ensures
        r == v@.contains(b),
{
    let mut k: usize = 0;
    while k < v.len()
        invariant
            0 <= k <= v@.len(),
            forall|t: int| 0 <= t < k ==> v@[t] != b,
        decreases v@.len() - k,
    {
        if v[k] == b {
            assert(v@[k as int] == b);
            return true;
        }
        k += 1;
    }
    false
}

impl ByteMatcher {
    /// Whether the signature accepts the buffer: skip ignorable leading bytes
    /// while enough room for the pattern remains, then compare the pattern
    /// under the mask.
    pub fn matches(&self, data: &Vec<u8>) -> (r: bool)
        requires
            self@.wf(),
        ensures
            r == byte_matcher_matches(self@, data@),
    {
        if data.len() < self.pattern.len() {
            return false;
        }
        let max_i = data.len() - self.pattern.len();
        let mut i: usize = 0;
        loop
            invariant
                self@.wf(),
                self.pattern@.len() <= data@.len(),
                data@.len() <= usize::MAX,
                max_i + self.pattern@.len() == data@.len(),
                0 <= i <= max_i,
                skip_from(data@, self.leading_ignore@, 0) == skip_from(
                    data@,
                    self.leading_ignore@,
                    i as int,
                ),
            ensures
                0 <= i,
                i + self.pattern@.len() <= data@.len(),
                skip_from(data@, self.leading_ignore@, 0) == i,
            decreases max_i - i,
        {
            if !vec_contains_byte(&self.leading_ignore, data[i]) {
                proof {
                    assert(skip_from(data@, self.leading_ignore@, i as int) == i as int);
                }
                break ;
            }
            proof {
                assert(skip_from(data@, self.leading_ignore@, i as int) == skip_from(
                    data@,
                    self.leading_ignore@,
                    i as int + 1,
                ));
            }
            if i == max_i {
                proof {
                    lemma_skip_from_bounds(data@, self.leading_ignore@, i as int + 1);
                }
                return false;
            }
            i += 1;
        }
        let mut j: usize = 0;
        while j < self.pattern.len()
            invariant
                self@.wf(),
                self.pattern@.len() <= data@.len(),
                data@.len() <= usize::MAX,
                0 <= i <= data@.len() - self.pattern@.len(),
                skip_from(data@, self.leading_ignore@, 0) == i,
                0 <= j <= self.pattern@.len(),
                forall|t: int|
                    0 <= t < j ==> (data@[i + t] & self.mask@[t]) == (self.pattern@[t]
                        & self.mask@[t]),
            decreases self.pattern@.len() - j,
        {
            if (data[i + j] & self.mask[j]) != (self.pattern[j] & self.mask[j]) {
                assert(!pattern_matches_at(data@, self.pattern@, self.mask@, i as int));
                return false;
            }
            j += 1;
        }
        true
    }

    /// The matcher's answer as a content type: its own type on a match.
    pub fn classify(&self, data: &Vec<u8>) -> (r: Option<(String, String)>)
        requires
            self@.wf(),
        ensures
            opt_content_type_view(r) == byte_matcher_classification(self@, data@),
    {
        if self.matches(data) {
            Some((self.content_type.0.clone(), self.content_type.1.clone()))
        } else {
            None
        }
    }
}

} // verus!
