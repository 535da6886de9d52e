//! A streaming scanner that walks a byte buffer looking for RSS, Atom or
//! RDF-based feed markers; used to catch feeds mislabeled as HTML.

use crate::text::{as_string_option, opt_content_type_view, opt_str_pair_view};
use vstd::prelude::*;

verus! {

/// The bytes of `pat` occur in `data` at offset `off`.
pub open spec fn bytes_at(data: Seq<u8>, off: int, pat: Seq<u8>) -> bool {
    &&& 0 <= off
    &&& off + pat.len() <= data.len()
    &&& forall|j: int| 0 <= j < pat.len() ==> data[off + j] == pat[j]
}

/// First position at or after `from` where the byte `b` occurs.
pub open spec fn find_byte(data: Seq<u8>, from: int, b: u8) -> Option<int>
    decreases data.len() - from,
{
    if from < 0 || from >= data.len() {
        None
    } else if data[from] == b {
        Some(from)
    } else {
        find_byte(data, from + 1, b)
    }
}

/// First position at or after `from` where the byte string `pat` occurs.
pub open spec fn find_bytes(data: Seq<u8>, from: int, pat: Seq<u8>) -> Option<int>
    decreases data.len() - from,
{
    if from < 0 || from + pat.len() > data.len() {
        None
    } else if bytes_at(data, from, pat) {
        Some(from)
    } else {
        find_bytes(data, from + 1, pat)
    }
}

pub proof fn lemma_find_byte_bounds(data: Seq<u8>, from: int, b: u8)
    requires
        0 <= from,
    ensures
        (match find_byte(data, from, b) {
            Some(p) => from <= p < data.len() && data[p] == b,
            None => true,
        }),
    decreases data.len() - from,
{
    if from < data.len() && data[from] != b {
        lemma_find_byte_bounds(data, from + 1, b);
    }
}

pub proof fn lemma_find_bytes_bounds(data: Seq<u8>, from: int, pat: Seq<u8>)
    requires
        0 <= from,
    ensures
        (match find_bytes(data, from, pat) {
            Some(p) => from <= p && p + pat.len() <= data.len() && bytes_at(data, p, pat),
            None => true,
        }),
    decreases data.len() - from,
{
    if from + pat.len() <= data.len() && !bytes_at(data, from, pat) {
        lemma_find_bytes_bounds(data, from + 1, pat);
    }
}

/// "?>", the end of a processing instruction.
pub open spec fn pi_close_spec() -> Seq<u8> {
    seq![0x3Fu8, 0x3Eu8]
}

/// "!--", the start of a comment (after the "<").
pub open spec fn comment_open_spec() -> Seq<u8> {
    seq![0x21u8, 0x2Du8, 0x2Du8]
}

/// "-->", the end of a comment.
pub open spec fn comment_close_spec() -> Seq<u8> {
    seq![0x2Du8, 0x2Du8, 0x3Eu8]
}

/// "rss".
pub open spec fn rss_marker_spec() -> Seq<u8> {
    seq![0x72u8, 0x73u8, 0x73u8]
}

/// "feed".
pub open spec fn feed_marker_spec() -> Seq<u8> {
    seq![0x66u8, 0x65u8, 0x65u8, 0x64u8]
}

/// "rdf:RDF".
pub open spec fn rdf_marker_spec() -> Seq<u8> {
    seq![0x72u8, 0x64u8, 0x66u8, 0x3Au8, 0x52u8, 0x44u8, 0x46u8]
}

/// The RSS 1.0 namespace URI "http://purl.org/rss/1.0/".
pub open spec fn purl_uri_spec() -> Seq<u8> {
    seq![
        0x68u8, 0x74u8, 0x74u8, 0x70u8, 0x3Au8, 0x2Fu8, 0x2Fu8, 0x70u8, 0x75u8, 0x72u8, 0x6Cu8,
        0x2Eu8, 0x6Fu8, 0x72u8, 0x67u8, 0x2Fu8, 0x72u8, 0x73u8, 0x73u8, 0x2Fu8, 0x31u8, 0x2Eu8,
        0x30u8, 0x2Fu8,
    ]
}

/// The RDF syntax namespace URI "http://www.w3.org/1999/02/22-rdf-syntax-ns#".
pub open spec fn w3_uri_spec() -> Seq<u8> {
    seq![
        0x68u8, 0x74u8, 0x74u8, 0x70u8, 0x3Au8, 0x2Fu8, 0x2Fu8, 0x77u8, 0x77u8, 0x77u8, 0x2Eu8,
        0x77u8, 0x33u8, 0x2Eu8, 0x6Fu8, 0x72u8, 0x67u8, 0x2Fu8, 0x31u8, 0x39u8, 0x39u8, 0x39u8,
        0x2Fu8, 0x30u8, 0x32u8, 0x2Fu8, 0x32u8, 0x32u8, 0x2Du8, 0x72u8, 0x64u8, 0x66u8, 0x2Du8,
        0x73u8, 0x79u8, 0x6Eu8, 0x74u8, 0x61u8, 0x78u8, 0x2Du8, 0x6Eu8, 0x73u8, 0x23u8,
    ]
}

/// The UTF-8 byte-order mark.
pub open spec fn utf8_bom_spec() -> Seq<u8> {
    seq![0xEFu8, 0xBBu8, 0xBFu8]
}

/// The scan from position `pos`: advance to the next "<"; skip processing
/// instructions to "?>" and comments to "-->" (failing outright when they are
/// unterminated); skip other "<!" declarations to ">"; report a feed on
/// "<rss" or "<feed"; on "<rdf:RDF", report RSS when both namespace URIs
/// occur in the remainder; any other tag is ignored and the scan goes on.
pub open spec fn feeds_scan(data: Seq<u8>, pos: int) -> Option<(Seq<char>, Seq<char>)>
    decreases data.len() - pos,
        via feeds_scan_decreases
{
    match find_byte(data, pos, 0x3Cu8) {
        None => None,
        Some(lt) => {
            if bytes_at(data, lt + 1, seq![0x3Fu8]) {
                match find_bytes(data, lt + 2, pi_close_spec()) {
                    None => None,
                    Some(p) => feeds_scan(data, p + 2),
                }
            } else if bytes_at(data, lt + 1, comment_open_spec()) {
                match find_bytes(data, lt + 4, comment_close_spec()) {
                    None => None,
                    Some(p) => feeds_scan(data, p + 3),
                }
            } else if bytes_at(data, lt + 1, seq![0x21u8]) {
                match find_byte(data, lt + 2, 0x3Eu8) {
                    None => None,
                    Some(p) => feeds_scan(data, p + 1),
                }
            } else if bytes_at(data, lt + 1, rss_marker_spec()) {
                Some(("application"@, "rss+xml"@))
            } else if bytes_at(data, lt + 1, feed_marker_spec()) {
                Some(("application"@, "atom+xml"@))
            } else if bytes_at(data, lt + 1, rdf_marker_spec()) {
                if find_bytes(data, lt + 8, purl_uri_spec()) is Some && find_bytes(
                    data,
                    lt + 8,
                    w3_uri_spec(),
                ) is Some {
                    Some(("application"@, "rss+xml"@))
                } else {
                    None
                }
            } else {
                feeds_scan(data, lt + 1)
            }
        },
    }
}

#[via_fn]
proof fn feeds_scan_decreases(data: Seq<u8>, pos: int) {
    if 0 <= pos {
        lemma_find_byte_bounds(data, pos, 0x3Cu8);
        match find_byte(data, pos, 0x3Cu8) {
            None => {},
            Some(lt) => {
                lemma_find_bytes_bounds(data, lt + 2, pi_close_spec());
                lemma_find_bytes_bounds(data, lt + 4, comment_close_spec());
                lemma_find_byte_bounds(data, lt + 2, 0x3Eu8);
            },
        }
    }
}

/// The feed scanner's verdict for a whole buffer: buffers shorter than three
/// bytes are never feeds, a leading UTF-8 byte-order mark is skipped, and the
/// scan starts at the beginning.
pub open spec fn feeds_classification(data: Seq<u8>) -> Option<(Seq<char>, Seq<char>)> {
    if data.len() < 3 {
        None
    } else if bytes_at(data, 0, utf8_bom_spec()) {
        feeds_scan(data, 3)
    } else {
        feeds_scan(data, 0)
    }
}

/// True when `pat` occurs in `data` at offset `off`.
fn match_at(data: &Vec<u8>, off: usize, pat: &Vec<u8>) -> (r: bool)
    ensures
        r == bytes_at(data@, off as int, pat@),
{
    if pat.len() > data.len() || off > data.len() - pat.len() {
        return false;
    }
    let mut j: usize = 0;
    while j < pat.len()
        invariant
            data@.len() <= usize::MAX,
            off + pat@.len() <= data@.len(),
            0 <= j <= pat@.len(),
            forall|t: int| 0 <= t < j ==> data@[off + t] == pat@[t],
        decreases pat@.len() - j,
    {
        if data[off + j] != pat[j] {
            assert(data@[off + j] != pat@[j as int]);
            return false;
        }
        j += 1;
    }
    true
}

/// First position at or after `from` where the byte `b` occurs.
fn find_byte_exec(data: &Vec<u8>, from: usize, b: u8) -> (r: Option<usize>)
    ensures
        (match r {
            Some(p) => from <= p && p < data@.len() && find_byte(data@, from as int, b) == Some(
                p as int,
            ),
            None => find_byte(data@, from as int, b) is None,
        }),
{
    let mut i: usize = from;
    while i < data.len()
        invariant
            from <= i,
            i <= data@.len() || i == from,
            find_byte(data@, from as int, b) == find_byte(data@, i as int, b),
        decreases data@.len() - i,
    {
        if data[i] == b {
            return Some(i);
        }
        i += 1;
    }
    None
}

/// First position at or after `from` where the byte string `pat` occurs.
fn find_bytes_exec(data: &Vec<u8>, from: usize, pat: &Vec<u8>) -> (r: Option<usize>)
    requires
        pat@.len() >= 1,
    ensures
        (match r {
            Some(p) => from <= p && p + pat@.len() <= data@.len() && find_bytes(
                data@,
                from as int,
                pat@,
            ) == Some(p as int),
            None => find_bytes(data@, from as int, pat@) is None,
        }),
{
    if pat.len() > data.len() || from > data.len() - pat.len() {
        return None;
    }
    let last = data.len() - pat.len();
    let mut i: usize = from;
    while i <= last
        invariant
            data@.len() <= usize::MAX,
            pat@.len() >= 1,
            pat@.len() <= data@.len(),
            last == data@.len() - pat@.len(),
            from <= i <= last + 1,
            find_bytes(data@, from as int, pat@) == find_bytes(data@, i as int, pat@),
        decreases last + 1 - i,
    {
        if match_at(data, i, pat) {
            return Some(i);
        }
        i += 1;
    }
    None
}

/// The scanner for syndication feeds embedded in XML or HTML.
pub struct FeedsClassifier;

impl FeedsClassifier {
    /// The scan from `pos` on, as [`feeds_scan`] describes it.
    fn scan_from(data: &Vec<u8>, pos: usize) -> (r: Option<(&'static str, &'static str)>)
        requires
            pos <= data@.len(),
        ensures
            opt_str_pair_view(r) == feeds_scan(data@, pos as int),
        decreases data@.len() - pos,
    {
        let n = data.len();
        let lt = match find_byte_exec(data, pos, 0x3Cu8) {
            None => {
                return None;
            },
            Some(lt) => lt,
        };
        let question = vec![0x3Fu8];
        let bang = vec![0x21u8];
        let comment_open = vec![0x21u8, 0x2Du8, 0x2Du8];
        proof {
            assert(question@ =~= seq![0x3Fu8]);
            assert(bang@ =~= seq![0x21u8]);
            assert(comment_open@ =~= comment_open_spec());
        }
        if match_at(data, lt + 1, &question) {
            let pi_close = vec![0x3Fu8, 0x3Eu8];
            proof {
                assert(pi_close@ =~= pi_close_spec());
            }
            match find_bytes_exec(data, lt + 2, &pi_close) {
                None => None,
                Some(p) => Self::scan_from(data, p + 2),
            }
        } else if match_at(data, lt + 1, &comment_open) {
            let comment_close = vec![0x2Du8, 0x2Du8, 0x3Eu8];
            proof {
                assert(comment_close@ =~= comment_close_spec());
            }
            match find_bytes_exec(data, lt + 4, &comment_close) {
                None => None,
                Some(p) => Self::scan_from(data, p + 3),
            }
        } else if match_at(data, lt + 1, &bang) {
            match find_byte_exec(data, lt + 2, 0x3Eu8) {
                None => None,
                Some(p) => Self::scan_from(data, p + 1),
            }
        } else {
            let rss = vec![0x72u8, 0x73u8, 0x73u8];
            let feed = vec![0x66u8, 0x65u8, 0x65u8, 0x64u8];
            let rdf = vec![0x72u8, 0x64u8, 0x66u8, 0x3Au8, 0x52u8, 0x44u8, 0x46u8];
            proof {
                assert(rss@ =~= rss_marker_spec());
                assert(feed@ =~= feed_marker_spec());
                assert(rdf@ =~= rdf_marker_spec());
            }
            if match_at(data, lt + 1, &rss) {
                Some(("application", "rss+xml"))
            } else if match_at(data, lt + 1, &feed) {
                Some(("application", "atom+xml"))
            } else if match_at(data, lt + 1, &rdf) {
                let purl = vec![
                    0x68u8, 0x74u8, 0x74u8, 0x70u8, 0x3Au8, 0x2Fu8, 0x2Fu8, 0x70u8, 0x75u8, 0x72u8,
                    0x6Cu8, 0x2Eu8, 0x6Fu8, 0x72u8, 0x67u8, 0x2Fu8, 0x72u8, 0x73u8, 0x73u8, 0x2Fu8,
                    0x31u8, 0x2Eu8, 0x30u8, 0x2Fu8,
                ];
                let w3 = vec![
                    0x68u8, 0x74u8, 0x74u8, 0x70u8, 0x3Au8, 0x2Fu8, 0x2Fu8, 0x77u8, 0x77u8, 0x77u8,
                    0x2Eu8, 0x77u8, 0x33u8, 0x2Eu8, 0x6Fu8, 0x72u8, 0x67u8, 0x2Fu8, 0x31u8, 0x39u8,
                    0x39u8, 0x39u8, 0x2Fu8, 0x30u8, 0x32u8, 0x2Fu8, 0x32u8, 0x32u8, 0x2Du8, 0x72u8,
                    0x64u8, 0x66u8, 0x2Du8, 0x73u8, 0x79u8, 0x6Eu8, 0x74u8, 0x61u8, 0x78u8, 0x2Du8,
                    0x6Eu8, 0x73u8, 0x23u8,
                ];
                proof {
                    assert(purl@ =~= purl_uri_spec());
                    assert(w3@ =~= w3_uri_spec());
                }
                if find_bytes_exec(data, lt + 8, &purl).is_some() && find_bytes_exec(
                    data,
                    lt + 8,
                    &w3,
                ).is_some() {
                    Some(("application", "rss+xml"))
                } else {
                    None
                }
            } else {
                Self::scan_from(data, lt + 1)
            }
        }
    }

    /// The scanner's verdict on borrowed content types.
    pub fn classify_impl(&self, data: &Vec<u8>) -> (r: Option<(&'static str, &'static str)>)
        ensures
            opt_str_pair_view(r) == feeds_classification(data@),
    {
        if data.len() < 3 {
            return None;
        }
        let bom = vec![0xEFu8, 0xBBu8, 0xBFu8];
        proof {
            assert(bom@ =~= utf8_bom_spec());
        }
        if match_at(data, 0, &bom) {
            Self::scan_from(data, 3)
        } else {
            Self::scan_from(data, 0)
        }
    }

    /// The scanner's verdict as an owned content type.
    pub fn classify(&self, data: &Vec<u8>) -> (r: Option<(String, String)>)
        ensures
            opt_content_type_view(r) == feeds_classification(data@),
    {
        as_string_option(self.classify_impl(data))
    }
}

} // verus!
