//! An ordered group of matchers tried in sequence: the first member that
//! recognises the buffer decides the content type.

use crate::byte_matcher::{byte_matcher_classification, ByteMatcher, ByteMatcherModel};
use crate::mp4::{mp4_classification, Mp4Matcher};
use crate::text::opt_content_type_view;
use vstd::prelude::*;

verus! {

/// One member of a classifier group: a fixed byte signature or the structural
/// MP4 matcher.
pub enum MimeChecker {
    Bytes(ByteMatcher),
    Mp4(Mp4Matcher),
}

/// Spec-level content of a group member.
pub ghost enum MimeCheckerModel {
    Bytes(ByteMatcherModel),
    Mp4,
}

impl View for MimeChecker {
    type V = MimeCheckerModel;

    open spec fn view(&self) -> MimeCheckerModel {
        match self {
            MimeChecker::Bytes(m) => MimeCheckerModel::Bytes(m@),
            MimeChecker::Mp4(_) => MimeCheckerModel::Mp4,
        }
    }
}

impl MimeCheckerModel {
    pub open spec fn wf(&self) -> bool {
        match self {
            MimeCheckerModel::Bytes(m) => m.wf(),
            MimeCheckerModel::Mp4 => true,
        }
    }
}

/// What one group member reports for a buffer.
pub open spec fn checker_classification(c: MimeCheckerModel, data: Seq<u8>) -> Option<
    (Seq<char>, Seq<char>),
> {
    match c {
        MimeCheckerModel::Bytes(m) => byte_matcher_classification(m, data),
        MimeCheckerModel::Mp4 => mp4_classification(data),
    }
}

impl MimeChecker {
    /// The member's answer for the buffer.
    pub fn classify(&self, data: &Vec<u8>) -> (r: Option<(String, String)>)
        requires
            self@.wf(),
        ensures
            opt_content_type_view(r) == checker_classification(self@, data@),
    {
        match self {
            MimeChecker::Bytes(m) => m.classify(data),
            MimeChecker::Mp4(m) => m.classify(data),
        }
    }
}

/// First-match-wins classification over an ordered sequence of members:
/// the answer of the earliest member that reports one.
pub open spec fn group_classification(ms: Seq<MimeCheckerModel>, data: Seq<u8>) -> Option<
    (Seq<char>, Seq<char>),
>
    decreases ms.len(),
{
    if ms.len() == 0 {
        None
    } else if checker_classification(ms[0], data) is Some {
        checker_classification(ms[0], data)
    } else {
        group_classification(ms.drop_first(), data)
    }
}

/// Every member of the group is well formed.
pub open spec fn group_wf(ms: Seq<MimeCheckerModel>) -> bool {
    forall|i: int| 0 <= i < ms.len() ==> (#[trigger] ms[i]).wf()
}

/// An ordered list of matchers; registration order encodes precedence.
pub struct GroupedClassifier {
    pub byte_matchers: Vec<MimeChecker>,
}

impl View for GroupedClassifier {
    type V = Seq<MimeCheckerModel>;

    open spec fn view(&self) -> Seq<MimeCheckerModel> {
        Seq::new(self.byte_matchers@.len(), |i: int| self.byte_matchers@[i]@)
    }
}

impl GroupedClassifier {
    /// An empty group.
    pub fn new() -> (r: GroupedClassifier)
        ensures
            r@ == Seq::<MimeCheckerModel>::empty(),
    {
        let r = GroupedClassifier { byte_matchers: Vec::new() };
        proof {
            assert(r@ =~= Seq::<MimeCheckerModel>::empty());
        }
        r
    }

    /// Appends one member; precedence of the existing members is unchanged.
    pub fn push(&mut self, checker: MimeChecker)
        ensures
            final(self)@ == old(self)@.push(checker@),
    {
        self.byte_matchers.push(checker);
        proof {
            assert(self@ =~= old(self)@.push(checker@));
        }
    }

    /// Tries each member in registration order and returns the first answer;
    /// nothing when every member fails.
    pub fn classify(&self, data: &Vec<u8>) -> (r: Option<(String, String)>)
        requires
            group_wf(self@),
        ensures
            opt_content_type_view(r) == group_classification(self@, data@),
    {
        proof {
            assert(self@.skip(0) =~= self@);
        }
        let mut idx: usize = 0;
        while idx < self.byte_matchers.len()
            invariant
                group_wf(self@),
                0 <= idx <= self@.len(),
                self@.len() == self.byte_matchers@.len(),
                group_classification(self@, data@) == group_classification(
                    self@.skip(idx as int),
                    data@,
                ),
            decreases self@.len() - idx,
        {
            let sniffed_type = self.byte_matchers[idx].classify(data);
            proof {
                assert(self@.skip(idx as int)[0] == self@[idx as int]);
                assert(self@.skip(idx as int).drop_first() =~= self@.skip(idx as int + 1));
            }
            if sniffed_type.is_some() {
                return sniffed_type;
            }
            idx += 1;
        }
        proof {
            assert(self@.skip(idx as int).len() == 0);
        }
        None
    }

    /// The image group: ico, cursor, bmp, the two gif forms, webp, png and jpeg.
    pub fn image_classifer() -> (r: GroupedClassifier)
        ensures
            r@ == image_group_spec(),
            group_wf(r@),
    {
        let mut ret = GroupedClassifier::new();
        ret.push(MimeChecker::Bytes(ByteMatcher::image_x_icon()));
        ret.push(MimeChecker::Bytes(ByteMatcher::image_x_icon_cursor()));
        ret.push(MimeChecker::Bytes(ByteMatcher::image_bmp()));
        ret.push(MimeChecker::Bytes(ByteMatcher::image_gif89a()));
        ret.push(MimeChecker::Bytes(ByteMatcher::image_gif87a()));
        ret.push(MimeChecker::Bytes(ByteMatcher::image_webp()));
        ret.push(MimeChecker::Bytes(ByteMatcher::image_png()));
        ret.push(MimeChecker::Bytes(ByteMatcher::image_jpeg()));
        proof {
            assert(ret@ =~= image_group_spec());
        }
        ret
    }

    /// The audio/video group: webm, basic audio, aiff, mpeg, ogg, midi, avi, wave and the structural mp4 matcher.
    pub fn audio_video_classifer() -> (r: GroupedClassifier)
        ensures
            r@ == audio_video_group_spec(),
            group_wf(r@),
    {
        let mut ret = GroupedClassifier::new();
        ret.push(MimeChecker::Bytes(ByteMatcher::video_webm()));
        ret.push(MimeChecker::Bytes(ByteMatcher::audio_basic()));
        ret.push(MimeChecker::Bytes(ByteMatcher::audio_aiff()));
        ret.push(MimeChecker::Bytes(ByteMatcher::audio_mpeg()));
        ret.push(MimeChecker::Bytes(ByteMatcher::application_ogg()));
        ret.push(MimeChecker::Bytes(ByteMatcher::audio_midi()));
        ret.push(MimeChecker::Bytes(ByteMatcher::video_avi()));
        ret.push(MimeChecker::Bytes(ByteMatcher::audio_wave()));
        ret.push(MimeChecker::Mp4(Mp4Matcher));
        proof {
            assert(ret@ =~= audio_video_group_spec());
        }
        ret
    }

    /// The scriptable group: the HTML tag signatures in fixed precedence order, each space- and `>`-terminated, then `<?xml` and the PDF signature.
    #[verifier::rlimit(100)]
    pub fn scriptable_classifier() -> (r: GroupedClassifier)
        ensures
            r@ == scriptable_group_spec(),
            group_wf(r@),
    {
        let mut ret = GroupedClassifier::new();
        ret.push(MimeChecker::Bytes(ByteMatcher::text_html_doctype_20()));
        ret.push(MimeChecker::Bytes(ByteMatcher::text_html_doctype_3e()));
        ret.push(MimeChecker::Bytes(ByteMatcher::text_html_page_20()));
        ret.push(MimeChecker::Bytes(ByteMatcher::text_html_page_3e()));
        ret.push(MimeChecker::Bytes(ByteMatcher::text_html_head_20()));
        ret.push(MimeChecker::Bytes(ByteMatcher::text_html_head_3e()));
        ret.push(MimeChecker::Bytes(ByteMatcher::text_html_script_20()));
        ret.push(MimeChecker::Bytes(ByteMatcher::text_html_script_3e()));
        ret.push(MimeChecker::Bytes(ByteMatcher::text_html_iframe_20()));
        ret.push(MimeChecker::Bytes(ByteMatcher::text_html_iframe_3e()));
        ret.push(MimeChecker::Bytes(ByteMatcher::text_html_h1_20()));
        ret.push(MimeChecker::Bytes(ByteMatcher::text_html_h1_3e()));
        ret.push(MimeChecker::Bytes(ByteMatcher::text_html_div_20()));
        ret.push(MimeChecker::Bytes(ByteMatcher::text_html_div_3e()));
        ret.push(MimeChecker::Bytes(ByteMatcher::text_html_font_20()));
        ret.push(MimeChecker::Bytes(ByteMatcher::text_html_font_3e()));
        ret.push(MimeChecker::Bytes(ByteMatcher::text_html_table_20()));
        ret.push(MimeChecker::Bytes(ByteMatcher::text_html_table_3e()));
        ret.push(MimeChecker::Bytes(ByteMatcher::text_html_a_20()));
        ret.push(MimeChecker::Bytes(ByteMatcher::text_html_a_3e()));
        ret.push(MimeChecker::Bytes(ByteMatcher::text_html_style_20()));
        ret.push(MimeChecker::Bytes(ByteMatcher::text_html_style_3e()));
        ret.push(MimeChecker::Bytes(ByteMatcher::text_html_title_20()));
        ret.push(MimeChecker::Bytes(ByteMatcher::text_html_title_3e()));
        ret.push(MimeChecker::Bytes(ByteMatcher::text_html_b_20()));
        ret.push(MimeChecker::Bytes(ByteMatcher::text_html_b_3e()));
        ret.push(MimeChecker::Bytes(ByteMatcher::text_html_body_20()));
        ret.push(MimeChecker::Bytes(ByteMatcher::text_html_body_3e()));
        ret.push(MimeChecker::Bytes(ByteMatcher::text_html_br_20()));
        ret.push(MimeChecker::Bytes(ByteMatcher::text_html_br_3e()));
        ret.push(MimeChecker::Bytes(ByteMatcher::text_html_p_20()));
        ret.push(MimeChecker::Bytes(ByteMatcher::text_html_p_3e()));
        ret.push(MimeChecker::Bytes(ByteMatcher::text_html_comment_20()));
        ret.push(MimeChecker::Bytes(ByteMatcher::text_html_comment_3e()));
        ret.push(MimeChecker::Bytes(ByteMatcher::text_xml()));
        ret.push(MimeChecker::Bytes(ByteMatcher::application_pdf()));
        proof {
            assert(ret@ =~= scriptable_group_spec());
        }
        ret
    }

    /// The plaintext group: the UTF byte-order marks and the PostScript signature.
    pub fn plaintext_classifier() -> (r: GroupedClassifier)
        ensures
            r@ == plaintext_group_spec(),
            group_wf(r@),
    {
        let mut ret = GroupedClassifier::new();
        ret.push(MimeChecker::Bytes(ByteMatcher::text_plain_utf_8_bom()));
        ret.push(MimeChecker::Bytes(ByteMatcher::text_plain_utf_16le_bom()));
        ret.push(MimeChecker::Bytes(ByteMatcher::text_plain_utf_16be_bom()));
        ret.push(MimeChecker::Bytes(ByteMatcher::application_postscript()));
        proof {
            assert(ret@ =~= plaintext_group_spec());
        }
        ret
    }

    /// The archive group: gzip, zip and rar.
    pub fn archive_classifier() -> (r: GroupedClassifier)
        ensures
            r@ == archive_group_spec(),
            group_wf(r@),
    {
        let mut ret = GroupedClassifier::new();
        ret.push(MimeChecker::Bytes(ByteMatcher::application_x_gzip()));
        ret.push(MimeChecker::Bytes(ByteMatcher::application_zip()));
        ret.push(MimeChecker::Bytes(ByteMatcher::application_x_rar_compressed()));
        proof {
            assert(ret@ =~= archive_group_spec());
        }
        ret
    }

    /// The font group: woff, TrueType collection, OpenType, TrueType and the Embedded OpenType signature.
    pub fn font_classifier() -> (r: GroupedClassifier)
        ensures
            r@ == font_group_spec(),
            group_wf(r@),
    {
        let mut ret = GroupedClassifier::new();
        ret.push(MimeChecker::Bytes(ByteMatcher::application_font_woff()));
        ret.push(MimeChecker::Bytes(ByteMatcher::true_type_collection()));
        ret.push(MimeChecker::Bytes(ByteMatcher::open_type()));
        ret.push(MimeChecker::Bytes(ByteMatcher::true_type()));
        ret.push(MimeChecker::Bytes(ByteMatcher::application_vnd_ms_font_object()));
        proof {
            assert(ret@ =~= font_group_spec());
        }
        ret
    }
}

/// The image group: ico, cursor, bmp, the two gif forms, webp, png and jpeg.
pub open spec fn image_group_spec() -> Seq<MimeCheckerModel> {
    seq![
        MimeCheckerModel::Bytes(crate::signatures::image_x_icon_spec()),
        MimeCheckerModel::Bytes(crate::signatures::image_x_icon_cursor_spec()),
        MimeCheckerModel::Bytes(crate::signatures::image_bmp_spec()),
        MimeCheckerModel::Bytes(crate::signatures::image_gif89a_spec()),
        MimeCheckerModel::Bytes(crate::signatures::image_gif87a_spec()),
        MimeCheckerModel::Bytes(crate::signatures::image_webp_spec()),
        MimeCheckerModel::Bytes(crate::signatures::image_png_spec()),
        MimeCheckerModel::Bytes(crate::signatures::image_jpeg_spec()),
    ]
}

/// The audio/video group: webm, basic audio, aiff, mpeg, ogg, midi, avi, wave and the structural mp4 matcher.
pub open spec fn audio_video_group_spec() -> Seq<MimeCheckerModel> {
    seq![
        MimeCheckerModel::Bytes(crate::signatures::video_webm_spec()),
        MimeCheckerModel::Bytes(crate::signatures::audio_basic_spec()),
        MimeCheckerModel::Bytes(crate::signatures::audio_aiff_spec()),
        MimeCheckerModel::Bytes(crate::signatures::audio_mpeg_spec()),
        MimeCheckerModel::Bytes(crate::signatures::application_ogg_spec()),
        MimeCheckerModel::Bytes(crate::signatures::audio_midi_spec()),
        MimeCheckerModel::Bytes(crate::signatures::video_avi_spec()),
        MimeCheckerModel::Bytes(crate::signatures::audio_wave_spec()),
        MimeCheckerModel::Mp4,
    ]
}

/// The scriptable group: the HTML tag signatures in fixed precedence order, each space- and `>`-terminated, then `<?xml` and the PDF signature.
pub open spec fn scriptable_group_spec() -> Seq<MimeCheckerModel> {
    seq![
        MimeCheckerModel::Bytes(crate::signatures::text_html_doctype_20_spec()),
        MimeCheckerModel::Bytes(crate::signatures::text_html_doctype_3e_spec()),
        MimeCheckerModel::Bytes(crate::signatures::text_html_page_20_spec()),
        MimeCheckerModel::Bytes(crate::signatures::text_html_page_3e_spec()),
        MimeCheckerModel::Bytes(crate::signatures::text_html_head_20_spec()),
        MimeCheckerModel::Bytes(crate::signatures::text_html_head_3e_spec()),
        MimeCheckerModel::Bytes(crate::signatures::text_html_script_20_spec()),
        MimeCheckerModel::Bytes(crate::signatures::text_html_script_3e_spec()),
        MimeCheckerModel::Bytes(crate::signatures::text_html_iframe_20_spec()),
        MimeCheckerModel::Bytes(crate::signatures::text_html_iframe_3e_spec()),
        MimeCheckerModel::Bytes(crate::signatures::text_html_h1_20_spec()),
        MimeCheckerModel::Bytes(crate::signatures::text_html_h1_3e_spec()),
        MimeCheckerModel::Bytes(crate::signatures::text_html_div_20_spec()),
        MimeCheckerModel::Bytes(crate::signatures::text_html_div_3e_spec()),
        MimeCheckerModel::Bytes(crate::signatures::text_html_font_20_spec()),
        MimeCheckerModel::Bytes(crate::signatures::text_html_font_3e_spec()),
        MimeCheckerModel::Bytes(crate::signatures::text_html_table_20_spec()),
        MimeCheckerModel::Bytes(crate::signatures::text_html_table_3e_spec()),
        MimeCheckerModel::Bytes(crate::signatures::text_html_a_20_spec()),
        MimeCheckerModel::Bytes(crate::signatures::text_html_a_3e_spec()),
        MimeCheckerModel::Bytes(crate::signatures::text_html_style_20_spec()),
        MimeCheckerModel::Bytes(crate::signatures::text_html_style_3e_spec()),
        MimeCheckerModel::Bytes(crate::signatures::text_html_title_20_spec()),
        MimeCheckerModel::Bytes(crate::signatures::text_html_title_3e_spec()),
        MimeCheckerModel::Bytes(crate::signatures::text_html_b_20_spec()),
        MimeCheckerModel::Bytes(crate::signatures::text_html_b_3e_spec()),
        MimeCheckerModel::Bytes(crate::signatures::text_html_body_20_spec()),
        MimeCheckerModel::Bytes(crate::signatures::text_html_body_3e_spec()),
        MimeCheckerModel::Bytes(crate::signatures::text_html_br_20_spec()),
        MimeCheckerModel::Bytes(crate::signatures::text_html_br_3e_spec()),
        MimeCheckerModel::Bytes(crate::signatures::text_html_p_20_spec()),
        MimeCheckerModel::Bytes(crate::signatures::text_html_p_3e_spec()),
        MimeCheckerModel::Bytes(crate::signatures::text_html_comment_20_spec()),
        MimeCheckerModel::Bytes(crate::signatures::text_html_comment_3e_spec()),
        MimeCheckerModel::Bytes(crate::signatures::text_xml_spec()),
        MimeCheckerModel::Bytes(crate::signatures::application_pdf_spec()),
    ]
}

/// The plaintext group: the UTF byte-order marks and the PostScript signature.
pub open spec fn plaintext_group_spec() -> Seq<MimeCheckerModel> {
    seq![
        MimeCheckerModel::Bytes(crate::signatures::text_plain_utf_8_bom_spec()),
        MimeCheckerModel::Bytes(crate::signatures::text_plain_utf_16le_bom_spec()),
        MimeCheckerModel::Bytes(crate::signatures::text_plain_utf_16be_bom_spec()),
        MimeCheckerModel::Bytes(crate::signatures::application_postscript_spec()),
    ]
}

/// The archive group: gzip, zip and rar.
pub open spec fn archive_group_spec() -> Seq<MimeCheckerModel> {
    seq![
        MimeCheckerModel::Bytes(crate::signatures::application_x_gzip_spec()),
        MimeCheckerModel::Bytes(crate::signatures::application_zip_spec()),
        MimeCheckerModel::Bytes(crate::signatures::application_x_rar_compressed_spec()),
    ]
}

/// The font group: woff, TrueType collection, OpenType, TrueType and the Embedded OpenType signature.
pub open spec fn font_group_spec() -> Seq<MimeCheckerModel> {
    seq![
        MimeCheckerModel::Bytes(crate::signatures::application_font_woff_spec()),
        MimeCheckerModel::Bytes(crate::signatures::true_type_collection_spec()),
        MimeCheckerModel::Bytes(crate::signatures::open_type_spec()),
        MimeCheckerModel::Bytes(crate::signatures::true_type_spec()),
        MimeCheckerModel::Bytes(crate::signatures::application_vnd_ms_font_object_spec()),
    ]
}

/// A group where no member recognises the buffer classifies nothing.
pub proof fn lemma_group_no_match(ms: Seq<MimeCheckerModel>, data: Seq<u8>)
    requires
        forall|i: int| 0 <= i < ms.len() ==> checker_classification(#[trigger] ms[i], data) is None,
    ensures
        group_classification(ms, data) is None,
    decreases ms.len(),
{
    if ms.len() > 0 {
        assert(forall|i: int|
            0 <= i < ms.drop_first().len() ==> checker_classification(
                #[trigger] ms.drop_first()[i],
                data,
            ) is None);
        lemma_group_no_match(ms.drop_first(), data);
    }
}

/// The earliest member that recognises the buffer decides the group.
pub proof fn lemma_group_first_match(ms: Seq<MimeCheckerModel>, data: Seq<u8>, k: int)
    requires
        0 <= k < ms.len(),
        forall|i: int| 0 <= i < k ==> checker_classification(#[trigger] ms[i], data) is None,
        checker_classification(ms[k], data) is Some,
    ensures
        group_classification(ms, data) == checker_classification(ms[k], data),
    decreases k,
{
    if k > 0 {
        assert(forall|i: int|
            0 <= i < k - 1 ==> checker_classification(#[trigger] ms.drop_first()[i], data)
                is None);
        assert(ms.drop_first()[k - 1] == ms[k]);
        lemma_group_first_match(ms.drop_first(), data, k - 1);
    }
}

/// No scriptable signature accepts a buffer whose first byte is neither a
/// tag opener nor a PDF-signature opener nor one of the ignorable
/// whitespace bytes.
#[verifier::rlimit(100)]
pub proof fn lemma_scriptable_group_rejects(data: Seq<u8>)
    requires
        data.len() >= 1,
        !crate::signatures::tag_leading_ignore_spec().contains(data[0]),
        data[0] != 0x3Cu8,
        data[0] != 0x25u8,
    ensures
        group_classification(scriptable_group_spec(), data) is None,
{
    broadcast use crate::byte_matcher::lemma_mask_identity;

    let ms = scriptable_group_spec();
    crate::byte_matcher::lemma_first_byte_mismatch(crate::signatures::text_html_doctype_20_spec(), data);
    crate::byte_matcher::lemma_first_byte_mismatch(crate::signatures::text_html_doctype_3e_spec(), data);
    crate::byte_matcher::lemma_first_byte_mismatch(crate::signatures::text_html_page_20_spec(), data);
    crate::byte_matcher::lemma_first_byte_mismatch(crate::signatures::text_html_page_3e_spec(), data);
    crate::byte_matcher::lemma_first_byte_mismatch(crate::signatures::text_html_head_20_spec(), data);
    crate::byte_matcher::lemma_first_byte_mismatch(crate::signatures::text_html_head_3e_spec(), data);
    crate::byte_matcher::lemma_first_byte_mismatch(crate::signatures::text_html_script_20_spec(), data);
    crate::byte_matcher::lemma_first_byte_mismatch(crate::signatures::text_html_script_3e_spec(), data);
    crate::byte_matcher::lemma_first_byte_mismatch(crate::signatures::text_html_iframe_20_spec(), data);
    crate::byte_matcher::lemma_first_byte_mismatch(crate::signatures::text_html_iframe_3e_spec(), data);
    crate::byte_matcher::lemma_first_byte_mismatch(crate::signatures::text_html_h1_20_spec(), data);
    crate::byte_matcher::lemma_first_byte_mismatch(crate::signatures::text_html_h1_3e_spec(), data);
    crate::byte_matcher::lemma_first_byte_mismatch(crate::signatures::text_html_div_20_spec(), data);
    crate::byte_matcher::lemma_first_byte_mismatch(crate::signatures::text_html_div_3e_spec(), data);
    crate::byte_matcher::lemma_first_byte_mismatch(crate::signatures::text_html_font_20_spec(), data);
    crate::byte_matcher::lemma_first_byte_mismatch(crate::signatures::text_html_font_3e_spec(), data);
    crate::byte_matcher::lemma_first_byte_mismatch(crate::signatures::text_html_table_20_spec(), data);
    crate::byte_matcher::lemma_first_byte_mismatch(crate::signatures::text_html_table_3e_spec(), data);
    crate::byte_matcher::lemma_first_byte_mismatch(crate::signatures::text_html_a_20_spec(), data);
    crate::byte_matcher::lemma_first_byte_mismatch(crate::signatures::text_html_a_3e_spec(), data);
    crate::byte_matcher::lemma_first_byte_mismatch(crate::signatures::text_html_style_20_spec(), data);
    crate::byte_matcher::lemma_first_byte_mismatch(crate::signatures::text_html_style_3e_spec(), data);
    crate::byte_matcher::lemma_first_byte_mismatch(crate::signatures::text_html_title_20_spec(), data);
    crate::byte_matcher::lemma_first_byte_mismatch(crate::signatures::text_html_title_3e_spec(), data);
    crate::byte_matcher::lemma_first_byte_mismatch(crate::signatures::text_html_b_20_spec(), data);
    crate::byte_matcher::lemma_first_byte_mismatch(crate::signatures::text_html_b_3e_spec(), data);
    crate::byte_matcher::lemma_first_byte_mismatch(crate::signatures::text_html_body_20_spec(), data);
    crate::byte_matcher::lemma_first_byte_mismatch(crate::signatures::text_html_body_3e_spec(), data);
    crate::byte_matcher::lemma_first_byte_mismatch(crate::signatures::text_html_br_20_spec(), data);
    crate::byte_matcher::lemma_first_byte_mismatch(crate::signatures::text_html_br_3e_spec(), data);
    crate::byte_matcher::lemma_first_byte_mismatch(crate::signatures::text_html_p_20_spec(), data);
    crate::byte_matcher::lemma_first_byte_mismatch(crate::signatures::text_html_p_3e_spec(), data);
    crate::byte_matcher::lemma_first_byte_mismatch(crate::signatures::text_html_comment_20_spec(), data);
    crate::byte_matcher::lemma_first_byte_mismatch(crate::signatures::text_html_comment_3e_spec(), data);
    crate::byte_matcher::lemma_first_byte_mismatch(crate::signatures::text_xml_spec(), data);
    crate::byte_matcher::lemma_first_byte_mismatch(crate::signatures::application_pdf_spec(), data);
    assert forall|i: int| 0 <= i < ms.len() implies checker_classification(
        #[trigger] ms[i],
        data,
    ) is None by {}
    lemma_group_no_match(ms, data);
}

/// No plaintext signature accepts a buffer whose first byte is none of the
/// byte-order-mark openers or the PostScript-signature opener.
pub proof fn lemma_plaintext_group_rejects(data: Seq<u8>)
    requires
        data.len() >= 1,
        data[0] != 0xEFu8,
        data[0] != 0xFFu8,
        data[0] != 0xFEu8,
        data[0] != 0x25u8,
    ensures
        group_classification(plaintext_group_spec(), data) is None,
{
    broadcast use crate::byte_matcher::lemma_mask_identity;

    let ms = plaintext_group_spec();
    crate::byte_matcher::lemma_first_byte_mismatch(crate::signatures::text_plain_utf_8_bom_spec(), data);
    crate::byte_matcher::lemma_first_byte_mismatch(crate::signatures::text_plain_utf_16le_bom_spec(), data);
    crate::byte_matcher::lemma_first_byte_mismatch(crate::signatures::text_plain_utf_16be_bom_spec(), data);
    crate::byte_matcher::lemma_first_byte_mismatch(crate::signatures::application_postscript_spec(), data);
    assert forall|i: int| 0 <= i < ms.len() implies checker_classification(
        #[trigger] ms[i],
        data,
    ) is None by {}
    lemma_group_no_match(ms, data);
}

/// A registered signature is safe under its own leading-ignore set: the
/// pattern never begins with an ignorable byte, so a run of ignorable bytes
/// can never swallow the pattern's start.
pub open spec fn checker_admits_ignorable_prefix(c: MimeCheckerModel) -> bool {
    match c {
        MimeCheckerModel::Bytes(m) => m.wf() && !m.leading_ignore.contains(m.pattern[0]),
        MimeCheckerModel::Mp4 => true,
    }
}

/// Every signature registered in the six named groups admits an ignorable
/// prefix, so a buffer that is exactly a registered pattern behind any run
/// of that signature's ignorable bytes is matched by it.
#[verifier::rlimit(100)]
pub proof fn lemma_registered_signatures_admit_ignorable_prefix()
    ensures
        forall|i: int|
            0 <= i < image_group_spec().len() ==> checker_admits_ignorable_prefix(
                #[trigger] image_group_spec()[i],
            ),
        forall|i: int|
            0 <= i < audio_video_group_spec().len() ==> checker_admits_ignorable_prefix(
                #[trigger] audio_video_group_spec()[i],
            ),
        forall|i: int|
            0 <= i < scriptable_group_spec().len() ==> checker_admits_ignorable_prefix(
                #[trigger] scriptable_group_spec()[i],
            ),
        forall|i: int|
            0 <= i < plaintext_group_spec().len() ==> checker_admits_ignorable_prefix(
                #[trigger] plaintext_group_spec()[i],
            ),
        forall|i: int|
            0 <= i < archive_group_spec().len() ==> checker_admits_ignorable_prefix(
                #[trigger] archive_group_spec()[i],
            ),
        forall|i: int|
            0 <= i < font_group_spec().len() ==> checker_admits_ignorable_prefix(
                #[trigger] font_group_spec()[i],
            ),
{
    assert(!crate::signatures::tag_leading_ignore_spec().contains(0x3Cu8));
    assert(!Seq::<u8>::empty().contains(0x25u8));
    assert forall|i: int| 0 <= i < image_group_spec().len() implies checker_admits_ignorable_prefix(
        #[trigger] image_group_spec()[i],
    ) by {}
    assert forall|i: int|
        0 <= i < audio_video_group_spec().len() implies checker_admits_ignorable_prefix(
        #[trigger] audio_video_group_spec()[i],
    ) by {}
    assert forall|i: int|
        0 <= i < scriptable_group_spec().len() implies checker_admits_ignorable_prefix(
        #[trigger] scriptable_group_spec()[i],
    ) by {}
    assert forall|i: int|
        0 <= i < plaintext_group_spec().len() implies checker_admits_ignorable_prefix(
        #[trigger] plaintext_group_spec()[i],
    ) by {}
    assert forall|i: int|
        0 <= i < archive_group_spec().len() implies checker_admits_ignorable_prefix(
        #[trigger] archive_group_spec()[i],
    ) by {}
    assert forall|i: int| 0 <= i < font_group_spec().len() implies checker_admits_ignorable_prefix(
        #[trigger] font_group_spec()[i],
    ) by {}
}

} // verus!
