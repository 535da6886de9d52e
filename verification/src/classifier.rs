//! The top-level classifier: orchestrates the signature groups, the feed
//! scanner and the text/binary heuristic following the MIME sniffing
//! decision algorithm.

use crate::binary::{binary_or_plaintext_classification, BinaryOrPlaintextClassifier};
use crate::feeds::{feeds_classification, FeedsClassifier};
use crate::byte_matcher::byte_matcher_matches;
use crate::grouped::{
    archive_group_spec, audio_video_group_spec, checker_classification, group_classification,
    group_wf, image_group_spec, plaintext_group_spec, scriptable_group_spec, GroupedClassifier,
    MimeCheckerModel,
};
use crate::text::{ends_with, opt_content_type_view, str_eq, str_ends_with, string_eq_lit};
use vstd::prelude::*;

verus! {

/// Spec-level content of the classifier: its five groups, in the order the
/// decision algorithm consults them.
pub ghost struct MimeClassifierModel {
    pub image: Seq<MimeCheckerModel>,
    pub audio_video: Seq<MimeCheckerModel>,
    pub scriptable: Seq<MimeCheckerModel>,
    pub plaintext: Seq<MimeCheckerModel>,
    pub archive: Seq<MimeCheckerModel>,
}

impl MimeClassifierModel {
    pub open spec fn wf(&self) -> bool {
        &&& group_wf(self.image)
        &&& group_wf(self.audio_video)
        &&& group_wf(self.scriptable)
        &&& group_wf(self.plaintext)
        &&& group_wf(self.archive)
    }
}

/// The groups a freshly built classifier carries: the named groups of the
/// fixed signature table.
pub open spec fn canonical_classifier_model() -> MimeClassifierModel {
    MimeClassifierModel {
        image: image_group_spec(),
        audio_video: audio_video_group_spec(),
        scriptable: scriptable_group_spec(),
        plaintext: plaintext_group_spec(),
        archive: archive_group_spec(),
    }
}

/// Unknown-type sniffing: the scriptable group first (only when scripts may
/// be sniffed), then plaintext, image, audio/video and archive; when nothing
/// matched, the text-or-binary heuristic decides.
pub open spec fn sniff_unknown_classification(
    m: MimeClassifierModel,
    sniff_scriptable: bool,
    data: Seq<u8>,
) -> Option<(Seq<char>, Seq<char>)> {
    if sniff_scriptable && group_classification(m.scriptable, data) is Some {
        group_classification(m.scriptable, data)
    } else if group_classification(m.plaintext, data) is Some {
        group_classification(m.plaintext, data)
    } else if group_classification(m.image, data) is Some {
        group_classification(m.image, data)
    } else if group_classification(m.audio_video, data) is Some {
        group_classification(m.audio_video, data)
    } else if group_classification(m.archive, data) is Some {
        group_classification(m.archive, data)
    } else {
        Some(binary_or_plaintext_classification(data))
    }
}

/// XML-like declared types are never re-sniffed: the subtype ends in "+xml",
/// or the pair is exactly application/xml or text/xml.
pub open spec fn is_xml_type(tp: Seq<char>, sub_tp: Seq<char>) -> bool {
    ||| ends_with(sub_tp, "+xml"@)
    ||| (tp == "application"@ && sub_tp == "xml"@)
    ||| (tp == "text"@ && sub_tp == "xml"@)
}

/// The declared pair is exactly text/html.
pub open spec fn is_html_type(tp: Seq<char>, sub_tp: Seq<char>) -> bool {
    tp == "text"@ && sub_tp == "html"@
}

/// The placeholder "unknown" declared forms that trigger unknown-type
/// sniffing.
pub open spec fn is_unknown_placeholder(tp: Seq<char>, sub_tp: Seq<char>) -> bool {
    ||| (tp == "unknown"@ && sub_tp == "unknown"@)
    ||| (tp == "application"@ && sub_tp == "unknown"@)
    ||| (tp == "*"@ && sub_tp == "*"@)
}

/// The MIME type sniffing decision algorithm. With no declared type, or a
/// placeholder one, unknown-type sniffing decides (trying scripts only when
/// sniffing is allowed). Otherwise: the declared type is authoritative under
/// `no_sniff`; the text-or-binary heuristic overrides it under
/// `check_for_apache_bug`; XML-like types stay as declared; text/html is
/// handed to the feed scanner and stays as declared when no feed is found; a
/// declared image type may be refined by the image group, a declared audio,
/// video or application/ogg type by the audio/video group; anything else,
/// and every unrefined fall-through, resolves to the declared type.
pub open spec fn mime_classification(
    m: MimeClassifierModel,
    no_sniff: bool,
    check_for_apache_bug: bool,
    supplied_type: Option<(Seq<char>, Seq<char>)>,
    data: Seq<u8>,
) -> Option<(Seq<char>, Seq<char>)> {
    match supplied_type {
        None => sniff_unknown_classification(m, !no_sniff, data),
        Some((tp, sub_tp)) => {
            if is_unknown_placeholder(tp, sub_tp) {
                sniff_unknown_classification(m, !no_sniff, data)
            } else if no_sniff {
                Some((tp, sub_tp))
            } else if check_for_apache_bug {
                Some(binary_or_plaintext_classification(data))
            } else if is_xml_type(tp, sub_tp) {
                Some((tp, sub_tp))
            } else if is_html_type(tp, sub_tp) {
                match feeds_classification(data) {
                    Some(feed) => Some(feed),
                    None => Some((tp, sub_tp)),
                }
            } else if tp == "image"@ {
                match group_classification(m.image, data) {
                    Some(sniffed) => Some(sniffed),
                    None => Some((tp, sub_tp)),
                }
            } else if tp == "audio"@ || tp == "video"@ || (tp == "application"@ && sub_tp
                == "ogg"@) {
                match group_classification(m.audio_video, data) {
                    Some(sniffed) => Some(sniffed),
                    None => Some((tp, sub_tp)),
                }
            } else {
                Some((tp, sub_tp))
            }
        },
    }
}

/// The decision algorithm is total: it always resolves to some content type.
pub proof fn lemma_mime_classification_total(
    m: MimeClassifierModel,
    no_sniff: bool,
    check_for_apache_bug: bool,
    supplied_type: Option<(Seq<char>, Seq<char>)>,
    data: Seq<u8>,
)
    ensures
        mime_classification(m, no_sniff, check_for_apache_bug, supplied_type, data) is Some,
{
}

/// With sniffing disabled, a concrete (non-placeholder) declared type is
/// returned unchanged, whatever the buffer holds and whatever the Apache-bug
/// flag says.
pub proof fn lemma_no_sniff_returns_declared(
    m: MimeClassifierModel,
    check_for_apache_bug: bool,
    tp: Seq<char>,
    sub_tp: Seq<char>,
    data: Seq<u8>,
)
    requires
        !is_unknown_placeholder(tp, sub_tp),
    ensures
        mime_classification(m, true, check_for_apache_bug, Some((tp, sub_tp)), data) == Some(
            (tp, sub_tp),
        ),
{
}

/// A declared text/xml is never re-sniffed: whatever the buffer holds, and
/// with or without `no_sniff`, classification returns text/xml unchanged —
/// provided the Apache-bug override is off, which ignores every declared
/// type unconditionally.
pub proof fn lemma_text_xml_never_resniffed(
    m: MimeClassifierModel,
    no_sniff: bool,
    data: Seq<u8>,
)
    ensures
        mime_classification(m, no_sniff, false, Some(("text"@, "xml"@)), data) == Some(
            ("text"@, "xml"@),
        ),
{
    reveal_strlit("text");
    reveal_strlit("xml");
    reveal_strlit("unknown");
    reveal_strlit("application");
    reveal_strlit("*");
}

/// The single entry point for content-type discovery.
pub struct MIMEClassifier {
    pub image_classifier: GroupedClassifier,
    pub audio_video_classifer: GroupedClassifier,
    pub scriptable_classifier: GroupedClassifier,
    pub plaintext_classifier: GroupedClassifier,
    pub archive_classifer: GroupedClassifier,
    pub binary_or_plaintext: BinaryOrPlaintextClassifier,
    pub feeds_classifier: FeedsClassifier,
}

impl View for MIMEClassifier {
    type V = MimeClassifierModel;

    open spec fn view(&self) -> MimeClassifierModel {
        MimeClassifierModel {
            image: self.image_classifier@,
            audio_video: self.audio_video_classifer@,
            scriptable: self.scriptable_classifier@,
            plaintext: self.plaintext_classifier@,
            archive: self.archive_classifer@,
        }
    }
}

impl MIMEClassifier {
    /// A classifier holding the fixed signature table.
    pub fn new() -> (r: MIMEClassifier)
        ensures
            r@ == canonical_classifier_model(),
            r@.wf(),
    {
        MIMEClassifier {
            image_classifier: GroupedClassifier::image_classifer(),
            audio_video_classifer: GroupedClassifier::audio_video_classifer(),
            scriptable_classifier: GroupedClassifier::scriptable_classifier(),
            plaintext_classifier: GroupedClassifier::plaintext_classifier(),
            archive_classifer: GroupedClassifier::archive_classifier(),
            binary_or_plaintext: BinaryOrPlaintextClassifier,
            feeds_classifier: FeedsClassifier,
        }
    }

    /// Unknown-type sniffing: groups in fixed order, then the heuristic.
    pub fn sniff_unknown_type(&self, sniff_scriptable: bool, data: &Vec<u8>) -> (r: Option<
        (String, String),
    >)
        requires
            self@.wf(),
        ensures
            opt_content_type_view(r) == sniff_unknown_classification(
                self@,
                sniff_scriptable,
                data@,
            ),
    {
        if sniff_scriptable {
            let tp = self.scriptable_classifier.classify(data);
            if tp.is_some() {
                return tp;
            }
        }
        let tp = self.plaintext_classifier.classify(data);
        if tp.is_some() {
            return tp;
        }
        let tp = self.image_classifier.classify(data);
        if tp.is_some() {
            return tp;
        }
        let tp = self.audio_video_classifer.classify(data);
        if tp.is_some() {
            return tp;
        }
        let tp = self.archive_classifer.classify(data);
        if tp.is_some() {
            return tp;
        }
        self.binary_or_plaintext.classify(data)
    }

    /// The text-or-binary heuristic alone.
    pub fn sniff_text_or_data(&self, data: &Vec<u8>) -> (r: Option<(String, String)>)
        ensures
            opt_content_type_view(r) == Some(binary_or_plaintext_classification(data@)),
    {
        self.binary_or_plaintext.classify(data)
    }

    /// Whether a declared pair is XML-like and must not be re-sniffed.
    pub fn is_xml(tp: &str, sub_tp: &str) -> (r: bool)
        ensures
            r == is_xml_type(tp@, sub_tp@),
    {
        str_ends_with(sub_tp, "+xml") || (str_eq(tp, "application") && str_eq(sub_tp, "xml")) || (
        str_eq(tp, "text") && str_eq(sub_tp, "xml"))
    }

    /// Whether a declared pair is exactly text/html.
    pub fn is_html(tp: &str, sub_tp: &str) -> (r: bool)
        ensures
            r == is_html_type(tp@, sub_tp@),
    {
        str_eq(tp, "text") && str_eq(sub_tp, "html")
    }

    /// Performs the MIME type sniffing decision algorithm; always resolves
    /// to some content type.
    pub fn classify(
        &self,
        no_sniff: bool,
        check_for_apache_bug: bool,
        supplied_type: &Option<(String, String)>,
        data: &Vec<u8>,
    ) -> (r: Option<(String, String)>)
        requires
            self@.wf(),
        ensures
            opt_content_type_view(r) == mime_classification(
                self@,
                no_sniff,
                check_for_apache_bug,
                opt_content_type_view(*supplied_type),
                data@,
            ),
            r is Some,
    {
        proof {
            lemma_mime_classification_total(
                self@,
                no_sniff,
                check_for_apache_bug,
                opt_content_type_view(*supplied_type),
                data@,
            );
        }
        match supplied_type {
            None => self.sniff_unknown_type(!no_sniff, data),
            Some(tup) => {
                let media_type = &tup.0;
                let media_subtype = &tup.1;
                if (string_eq_lit(media_type, "unknown") && string_eq_lit(media_subtype, "unknown"))
                    || (string_eq_lit(media_type, "application") && string_eq_lit(
                    media_subtype,
                    "unknown",
                )) || (string_eq_lit(media_type, "*") && string_eq_lit(media_subtype, "*")) {
                    self.sniff_unknown_type(!no_sniff, data)
                } else if no_sniff {
                    Some((media_type.clone(), media_subtype.clone()))
                } else if check_for_apache_bug {
                    self.sniff_text_or_data(data)
                } else if Self::is_xml(media_type.as_str(), media_subtype.as_str()) {
                    Some((media_type.clone(), media_subtype.clone()))
                } else if Self::is_html(media_type.as_str(), media_subtype.as_str()) {
                    match self.feeds_classifier.classify(data) {
                        Some(feed) => Some(feed),
                        None => Some((media_type.clone(), media_subtype.clone())),
                    }
                } else if string_eq_lit(media_type, "image") {
                    match self.image_classifier.classify(data) {
                        Some(sniffed) => Some(sniffed),
                        None => Some((media_type.clone(), media_subtype.clone())),
                    }
                } else if string_eq_lit(media_type, "audio") || string_eq_lit(media_type, "video")
                    || (string_eq_lit(media_type, "application") && string_eq_lit(
                    media_subtype,
                    "ogg",
                )) {
                    match self.audio_video_classifer.classify(data) {
                        Some(sniffed) => Some(sniffed),
                        None => Some((media_type.clone(), media_subtype.clone())),
                    }
                } else {
                    Some((media_type.clone(), media_subtype.clone()))
                }
            },
        }
    }
}

/// A buffer that opens with the eight PNG signature bytes and carries no
/// declared type is classified image/png, whatever bytes follow.
pub proof fn lemma_png_prefix_classified_png(data: Seq<u8>)
    requires
        data.len() >= 8,
        data[0] == 0x89u8,
        data[1] == 0x50u8,
        data[2] == 0x4Eu8,
        data[3] == 0x47u8,
        data[4] == 0x0Du8,
        data[5] == 0x0Au8,
        data[6] == 0x1Au8,
        data[7] == 0x0Au8,
    ensures
        mime_classification(canonical_classifier_model(), false, false, None, data) == Some(
            ("image"@, "png"@),
        ),
{
    broadcast use crate::byte_matcher::lemma_mask_identity;

    crate::grouped::lemma_scriptable_group_rejects(data);
    crate::grouped::lemma_plaintext_group_rejects(data);
    crate::byte_matcher::lemma_first_byte_mismatch(crate::signatures::image_x_icon_spec(), data);
    crate::byte_matcher::lemma_first_byte_mismatch(
        crate::signatures::image_x_icon_cursor_spec(),
        data,
    );
    crate::byte_matcher::lemma_first_byte_mismatch(crate::signatures::image_bmp_spec(), data);
    crate::byte_matcher::lemma_first_byte_mismatch(crate::signatures::image_gif89a_spec(), data);
    crate::byte_matcher::lemma_first_byte_mismatch(crate::signatures::image_gif87a_spec(), data);
    crate::byte_matcher::lemma_first_byte_mismatch(crate::signatures::image_webp_spec(), data);
    let png = crate::signatures::image_png_spec();
    assert(byte_matcher_matches(png, data)) by {
        assert(crate::byte_matcher::skip_from(data, png.leading_ignore, 0) == 0);
        assert forall|j: int| 0 <= j < png.pattern.len() implies (data[j] & png.mask[j]) == (
        png.pattern[j] & png.mask[j]) by {}
    }
    let ms = image_group_spec();
    assert forall|i: int| 0 <= i < 6 implies checker_classification(#[trigger] ms[i], data)
        is None by {}
    assert(checker_classification(ms[6], data) == Some(("image"@, "png"@)));
    crate::grouped::lemma_group_first_match(ms, data, 6);
}

/// A buffer that opens with the six GIF89a signature bytes and carries no
/// declared type is classified image/gif, whatever bytes follow.
pub proof fn lemma_gif89a_prefix_classified_gif(data: Seq<u8>)
    requires
        data.len() >= 6,
        data[0] == 0x47u8,
        data[1] == 0x49u8,
        data[2] == 0x46u8,
        data[3] == 0x38u8,
        data[4] == 0x39u8,
        data[5] == 0x61u8,
    ensures
        mime_classification(canonical_classifier_model(), false, false, None, data) == Some(
            ("image"@, "gif"@),
        ),
{
    broadcast use crate::byte_matcher::lemma_mask_identity;

    crate::grouped::lemma_scriptable_group_rejects(data);
    crate::grouped::lemma_plaintext_group_rejects(data);
    crate::byte_matcher::lemma_first_byte_mismatch(crate::signatures::image_x_icon_spec(), data);
    crate::byte_matcher::lemma_first_byte_mismatch(
        crate::signatures::image_x_icon_cursor_spec(),
        data,
    );
    crate::byte_matcher::lemma_first_byte_mismatch(crate::signatures::image_bmp_spec(), data);
    let gif = crate::signatures::image_gif89a_spec();
    assert(byte_matcher_matches(gif, data)) by {
        assert(crate::byte_matcher::skip_from(data, gif.leading_ignore, 0) == 0);
        assert forall|j: int| 0 <= j < gif.pattern.len() implies (data[j] & gif.mask[j]) == (
        gif.pattern[j] & gif.mask[j]) by {}
    }
    let ms = image_group_spec();
    assert forall|i: int| 0 <= i < 3 implies checker_classification(#[trigger] ms[i], data)
        is None by {}
    assert(checker_classification(ms[3], data) == Some(("image"@, "gif"@)));
    crate::grouped::lemma_group_first_match(ms, data, 3);
}

} // verus!
