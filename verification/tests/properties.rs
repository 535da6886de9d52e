//! Concrete checks for the stated behaviour of the decision algorithm:
//! authoritative declared types, XML exemption, feed detection and
//! signature-prefix classification.

use mime_sniffer::classifier::MIMEClassifier;

fn classify(
    no_sniff: bool,
    apache: bool,
    supplied: Option<(&str, &str)>,
    data: &[u8],
) -> Option<(String, String)> {
    let classifier = MIMEClassifier::new();
    let supplied_owned = supplied.map(|(a, b)| (a.to_string(), b.to_string()));
    classifier.classify(no_sniff, apache, &supplied_owned, &data.to_vec())
}

fn ct(t: &str, sub: &str) -> Option<(String, String)> {
    Some((t.to_string(), sub.to_string()))
}

#[test]
fn test_no_sniff_declared_is_authoritative() {
    // With sniffing disabled the declared type comes back exactly, whatever
    // the bytes say.
    assert_eq!(
        classify(true, false, Some(("text", "plain")), b"GIF89a"),
        ct("text", "plain")
    );
    assert_eq!(
        classify(true, false, Some(("made-up", "type")), &[0x89, 0x50, 0x4E, 0x47]),
        ct("made-up", "type")
    );
    assert_eq!(classify(true, true, Some(("a", "b")), b"%PDF-"), ct("a", "b"));
}

#[test]
fn test_no_sniff_placeholder_still_sniffed() {
    // The placeholder "unknown" forms are resolved by sniffing even under
    // no_sniff; only the scriptable group is withheld then.
    assert_eq!(
        classify(true, false, Some(("unknown", "unknown")), b"GIF89a"),
        ct("image", "gif")
    );
    assert_eq!(
        classify(false, false, Some(("application", "unknown")), b"GIF87a"),
        ct("image", "gif")
    );
    assert_eq!(classify(false, false, Some(("*", "*")), b"%PDF-"), ct("application", "pdf"));
}

#[test]
fn test_text_xml_never_resniffed() {
    assert_eq!(
        classify(false, false, Some(("text", "xml")), b"GIF89a"),
        ct("text", "xml")
    );
    assert_eq!(
        classify(false, false, Some(("text", "xml")), &[0x00, 0x01, 0x02]),
        ct("text", "xml")
    );
    assert_eq!(
        classify(false, false, Some(("application", "xml")), b"<HTML>"),
        ct("application", "xml")
    );
    assert_eq!(
        classify(false, false, Some(("image", "svg+xml")), b"GIF89a"),
        ct("image", "svg+xml")
    );
}

#[test]
fn test_apache_bug_overrides_declared() {
    // Servers hit by the Apache bug get their declared type ignored.
    assert_eq!(
        classify(false, true, Some(("text", "plain")), &[0x00, 0x01]),
        ct("application", "octet-stream")
    );
    assert_eq!(
        classify(false, true, Some(("text", "plain")), b"hello"),
        ct("text", "plain")
    );
}

#[test]
fn test_feed_detection_in_html() {
    let data = b"<?xml version=\"1.0\"?><rss version=\"2.0\">";
    assert_eq!(
        classify(false, false, Some(("text", "html")), data),
        ct("application", "rss+xml")
    );
}

#[test]
fn test_feed_detection_atom() {
    assert_eq!(
        classify(false, false, Some(("text", "html")), b"<feed xmlns=\"x\">"),
        ct("application", "atom+xml")
    );
}

#[test]
fn test_feed_detection_rdf_needs_both_namespaces() {
    let both = b"<rdf:RDF xmlns=\"http://purl.org/rss/1.0/\" \
                 xmlns:rdf=\"http://www.w3.org/1999/02/22-rdf-syntax-ns#\">";
    assert_eq!(
        classify(false, false, Some(("text", "html")), both),
        ct("application", "rss+xml")
    );
    let only_one = b"<rdf:RDF xmlns=\"http://purl.org/rss/1.0/\">";
    assert_eq!(
        classify(false, false, Some(("text", "html")), only_one),
        ct("text", "html")
    );
}

#[test]
fn test_feed_detection_skips_comments_and_bom() {
    let commented = b"<!-- a comment --><rss version=\"2.0\">";
    assert_eq!(
        classify(false, false, Some(("text", "html")), commented),
        ct("application", "rss+xml")
    );
    let bom = b"\xEF\xBB\xBF<rss version=\"2.0\">";
    assert_eq!(
        classify(false, false, Some(("text", "html")), bom),
        ct("application", "rss+xml")
    );
}

#[test]
fn test_feed_detection_unterminated_instruction() {
    // An unterminated processing instruction ends the scan: no feed found,
    // the declared type stands.
    assert_eq!(
        classify(false, false, Some(("text", "html")), b"<?xml version=\"1.0\""),
        ct("text", "html")
    );
    assert_eq!(
        classify(false, false, Some(("text", "html")), b"<!-- never closed"),
        ct("text", "html")
    );
    assert_eq!(classify(false, false, Some(("text", "html")), b"<p>hi</p>"), ct("text", "html"));
}

#[test]
fn test_png_signature_with_trailing_bytes() {
    let mut data = vec![0x89, 0x50, 0x4E, 0x47, 0x0D, 0x0A, 0x1A, 0x0A];
    data.extend_from_slice(&[0xDE, 0xAD, 0xBE, 0xEF, 0x00, 0x42]);
    assert_eq!(classify(false, false, None, &data), ct("image", "png"));
}

#[test]
fn test_gif89a_signature_with_trailing_bytes() {
    let mut data = b"GIF89a".to_vec();
    data.extend_from_slice(&[0x01, 0x02, 0x03, 0x00]);
    assert_eq!(classify(false, false, None, &data), ct("image", "gif"));
}

#[test]
fn test_declared_image_refined_by_signature() {
    // A declared image type is refined when an image signature matches, and
    // kept when none does.
    assert_eq!(
        classify(false, false, Some(("image", "x-unknown")), b"GIF89a"),
        ct("image", "gif")
    );
    assert_eq!(
        classify(false, false, Some(("image", "x-unknown")), b"not an image"),
        ct("image", "x-unknown")
    );
}

#[test]
fn test_declared_audio_refined_by_signature() {
    assert_eq!(
        classify(false, false, Some(("audio", "x-unknown")), b"ID3\x03"),
        ct("audio", "mpeg")
    );
    assert_eq!(
        classify(false, false, Some(("application", "ogg")), b"OggS\x00xx"),
        ct("application", "ogg")
    );
    assert_eq!(
        classify(false, false, Some(("video", "x-unknown")), b"zzzz"),
        ct("video", "x-unknown")
    );
}

#[test]
fn test_empty_input_classifies_as_text() {
    // Classification is total: even the empty buffer resolves.
    assert_eq!(classify(false, false, None, b""), ct("text", "plain"));
    assert_eq!(classify(true, false, None, b""), ct("text", "plain"));
}

#[test]
fn test_unknown_binary_falls_back_to_octet_stream() {
    assert_eq!(classify(false, false, None, &[0x01, 0x02, 0x03]), ct("application", "octet-stream"));
}

#[test]
fn test_no_sniff_unknown_skips_scriptable() {
    // Under no_sniff, unknown-type sniffing withholds the scriptable group:
    // an HTML page falls through to the plaintext heuristic.
    assert_eq!(classify(true, false, None, b"<HTML>hi"), ct("text", "plain"));
    assert_eq!(classify(false, false, None, b"<HTML>hi"), ct("text", "html"));
}
