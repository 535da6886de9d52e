//! The individual matchers: the structural MP4 matcher, the font signature
//! group, and the byte-matcher and text-or-binary behaviour on edge inputs.

use mime_sniffer::binary::BinaryOrPlaintextClassifier;
use mime_sniffer::byte_matcher::ByteMatcher;
use mime_sniffer::grouped::GroupedClassifier;
use mime_sniffer::mp4::Mp4Matcher;

fn check_font(data: &[u8], t: &str, sub: &str) {
    let group = GroupedClassifier::font_classifier();
    let result = group.classify(&data.to_vec());
    assert_eq!(result, Some((t.to_string(), sub.to_string())));
}

#[test]
fn test_sniff_mp4() {
    let matcher = Mp4Matcher;
    let data = vec![
        0x00, 0x00, 0x00, 0x10, 0x66, 0x74, 0x79, 0x70, 0x6D, 0x70, 0x34, 0x32, 0x00, 0x00, 0x00,
        0x00,
    ];
    assert!(matcher.matches(&data));
}

#[test]
fn test_sniff_mp4_compatible_brand() {
    // "mp4" missing as the major brand but present as a compatible brand.
    let matcher = Mp4Matcher;
    let data = vec![
        0x00, 0x00, 0x00, 0x14, 0x66, 0x74, 0x79, 0x70, 0x69, 0x73, 0x6F, 0x6D, 0x00, 0x00, 0x00,
        0x00, 0x6D, 0x70, 0x34, 0x32,
    ];
    assert!(matcher.matches(&data));
}

#[test]
fn test_mp4_invalid_box_size() {
    let matcher = Mp4Matcher;
    // Zero box size: the "ftyp" tag stands but no brand field is scanned.
    let zero_box = vec![
        0x00, 0x00, 0x00, 0x00, 0x66, 0x74, 0x79, 0x70, 0x69, 0x73, 0x6F, 0x6D, 0x00, 0x00, 0x00,
        0x00,
    ];
    assert!(!matcher.matches(&zero_box));
    // Declared box size exceeds the buffer length.
    let oversized = vec![
        0x00, 0x00, 0x00, 0x20, 0x66, 0x74, 0x79, 0x70, 0x6D, 0x70, 0x34, 0x32, 0x00, 0x00, 0x00,
        0x00,
    ];
    assert!(!matcher.matches(&oversized));
}

#[test]
fn test_mp4_big_endian_box_size() {
    // A box size above one byte exercises the full 32-bit big-endian read:
    // 0x00000100 = 256, with the "mp4" brand in a late compatible field.
    let matcher = Mp4Matcher;
    let mut data = vec![0x00, 0x00, 0x01, 0x00, 0x66, 0x74, 0x79, 0x70, 0x69, 0x73, 0x6F, 0x6D];
    data.resize(256, 0x00);
    data[16] = 0x6D;
    data[17] = 0x70;
    data[18] = 0x34;
    data[19] = 0x20;
    assert!(matcher.matches(&data));
    // The same buffer one byte short of the declared size is rejected.
    data.pop();
    assert!(!matcher.matches(&data));
}

#[test]
fn test_mp4_truncated() {
    let matcher = Mp4Matcher;
    assert!(!matcher.matches(&vec![0x00, 0x00, 0x00, 0x10, 0x66, 0x74]));
    assert!(!matcher.matches(&Vec::new()));
}

#[test]
fn test_true_type() {
    check_font(&[0x00, 0x01, 0x00, 0x00, 0x00, 0x0B, 0x00, 0x80], "(TrueType)", "");
}

#[test]
fn test_open_type() {
    check_font(b"OTTO\x00\x0B\x00\x80", "(OpenType)", "");
}

#[test]
fn test_classification_true_type_collection() {
    check_font(b"ttcf\x00\x01\x00\x00", "(TrueType Collection)", "");
}

#[test]
fn test_classification_woff() {
    check_font(b"wOFF\x00\x01\x00\x00", "application", "font-woff");
}

#[test]
fn test_classification_vsn_ms_fontobject() {
    let mut data = vec![0x10u8; 34];
    data.push(0x4C);
    data.push(0x50);
    data.push(0x00);
    assert_eq!(
        GroupedClassifier::font_classifier().classify(&data),
        Some(("application".to_string(), "vnd.ms-fontobject".to_string()))
    );
}

#[test]
fn test_byte_matcher_leading_ignore() {
    // Any run of ignorable whitespace may precede the pattern.
    let matcher = ByteMatcher::text_html_page_3e();
    assert!(matcher.matches(&b"<HTML>".to_vec()));
    assert!(matcher.matches(&b"\n\n\t\r <HTML>".to_vec()));
    assert!(matcher.matches(&b"   <html>ok".to_vec()));
    // A non-ignorable byte before the pattern stops the match.
    assert!(!matcher.matches(&b"x<HTML>".to_vec()));
}

#[test]
fn test_byte_matcher_short_buffer() {
    // A buffer shorter than the pattern is a clean non-match.
    let matcher = ByteMatcher::image_png();
    assert!(!matcher.matches(&Vec::new()));
    assert!(!matcher.matches(&vec![0x89, 0x50, 0x4E]));
    assert!(!matcher.matches(&vec![0x89, 0x50, 0x4E, 0x47, 0x0D, 0x0A, 0x1A]));
    let ws = ByteMatcher::text_html_p_20();
    assert!(!ws.matches(&b"<P".to_vec()));
}

#[test]
fn test_byte_matcher_mask_case_insensitive() {
    let matcher = ByteMatcher::text_html_head_20();
    assert!(matcher.matches(&b"<head x".to_vec()));
    assert!(matcher.matches(&b"<HeAd y".to_vec()));
    assert!(!matcher.matches(&b"<heap x".to_vec()));
}

#[test]
fn test_binary_or_plaintext_total() {
    // Total on every input, the empty one included; only two answers exist.
    let classifier = BinaryOrPlaintextClassifier;
    let plain = Some(("text".to_string(), "plain".to_string()));
    let binary = Some(("application".to_string(), "octet-stream".to_string()));
    assert_eq!(classifier.classify(&Vec::new()), plain);
    assert_eq!(classifier.classify(&b"just some text".to_vec()), plain);
    assert_eq!(classifier.classify(&vec![0x00, 0x41, 0x42]), binary);
    assert_eq!(classifier.classify(&vec![0x41, 0x1C]), binary);
    // A byte-order mark wins over binary-looking bytes after it.
    assert_eq!(classifier.classify(&vec![0xFE, 0xFF, 0x00, 0x00]), plain);
    assert_eq!(classifier.classify(&vec![0xFF, 0xFE, 0x00, 0x00]), plain);
    assert_eq!(classifier.classify(&vec![0xEF, 0xBB, 0xBF, 0x00]), plain);
}

#[test]
fn test_grouped_classifier_order() {
    // First match in registration order wins; an empty group matches nothing.
    let mut group = GroupedClassifier::new();
    assert_eq!(group.classify(&b"GIF89a".to_vec()), None);
    group.push(mime_sniffer::grouped::MimeChecker::Bytes(ByteMatcher::image_gif89a()));
    assert_eq!(
        group.classify(&b"GIF89a".to_vec()),
        Some(("image".to_string(), "gif".to_string()))
    );
}
