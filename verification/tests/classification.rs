//! Classification through the full decision algorithm, one test per
//! registered signature and per mislabeled-feed case.

use mime_sniffer::classifier::MIMEClassifier;

fn check(data: &[u8], t: &str, sub: &str, supplied: Option<(&str, &str)>) {
    let classifier = MIMEClassifier::new();
    let supplied_owned = supplied.map(|(a, b)| (a.to_string(), b.to_string()));
    let result = classifier.classify(false, false, &supplied_owned, &data.to_vec());
    assert_eq!(result, Some((t.to_string(), sub.to_string())));
}

#[test]
fn test_classification_x_icon() {
    check(&[0x00, 0x00, 0x01, 0x00, 0x01, 0x00, 0x10, 0x10], "image", "x-icon", None);
}

#[test]
fn test_classification_x_icon_cursor() {
    check(&[0x00, 0x00, 0x02, 0x00, 0x01, 0x00, 0x10, 0x10], "image", "x-icon", None);
}

#[test]
fn test_classification_bmp() {
    check(b"BM\x36\x00\x00\x00", "image", "bmp", None);
}

#[test]
fn test_classification_gif87a() {
    check(b"GIF87a\x10\x00\x10\x00", "image", "gif", None);
}

#[test]
fn test_classification_gif89a() {
    check(b"GIF89a\x10\x00\x10\x00", "image", "gif", None);
}

#[test]
fn test_classification_webp() {
    check(b"RIFF\x24\x00\x00\x00WEBPVP8 ", "image", "webp", None);
}

#[test]
fn test_classification_png() {
    check(&[0x89, 0x50, 0x4E, 0x47, 0x0D, 0x0A, 0x1A, 0x0A, 0x00, 0x00], "image", "png", None);
}

#[test]
fn test_classification_jpg() {
    check(&[0xFF, 0xD8, 0xFF, 0xE0, 0x00, 0x10], "image", "jpeg", None);
}

#[test]
fn test_classification_webm() {
    check(&[0x1A, 0x45, 0xDF, 0xA3, 0x42, 0x86], "video", "webm", None);
}

#[test]
fn test_classification_mp4() {
    check(&[0x00, 0x00, 0x00, 0x10, 0x66, 0x74, 0x79, 0x70, 0x6D, 0x70, 0x34, 0x32, 0x00, 0x00, 0x00, 0x00], "video", "mp4", None);
}

#[test]
fn test_classification_avi() {
    check(b"RIFF\x24\x00\x00\x00AVI LIST", "video", "avi", None);
}

#[test]
fn test_classification_basic() {
    check(b".snd\x00\x00\x00\x18", "audio", "basic", None);
}

#[test]
fn test_classification_aiff() {
    check(b"FORM\x00\x00\x00\x24AIFF", "audio", "aiff", None);
}

#[test]
fn test_classification_mpeg() {
    check(b"ID3\x03\x00\x00\x00", "audio", "mpeg", None);
}

#[test]
fn test_classification_midi() {
    check(&[0x4D, 0x54, 0x68, 0x64, 0x00, 0x00, 0x00, 0x06, 0x00, 0x01], "audio", "midi", None);
}

#[test]
fn test_classification_wave() {
    check(b"RIFF\x24\x00\x00\x00WAVEfmt ", "audio", "wave", None);
}

#[test]
fn test_classification_ogg() {
    check(b"OggS\x00\x02\x00\x00", "application", "ogg", None);
}

#[test]
fn test_classification_gzip() {
    check(&[0x1F, 0x8B, 0x08, 0x00, 0x00, 0x00], "application", "x-gzip", None);
}

#[test]
fn test_classification_zip() {
    check(b"PK\x03\x04\x14\x00", "application", "zip", None);
}

#[test]
fn test_classification_rar() {
    check(b"Rar \x1A\x07\x00\xCF", "application", "x-rar-compressed", None);
}

#[test]
fn test_text_html_doctype_20() {
    check(b"<!DOCTYPE HTML ", "text", "html", None);
    check(b"\n\t <!doctype html ", "text", "html", None);
}

#[test]
fn test_text_html_doctype_3e() {
    check(b"<!DOCTYPE HTML>", "text", "html", None);
    check(b"\n\t <!doctype html>", "text", "html", None);
}

#[test]
fn test_text_html_page_20() {
    check(b"<HTML ", "text", "html", None);
    check(b"\n\t <html ", "text", "html", None);
}

#[test]
fn test_text_html_page_3e() {
    check(b"<HTML>", "text", "html", None);
    check(b"\n\t <html>", "text", "html", None);
}

#[test]
fn test_text_html_head_20() {
    check(b"<HEAD ", "text", "html", None);
    check(b"\n\t <head ", "text", "html", None);
}

#[test]
fn test_text_html_head_3e() {
    check(b"<HEAD>", "text", "html", None);
    check(b"\n\t <head>", "text", "html", None);
}

#[test]
fn test_text_html_script_20() {
    check(b"<SCRIPT ", "text", "html", None);
    check(b"\n\t <script ", "text", "html", None);
}

#[test]
fn test_text_html_script_3e() {
    check(b"<SCRIPT>", "text", "html", None);
    check(b"\n\t <script>", "text", "html", None);
}

#[test]
fn test_text_html_iframe_20() {
    check(b"<IFRAME ", "text", "html", None);
    check(b"\n\t <iframe ", "text", "html", None);
}

#[test]
fn test_text_html_iframe_3e() {
    check(b"<IFRAME>", "text", "html", None);
    check(b"\n\t <iframe>", "text", "html", None);
}

#[test]
fn test_text_html_h1_20() {
    check(b"<H1 ", "text", "html", None);
    check(b"\n\t <h1 ", "text", "html", None);
}

#[test]
fn test_text_html_h1_3e() {
    check(b"<H1>", "text", "html", None);
    check(b"\n\t <h1>", "text", "html", None);
}

#[test]
fn test_text_html_div_20() {
    check(b"<DIV ", "text", "html", None);
    check(b"\n\t <div ", "text", "html", None);
}

#[test]
fn test_text_html_div_3e() {
    check(b"<DIV>", "text", "html", None);
    check(b"\n\t <div>", "text", "html", None);
}

#[test]
fn test_text_html_font_20() {
    check(b"<FONT ", "text", "html", None);
    check(b"\n\t <font ", "text", "html", None);
}

#[test]
fn test_text_html_font_3e() {
    check(b"<FONT>", "text", "html", None);
    check(b"\n\t <font>", "text", "html", None);
}

#[test]
fn test_text_html_table_20() {
    check(b"<TABLE ", "text", "html", None);
    check(b"\n\t <table ", "text", "html", None);
}

#[test]
fn test_text_html_table_3e() {
    check(b"<TABLE>", "text", "html", None);
    check(b"\n\t <table>", "text", "html", None);
}

#[test]
fn test_text_html_a_20() {
    check(b"<A ", "text", "html", None);
    check(b"\n\t <a ", "text", "html", None);
}

#[test]
fn test_text_html_a_3e() {
    check(b"<A>", "text", "html", None);
    check(b"\n\t <a>", "text", "html", None);
}

#[test]
fn test_text_html_style_20() {
    check(b"<STYLE ", "text", "html", None);
    check(b"\n\t <style ", "text", "html", None);
}

#[test]
fn test_text_html_style_3e() {
    check(b"<STYLE>", "text", "html", None);
    check(b"\n\t <style>", "text", "html", None);
}

#[test]
fn test_text_html_title_20() {
    check(b"<TITLE ", "text", "html", None);
    check(b"\n\t <title ", "text", "html", None);
}

#[test]
fn test_text_html_title_3e() {
    check(b"<TITLE>", "text", "html", None);
    check(b"\n\t <title>", "text", "html", None);
}

#[test]
fn test_text_html_b_20() {
    check(b"<B ", "text", "html", None);
    check(b"\n\t <b ", "text", "html", None);
}

#[test]
fn test_text_html_b_3e() {
    check(b"<B>", "text", "html", None);
    check(b"\n\t <b>", "text", "html", None);
}

#[test]
fn test_text_html_body_20() {
    check(b"<BODY ", "text", "html", None);
    check(b"\n\t <body ", "text", "html", None);
}

#[test]
fn test_text_html_body_3e() {
    check(b"<BODY>", "text", "html", None);
    check(b"\n\t <body>", "text", "html", None);
}

#[test]
fn test_text_html_br_20() {
    check(b"<BR ", "text", "html", None);
    check(b"\n\t <br ", "text", "html", None);
}

#[test]
fn test_text_html_br_3e() {
    check(b"<BR>", "text", "html", None);
    check(b"\n\t <br>", "text", "html", None);
}

#[test]
fn test_text_html_p_20() {
    check(b"<P ", "text", "html", None);
    check(b"\n\t <p ", "text", "html", None);
}

#[test]
fn test_text_html_p_3e() {
    check(b"<P>", "text", "html", None);
    check(b"\n\t <p>", "text", "html", None);
}

#[test]
fn test_text_html_comment_20() {
    check(b"<!-- a comment -->", "text", "html", None);
}

#[test]
fn test_text_html_comment_3e() {
    check(b"<!-->\n", "text", "html", None);
}

#[test]
fn test_xml() {
    check(b"<?xml version=\"1.0\"?><note></note>", "text", "xml", None);
}

#[test]
fn test_pdf() {
    check(b"%PDF-1.4\n1 0 obj", "application", "pdf", None);
}

#[test]
fn test_postscript() {
    check(b"%!PS-Adobe-3.0\n", "application", "postscript", None);
}

#[test]
fn test_utf_16be_bom() {
    check(&[0xFE, 0xFF, 0x00, 0x68, 0x00, 0x69], "text", "plain", None);
}

#[test]
fn test_utf_16le_bom() {
    check(&[0xFF, 0xFE, 0x68, 0x00, 0x69, 0x00], "text", "plain", None);
}

#[test]
fn test_utf_8_bom() {
    check(&[0xEF, 0xBB, 0xBF, 0x68, 0x69, 0x0A], "text", "plain", None);
}

#[test]
fn test_rss_feed() {
    check(
        b"<?xml version=\"1.0\" encoding=\"UTF-8\"?>\n<rss version=\"2.0\"><channel></channel></rss>",
        "application",
        "rss+xml",
        Some(("text", "html")),
    );
}

#[test]
fn test_atom_feed() {
    check(
        b"<?xml version=\"1.0\" encoding=\"utf-8\"?>\n<feed xmlns=\"http://www.w3.org/2005/Atom\"></feed>",
        "application",
        "atom+xml",
        Some(("text", "html")),
    );
}
