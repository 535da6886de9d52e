//! The fixed signature table: one constructor per registered byte signature,
//! each with a spec-level model giving its exact bytes and content type.

use crate::byte_matcher::{ByteMatcher, ByteMatcherModel};
use vstd::prelude::*;

verus! {

/// Bytes that may precede a markup tag: tab, LF, FF, CR and space.
pub open spec fn tag_leading_ignore_spec() -> Seq<u8> {
    seq![0x09u8, 0x0Au8, 0x0Cu8, 0x0Du8, 0x20u8]
}

/// A Windows Icon signature
pub open spec fn image_x_icon_spec() -> ByteMatcherModel {
    ByteMatcherModel {
        pattern: seq![0x00u8, 0x00u8, 0x01u8, 0x00u8],
        mask: seq![0xFFu8, 0xFFu8, 0xFFu8, 0xFFu8],
        leading_ignore: Seq::empty(),
        content_type: ("image"@, "x-icon"@),
    }
}

/// A Windows Cursor signature.
pub open spec fn image_x_icon_cursor_spec() -> ByteMatcherModel {
    ByteMatcherModel {
        pattern: seq![0x00u8, 0x00u8, 0x02u8, 0x00u8],
        mask: seq![0xFFu8, 0xFFu8, 0xFFu8, 0xFFu8],
        leading_ignore: Seq::empty(),
        content_type: ("image"@, "x-icon"@),
    }
}

/// The string "BM", a BMP signature.
pub open spec fn image_bmp_spec() -> ByteMatcherModel {
    ByteMatcherModel {
        pattern: seq![0x42u8, 0x4Du8],
        mask: seq![0xFFu8, 0xFFu8],
        leading_ignore: Seq::empty(),
        content_type: ("image"@, "bmp"@),
    }
}

/// The string "GIF89a", a GIF signature.
pub open spec fn image_gif89a_spec() -> ByteMatcherModel {
    ByteMatcherModel {
        pattern: seq![0x47u8, 0x49u8, 0x46u8, 0x38u8, 0x39u8, 0x61u8],
        mask: seq![0xFFu8, 0xFFu8, 0xFFu8, 0xFFu8, 0xFFu8, 0xFFu8],
        leading_ignore: Seq::empty(),
        content_type: ("image"@, "gif"@),
    }
}

/// The string "GIF87a", a GIF signature.
pub open spec fn image_gif87a_spec() -> ByteMatcherModel {
    ByteMatcherModel {
        pattern: seq![0x47u8, 0x49u8, 0x46u8, 0x38u8, 0x37u8, 0x61u8],
        mask: seq![0xFFu8, 0xFFu8, 0xFFu8, 0xFFu8, 0xFFu8, 0xFFu8],
        leading_ignore: Seq::empty(),
        content_type: ("image"@, "gif"@),
    }
}

/// The string "RIFF" followed by four bytes followed by the string "WEBPVP".
pub open spec fn image_webp_spec() -> ByteMatcherModel {
    ByteMatcherModel {
        pattern: seq![0x52u8, 0x49u8, 0x46u8, 0x46u8, 0x00u8, 0x00u8, 0x00u8, 0x00u8, 0x57u8, 0x45u8, 0x42u8, 0x50u8, 0x56u8, 0x50u8],
        mask: seq![0xFFu8, 0xFFu8, 0xFFu8, 0xFFu8, 0x00u8, 0x00u8, 0x00u8, 0x00u8, 0xFFu8, 0xFFu8, 0xFFu8, 0xFFu8, 0xFFu8, 0xFFu8],
        leading_ignore: Seq::empty(),
        content_type: ("image"@, "webp"@),
    }
}

/// An error-checking byte followed by the string "PNG" followed by CR LF SUB LF, the PNG signature.
pub open spec fn image_png_spec() -> ByteMatcherModel {
    ByteMatcherModel {
        pattern: seq![0x89u8, 0x50u8, 0x4Eu8, 0x47u8, 0x0Du8, 0x0Au8, 0x1Au8, 0x0Au8],
        mask: seq![0xFFu8, 0xFFu8, 0xFFu8, 0xFFu8, 0xFFu8, 0xFFu8, 0xFFu8, 0xFFu8],
        leading_ignore: Seq::empty(),
        content_type: ("image"@, "png"@),
    }
}

/// The JPEG Start of Image marker followed by the indicator byte of another marker.
pub open spec fn image_jpeg_spec() -> ByteMatcherModel {
    ByteMatcherModel {
        pattern: seq![0xFFu8, 0xD8u8, 0xFFu8],
        mask: seq![0xFFu8, 0xFFu8, 0xFFu8],
        leading_ignore: Seq::empty(),
        content_type: ("image"@, "jpeg"@),
    }
}

/// The WebM signature.
pub open spec fn video_webm_spec() -> ByteMatcherModel {
    ByteMatcherModel {
        pattern: seq![0x1Au8, 0x45u8, 0xDFu8, 0xA3u8],
        mask: seq![0xFFu8, 0xFFu8, 0xFFu8, 0xFFu8],
        leading_ignore: Seq::empty(),
        content_type: ("video"@, "webm"@),
    }
}

/// The string ".snd", the basic audio signature.
pub open spec fn audio_basic_spec() -> ByteMatcherModel {
    ByteMatcherModel {
        pattern: seq![0x2Eu8, 0x73u8, 0x6Eu8, 0x64u8],
        mask: seq![0xFFu8, 0xFFu8, 0xFFu8, 0xFFu8],
        leading_ignore: Seq::empty(),
        content_type: ("audio"@, "basic"@),
    }
}

/// The string "FORM" followed by four bytes followed by the string "AIFF", the AIFF signature.
pub open spec fn audio_aiff_spec() -> ByteMatcherModel {
    ByteMatcherModel {
        pattern: seq![0x46u8, 0x4Fu8, 0x52u8, 0x4Du8, 0x00u8, 0x00u8, 0x00u8, 0x00u8, 0x41u8, 0x49u8, 0x46u8, 0x46u8],
        mask: seq![0xFFu8, 0xFFu8, 0xFFu8, 0xFFu8, 0x00u8, 0x00u8, 0x00u8, 0x00u8, 0xFFu8, 0xFFu8, 0xFFu8, 0xFFu8],
        leading_ignore: Seq::empty(),
        content_type: ("audio"@, "aiff"@),
    }
}

/// The string "ID3", the ID3v2-tagged MP3 signature.
pub open spec fn audio_mpeg_spec() -> ByteMatcherModel {
    ByteMatcherModel {
        pattern: seq![0x49u8, 0x44u8, 0x33u8],
        mask: seq![0xFFu8, 0xFFu8, 0xFFu8],
        leading_ignore: Seq::empty(),
        content_type: ("audio"@, "mpeg"@),
    }
}

/// The string "OggS" followed by NUL, the Ogg container signature.
pub open spec fn application_ogg_spec() -> ByteMatcherModel {
    ByteMatcherModel {
        pattern: seq![0x4Fu8, 0x67u8, 0x67u8, 0x53u8, 0x00u8],
        mask: seq![0xFFu8, 0xFFu8, 0xFFu8, 0xFFu8, 0xFFu8],
        leading_ignore: Seq::empty(),
        content_type: ("application"@, "ogg"@),
    }
}

/// The string "MThd" followed by four bytes representing the number 6 in 32 bits (big-endian), the MIDI signature.
pub open spec fn audio_midi_spec() -> ByteMatcherModel {
    ByteMatcherModel {
        pattern: seq![0x4Du8, 0x54u8, 0x68u8, 0x64u8, 0x00u8, 0x00u8, 0x00u8, 0x06u8],
        mask: seq![0xFFu8, 0xFFu8, 0xFFu8, 0xFFu8, 0xFFu8, 0xFFu8, 0xFFu8, 0xFFu8],
        leading_ignore: Seq::empty(),
        content_type: ("audio"@, "midi"@),
    }
}

/// The string "RIFF" followed by four bytes followed by the string "AVI ", the AVI signature.
pub open spec fn video_avi_spec() -> ByteMatcherModel {
    ByteMatcherModel {
        pattern: seq![0x52u8, 0x49u8, 0x46u8, 0x46u8, 0x00u8, 0x00u8, 0x00u8, 0x00u8, 0x41u8, 0x56u8, 0x49u8, 0x20u8],
        mask: seq![0xFFu8, 0xFFu8, 0xFFu8, 0xFFu8, 0x00u8, 0x00u8, 0x00u8, 0x00u8, 0xFFu8, 0xFFu8, 0xFFu8, 0xFFu8],
        leading_ignore: Seq::empty(),
        content_type: ("video"@, "avi"@),
    }
}

/// The string "RIFF" followed by four bytes followed by the string "WAVE", the WAVE signature.
pub open spec fn audio_wave_spec() -> ByteMatcherModel {
    ByteMatcherModel {
        pattern: seq![0x52u8, 0x49u8, 0x46u8, 0x46u8, 0x00u8, 0x00u8, 0x00u8, 0x00u8, 0x57u8, 0x41u8, 0x56u8, 0x45u8],
        mask: seq![0xFFu8, 0xFFu8, 0xFFu8, 0xFFu8, 0x00u8, 0x00u8, 0x00u8, 0x00u8, 0xFFu8, 0xFFu8, 0xFFu8, 0xFFu8],
        leading_ignore: Seq::empty(),
        content_type: ("audio"@, "wave"@),
    }
}

/// doctype terminated with Tag terminating (TT) Byte: 0x20 (SP)
pub open spec fn text_html_doctype_20_spec() -> ByteMatcherModel {
    ByteMatcherModel {
        pattern: seq![0x3Cu8, 0x21u8, 0x44u8, 0x4Fu8, 0x43u8, 0x54u8, 0x59u8, 0x50u8, 0x45u8, 0x20u8, 0x48u8, 0x54u8, 0x4Du8, 0x4Cu8, 0x20u8],
        mask: seq![0xFFu8, 0xFFu8, 0xDFu8, 0xDFu8, 0xDFu8, 0xDFu8, 0xDFu8, 0xDFu8, 0xDFu8, 0xFFu8, 0xDFu8, 0xDFu8, 0xDFu8, 0xDFu8, 0xFFu8],
        leading_ignore: tag_leading_ignore_spec(),
        content_type: ("text"@, "html"@),
    }
}

/// doctype terminated with Tag terminating (TT) Byte: 0x3E (">")
pub open spec fn text_html_doctype_3e_spec() -> ByteMatcherModel {
    ByteMatcherModel {
        pattern: seq![0x3Cu8, 0x21u8, 0x44u8, 0x4Fu8, 0x43u8, 0x54u8, 0x59u8, 0x50u8, 0x45u8, 0x20u8, 0x48u8, 0x54u8, 0x4Du8, 0x4Cu8, 0x3Eu8],
        mask: seq![0xFFu8, 0xFFu8, 0xDFu8, 0xDFu8, 0xDFu8, 0xDFu8, 0xDFu8, 0xDFu8, 0xDFu8, 0xFFu8, 0xDFu8, 0xDFu8, 0xDFu8, 0xDFu8, 0xFFu8],
        leading_ignore: tag_leading_ignore_spec(),
        content_type: ("text"@, "html"@),
    }
}

/// HTML terminated with Tag terminating (TT) Byte: 0x20 (SP)
pub open spec fn text_html_page_20_spec() -> ByteMatcherModel {
    ByteMatcherModel {
        pattern: seq![0x3Cu8, 0x48u8, 0x54u8, 0x4Du8, 0x4Cu8, 0x20u8],
        mask: seq![0xFFu8, 0xDFu8, 0xDFu8, 0xDFu8, 0xDFu8, 0xFFu8],
        leading_ignore: tag_leading_ignore_spec(),
        content_type: ("text"@, "html"@),
    }
}

/// HTML terminated with Tag terminating (TT) Byte: 0x3E (">")
pub open spec fn text_html_page_3e_spec() -> ByteMatcherModel {
    ByteMatcherModel {
        pattern: seq![0x3Cu8, 0x48u8, 0x54u8, 0x4Du8, 0x4Cu8, 0x3Eu8],
        mask: seq![0xFFu8, 0xDFu8, 0xDFu8, 0xDFu8, 0xDFu8, 0xFFu8],
        leading_ignore: tag_leading_ignore_spec(),
        content_type: ("text"@, "html"@),
    }
}

/// head terminated with Tag Terminating (TT) Byte: 0x20 (SP)
pub open spec fn text_html_head_20_spec() -> ByteMatcherModel {
    ByteMatcherModel {
        pattern: seq![0x3Cu8, 0x48u8, 0x45u8, 0x41u8, 0x44u8, 0x20u8],
        mask: seq![0xFFu8, 0xDFu8, 0xDFu8, 0xDFu8, 0xDFu8, 0xFFu8],
        leading_ignore: tag_leading_ignore_spec(),
        content_type: ("text"@, "html"@),
    }
}

/// head terminated with Tag Terminating (TT) Byte: 0x3E (">")
pub open spec fn text_html_head_3e_spec() -> ByteMatcherModel {
    ByteMatcherModel {
        pattern: seq![0x3Cu8, 0x48u8, 0x45u8, 0x41u8, 0x44u8, 0x3Eu8],
        mask: seq![0xFFu8, 0xDFu8, 0xDFu8, 0xDFu8, 0xDFu8, 0xFFu8],
        leading_ignore: tag_leading_ignore_spec(),
        content_type: ("text"@, "html"@),
    }
}

/// script terminated with Tag Terminating (TT) Byte: 0x20 (SP)
pub open spec fn text_html_script_20_spec() -> ByteMatcherModel {
    ByteMatcherModel {
        pattern: seq![0x3Cu8, 0x53u8, 0x43u8, 0x52u8, 0x49u8, 0x50u8, 0x54u8, 0x20u8],
        mask: seq![0xFFu8, 0xDFu8, 0xDFu8, 0xDFu8, 0xDFu8, 0xDFu8, 0xDFu8, 0xFFu8],
        leading_ignore: tag_leading_ignore_spec(),
        content_type: ("text"@, "html"@),
    }
}

/// script terminated with Tag Terminating (TT) Byte: 0x3E (">")
pub open spec fn text_html_script_3e_spec() -> ByteMatcherModel {
    ByteMatcherModel {
        pattern: seq![0x3Cu8, 0x53u8, 0x43u8, 0x52u8, 0x49u8, 0x50u8, 0x54u8, 0x3Eu8],
        mask: seq![0xFFu8, 0xDFu8, 0xDFu8, 0xDFu8, 0xDFu8, 0xDFu8, 0xDFu8, 0xFFu8],
        leading_ignore: tag_leading_ignore_spec(),
        content_type: ("text"@, "html"@),
    }
}

/// iframe terminated with Tag Terminating (TT) Byte: 0x20 (SP)
pub open spec fn text_html_iframe_20_spec() -> ByteMatcherModel {
    ByteMatcherModel {
        pattern: seq![0x3Cu8, 0x49u8, 0x46u8, 0x52u8, 0x41u8, 0x4Du8, 0x45u8, 0x20u8],
        mask: seq![0xFFu8, 0xDFu8, 0xDFu8, 0xDFu8, 0xDFu8, 0xDFu8, 0xDFu8, 0xFFu8],
        leading_ignore: tag_leading_ignore_spec(),
        content_type: ("text"@, "html"@),
    }
}

/// iframe terminated with Tag Terminating (TT) Byte: 0x3E (">")
pub open spec fn text_html_iframe_3e_spec() -> ByteMatcherModel {
    ByteMatcherModel {
        pattern: seq![0x3Cu8, 0x49u8, 0x46u8, 0x52u8, 0x41u8, 0x4Du8, 0x45u8, 0x3Eu8],
        mask: seq![0xFFu8, 0xDFu8, 0xDFu8, 0xDFu8, 0xDFu8, 0xDFu8, 0xDFu8, 0xFFu8],
        leading_ignore: tag_leading_ignore_spec(),
        content_type: ("text"@, "html"@),
    }
}

/// h1 terminated with Tag Terminating (TT) Byte: 0x20 (SP)
pub open spec fn text_html_h1_20_spec() -> ByteMatcherModel {
    ByteMatcherModel {
        pattern: seq![0x3Cu8, 0x48u8, 0x31u8, 0x20u8],
        mask: seq![0xFFu8, 0xDFu8, 0xFFu8, 0xFFu8],
        leading_ignore: tag_leading_ignore_spec(),
        content_type: ("text"@, "html"@),
    }
}

/// h1 terminated with Tag Terminating (TT) Byte: 0x3E (">")
pub open spec fn text_html_h1_3e_spec() -> ByteMatcherModel {
    ByteMatcherModel {
        pattern: seq![0x3Cu8, 0x48u8, 0x31u8, 0x3Eu8],
        mask: seq![0xFFu8, 0xDFu8, 0xFFu8, 0xFFu8],
        leading_ignore: tag_leading_ignore_spec(),
        content_type: ("text"@, "html"@),
    }
}

/// div terminated with Tag Terminating (TT) Byte: 0x20 (SP)
pub open spec fn text_html_div_20_spec() -> ByteMatcherModel {
    ByteMatcherModel {
        pattern: seq![0x3Cu8, 0x44u8, 0x49u8, 0x56u8, 0x20u8],
        mask: seq![0xFFu8, 0xDFu8, 0xDFu8, 0xDFu8, 0xFFu8],
        leading_ignore: tag_leading_ignore_spec(),
        content_type: ("text"@, "html"@),
    }
}

/// div terminated with Tag Terminating (TT) Byte: 0x3E (">")
pub open spec fn text_html_div_3e_spec() -> ByteMatcherModel {
    ByteMatcherModel {
        pattern: seq![0x3Cu8, 0x44u8, 0x49u8, 0x56u8, 0x3Eu8],
        mask: seq![0xFFu8, 0xDFu8, 0xDFu8, 0xDFu8, 0xFFu8],
        leading_ignore: tag_leading_ignore_spec(),
        content_type: ("text"@, "html"@),
    }
}

/// font terminated with Tag Terminating (TT) Byte: 0x20 (SP)
pub open spec fn text_html_font_20_spec() -> ByteMatcherModel {
    ByteMatcherModel {
        pattern: seq![0x3Cu8, 0x46u8, 0x4Fu8, 0x4Eu8, 0x54u8, 0x20u8],
        mask: seq![0xFFu8, 0xDFu8, 0xDFu8, 0xDFu8, 0xDFu8, 0xFFu8],
        leading_ignore: tag_leading_ignore_spec(),
        content_type: ("text"@, "html"@),
    }
}

/// font terminated with Tag Terminating (TT) Byte: 0x3E (">")
pub open spec fn text_html_font_3e_spec() -> ByteMatcherModel {
    ByteMatcherModel {
        pattern: seq![0x3Cu8, 0x46u8, 0x4Fu8, 0x4Eu8, 0x54u8, 0x3Eu8],
        mask: seq![0xFFu8, 0xDFu8, 0xDFu8, 0xDFu8, 0xDFu8, 0xFFu8],
        leading_ignore: tag_leading_ignore_spec(),
        content_type: ("text"@, "html"@),
    }
}

/// table terminated with Tag Terminating (TT) Byte: 0x20 (SP)
pub open spec fn text_html_table_20_spec() -> ByteMatcherModel {
    ByteMatcherModel {
        pattern: seq![0x3Cu8, 0x54u8, 0x41u8, 0x42u8, 0x4Cu8, 0x45u8, 0x20u8],
        mask: seq![0xFFu8, 0xDFu8, 0xDFu8, 0xDFu8, 0xDFu8, 0xDFu8, 0xFFu8],
        leading_ignore: tag_leading_ignore_spec(),
        content_type: ("text"@, "html"@),
    }
}

/// table terminated with Tag Terminating (TT) Byte: 0x3E (">")
pub open spec fn text_html_table_3e_spec() -> ByteMatcherModel {
    ByteMatcherModel {
        pattern: seq![0x3Cu8, 0x54u8, 0x41u8, 0x42u8, 0x4Cu8, 0x45u8, 0x3Eu8],
        mask: seq![0xFFu8, 0xDFu8, 0xDFu8, 0xDFu8, 0xDFu8, 0xDFu8, 0xFFu8],
        leading_ignore: tag_leading_ignore_spec(),
        content_type: ("text"@, "html"@),
    }
}

/// a terminated with Tag Terminating (TT) Byte: 0x20 (SP)
pub open spec fn text_html_a_20_spec() -> ByteMatcherModel {
    ByteMatcherModel {
        pattern: seq![0x3Cu8, 0x41u8, 0x20u8],
        mask: seq![0xFFu8, 0xDFu8, 0xFFu8],
        leading_ignore: tag_leading_ignore_spec(),
        content_type: ("text"@, "html"@),
    }
}

/// a terminated with Tag Terminating (TT) Byte: 0x3E (">")
pub open spec fn text_html_a_3e_spec() -> ByteMatcherModel {
    ByteMatcherModel {
        pattern: seq![0x3Cu8, 0x41u8, 0x3Eu8],
        mask: seq![0xFFu8, 0xDFu8, 0xFFu8],
        leading_ignore: tag_leading_ignore_spec(),
        content_type: ("text"@, "html"@),
    }
}

/// style terminated with Tag Terminating (TT) Byte: 0x20 (SP)
pub open spec fn text_html_style_20_spec() -> ByteMatcherModel {
    ByteMatcherModel {
        pattern: seq![0x3Cu8, 0x53u8, 0x54u8, 0x59u8, 0x4Cu8, 0x45u8, 0x20u8],
        mask: seq![0xFFu8, 0xDFu8, 0xDFu8, 0xDFu8, 0xDFu8, 0xDFu8, 0xFFu8],
        leading_ignore: tag_leading_ignore_spec(),
        content_type: ("text"@, "html"@),
    }
}

/// style terminated with Tag Terminating (TT) Byte: 0x3E (">")
pub open spec fn text_html_style_3e_spec() -> ByteMatcherModel {
    ByteMatcherModel {
        pattern: seq![0x3Cu8, 0x53u8, 0x54u8, 0x59u8, 0x4Cu8, 0x45u8, 0x3Eu8],
        mask: seq![0xFFu8, 0xDFu8, 0xDFu8, 0xDFu8, 0xDFu8, 0xDFu8, 0xFFu8],
        leading_ignore: tag_leading_ignore_spec(),
        content_type: ("text"@, "html"@),
    }
}

/// title terminated with Tag Terminating (TT) Byte: 0x20 (SP)
pub open spec fn text_html_title_20_spec() -> ByteMatcherModel {
    ByteMatcherModel {
        pattern: seq![0x3Cu8, 0x54u8, 0x49u8, 0x54u8, 0x4Cu8, 0x45u8, 0x20u8],
        mask: seq![0xFFu8, 0xDFu8, 0xDFu8, 0xDFu8, 0xDFu8, 0xDFu8, 0xFFu8],
        leading_ignore: tag_leading_ignore_spec(),
        content_type: ("text"@, "html"@),
    }
}

/// title terminated with Tag Terminating (TT) Byte: 0x3E (">")
pub open spec fn text_html_title_3e_spec() -> ByteMatcherModel {
    ByteMatcherModel {
        pattern: seq![0x3Cu8, 0x54u8, 0x49u8, 0x54u8, 0x4Cu8, 0x45u8, 0x3Eu8],
        mask: seq![0xFFu8, 0xDFu8, 0xDFu8, 0xDFu8, 0xDFu8, 0xDFu8, 0xFFu8],
        leading_ignore: tag_leading_ignore_spec(),
        content_type: ("text"@, "html"@),
    }
}

/// b terminated with Tag Terminating (TT) Byte: 0x20 (SP)
pub open spec fn text_html_b_20_spec() -> ByteMatcherModel {
    ByteMatcherModel {
        pattern: seq![0x3Cu8, 0x42u8, 0x20u8],
        mask: seq![0xFFu8, 0xDFu8, 0xFFu8],
        leading_ignore: tag_leading_ignore_spec(),
        content_type: ("text"@, "html"@),
    }
}

/// b terminated with Tag Terminating (TT) Byte: 0x3E (">")
pub open spec fn text_html_b_3e_spec() -> ByteMatcherModel {
    ByteMatcherModel {
        pattern: seq![0x3Cu8, 0x42u8, 0x3Eu8],
        mask: seq![0xFFu8, 0xDFu8, 0xFFu8],
        leading_ignore: tag_leading_ignore_spec(),
        content_type: ("text"@, "html"@),
    }
}

/// body terminated with Tag Terminating (TT) Byte: 0x20 (SP)
pub open spec fn text_html_body_20_spec() -> ByteMatcherModel {
    ByteMatcherModel {
        pattern: seq![0x3Cu8, 0x42u8, 0x4Fu8, 0x44u8, 0x59u8, 0x20u8],
        mask: seq![0xFFu8, 0xDFu8, 0xDFu8, 0xDFu8, 0xDFu8, 0xFFu8],
        leading_ignore: tag_leading_ignore_spec(),
        content_type: ("text"@, "html"@),
    }
}

/// body terminated with Tag Terminating (TT) Byte: 0x3E (">")
pub open spec fn text_html_body_3e_spec() -> ByteMatcherModel {
    ByteMatcherModel {
        pattern: seq![0x3Cu8, 0x42u8, 0x4Fu8, 0x44u8, 0x59u8, 0x3Eu8],
        mask: seq![0xFFu8, 0xDFu8, 0xDFu8, 0xDFu8, 0xDFu8, 0xFFu8],
        leading_ignore: tag_leading_ignore_spec(),
        content_type: ("text"@, "html"@),
    }
}

/// br terminated with Tag Terminating (TT) Byte: 0x20 (SP)
pub open spec fn text_html_br_20_spec() -> ByteMatcherModel {
    ByteMatcherModel {
        pattern: seq![0x3Cu8, 0x42u8, 0x52u8, 0x20u8],
        mask: seq![0xFFu8, 0xDFu8, 0xDFu8, 0xFFu8],
        leading_ignore: tag_leading_ignore_spec(),
        content_type: ("text"@, "html"@),
    }
}

/// br terminated with Tag Terminating (TT) Byte: 0x3E (">")
pub open spec fn text_html_br_3e_spec() -> ByteMatcherModel {
    ByteMatcherModel {
        pattern: seq![0x3Cu8, 0x42u8, 0x52u8, 0x3Eu8],
        mask: seq![0xFFu8, 0xDFu8, 0xDFu8, 0xFFu8],
        leading_ignore: tag_leading_ignore_spec(),
        content_type: ("text"@, "html"@),
    }
}

/// p terminated with Tag Terminating (TT) Byte: 0x20 (SP)
pub open spec fn text_html_p_20_spec() -> ByteMatcherModel {
    ByteMatcherModel {
        pattern: seq![0x3Cu8, 0x50u8, 0x20u8],
        mask: seq![0xFFu8, 0xDFu8, 0xFFu8],
        leading_ignore: tag_leading_ignore_spec(),
        content_type: ("text"@, "html"@),
    }
}

/// p terminated with Tag Terminating (TT) Byte: 0x3E (">")
pub open spec fn text_html_p_3e_spec() -> ByteMatcherModel {
    ByteMatcherModel {
        pattern: seq![0x3Cu8, 0x50u8, 0x3Eu8],
        mask: seq![0xFFu8, 0xDFu8, 0xFFu8],
        leading_ignore: tag_leading_ignore_spec(),
        content_type: ("text"@, "html"@),
    }
}

/// comment terminated with Tag Terminating (TT) Byte: 0x20 (SP)
pub open spec fn text_html_comment_20_spec() -> ByteMatcherModel {
    ByteMatcherModel {
        pattern: seq![0x3Cu8, 0x21u8, 0x2Du8, 0x2Du8, 0x20u8],
        mask: seq![0xFFu8, 0xFFu8, 0xFFu8, 0xFFu8, 0xFFu8],
        leading_ignore: tag_leading_ignore_spec(),
        content_type: ("text"@, "html"@),
    }
}

/// comment terminated with Tag Terminating (TT) Byte: 0x3E (">")
pub open spec fn text_html_comment_3e_spec() -> ByteMatcherModel {
    ByteMatcherModel {
        pattern: seq![0x3Cu8, 0x21u8, 0x2Du8, 0x2Du8, 0x3Eu8],
        mask: seq![0xFFu8, 0xFFu8, 0xFFu8, 0xFFu8, 0xFFu8],
        leading_ignore: tag_leading_ignore_spec(),
        content_type: ("text"@, "html"@),
    }
}

/// The string "<?xml".
pub open spec fn text_xml_spec() -> ByteMatcherModel {
    ByteMatcherModel {
        pattern: seq![0x3Cu8, 0x3Fu8, 0x78u8, 0x6Du8, 0x6Cu8],
        mask: seq![0xFFu8, 0xFFu8, 0xFFu8, 0xFFu8, 0xFFu8],
        leading_ignore: tag_leading_ignore_spec(),
        content_type: ("text"@, "xml"@),
    }
}

/// The string "%PDF-", the PDF signature.
pub open spec fn application_pdf_spec() -> ByteMatcherModel {
    ByteMatcherModel {
        pattern: seq![0x25u8, 0x50u8, 0x44u8, 0x46u8, 0x2Du8],
        mask: seq![0xFFu8, 0xFFu8, 0xFFu8, 0xFFu8, 0xFFu8],
        leading_ignore: Seq::empty(),
        content_type: ("application"@, "pdf"@),
    }
}

/// 34 bytes followed by the string "LP", the Embedded OpenType signature.
pub open spec fn application_vnd_ms_font_object_spec() -> ByteMatcherModel {
    ByteMatcherModel {
        pattern: seq![0x00u8, 0x00u8, 0x00u8, 0x00u8, 0x00u8, 0x00u8, 0x00u8, 0x00u8, 0x00u8, 0x00u8, 0x00u8, 0x00u8, 0x00u8, 0x00u8, 0x00u8, 0x00u8, 0x00u8, 0x00u8, 0x00u8, 0x00u8, 0x00u8, 0x00u8, 0x00u8, 0x00u8, 0x00u8, 0x00u8, 0x00u8, 0x00u8, 0x00u8, 0x00u8, 0x00u8, 0x00u8, 0x00u8, 0x00u8, 0x4Cu8, 0x50u8],
        mask: seq![0x00u8, 0x00u8, 0x00u8, 0x00u8, 0x00u8, 0x00u8, 0x00u8, 0x00u8, 0x00u8, 0x00u8, 0x00u8, 0x00u8, 0x00u8, 0x00u8, 0x00u8, 0x00u8, 0x00u8, 0x00u8, 0x00u8, 0x00u8, 0x00u8, 0x00u8, 0x00u8, 0x00u8, 0x00u8, 0x00u8, 0x00u8, 0x00u8, 0x00u8, 0x00u8, 0x00u8, 0x00u8, 0x00u8, 0x00u8, 0xFFu8, 0xFFu8],
        leading_ignore: Seq::empty(),
        content_type: ("application"@, "vnd.ms-fontobject"@),
    }
}

/// 4 bytes representing the version number 1.0, a TrueType signature.
pub open spec fn true_type_spec() -> ByteMatcherModel {
    ByteMatcherModel {
        pattern: seq![0x00u8, 0x01u8, 0x00u8, 0x00u8],
        mask: seq![0xFFu8, 0xFFu8, 0xFFu8, 0xFFu8],
        leading_ignore: Seq::empty(),
        content_type: ("(TrueType)"@, ""@),
    }
}

/// The string "OTTO", the OpenType signature.
pub open spec fn open_type_spec() -> ByteMatcherModel {
    ByteMatcherModel {
        pattern: seq![0x4Fu8, 0x54u8, 0x54u8, 0x4Fu8],
        mask: seq![0xFFu8, 0xFFu8, 0xFFu8, 0xFFu8],
        leading_ignore: Seq::empty(),
        content_type: ("(OpenType)"@, ""@),
    }
}

/// The string "ttcf", the TrueType Collection signature.
pub open spec fn true_type_collection_spec() -> ByteMatcherModel {
    ByteMatcherModel {
        pattern: seq![0x74u8, 0x74u8, 0x63u8, 0x66u8],
        mask: seq![0xFFu8, 0xFFu8, 0xFFu8, 0xFFu8],
        leading_ignore: Seq::empty(),
        content_type: ("(TrueType Collection)"@, ""@),
    }
}

/// The string "wOFF", the Web Open Font Format signature.
pub open spec fn application_font_woff_spec() -> ByteMatcherModel {
    ByteMatcherModel {
        pattern: seq![0x77u8, 0x4Fu8, 0x46u8, 0x46u8],
        mask: seq![0xFFu8, 0xFFu8, 0xFFu8, 0xFFu8],
        leading_ignore: Seq::empty(),
        content_type: ("application"@, "font-woff"@),
    }
}

/// The GZIP archive signature.
pub open spec fn application_x_gzip_spec() -> ByteMatcherModel {
    ByteMatcherModel {
        pattern: seq![0x1Fu8, 0x8Bu8, 0x08u8],
        mask: seq![0xFFu8, 0xFFu8, 0xFFu8],
        leading_ignore: Seq::empty(),
        content_type: ("application"@, "x-gzip"@),
    }
}

/// The string "PK" followed by ETX EOT, the ZIP archive signature.
pub open spec fn application_zip_spec() -> ByteMatcherModel {
    ByteMatcherModel {
        pattern: seq![0x50u8, 0x4Bu8, 0x03u8, 0x04u8],
        mask: seq![0xFFu8, 0xFFu8, 0xFFu8, 0xFFu8],
        leading_ignore: Seq::empty(),
        content_type: ("application"@, "zip"@),
    }
}

/// The string "Rar " followed by SUB BEL NUL, the RAR archive signature.
pub open spec fn application_x_rar_compressed_spec() -> ByteMatcherModel {
    ByteMatcherModel {
        pattern: seq![0x52u8, 0x61u8, 0x72u8, 0x20u8, 0x1Au8, 0x07u8, 0x00u8],
        mask: seq![0xFFu8, 0xFFu8, 0xFFu8, 0xFFu8, 0xFFu8, 0xFFu8, 0xFFu8],
        leading_ignore: Seq::empty(),
        content_type: ("application"@, "x-rar-compressed"@),
    }
}

/// The string "%!PS-Adobe-", the PostScript signature.
pub open spec fn application_postscript_spec() -> ByteMatcherModel {
    ByteMatcherModel {
        pattern: seq![0x25u8, 0x21u8, 0x50u8, 0x53u8, 0x2Du8, 0x41u8, 0x64u8, 0x6Fu8, 0x62u8, 0x65u8, 0x2Du8],
        mask: seq![0xFFu8, 0xFFu8, 0xFFu8, 0xFFu8, 0xFFu8, 0xFFu8, 0xFFu8, 0xFFu8, 0xFFu8, 0xFFu8, 0xFFu8],
        leading_ignore: Seq::empty(),
        content_type: ("application"@, "postscript"@),
    }
}

/// UTF-16BE BOM
pub open spec fn text_plain_utf_16be_bom_spec() -> ByteMatcherModel {
    ByteMatcherModel {
        pattern: seq![0xFEu8, 0xFFu8, 0x00u8, 0x00u8],
        mask: seq![0xFFu8, 0xFFu8, 0x00u8, 0x00u8],
        leading_ignore: Seq::empty(),
        content_type: ("text"@, "plain"@),
    }
}

/// UTF-16LE BOM
pub open spec fn text_plain_utf_16le_bom_spec() -> ByteMatcherModel {
    ByteMatcherModel {
        pattern: seq![0xFFu8, 0xFEu8, 0x00u8, 0x00u8],
        mask: seq![0xFFu8, 0xFFu8, 0x00u8, 0x00u8],
        leading_ignore: Seq::empty(),
        content_type: ("text"@, "plain"@),
    }
}

/// UTF-8 BOM
pub open spec fn text_plain_utf_8_bom_spec() -> ByteMatcherModel {
    ByteMatcherModel {
        pattern: seq![0xEFu8, 0xBBu8, 0xBFu8, 0x00u8],
        mask: seq![0xFFu8, 0xFFu8, 0xFFu8, 0x00u8],
        leading_ignore: Seq::empty(),
        content_type: ("text"@, "plain"@),
    }
}

impl ByteMatcher {
    /// A Windows Icon signature
    pub fn image_x_icon() -> (r: ByteMatcher)
        ensures
            r@ == image_x_icon_spec(),
            r@.wf(),
    {
        let r = ByteMatcher {
            pattern: vec![0x00u8, 0x00u8, 0x01u8, 0x00u8],
            mask: vec![0xFFu8, 0xFFu8, 0xFFu8, 0xFFu8],
            leading_ignore: Vec::new(),
            content_type: ("image".to_owned(), "x-icon".to_owned()),
        };
        proof {
            assert(r@ =~= image_x_icon_spec());
        }
        r
    }

    /// A Windows Cursor signature.
    pub fn image_x_icon_cursor() -> (r: ByteMatcher)
        ensures
            r@ == image_x_icon_cursor_spec(),
            r@.wf(),
    {
        let r = ByteMatcher {
            pattern: vec![0x00u8, 0x00u8, 0x02u8, 0x00u8],
            mask: vec![0xFFu8, 0xFFu8, 0xFFu8, 0xFFu8],
            leading_ignore: Vec::new(),
            content_type: ("image".to_owned(), "x-icon".to_owned()),
        };
        proof {
            assert(r@ =~= image_x_icon_cursor_spec());
        }
        r
    }

    /// The string "BM", a BMP signature.
    pub fn image_bmp() -> (r: ByteMatcher)
        ensures
            r@ == image_bmp_spec(),
            r@.wf(),
    {
        let r = ByteMatcher {
            pattern: vec![0x42u8, 0x4Du8],
            mask: vec![0xFFu8, 0xFFu8],
            leading_ignore: Vec::new(),
            content_type: ("image".to_owned(), "bmp".to_owned()),
        };
        proof {
            assert(r@ =~= image_bmp_spec());
        }
        r
    }

    /// The string "GIF89a", a GIF signature.
    pub fn image_gif89a() -> (r: ByteMatcher)
        ensures
            r@ == image_gif89a_spec(),
            r@.wf(),
    {
        let r = ByteMatcher {
            pattern: vec![0x47u8, 0x49u8, 0x46u8, 0x38u8, 0x39u8, 0x61u8],
            mask: vec![0xFFu8, 0xFFu8, 0xFFu8, 0xFFu8, 0xFFu8, 0xFFu8],
            leading_ignore: Vec::new(),
            content_type: ("image".to_owned(), "gif".to_owned()),
        };
        proof {
            assert(r@ =~= image_gif89a_spec());
        }
        r
    }

    /// The string "GIF87a", a GIF signature.
    pub fn image_gif87a() -> (r: ByteMatcher)
        ensures
            r@ == image_gif87a_spec(),
            r@.wf(),
    {
        let r = ByteMatcher {
            pattern: vec![0x47u8, 0x49u8, 0x46u8, 0x38u8, 0x37u8, 0x61u8],
            mask: vec![0xFFu8, 0xFFu8, 0xFFu8, 0xFFu8, 0xFFu8, 0xFFu8],
            leading_ignore: Vec::new(),
            content_type: ("image".to_owned(), "gif".to_owned()),
        };
        proof {
            assert(r@ =~= image_gif87a_spec());
        }
        r
    }

    /// The string "RIFF" followed by four bytes followed by the string "WEBPVP".
    pub fn image_webp() -> (r: ByteMatcher)
        ensures
            r@ == image_webp_spec(),
            r@.wf(),
    {
        let r = ByteMatcher {
            pattern: vec![0x52u8, 0x49u8, 0x46u8, 0x46u8, 0x00u8, 0x00u8, 0x00u8, 0x00u8, 0x57u8, 0x45u8, 0x42u8, 0x50u8, 0x56u8, 0x50u8],
            mask: vec![0xFFu8, 0xFFu8, 0xFFu8, 0xFFu8, 0x00u8, 0x00u8, 0x00u8, 0x00u8, 0xFFu8, 0xFFu8, 0xFFu8, 0xFFu8, 0xFFu8, 0xFFu8],
            leading_ignore: Vec::new(),
            content_type: ("image".to_owned(), "webp".to_owned()),
        };
        proof {
            assert(r@ =~= image_webp_spec());
        }
        r
    }

    /// An error-checking byte followed by the string "PNG" followed by CR LF SUB LF, the PNG signature.
    pub fn image_png() -> (r: ByteMatcher)
        ensures
            r@ == image_png_spec(),
            r@.wf(),
    {
        let r = ByteMatcher {
            pattern: vec![0x89u8, 0x50u8, 0x4Eu8, 0x47u8, 0x0Du8, 0x0Au8, 0x1Au8, 0x0Au8],
            mask: vec![0xFFu8, 0xFFu8, 0xFFu8, 0xFFu8, 0xFFu8, 0xFFu8, 0xFFu8, 0xFFu8],
            leading_ignore: Vec::new(),
            content_type: ("image".to_owned(), "png".to_owned()),
        };
        proof {
            assert(r@ =~= image_png_spec());
        }
        r
    }

    /// The JPEG Start of Image marker followed by the indicator byte of another marker.
    pub fn image_jpeg() -> (r: ByteMatcher)
        ensures
            r@ == image_jpeg_spec(),
            r@.wf(),
    {
        let r = ByteMatcher {
            pattern: vec![0xFFu8, 0xD8u8, 0xFFu8],
            mask: vec![0xFFu8, 0xFFu8, 0xFFu8],
            leading_ignore: Vec::new(),
            content_type: ("image".to_owned(), "jpeg".to_owned()),
        };
        proof {
            assert(r@ =~= image_jpeg_spec());
        }
        r
    }

    /// The WebM signature.
    pub fn video_webm() -> (r: ByteMatcher)
        ensures
            r@ == video_webm_spec(),
            r@.wf(),
    {
        let r = ByteMatcher {
            pattern: vec![0x1Au8, 0x45u8, 0xDFu8, 0xA3u8],
            mask: vec![0xFFu8, 0xFFu8, 0xFFu8, 0xFFu8],
            leading_ignore: Vec::new(),
            content_type: ("video".to_owned(), "webm".to_owned()),
        };
        proof {
            assert(r@ =~= video_webm_spec());
        }
        r
    }

    /// The string ".snd", the basic audio signature.
    pub fn audio_basic() -> (r: ByteMatcher)
        ensures
            r@ == audio_basic_spec(),
            r@.wf(),
    {
        let r = ByteMatcher {
            pattern: vec![0x2Eu8, 0x73u8, 0x6Eu8, 0x64u8],
            mask: vec![0xFFu8, 0xFFu8, 0xFFu8, 0xFFu8],
            leading_ignore: Vec::new(),
            content_type: ("audio".to_owned(), "basic".to_owned()),
        };
        proof {
            assert(r@ =~= audio_basic_spec());
        }
        r
    }

    /// The string "FORM" followed by four bytes followed by the string "AIFF", the AIFF signature.
    pub fn audio_aiff() -> (r: ByteMatcher)
        ensures
            r@ == audio_aiff_spec(),
            r@.wf(),
    {
        let r = ByteMatcher {
            pattern: vec![0x46u8, 0x4Fu8, 0x52u8, 0x4Du8, 0x00u8, 0x00u8, 0x00u8, 0x00u8, 0x41u8, 0x49u8, 0x46u8, 0x46u8],
            mask: vec![0xFFu8, 0xFFu8, 0xFFu8, 0xFFu8, 0x00u8, 0x00u8, 0x00u8, 0x00u8, 0xFFu8, 0xFFu8, 0xFFu8, 0xFFu8],
            leading_ignore: Vec::new(),
            content_type: ("audio".to_owned(), "aiff".to_owned()),
        };
        proof {
            assert(r@ =~= audio_aiff_spec());
        }
        r
    }

    /// The string "ID3", the ID3v2-tagged MP3 signature.
    pub fn audio_mpeg() -> (r: ByteMatcher)
        ensures
            r@ == audio_mpeg_spec(),
            r@.wf(),
    {
        let r = ByteMatcher {
            pattern: vec![0x49u8, 0x44u8, 0x33u8],
            mask: vec![0xFFu8, 0xFFu8, 0xFFu8],
            leading_ignore: Vec::new(),
            content_type: ("audio".to_owned(), "mpeg".to_owned()),
        };
        proof {
            assert(r@ =~= audio_mpeg_spec());
        }
        r
    }

    /// The string "OggS" followed by NUL, the Ogg container signature.
    pub fn application_ogg() -> (r: ByteMatcher)
        ensures
            r@ == application_ogg_spec(),
            r@.wf(),
    {
        let r = ByteMatcher {
            pattern: vec![0x4Fu8, 0x67u8, 0x67u8, 0x53u8, 0x00u8],
            mask: vec![0xFFu8, 0xFFu8, 0xFFu8, 0xFFu8, 0xFFu8],
            leading_ignore: Vec::new(),
            content_type: ("application".to_owned(), "ogg".to_owned()),
        };
        proof {
            assert(r@ =~= application_ogg_spec());
        }
        r
    }

    /// The string "MThd" followed by four bytes representing the number 6 in 32 bits (big-endian), the MIDI signature.
    pub fn audio_midi() -> (r: ByteMatcher)
        ensures
            r@ == audio_midi_spec(),
            r@.wf(),
    {
        let r = ByteMatcher {
            pattern: vec![0x4Du8, 0x54u8, 0x68u8, 0x64u8, 0x00u8, 0x00u8, 0x00u8, 0x06u8],
            mask: vec![0xFFu8, 0xFFu8, 0xFFu8, 0xFFu8, 0xFFu8, 0xFFu8, 0xFFu8, 0xFFu8],
            leading_ignore: Vec::new(),
            content_type: ("audio".to_owned(), "midi".to_owned()),
        };
        proof {
            assert(r@ =~= audio_midi_spec());
        }
        r
    }

    /// The string "RIFF" followed by four bytes followed by the string "AVI ", the AVI signature.
    pub fn video_avi() -> (r: ByteMatcher)
        ensures
            r@ == video_avi_spec(),
            r@.wf(),
    {
        let r = ByteMatcher {
            pattern: vec![0x52u8, 0x49u8, 0x46u8, 0x46u8, 0x00u8, 0x00u8, 0x00u8, 0x00u8, 0x41u8, 0x56u8, 0x49u8, 0x20u8],
            mask: vec![0xFFu8, 0xFFu8, 0xFFu8, 0xFFu8, 0x00u8, 0x00u8, 0x00u8, 0x00u8, 0xFFu8, 0xFFu8, 0xFFu8, 0xFFu8],
            leading_ignore: Vec::new(),
            content_type: ("video".to_owned(), "avi".to_owned()),
        };
        proof {
            assert(r@ =~= video_avi_spec());
        }
        r
    }

    /// The string "RIFF" followed by four bytes followed by the string "WAVE", the WAVE signature.
    pub fn audio_wave() -> (r: ByteMatcher)
        ensures
            r@ == audio_wave_spec(),
            r@.wf(),
    {
        let r = ByteMatcher {
            pattern: vec![0x52u8, 0x49u8, 0x46u8, 0x46u8, 0x00u8, 0x00u8, 0x00u8, 0x00u8, 0x57u8, 0x41u8, 0x56u8, 0x45u8],
            mask: vec![0xFFu8, 0xFFu8, 0xFFu8, 0xFFu8, 0x00u8, 0x00u8, 0x00u8, 0x00u8, 0xFFu8, 0xFFu8, 0xFFu8, 0xFFu8],
            leading_ignore: Vec::new(),
            content_type: ("audio".to_owned(), "wave".to_owned()),
        };
        proof {
            assert(r@ =~= audio_wave_spec());
        }
        r
    }

    /// doctype terminated with Tag terminating (TT) Byte: 0x20 (SP)
    pub fn text_html_doctype_20() -> (r: ByteMatcher)
        ensures
            r@ == text_html_doctype_20_spec(),
            r@.wf(),
    {
        let r = ByteMatcher {
            pattern: vec![0x3Cu8, 0x21u8, 0x44u8, 0x4Fu8, 0x43u8, 0x54u8, 0x59u8, 0x50u8, 0x45u8, 0x20u8, 0x48u8, 0x54u8, 0x4Du8, 0x4Cu8, 0x20u8],
            mask: vec![0xFFu8, 0xFFu8, 0xDFu8, 0xDFu8, 0xDFu8, 0xDFu8, 0xDFu8, 0xDFu8, 0xDFu8, 0xFFu8, 0xDFu8, 0xDFu8, 0xDFu8, 0xDFu8, 0xFFu8],
            leading_ignore: vec![0x09u8, 0x0Au8, 0x0Cu8, 0x0Du8, 0x20u8],
            content_type: ("text".to_owned(), "html".to_owned()),
        };
        proof {
            assert(r@ =~= text_html_doctype_20_spec());
        }
        r
    }

    /// doctype terminated with Tag terminating (TT) Byte: 0x3E (">")
    pub fn text_html_doctype_3e() -> (r: ByteMatcher)
        ensures
            r@ == text_html_doctype_3e_spec(),
            r@.wf(),
    {
        let r = ByteMatcher {
            pattern: vec![0x3Cu8, 0x21u8, 0x44u8, 0x4Fu8, 0x43u8, 0x54u8, 0x59u8, 0x50u8, 0x45u8, 0x20u8, 0x48u8, 0x54u8, 0x4Du8, 0x4Cu8, 0x3Eu8],
            mask: vec![0xFFu8, 0xFFu8, 0xDFu8, 0xDFu8, 0xDFu8, 0xDFu8, 0xDFu8, 0xDFu8, 0xDFu8, 0xFFu8, 0xDFu8, 0xDFu8, 0xDFu8, 0xDFu8, 0xFFu8],
            leading_ignore: vec![0x09u8, 0x0Au8, 0x0Cu8, 0x0Du8, 0x20u8],
            content_type: ("text".to_owned(), "html".to_owned()),
        };
        proof {
            assert(r@ =~= text_html_doctype_3e_spec());
        }
        r
    }

    /// HTML terminated with Tag terminating (TT) Byte: 0x20 (SP)
    pub fn text_html_page_20() -> (r: ByteMatcher)
        ensures
            r@ == text_html_page_20_spec(),
            r@.wf(),
    {
        let r = ByteMatcher {
            pattern: vec![0x3Cu8, 0x48u8, 0x54u8, 0x4Du8, 0x4Cu8, 0x20u8],
            mask: vec![0xFFu8, 0xDFu8, 0xDFu8, 0xDFu8, 0xDFu8, 0xFFu8],
            leading_ignore: vec![0x09u8, 0x0Au8, 0x0Cu8, 0x0Du8, 0x20u8],
            content_type: ("text".to_owned(), "html".to_owned()),
        };
        proof {
            assert(r@ =~= text_html_page_20_spec());
        }
        r
    }

    /// HTML terminated with Tag terminating (TT) Byte: 0x3E (">")
    pub fn text_html_page_3e() -> (r: ByteMatcher)
        ensures
            r@ == text_html_page_3e_spec(),
            r@.wf(),
    {
        let r = ByteMatcher {
            pattern: vec![0x3Cu8, 0x48u8, 0x54u8, 0x4Du8, 0x4Cu8, 0x3Eu8],
            mask: vec![0xFFu8, 0xDFu8, 0xDFu8, 0xDFu8, 0xDFu8, 0xFFu8],
            leading_ignore: vec![0x09u8, 0x0Au8, 0x0Cu8, 0x0Du8, 0x20u8],
            content_type: ("text".to_owned(), "html".to_owned()),
        };
        proof {
            assert(r@ =~= text_html_page_3e_spec());
        }
        r
    }

    /// head terminated with Tag Terminating (TT) Byte: 0x20 (SP)
    pub fn text_html_head_20() -> (r: ByteMatcher)
        ensures
            r@ == text_html_head_20_spec(),
            r@.wf(),
    {
        let r = ByteMatcher {
            pattern: vec![0x3Cu8, 0x48u8, 0x45u8, 0x41u8, 0x44u8, 0x20u8],
            mask: vec![0xFFu8, 0xDFu8, 0xDFu8, 0xDFu8, 0xDFu8, 0xFFu8],
            leading_ignore: vec![0x09u8, 0x0Au8, 0x0Cu8, 0x0Du8, 0x20u8],
            content_type: ("text".to_owned(), "html".to_owned()),
        };
        proof {
            assert(r@ =~= text_html_head_20_spec());
        }
        r
    }

    /// head terminated with Tag Terminating (TT) Byte: 0x3E (">")
    pub fn text_html_head_3e() -> (r: ByteMatcher)
        ensures
            r@ == text_html_head_3e_spec(),
            r@.wf(),
    {
        let r = ByteMatcher {
            pattern: vec![0x3Cu8, 0x48u8, 0x45u8, 0x41u8, 0x44u8, 0x3Eu8],
            mask: vec![0xFFu8, 0xDFu8, 0xDFu8, 0xDFu8, 0xDFu8, 0xFFu8],
            leading_ignore: vec![0x09u8, 0x0Au8, 0x0Cu8, 0x0Du8, 0x20u8],
            content_type: ("text".to_owned(), "html".to_owned()),
        };
        proof {
            assert(r@ =~= text_html_head_3e_spec());
        }
        r
    }

    /// script terminated with Tag Terminating (TT) Byte: 0x20 (SP)
    pub fn text_html_script_20() -> (r: ByteMatcher)
        ensures
            r@ == text_html_script_20_spec(),
            r@.wf(),
    {
        let r = ByteMatcher {
            pattern: vec![0x3Cu8, 0x53u8, 0x43u8, 0x52u8, 0x49u8, 0x50u8, 0x54u8, 0x20u8],
            mask: vec![0xFFu8, 0xDFu8, 0xDFu8, 0xDFu8, 0xDFu8, 0xDFu8, 0xDFu8, 0xFFu8],
            leading_ignore: vec![0x09u8, 0x0Au8, 0x0Cu8, 0x0Du8, 0x20u8],
            content_type: ("text".to_owned(), "html".to_owned()),
        };
        proof {
            assert(r@ =~= text_html_script_20_spec());
        }
        r
    }

    /// script terminated with Tag Terminating (TT) Byte: 0x3E (">")
    pub fn text_html_script_3e() -> (r: ByteMatcher)
        ensures
            r@ == text_html_script_3e_spec(),
            r@.wf(),
    {
        let r = ByteMatcher {
            pattern: vec![0x3Cu8, 0x53u8, 0x43u8, 0x52u8, 0x49u8, 0x50u8, 0x54u8, 0x3Eu8],
            mask: vec![0xFFu8, 0xDFu8, 0xDFu8, 0xDFu8, 0xDFu8, 0xDFu8, 0xDFu8, 0xFFu8],
            leading_ignore: vec![0x09u8, 0x0Au8, 0x0Cu8, 0x0Du8, 0x20u8],
            content_type: ("text".to_owned(), "html".to_owned()),
        };
        proof {
            assert(r@ =~= text_html_script_3e_spec());
        }
        r
    }

    /// iframe terminated with Tag Terminating (TT) Byte: 0x20 (SP)
    pub fn text_html_iframe_20() -> (r: ByteMatcher)
        ensures
            r@ == text_html_iframe_20_spec(),
            r@.wf(),
    {
        let r = ByteMatcher {
            pattern: vec![0x3Cu8, 0x49u8, 0x46u8, 0x52u8, 0x41u8, 0x4Du8, 0x45u8, 0x20u8],
            mask: vec![0xFFu8, 0xDFu8, 0xDFu8, 0xDFu8, 0xDFu8, 0xDFu8, 0xDFu8, 0xFFu8],
            leading_ignore: vec![0x09u8, 0x0Au8, 0x0Cu8, 0x0Du8, 0x20u8],
            content_type: ("text".to_owned(), "html".to_owned()),
        };
        proof {
            assert(r@ =~= text_html_iframe_20_spec());
        }
        r
    }

    /// iframe terminated with Tag Terminating (TT) Byte: 0x3E (">")
    pub fn text_html_iframe_3e() -> (r: ByteMatcher)
        ensures
            r@ == text_html_iframe_3e_spec(),
            r@.wf(),
    {
        let r = ByteMatcher {
            pattern: vec![0x3Cu8, 0x49u8, 0x46u8, 0x52u8, 0x41u8, 0x4Du8, 0x45u8, 0x3Eu8],
            mask: vec![0xFFu8, 0xDFu8, 0xDFu8, 0xDFu8, 0xDFu8, 0xDFu8, 0xDFu8, 0xFFu8],
            leading_ignore: vec![0x09u8, 0x0Au8, 0x0Cu8, 0x0Du8, 0x20u8],
            content_type: ("text".to_owned(), "html".to_owned()),
        };
        proof {
            assert(r@ =~= text_html_iframe_3e_spec());
        }
        r
    }

    /// h1 terminated with Tag Terminating (TT) Byte: 0x20 (SP)
    pub fn text_html_h1_20() -> (r: ByteMatcher)
        ensures
            r@ == text_html_h1_20_spec(),
            r@.wf(),
    {
        let r = ByteMatcher {
            pattern: vec![0x3Cu8, 0x48u8, 0x31u8, 0x20u8],
            mask: vec![0xFFu8, 0xDFu8, 0xFFu8, 0xFFu8],
            leading_ignore: vec![0x09u8, 0x0Au8, 0x0Cu8, 0x0Du8, 0x20u8],
            content_type: ("text".to_owned(), "html".to_owned()),
        };
        proof {
            assert(r@ =~= text_html_h1_20_spec());
        }
        r
    }

    /// h1 terminated with Tag Terminating (TT) Byte: 0x3E (">")
    pub fn text_html_h1_3e() -> (r: ByteMatcher)
        ensures
            r@ == text_html_h1_3e_spec(),
            r@.wf(),
    {
        let r = ByteMatcher {
            pattern: vec![0x3Cu8, 0x48u8, 0x31u8, 0x3Eu8],
            mask: vec![0xFFu8, 0xDFu8, 0xFFu8, 0xFFu8],
            leading_ignore: vec![0x09u8, 0x0Au8, 0x0Cu8, 0x0Du8, 0x20u8],
            content_type: ("text".to_owned(), "html".to_owned()),
        };
        proof {
            assert(r@ =~= text_html_h1_3e_spec());
        }
        r
    }

    /// div terminated with Tag Terminating (TT) Byte: 0x20 (SP)
    pub fn text_html_div_20() -> (r: ByteMatcher)
        ensures
            r@ == text_html_div_20_spec(),
            r@.wf(),
    {
        let r = ByteMatcher {
            pattern: vec![0x3Cu8, 0x44u8, 0x49u8, 0x56u8, 0x20u8],
            mask: vec![0xFFu8, 0xDFu8, 0xDFu8, 0xDFu8, 0xFFu8],
            leading_ignore: vec![0x09u8, 0x0Au8, 0x0Cu8, 0x0Du8, 0x20u8],
            content_type: ("text".to_owned(), "html".to_owned()),
        };
        proof {
            assert(r@ =~= text_html_div_20_spec());
        }
        r
    }

    /// div terminated with Tag Terminating (TT) Byte: 0x3E (">")
    pub fn text_html_div_3e() -> (r: ByteMatcher)
        ensures
            r@ == text_html_div_3e_spec(),
            r@.wf(),
    {
        let r = ByteMatcher {
            pattern: vec![0x3Cu8, 0x44u8, 0x49u8, 0x56u8, 0x3Eu8],
            mask: vec![0xFFu8, 0xDFu8, 0xDFu8, 0xDFu8, 0xFFu8],
            leading_ignore: vec![0x09u8, 0x0Au8, 0x0Cu8, 0x0Du8, 0x20u8],
            content_type: ("text".to_owned(), "html".to_owned()),
        };
        proof {
            assert(r@ =~= text_html_div_3e_spec());
        }
        r
    }

    /// font terminated with Tag Terminating (TT) Byte: 0x20 (SP)
    pub fn text_html_font_20() -> (r: ByteMatcher)
        ensures
            r@ == text_html_font_20_spec(),
            r@.wf(),
    {
        let r = ByteMatcher {
            pattern: vec![0x3Cu8, 0x46u8, 0x4Fu8, 0x4Eu8, 0x54u8, 0x20u8],
            mask: vec![0xFFu8, 0xDFu8, 0xDFu8, 0xDFu8, 0xDFu8, 0xFFu8],
            leading_ignore: vec![0x09u8, 0x0Au8, 0x0Cu8, 0x0Du8, 0x20u8],
            content_type: ("text".to_owned(), "html".to_owned()),
        };
        proof {
            assert(r@ =~= text_html_font_20_spec());
        }
        r
    }

    /// font terminated with Tag Terminating (TT) Byte: 0x3E (">")
    pub fn text_html_font_3e() -> (r: ByteMatcher)
        ensures
            r@ == text_html_font_3e_spec(),
            r@.wf(),
    {
        let r = ByteMatcher {
            pattern: vec![0x3Cu8, 0x46u8, 0x4Fu8, 0x4Eu8, 0x54u8, 0x3Eu8],
            mask: vec![0xFFu8, 0xDFu8, 0xDFu8, 0xDFu8, 0xDFu8, 0xFFu8],
            leading_ignore: vec![0x09u8, 0x0Au8, 0x0Cu8, 0x0Du8, 0x20u8],
            content_type: ("text".to_owned(), "html".to_owned()),
        };
        proof {
            assert(r@ =~= text_html_font_3e_spec());
        }
        r
    }

    /// table terminated with Tag Terminating (TT) Byte: 0x20 (SP)
    pub fn text_html_table_20() -> (r: ByteMatcher)
        ensures
            r@ == text_html_table_20_spec(),
            r@.wf(),
    {
        let r = ByteMatcher {
            pattern: vec![0x3Cu8, 0x54u8, 0x41u8, 0x42u8, 0x4Cu8, 0x45u8, 0x20u8],
            mask: vec![0xFFu8, 0xDFu8, 0xDFu8, 0xDFu8, 0xDFu8, 0xDFu8, 0xFFu8],
            leading_ignore: vec![0x09u8, 0x0Au8, 0x0Cu8, 0x0Du8, 0x20u8],
            content_type: ("text".to_owned(), "html".to_owned()),
        };
        proof {
            assert(r@ =~= text_html_table_20_spec());
        }
        r
    }

    /// table terminated with Tag Terminating (TT) Byte: 0x3E (">")
    pub fn text_html_table_3e() -> (r: ByteMatcher)
        ensures
            r@ == text_html_table_3e_spec(),
            r@.wf(),
    {
        let r = ByteMatcher {
            pattern: vec![0x3Cu8, 0x54u8, 0x41u8, 0x42u8, 0x4Cu8, 0x45u8, 0x3Eu8],
            mask: vec![0xFFu8, 0xDFu8, 0xDFu8, 0xDFu8, 0xDFu8, 0xDFu8, 0xFFu8],
            leading_ignore: vec![0x09u8, 0x0Au8, 0x0Cu8, 0x0Du8, 0x20u8],
            content_type: ("text".to_owned(), "html".to_owned()),
        };
        proof {
            assert(r@ =~= text_html_table_3e_spec());
        }
        r
    }

    /// a terminated with Tag Terminating (TT) Byte: 0x20 (SP)
    pub fn text_html_a_20() -> (r: ByteMatcher)
        ensures
            r@ == text_html_a_20_spec(),
            r@.wf(),
    {
        let r = ByteMatcher {
            pattern: vec![0x3Cu8, 0x41u8, 0x20u8],
            mask: vec![0xFFu8, 0xDFu8, 0xFFu8],
            leading_ignore: vec![0x09u8, 0x0Au8, 0x0Cu8, 0x0Du8, 0x20u8],
            content_type: ("text".to_owned(), "html".to_owned()),
        };
        proof {
            assert(r@ =~= text_html_a_20_spec());
        }
        r
    }

    /// a terminated with Tag Terminating (TT) Byte: 0x3E (">")
    pub fn text_html_a_3e() -> (r: ByteMatcher)
        ensures
            r@ == text_html_a_3e_spec(),
            r@.wf(),
    {
        let r = ByteMatcher {
            pattern: vec![0x3Cu8, 0x41u8, 0x3Eu8],
            mask: vec![0xFFu8, 0xDFu8, 0xFFu8],
            leading_ignore: vec![0x09u8, 0x0Au8, 0x0Cu8, 0x0Du8, 0x20u8],
            content_type: ("text".to_owned(), "html".to_owned()),
        };
        proof {
            assert(r@ =~= text_html_a_3e_spec());
        }
        r
    }

    /// style terminated with Tag Terminating (TT) Byte: 0x20 (SP)
    pub fn text_html_style_20() -> (r: ByteMatcher)
        ensures
            r@ == text_html_style_20_spec(),
            r@.wf(),
    {
        let r = ByteMatcher {
            pattern: vec![0x3Cu8, 0x53u8, 0x54u8, 0x59u8, 0x4Cu8, 0x45u8, 0x20u8],
            mask: vec![0xFFu8, 0xDFu8, 0xDFu8, 0xDFu8, 0xDFu8, 0xDFu8, 0xFFu8],
            leading_ignore: vec![0x09u8, 0x0Au8, 0x0Cu8, 0x0Du8, 0x20u8],
            content_type: ("text".to_owned(), "html".to_owned()),
        };
        proof {
            assert(r@ =~= text_html_style_20_spec());
        }
        r
    }

    /// style terminated with Tag Terminating (TT) Byte: 0x3E (">")
    pub fn text_html_style_3e() -> (r: ByteMatcher)
        ensures
            r@ == text_html_style_3e_spec(),
            r@.wf(),
    {
        let r = ByteMatcher {
            pattern: vec![0x3Cu8, 0x53u8, 0x54u8, 0x59u8, 0x4Cu8, 0x45u8, 0x3Eu8],
            mask: vec![0xFFu8, 0xDFu8, 0xDFu8, 0xDFu8, 0xDFu8, 0xDFu8, 0xFFu8],
            leading_ignore: vec![0x09u8, 0x0Au8, 0x0Cu8, 0x0Du8, 0x20u8],
            content_type: ("text".to_owned(), "html".to_owned()),
        };
        proof {
            assert(r@ =~= text_html_style_3e_spec());
        }
        r
    }

    /// title terminated with Tag Terminating (TT) Byte: 0x20 (SP)
    pub fn text_html_title_20() -> (r: ByteMatcher)
        ensures
            r@ == text_html_title_20_spec(),
            r@.wf(),
    {
        let r = ByteMatcher {
            pattern: vec![0x3Cu8, 0x54u8, 0x49u8, 0x54u8, 0x4Cu8, 0x45u8, 0x20u8],
            mask: vec![0xFFu8, 0xDFu8, 0xDFu8, 0xDFu8, 0xDFu8, 0xDFu8, 0xFFu8],
            leading_ignore: vec![0x09u8, 0x0Au8, 0x0Cu8, 0x0Du8, 0x20u8],
            content_type: ("text".to_owned(), "html".to_owned()),
        };
        proof {
            assert(r@ =~= text_html_title_20_spec());
        }
        r
    }

    /// title terminated with Tag Terminating (TT) Byte: 0x3E (">")
    pub fn text_html_title_3e() -> (r: ByteMatcher)
        ensures
            r@ == text_html_title_3e_spec(),
            r@.wf(),
    {
        let r = ByteMatcher {
            pattern: vec![0x3Cu8, 0x54u8, 0x49u8, 0x54u8, 0x4Cu8, 0x45u8, 0x3Eu8],
            mask: vec![0xFFu8, 0xDFu8, 0xDFu8, 0xDFu8, 0xDFu8, 0xDFu8, 0xFFu8],
            leading_ignore: vec![0x09u8, 0x0Au8, 0x0Cu8, 0x0Du8, 0x20u8],
            content_type: ("text".to_owned(), "html".to_owned()),
        };
        proof {
            assert(r@ =~= text_html_title_3e_spec());
        }
        r
    }

    /// b terminated with Tag Terminating (TT) Byte: 0x20 (SP)
    pub fn text_html_b_20() -> (r: ByteMatcher)
        ensures
            r@ == text_html_b_20_spec(),
            r@.wf(),
    {
        let r = ByteMatcher {
            pattern: vec![0x3Cu8, 0x42u8, 0x20u8],
            mask: vec![0xFFu8, 0xDFu8, 0xFFu8],
            leading_ignore: vec![0x09u8, 0x0Au8, 0x0Cu8, 0x0Du8, 0x20u8],
            content_type: ("text".to_owned(), "html".to_owned()),
        };
        proof {
            assert(r@ =~= text_html_b_20_spec());
        }
        r
    }

    /// b terminated with Tag Terminating (TT) Byte: 0x3E (">")
    pub fn text_html_b_3e() -> (r: ByteMatcher)
        ensures
            r@ == text_html_b_3e_spec(),
            r@.wf(),
    {
        let r = ByteMatcher {
            pattern: vec![0x3Cu8, 0x42u8, 0x3Eu8],
            mask: vec![0xFFu8, 0xDFu8, 0xFFu8],
            leading_ignore: vec![0x09u8, 0x0Au8, 0x0Cu8, 0x0Du8, 0x20u8],
            content_type: ("text".to_owned(), "html".to_owned()),
        };
        proof {
            assert(r@ =~= text_html_b_3e_spec());
        }
        r
    }

    /// body terminated with Tag Terminating (TT) Byte: 0x20 (SP)
    pub fn text_html_body_20() -> (r: ByteMatcher)
        ensures
            r@ == text_html_body_20_spec(),
            r@.wf(),
    {
        let r = ByteMatcher {
            pattern: vec![0x3Cu8, 0x42u8, 0x4Fu8, 0x44u8, 0x59u8, 0x20u8],
            mask: vec![0xFFu8, 0xDFu8, 0xDFu8, 0xDFu8, 0xDFu8, 0xFFu8],
            leading_ignore: vec![0x09u8, 0x0Au8, 0x0Cu8, 0x0Du8, 0x20u8],
            content_type: ("text".to_owned(), "html".to_owned()),
        };
        proof {
            assert(r@ =~= text_html_body_20_spec());
        }
        r
    }

    /// body terminated with Tag Terminating (TT) Byte: 0x3E (">")
    pub fn text_html_body_3e() -> (r: ByteMatcher)
        ensures
            r@ == text_html_body_3e_spec(),
            r@.wf(),
    {
        let r = ByteMatcher {
            pattern: vec![0x3Cu8, 0x42u8, 0x4Fu8, 0x44u8, 0x59u8, 0x3Eu8],
            mask: vec![0xFFu8, 0xDFu8, 0xDFu8, 0xDFu8, 0xDFu8, 0xFFu8],
            leading_ignore: vec![0x09u8, 0x0Au8, 0x0Cu8, 0x0Du8, 0x20u8],
            content_type: ("text".to_owned(), "html".to_owned()),
        };
        proof {
            assert(r@ =~= text_html_body_3e_spec());
        }
        r
    }

    /// br terminated with Tag Terminating (TT) Byte: 0x20 (SP)
    pub fn text_html_br_20() -> (r: ByteMatcher)
        ensures
            r@ == text_html_br_20_spec(),
            r@.wf(),
    {
        let r = ByteMatcher {
            pattern: vec![0x3Cu8, 0x42u8, 0x52u8, 0x20u8],
            mask: vec![0xFFu8, 0xDFu8, 0xDFu8, 0xFFu8],
            leading_ignore: vec![0x09u8, 0x0Au8, 0x0Cu8, 0x0Du8, 0x20u8],
            content_type: ("text".to_owned(), "html".to_owned()),
        };
        proof {
            assert(r@ =~= text_html_br_20_spec());
        }
        r
    }

    /// br terminated with Tag Terminating (TT) Byte: 0x3E (">")
    pub fn text_html_br_3e() -> (r: ByteMatcher)
        ensures
            r@ == text_html_br_3e_spec(),
            r@.wf(),
    {
        let r = ByteMatcher {
            pattern: vec![0x3Cu8, 0x42u8, 0x52u8, 0x3Eu8],
            mask: vec![0xFFu8, 0xDFu8, 0xDFu8, 0xFFu8],
            leading_ignore: vec![0x09u8, 0x0Au8, 0x0Cu8, 0x0Du8, 0x20u8],
            content_type: ("text".to_owned(), "html".to_owned()),
        };
        proof {
            assert(r@ =~= text_html_br_3e_spec());
        }
        r
    }

    /// p terminated with Tag Terminating (TT) Byte: 0x20 (SP)
    pub fn text_html_p_20() -> (r: ByteMatcher)
        ensures
            r@ == text_html_p_20_spec(),
            r@.wf(),
    {
        let r = ByteMatcher {
            pattern: vec![0x3Cu8, 0x50u8, 0x20u8],
            mask: vec![0xFFu8, 0xDFu8, 0xFFu8],
            leading_ignore: vec![0x09u8, 0x0Au8, 0x0Cu8, 0x0Du8, 0x20u8],
            content_type: ("text".to_owned(), "html".to_owned()),
        };
        proof {
            assert(r@ =~= text_html_p_20_spec());
        }
        r
    }

    /// p terminated with Tag Terminating (TT) Byte: 0x3E (">")
    pub fn text_html_p_3e() -> (r: ByteMatcher)
        ensures
            r@ == text_html_p_3e_spec(),
            r@.wf(),
    {
        let r = ByteMatcher {
            pattern: vec![0x3Cu8, 0x50u8, 0x3Eu8],
            mask: vec![0xFFu8, 0xDFu8, 0xFFu8],
            leading_ignore: vec![0x09u8, 0x0Au8, 0x0Cu8, 0x0Du8, 0x20u8],
            content_type: ("text".to_owned(), "html".to_owned()),
        };
        proof {
            assert(r@ =~= text_html_p_3e_spec());
        }
        r
    }

    /// comment terminated with Tag Terminating (TT) Byte: 0x20 (SP)
    pub fn text_html_comment_20() -> (r: ByteMatcher)
        ensures
            r@ == text_html_comment_20_spec(),
            r@.wf(),
    {
        let r = ByteMatcher {
            pattern: vec![0x3Cu8, 0x21u8, 0x2Du8, 0x2Du8, 0x20u8],
            mask: vec![0xFFu8, 0xFFu8, 0xFFu8, 0xFFu8, 0xFFu8],
            leading_ignore: vec![0x09u8, 0x0Au8, 0x0Cu8, 0x0Du8, 0x20u8],
            content_type: ("text".to_owned(), "html".to_owned()),
        };
        proof {
            assert(r@ =~= text_html_comment_20_spec());
        }
        r
    }

    /// comment terminated with Tag Terminating (TT) Byte: 0x3E (">")
    pub fn text_html_comment_3e() -> (r: ByteMatcher)
        ensures
            r@ == text_html_comment_3e_spec(),
            r@.wf(),
    {
        let r = ByteMatcher {
            pattern: vec![0x3Cu8, 0x21u8, 0x2Du8, 0x2Du8, 0x3Eu8],
            mask: vec![0xFFu8, 0xFFu8, 0xFFu8, 0xFFu8, 0xFFu8],
            leading_ignore: vec![0x09u8, 0x0Au8, 0x0Cu8, 0x0Du8, 0x20u8],
            content_type: ("text".to_owned(), "html".to_owned()),
        };
        proof {
            assert(r@ =~= text_html_comment_3e_spec());
        }
        r
    }

    /// The string "<?xml".
    pub fn text_xml() -> (r: ByteMatcher)
        ensures
            r@ == text_xml_spec(),
            r@.wf(),
    {
        let r = ByteMatcher {
            pattern: vec![0x3Cu8, 0x3Fu8, 0x78u8, 0x6Du8, 0x6Cu8],
            mask: vec![0xFFu8, 0xFFu8, 0xFFu8, 0xFFu8, 0xFFu8],
            leading_ignore: vec![0x09u8, 0x0Au8, 0x0Cu8, 0x0Du8, 0x20u8],
            content_type: ("text".to_owned(), "xml".to_owned()),
        };
        proof {
            assert(r@ =~= text_xml_spec());
        }
        r
    }

    /// The string "%PDF-", the PDF signature.
    pub fn application_pdf() -> (r: ByteMatcher)
        ensures
            r@ == application_pdf_spec(),
            r@.wf(),
    {
        let r = ByteMatcher {
            pattern: vec![0x25u8, 0x50u8, 0x44u8, 0x46u8, 0x2Du8],
            mask: vec![0xFFu8, 0xFFu8, 0xFFu8, 0xFFu8, 0xFFu8],
            leading_ignore: Vec::new(),
            content_type: ("application".to_owned(), "pdf".to_owned()),
        };
        proof {
            assert(r@ =~= application_pdf_spec());
        }
        r
    }

    /// 34 bytes followed by the string "LP", the Embedded OpenType signature.
    pub fn application_vnd_ms_font_object() -> (r: ByteMatcher)
        ensures
            r@ == application_vnd_ms_font_object_spec(),
            r@.wf(),
    {
        let r = ByteMatcher {
            pattern: vec![0x00u8, 0x00u8, 0x00u8, 0x00u8, 0x00u8, 0x00u8, 0x00u8, 0x00u8, 0x00u8, 0x00u8, 0x00u8, 0x00u8, 0x00u8, 0x00u8, 0x00u8, 0x00u8, 0x00u8, 0x00u8, 0x00u8, 0x00u8, 0x00u8, 0x00u8, 0x00u8, 0x00u8, 0x00u8, 0x00u8, 0x00u8, 0x00u8, 0x00u8, 0x00u8, 0x00u8, 0x00u8, 0x00u8, 0x00u8, 0x4Cu8, 0x50u8],
            mask: vec![0x00u8, 0x00u8, 0x00u8, 0x00u8, 0x00u8, 0x00u8, 0x00u8, 0x00u8, 0x00u8, 0x00u8, 0x00u8, 0x00u8, 0x00u8, 0x00u8, 0x00u8, 0x00u8, 0x00u8, 0x00u8, 0x00u8, 0x00u8, 0x00u8, 0x00u8, 0x00u8, 0x00u8, 0x00u8, 0x00u8, 0x00u8, 0x00u8, 0x00u8, 0x00u8, 0x00u8, 0x00u8, 0x00u8, 0x00u8, 0xFFu8, 0xFFu8],
            leading_ignore: Vec::new(),
            content_type: ("application".to_owned(), "vnd.ms-fontobject".to_owned()),
        };
        proof {
            assert(r@ =~= application_vnd_ms_font_object_spec());
        }
        r
    }

    /// 4 bytes representing the version number 1.0, a TrueType signature.
    pub fn true_type() -> (r: ByteMatcher)
        ensures
            r@ == true_type_spec(),
            r@.wf(),
    {
        let r = ByteMatcher {
            pattern: vec![0x00u8, 0x01u8, 0x00u8, 0x00u8],
            mask: vec![0xFFu8, 0xFFu8, 0xFFu8, 0xFFu8],
            leading_ignore: Vec::new(),
            content_type: ("(TrueType)".to_owned(), "".to_owned()),
        };
        proof {
            assert(r@ =~= true_type_spec());
        }
        r
    }

    /// The string "OTTO", the OpenType signature.
    pub fn open_type() -> (r: ByteMatcher)
        ensures
            r@ == open_type_spec(),
            r@.wf(),
    {
        let r = ByteMatcher {
            pattern: vec![0x4Fu8, 0x54u8, 0x54u8, 0x4Fu8],
            mask: vec![0xFFu8, 0xFFu8, 0xFFu8, 0xFFu8],
            leading_ignore: Vec::new(),
            content_type: ("(OpenType)".to_owned(), "".to_owned()),
        };
        proof {
            assert(r@ =~= open_type_spec());
        }
        r
    }

    /// The string "ttcf", the TrueType Collection signature.
    pub fn true_type_collection() -> (r: ByteMatcher)
        ensures
            r@ == true_type_collection_spec(),
            r@.wf(),
    {
        let r = ByteMatcher {
            pattern: vec![0x74u8, 0x74u8, 0x63u8, 0x66u8],
            mask: vec![0xFFu8, 0xFFu8, 0xFFu8, 0xFFu8],
            leading_ignore: Vec::new(),
            content_type: ("(TrueType Collection)".to_owned(), "".to_owned()),
        };
        proof {
            assert(r@ =~= true_type_collection_spec());
        }
        r
    }

    /// The string "wOFF", the Web Open Font Format signature.
    pub fn application_font_woff() -> (r: ByteMatcher)
        ensures
            r@ == application_font_woff_spec(),
            r@.wf(),
    {
        let r = ByteMatcher {
            pattern: vec![0x77u8, 0x4Fu8, 0x46u8, 0x46u8],
            mask: vec![0xFFu8, 0xFFu8, 0xFFu8, 0xFFu8],
            leading_ignore: Vec::new(),
            content_type: ("application".to_owned(), "font-woff".to_owned()),
        };
        proof {
            assert(r@ =~= application_font_woff_spec());
        }
        r
    }

    /// The GZIP archive signature.
    pub fn application_x_gzip() -> (r: ByteMatcher)
        ensures
            r@ == application_x_gzip_spec(),
            r@.wf(),
    {
        let r = ByteMatcher {
            pattern: vec![0x1Fu8, 0x8Bu8, 0x08u8],
            mask: vec![0xFFu8, 0xFFu8, 0xFFu8],
            leading_ignore: Vec::new(),
            content_type: ("application".to_owned(), "x-gzip".to_owned()),
        };
        proof {
            assert(r@ =~= application_x_gzip_spec());
        }
        r
    }

    /// The string "PK" followed by ETX EOT, the ZIP archive signature.
    pub fn application_zip() -> (r: ByteMatcher)
        ensures
            r@ == application_zip_spec(),
            r@.wf(),
    {
        let r = ByteMatcher {
            pattern: vec![0x50u8, 0x4Bu8, 0x03u8, 0x04u8],
            mask: vec![0xFFu8, 0xFFu8, 0xFFu8, 0xFFu8],
            leading_ignore: Vec::new(),
            content_type: ("application".to_owned(), "zip".to_owned()),
        };
        proof {
            assert(r@ =~= application_zip_spec());
        }
        r
    }

    /// The string "Rar " followed by SUB BEL NUL, the RAR archive signature.
    pub fn application_x_rar_compressed() -> (r: ByteMatcher)
        ensures
            r@ == application_x_rar_compressed_spec(),
            r@.wf(),
    {
        let r = ByteMatcher {
            pattern: vec![0x52u8, 0x61u8, 0x72u8, 0x20u8, 0x1Au8, 0x07u8, 0x00u8],
            mask: vec![0xFFu8, 0xFFu8, 0xFFu8, 0xFFu8, 0xFFu8, 0xFFu8, 0xFFu8],
            leading_ignore: Vec::new(),
            content_type: ("application".to_owned(), "x-rar-compressed".to_owned()),
        };
        proof {
            assert(r@ =~= application_x_rar_compressed_spec());
        }
        r
    }

    /// The string "%!PS-Adobe-", the PostScript signature.
    pub fn application_postscript() -> (r: ByteMatcher)
        ensures
            r@ == application_postscript_spec(),
            r@.wf(),
    {
        let r = ByteMatcher {
            pattern: vec![0x25u8, 0x21u8, 0x50u8, 0x53u8, 0x2Du8, 0x41u8, 0x64u8, 0x6Fu8, 0x62u8, 0x65u8, 0x2Du8],
            mask: vec![0xFFu8, 0xFFu8, 0xFFu8, 0xFFu8, 0xFFu8, 0xFFu8, 0xFFu8, 0xFFu8, 0xFFu8, 0xFFu8, 0xFFu8],
            leading_ignore: Vec::new(),
            content_type: ("application".to_owned(), "postscript".to_owned()),
        };
        proof {
            assert(r@ =~= application_postscript_spec());
        }
        r
    }

    /// UTF-16BE BOM
    pub fn text_plain_utf_16be_bom() -> (r: ByteMatcher)
        ensures
            r@ == text_plain_utf_16be_bom_spec(),
            r@.wf(),
    {
        let r = ByteMatcher {
            pattern: vec![0xFEu8, 0xFFu8, 0x00u8, 0x00u8],
            mask: vec![0xFFu8, 0xFFu8, 0x00u8, 0x00u8],
            leading_ignore: Vec::new(),
            content_type: ("text".to_owned(), "plain".to_owned()),
        };
        proof {
            assert(r@ =~= text_plain_utf_16be_bom_spec());
        }
        r
    }

    /// UTF-16LE BOM
    pub fn text_plain_utf_16le_bom() -> (r: ByteMatcher)
        ensures
            r@ == text_plain_utf_16le_bom_spec(),
            r@.wf(),
    {
        let r = ByteMatcher {
            pattern: vec![0xFFu8, 0xFEu8, 0x00u8, 0x00u8],
            mask: vec![0xFFu8, 0xFFu8, 0x00u8, 0x00u8],
            leading_ignore: Vec::new(),
            content_type: ("text".to_owned(), "plain".to_owned()),
        };
        proof {
            assert(r@ =~= text_plain_utf_16le_bom_spec());
        }
        r
    }

    /// UTF-8 BOM
    pub fn text_plain_utf_8_bom() -> (r: ByteMatcher)
        ensures
            r@ == text_plain_utf_8_bom_spec(),
            r@.wf(),
    {
        let r = ByteMatcher {
            pattern: vec![0xEFu8, 0xBBu8, 0xBFu8, 0x00u8],
            mask: vec![0xFFu8, 0xFFu8, 0xFFu8, 0x00u8],
            leading_ignore: Vec::new(),
            content_type: ("text".to_owned(), "plain".to_owned()),
        };
        proof {
            assert(r@ =~= text_plain_utf_8_bom_spec());
        }
        r
    }
}

} // verus!
