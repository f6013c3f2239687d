use rvp::subtitle::{parse_srt_subtitle, parse_tagged, FadeEffect, SrtError, Subtitle, SubtitleCodec, TagKind};

#[test]
fn parse_unknown() {
    let input = "Some shit text here, idk what im doing\nsave me";
    let i = parse_srt_subtitle(input).unwrap();
    assert_eq!(i.text, input);
    assert_eq!(i.italic, false);
    assert_eq!(i.underline, false);
    assert_eq!(i.strikethrough, false);
    assert_eq!(i.bold, false);
}

#[test]
fn parse_italic() {
    let input = "<i>Some text goes here.</i>";
    let i = parse_srt_subtitle(input).unwrap();
    assert_eq!(i.text, "Some text goes here.");
    assert_eq!(i.italic, true);
    assert_eq!(i.underline, false);
    assert_eq!(i.strikethrough, false);
    assert_eq!(i.bold, false);
}

#[test]
fn parse_bold() {
    let input = "<b>123 Some text goes here.</b>";
    let i = parse_srt_subtitle(input).unwrap();
    assert_eq!(i.text, "123 Some text goes here.");
    assert_eq!(i.italic, false);
    assert_eq!(i.underline, false);
    assert_eq!(i.strikethrough, false);
    assert_eq!(i.bold, true);
}

#[test]
fn parse_underline() {
    let input = "<u>nom is really confusing</u>";
    let i = parse_srt_subtitle(input).unwrap();
    assert_eq!(i.text, "nom is really confusing");
    assert_eq!(i.italic, false);
    assert_eq!(i.underline, true);
    assert_eq!(i.strikethrough, false);
    assert_eq!(i.bold, false);
}

#[test]
fn parse_strikethrough() {
    let input = "<s></s>";
    let i = parse_srt_subtitle(input).unwrap();
    assert_eq!(i.text, "");
    assert_eq!(i.italic, false);
    assert_eq!(i.underline, false);
    assert_eq!(i.strikethrough, true);
    assert_eq!(i.bold, false);
}

#[test]
fn parse_extra_chars() {
    let input = "<s></s> Some other text here";
    assert!(parse_srt_subtitle(input).is_err())
}

#[test]
fn trailing_text_error_kind() {
    let r = parse_tagged("<b>a</b>b</b>");
    assert_eq!(r.unwrap_err(), SrtError::TrailingText);
}

#[test]
fn unclosed_tag_is_plain_text() {
    let t = parse_tagged("<i>never closed").unwrap();
    assert_eq!(t.kind, TagKind::Unknown);
    assert_eq!(t.content, "<i>never closed");
}

#[test]
fn unknown_tag_is_plain_text() {
    let t = parse_tagged("<x>odd</x>").unwrap();
    assert_eq!(t.kind, TagKind::Unknown);
    assert_eq!(t.content, "<x>odd</x>");
}

#[test]
fn empty_line_is_plain_text() {
    let t = parse_tagged("").unwrap();
    assert_eq!(t.kind, TagKind::Unknown);
    assert_eq!(t.content, "");
}

#[test]
fn non_ascii_content_is_kept() {
    let t = parse_tagged("<u>día ✓</u>").unwrap();
    assert_eq!(t.kind, TagKind::Underline);
    assert_eq!(t.content, "día ✓");
}

#[test]
fn subtitle_new_styles_subrip_only() {
    let s = Subtitle::new("<i>hi</i>".to_string(), 1500, 2000, SubtitleCodec::SubRip);
    assert_eq!(s.text, "hi");
    assert!(s.italic);
    assert_eq!(s.pts, 1500);
    assert_eq!(s.duration, 2000);
    let o = Subtitle::new("<i>hi</i>".to_string(), 10, 20, SubtitleCodec::Other);
    assert_eq!(o.text, "<i>hi</i>");
    assert!(!o.italic);
    let bad = Subtitle::new("<b>x</b>y".to_string(), 1, 2, SubtitleCodec::SubRip);
    assert_eq!(bad.text, "<b>x</b>y");
    assert!(!bad.bold);
    assert_eq!(bad.font_size, 36);
}

#[test]
fn fade_effect_zero() {
    assert!(FadeEffect::none().is_zero());
    assert!(!FadeEffect { fade_in_ms: 5, fade_out_ms: 0 }.is_zero());
}
