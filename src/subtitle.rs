use vstd::prelude::*;

verus! {

/// The styling tag that wraps a subtitle line.
#[derive(Clone, Copy, Debug, PartialEq, Eq, Structural)]
pub enum TagKind {
    /// No tag, or one this parser does not know: the text is taken as is.
    Unknown,
    Bold,
    Italic,
    Underline,
    Strikethrough,
}

/// A subtitle line and the tag around it.
#[derive(Debug)]
pub struct Tagged<'a> {
    pub kind: TagKind,
    pub content: &'a str,
}

/// Why a subtitle line was refused.
#[derive(Clone, Copy, Debug, PartialEq, Eq, Structural)]
pub enum SrtError {
    /// Text follows the closing tag.
    TrailingText,
}

/// The letter that names a tag: `i` in `<i>` and `</i>`.
pub open spec fn tag_letter(k: TagKind) -> char {
    match k {
        TagKind::Italic => 'i',
        TagKind::Bold => 'b',
        TagKind::Underline => 'u',
        TagKind::Strikethrough => 's',
        TagKind::Unknown => ' ',
    }
}

/// The tag that `s` opens with, if it opens with `<i>`, `<b>`, `<u>` or
/// `<s>`.
pub open spec fn opening_kind(s: Seq<char>) -> Option<TagKind> {
    if s.len() >= 3 && s[0] == '<' && s[2] == '>' {
        if s[1] == 'i' {
            Some(TagKind::Italic)
        } else if s[1] == 'b' {
            Some(TagKind::Bold)
        } else if s[1] == 'u' {
            Some(TagKind::Underline)
        } else if s[1] == 's' {
            Some(TagKind::Strikethrough)
        } else {
            None
        }
    } else {
        None
    }
}

pub open spec fn closing_tag(k: TagKind) -> Seq<char> {
    seq!['<', '/', tag_letter(k), '>']
}

/// The closing tag of `k` stands at position `p` of `s`.
pub open spec fn closes_at(s: Seq<char>, k: TagKind, p: int) -> bool {
    0 <= p && p + 4 <= s.len() && s.subrange(p, p + 4) == closing_tag(k)
}

/// `s` opens with tag `k` and holds its closing tag after the opening one.
pub open spec fn is_closed(s: Seq<char>, k: TagKind) -> bool {
    opening_kind(s) == Some(k) && exists|p: int| 3 <= p && #[trigger] closes_at(s, k, p)
}

/// The first closing tag after the opening one ends the line.
pub open spec fn closes_at_end(s: Seq<char>, k: TagKind) -> bool {
    &&& closes_at(s, k, s.len() - 4)
    &&& s.len() >= 7
    &&& forall|q: int| 3 <= q < s.len() - 4 ==> !#[trigger] closes_at(s, k, q)
}

/// Reads a subtitle line of the SubRip format: a line wrapped in one of
/// the tags `<i>`, `<b>`, `<u>`, `<s>` yields the tag and the text up to
/// the first closing tag, which must end the line; any other line is
/// plain text, taken whole.
pub fn parse_tagged<'a>(input: &'a str) -> (r: Result<Tagged<'a>, SrtError>)
    ensures
        match opening_kind(input@) {
            Some(k) if is_closed(input@, k) => {
                &&& r is Ok <==> closes_at_end(input@, k)
                &&& r is Err ==> r == Err::<Tagged<'a>, SrtError>(SrtError::TrailingText)
                &&& r matches Ok(t) ==> t.kind == k && t.content@ == input@.subrange(
                    3,
                    input@.len() - 4,
                )
            },
            _ => r matches Ok(t) && t.kind == TagKind::Unknown && t.content@ == input@,
        },
{
    let n = input.unicode_len();
    let mut kind = TagKind::Unknown;
    let mut letter = ' ';
    if n >= 3 && input.get_char(0) == '<' && input.get_char(2) == '>' {
        let c = input.get_char(1);
        if c == 'i' {
            kind = TagKind::Italic;
        } else if c == 'b' {
            kind = TagKind::Bold;
        } else if c == 'u' {
            kind = TagKind::Underline;
        } else if c == 's' {
            kind = TagKind::Strikethrough;
        }
        letter = c;
    }
    if kind == TagKind::Unknown {
        return Ok(Tagged { kind: TagKind::Unknown, content: input });
    }
    assert(opening_kind(input@) == Some(kind));
    assert(tag_letter(kind) == letter);
    let mut q: usize = 3;
    while n >= 4 && q <= n - 4
        invariant
            3 <= q <= n,
            n == input@.len(),
            opening_kind(input@) == Some(kind),
            kind != TagKind::Unknown,
            tag_letter(kind) == letter,
            forall|j: int| 3 <= j < q ==> !#[trigger] closes_at(input@, kind, j),
        decreases n - q,
    {
        if input.get_char(q) == '<' && input.get_char(q + 1) == '/' && input.get_char(q + 2)
            == letter && input.get_char(q + 3) == '>' {
            assert(input@.subrange(q as int, q + 4) =~= closing_tag(kind));
            assert(closes_at(input@, kind, q as int));
            if q + 4 == n {
                let content = input.substring_char(3, q);
                return Ok(Tagged { kind, content });
            } else {
                assert(!closes_at_end(input@, kind));
                return Err(SrtError::TrailingText);
            }
        }
        assert(!closes_at(input@, kind, q as int)) by {
            if closes_at(input@, kind, q as int) {
                let w = input@.subrange(q as int, q + 4);
                assert(w[0] == input@[q as int]);
                assert(w[1] == input@[q + 1]);
                assert(w[2] == input@[q + 2]);
                assert(w[3] == input@[q + 3]);
            }
        }
        q = q + 1;
    }
    assert(!is_closed(input@, kind)) by {
        if is_closed(input@, kind) {
            let p = choose|p: int| 3 <= p && #[trigger] closes_at(input@, kind, p);
            assert(p < q);
        }
    }
    Ok(Tagged { kind: TagKind::Unknown, content: input })
}


/// The tag a SubRip line is read with: that of a line wrapped in a known
/// tag and its closing tag, else `Unknown`.
pub open spec fn srt_tag(s: Seq<char>) -> TagKind {
    match opening_kind(s) {
        Some(k) => if is_closed(s, k) {
            k
        } else {
            TagKind::Unknown
        },
        None => TagKind::Unknown,
    }
}

/// The line is accepted: plain text, or a tagged line whose first closing
/// tag ends it.
pub open spec fn srt_accepts(s: Seq<char>) -> bool {
    srt_tag(s) == TagKind::Unknown || closes_at_end(s, srt_tag(s))
}

/// The text of an accepted line, without its tags.
pub open spec fn srt_text(s: Seq<char>) -> Seq<char> {
    if srt_tag(s) == TagKind::Unknown {
        s
    } else {
        s.subrange(3, s.len() - 4)
    }
}

/// Fade in and out of a subtitle, in milliseconds.
#[derive(Clone, Copy, Debug, PartialEq, Eq, Structural)]
pub struct FadeEffect {
    pub fade_in_ms: i64,
    pub fade_out_ms: i64,
}

impl FadeEffect {
    /// No fade at all.
    pub fn none() -> (r: FadeEffect)
        ensures
            r.fade_in_ms == 0 && r.fade_out_ms == 0,
    {
        FadeEffect { fade_in_ms: 0, fade_out_ms: 0 }
    }

    /// Whether there is no fade in and no fade out.
    pub fn is_zero(&self) -> (r: bool)
        ensures
            r == (self.fade_in_ms == 0 && self.fade_out_ms == 0),
    {
        self.fade_in_ms == 0 && self.fade_out_ms == 0
    }
}

/// Font size of a subtitle unless its format says otherwise.
pub const DEFAULT_FONT_SIZE: u32 = 36;

/// Format of the text of a subtitle stream.
#[derive(Clone, Copy, Debug, PartialEq, Eq, Structural)]
pub enum SubtitleCodec {
    /// SubRip: a line of text, optionally wrapped in one styling tag.
    SubRip,
    /// Any other format: the text is shown as it is.
    Other,
}

/// A subtitle to show: its text and styling, and when and for how long
/// to show it, in milliseconds.
#[derive(Debug)]
pub struct Subtitle {
    pub text: String,
    pub fade: FadeEffect,
    pub font_size: u32,
    pub bold: bool,
    pub italic: bool,
    pub underline: bool,
    pub strikethrough: bool,
    pub pts: i64,
    pub duration: i64,
}

impl Subtitle {
    /// Unstyled text shown at `pts` for `duration` milliseconds.
    pub fn plain(text: String, pts: i64, duration: i64) -> (r: Subtitle)
        ensures
            r.text@ == text@,
            r.fade.is_zero_spec(),
            r.font_size == DEFAULT_FONT_SIZE,
            !r.bold && !r.italic && !r.underline && !r.strikethrough,
            r.pts == pts && r.duration == duration,
    {
        Subtitle {
            text,
            fade: FadeEffect::none(),
            font_size: DEFAULT_FONT_SIZE,
            bold: false,
            italic: false,
            underline: false,
            strikethrough: false,
            pts,
            duration,
        }
    }

    /// The subtitle for a decoded subtitle text of format `codec`: a
    /// SubRip line that parses is styled by its tag, any other text is
    /// shown as it is.
    pub fn new(text: String, pts: i64, duration: i64, codec: SubtitleCodec) -> (r: Subtitle)
        ensures
            r.pts == pts && r.duration == duration,
            r.fade.is_zero_spec(),
            r.font_size == DEFAULT_FONT_SIZE,
            codec == SubtitleCodec::SubRip && srt_accepts(text@) ==> has_srt_style(r, text@),
            !(codec == SubtitleCodec::SubRip && srt_accepts(text@)) ==> {
                &&& r.text@ == text@
                &&& !r.bold && !r.italic && !r.underline && !r.strikethrough
            },
    {
        if codec == SubtitleCodec::SubRip {
            match parse_srt_subtitle(text.as_str()) {
                Ok(mut sub) => {
                    sub.pts = pts;
                    sub.duration = duration;
                    return sub;
                },
                Err(_) => {},
            }
        }
        Subtitle::plain(text, pts, duration)
    }
}

impl FadeEffect {
    pub open spec fn is_zero_spec(&self) -> bool {
        self.fade_in_ms == 0 && self.fade_out_ms == 0
    }
}

/// `sub` carries the text and tag of the SubRip line `s`.
pub open spec fn has_srt_style(sub: Subtitle, s: Seq<char>) -> bool {
    &&& sub.text@ == srt_text(s)
    &&& sub.bold == (srt_tag(s) == TagKind::Bold)
    &&& sub.italic == (srt_tag(s) == TagKind::Italic)
    &&& sub.underline == (srt_tag(s) == TagKind::Underline)
    &&& sub.strikethrough == (srt_tag(s) == TagKind::Strikethrough)
}

/// Reads one SubRip subtitle line into an unstyled-but-for-its-tag
/// subtitle at time zero.
pub fn parse_srt_subtitle(input: &str) -> (r: Result<Subtitle, SrtError>)
    ensures
        r is Ok <==> srt_accepts(input@),
        r is Err ==> r == Err::<Subtitle, SrtError>(SrtError::TrailingText),
        r matches Ok(sub) ==> {
            &&& has_srt_style(sub, input@)
            &&& sub.fade.is_zero_spec()
            &&& sub.font_size == DEFAULT_FONT_SIZE
            &&& sub.pts == 0 && sub.duration == 0
        },
{
    match parse_tagged(input) {
        Ok(t) => {
            let k = t.kind;
            Ok(Subtitle {
                text: t.content.to_owned(),
                fade: FadeEffect::none(),
                font_size: DEFAULT_FONT_SIZE,
                bold: k == TagKind::Bold,
                italic: k == TagKind::Italic,
                underline: k == TagKind::Underline,
                strikethrough: k == TagKind::Strikethrough,
                pts: 0,
                duration: 0,
            })
        },
        Err(e) => Err(e),
    }
}

} // verus!
