//! The analysed source text and the resolution of byte offsets to lines.
//!
//! Lines are resolved by `lang_c`, which follows the line markers that a
//! preprocessor leaves in its output (`# 12 "file.c" 1`). A [`Source`] is a
//! text on which that resolution cannot overflow: it is checked once, when
//! the `Source` is made.

use lang_c::loc::get_location_for_offset;
use vstd::prelude::*;
use vstd::string::*;
use vstd::utf8::*;

use crate::ast::Span;

verus! {

pub const NEWLINE: u8 = 0x0a;

pub const SPACE: u8 = 0x20;

pub const HASH: u8 = 0x23;

/// The longest number field of a line marker that a [`Source`] accepts, in
/// bytes. A field this short names a line below 1_000_000_000.
pub const MAX_NUMBER_WIDTH: usize = 9;

/// The line that `lang_c` reports for the byte at `offset` of `text`.
pub uninterp spec fn located_line(text: Seq<char>, offset: int) -> usize;

/// A line of the text begins at byte `i`.
pub open spec fn line_starts_at(bytes: Seq<u8>, i: int) -> bool {
    0 <= i < bytes.len() && (i == 0 || bytes[i - 1] == NEWLINE)
}

/// The line that begins at byte `i` opens like a line marker: `# `.
pub open spec fn marker_starts_at(bytes: Seq<u8>, i: int) -> bool {
    &&& line_starts_at(bytes, i)
    &&& i + 1 < bytes.len()
    &&& bytes[i] == HASH
    &&& bytes[i + 1] == SPACE
}

/// No byte of a marker's number field stands at `j`: the text or the line
/// ends there, or a space does.
pub open spec fn field_ends_at(bytes: Seq<u8>, j: int) -> bool {
    j >= bytes.len() || bytes[j] == SPACE || bytes[j] == NEWLINE
}

/// The number field of the marker at `i` is at most `MAX_NUMBER_WIDTH`
/// bytes long.
pub open spec fn number_field_is_short(bytes: Seq<u8>, i: int) -> bool {
    exists|j: int| i + 2 <= j <= i + 2 + MAX_NUMBER_WIDTH && #[trigger] field_ends_at(bytes, j)
}

/// Every line that opens like a line marker has a short number field.
pub open spec fn line_markers_bounded(bytes: Seq<u8>) -> bool {
    forall|i: int| #[trigger] marker_starts_at(bytes, i) ==> number_field_is_short(bytes, i)
}

/// The line of the byte at `offset`, for an offset inside the text or at its
/// end.
pub open spec fn line_at(text: Seq<char>, offset: int) -> Option<usize> {
    if 0 <= offset <= encode_utf8(text).len() {
        Some(located_line(text, offset))
    } else {
        None
    }
}

/// The characters between the byte offsets `start` and `end`, where both are
/// character boundaries of the text and in order.
pub open spec fn slice_at(text: Seq<char>, start: int, end: int) -> Option<Seq<char>> {
    let bytes = encode_utf8(text);
    if 0 <= start <= end <= bytes.len() && is_char_boundary(bytes, start) && is_char_boundary(
        bytes,
        end,
    ) {
        Some(decode_utf8(bytes.subrange(start, end)))
    } else {
        None
    }
}

/// A character boundary of a text is one of each prefix that reaches it.
proof fn lemma_boundary_in_prefix(bytes: Seq<u8>, start: int, end: int)
    requires
        valid_utf8(bytes),
        0 <= start <= end <= bytes.len(),
        is_char_boundary(bytes, start),
        is_char_boundary(bytes, end),
    ensures
        valid_utf8(bytes.subrange(0, end)),
        is_char_boundary(bytes.subrange(0, end), start),
{
    let head = bytes.subrange(0, end);
    valid_utf8_split(bytes, end);
    if start == end {
        is_char_boundary_start_end_of_seq(head);
    } else {
        is_char_boundary_iff_not_is_continuation_byte(bytes, start);
        is_char_boundary_iff_not_is_continuation_byte(head, start);
    }
}

/// Calls `lang_c::loc::get_location_for_offset` and keeps the line of the
/// location that it returns.
///
/// Nothing is proved of the result but that it is the same for the same text
/// and offset. The function splits the text at newlines up to `offset`; it
/// indexes past the end only for an offset beyond the text, and it adds one
/// to the line count per line, starting from 1 or from the number of the last
/// line marker. With the number fields bounded, the count stays below
/// 1_000_000_000 plus the number of lines, so the addition does not wrap.
#[verifier::external_body]
fn locate(text: &str, offset: usize) -> (line: usize)
    requires
        offset <= text.spec_bytes().len(),
        line_markers_bounded(text.spec_bytes()),
    ensures
        line == located_line(text@, offset as int),
{
    get_location_for_offset(text, offset).0.line
}

fn number_field_short(bytes: &[u8], i: usize) -> (r: bool)
    requires
        i + 1 < bytes@.len(),
    ensures
        r == number_field_is_short(bytes@, i as int),
{
    let n: usize = bytes.len();
    let mut j: usize = i + 2;
    let mut width: usize = 0;
    while width <= MAX_NUMBER_WIDTH
        invariant
            n == bytes@.len(),
            j == i + 2 + width,
            j <= n,
            width <= MAX_NUMBER_WIDTH + 1,
            forall|m: int| i + 2 <= m < j ==> !field_ends_at(bytes@, m),
        decreases MAX_NUMBER_WIDTH + 1 - width,
    {
        if j >= n || bytes[j] == SPACE || bytes[j] == NEWLINE {
            assert(field_ends_at(bytes@, j as int));
            return true;
        }
        j = j + 1;
        width = width + 1;
    }
    false
}

/// Whether every line marker of the text has a short number field.
pub fn markers_bounded(bytes: &[u8]) -> (r: bool)
    ensures
        r == line_markers_bounded(bytes@),
{
    let mut i: usize = 0;
    while i < bytes.len()
        invariant
            i <= bytes@.len(),
            forall|m: int|
                0 <= m < i && #[trigger] marker_starts_at(bytes@, m) ==> number_field_is_short(
                    bytes@,
                    m,
                ),
        decreases bytes@.len() - i,
    {
        if (i == 0 || bytes[i - 1] == NEWLINE) && i + 1 < bytes.len() && bytes[i] == HASH && bytes[i
            + 1] == SPACE {
            assert(marker_starts_at(bytes@, i as int));
            if !number_field_short(bytes, i) {
                return false;
            }
        } else {
            assert(!marker_starts_at(bytes@, i as int));
        }
        i = i + 1;
    }
    true
}

/// A source text whose offsets can be resolved to lines.
pub struct Source {
    text: String,
}

impl View for Source {
    type V = Seq<char>;

    closed spec fn view(&self) -> Seq<char> {
        self.text@
    }
}

impl Source {
    #[verifier::type_invariant]
    spec fn resolvable(self) -> bool {
        line_markers_bounded(encode_utf8(self.text@))
    }

    /// The text as bytes.
    pub open spec fn bytes(self) -> Seq<u8> {
        encode_utf8(self@)
    }

    /// Accepts a text unless one of its line markers has a number field of
    /// more than `MAX_NUMBER_WIDTH` bytes.
    pub fn new(text: String) -> (r: Option<Source>)
        ensures
            r is Some <==> line_markers_bounded(encode_utf8(text@)),
            r matches Some(s) ==> s@ == text@,
    {
        if markers_bounded(text.as_str().as_bytes()) {
            Some(Source { text })
        } else {
            None
        }
    }

    /// The text.
    pub fn as_str(&self) -> (s: &str)
        ensures
            s@ == self@,
    {
        self.text.as_str()
    }

    /// The length of the text in bytes.
    pub fn len(&self) -> (n: usize)
        ensures
            n == self.bytes().len(),
    {
        self.text.as_str().as_bytes().len()
    }

    /// The line of the byte at `offset`; `None` for an offset beyond the end
    /// of the text.
    pub fn line_of(&self, offset: usize) -> (line: Option<usize>)
        ensures
            line == line_at(self@, offset as int),
    {
        proof {
            use_type_invariant(self);
        }
        let text = self.text.as_str();
        if offset <= text.as_bytes().len() {
            Some(locate(text, offset))
        } else {
            None
        }
    }

    /// The part of the text that a span covers; `None` unless the span lies
    /// in the text, in order, between two character boundaries.
    pub fn slice(&self, span: Span) -> (part: Option<&str>)
        ensures
            match part {
                Some(p) => slice_at(self@, span.start as int, span.end as int) == Some(p@),
                None => slice_at(self@, span.start as int, span.end as int) is None,
            },
    {
        let text = self.text.as_str();
        if span.start <= span.end && span.end <= text.as_bytes().len() && text.is_char_boundary(
            span.start,
        )
            && text.is_char_boundary(span.end) {
            let (head, _) = text.split_at(span.end);
            proof {
                encode_utf8_valid_utf8(text@);
                lemma_boundary_in_prefix(text.spec_bytes(), span.start as int, span.end as int);
            }
            let (_, part) = head.split_at(span.start);
            proof {
                assert(part.spec_bytes() =~= text.spec_bytes().subrange(
                    span.start as int,
                    span.end as int,
                ));
                encode_utf8_decode_utf8(part@);
            }
            Some(part)
        } else {
            None
        }
    }
}

} // verus!
