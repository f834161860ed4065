//! Line numbers for byte offsets.
use vstd::prelude::*;
use vstd::string::StringSliceAdditionalSpecFns;
use vstd::utf8::encode_utf8;

verus! {

/// The number of newline bytes among the first `offset` bytes of `text`.
pub open spec fn newlines_before(text: Seq<u8>, offset: int) -> nat
    decreases offset,
{
    if offset <= 0 || offset > text.len() {
        0
    } else {
        newlines_before(text, offset - 1) + if text[offset - 1] == 10u8 {
            1nat
        } else {
            0nat
        }
    }
}

/// No more newlines precede an offset than bytes do.
pub proof fn lemma_newlines_bounded(text: Seq<u8>, offset: int)
    ensures
        newlines_before(text, offset) <= if offset <= 0 { 0 } else { offset },
    decreases offset,
{
    if 0 < offset && offset <= text.len() {
        lemma_newlines_bounded(text, offset - 1);
    }
}

/// The 1-based line that holds the byte at offset `start` of `content`:
/// one more than the number of newlines that come strictly before it.
pub fn offset_to_line(content: &str, start: usize) -> (line: usize)
    requires
        start < encode_utf8(content@).len(),
    ensures
        line == 1 + newlines_before(encode_utf8(content@), start as int),
{
    let bytes = content.as_bytes();
    let mut line: usize = 1;
    let mut i: usize = 0;
    while i < start
        invariant
            i <= start < bytes@.len(),
            bytes@ == encode_utf8(content@),
            line == 1 + newlines_before(bytes@, i as int),
        decreases start - i,
    {
        proof {
            lemma_newlines_bounded(bytes@, i as int);
        }
        if bytes[i] == 10u8 {
            line = line + 1;
        }
        i = i + 1;
    }
    line
}

/// The line of a declaration that begins at `start`: 0 where it has no
/// place inside the text.
pub open spec fn line_at(content: Seq<char>, start: Option<usize>) -> nat {
    match start {
        Some(offset) => if offset < encode_utf8(content).len() {
            1 + newlines_before(encode_utf8(content), offset as int)
        } else {
            0
        },
        None => 0,
    }
}

/// The line of a declaration that begins at `start`.
pub fn line_of(content: &str, start: Option<usize>) -> (line: usize)
    ensures
        line == line_at(content@, start),
{
    match start {
        Some(offset) => if offset < content.as_bytes().len() {
            offset_to_line(content, offset)
        } else {
            0
        },
        None => 0,
    }
}

} // verus!
