//! The scanner: consumes a byte source in bounded-size chunks, decodes it as
//! UTF-8 and emits a sequence of discrete tokens.
//!
//! The scanner is chunk-boundary safe: a token whose construction spans chunk
//! boundaries (string literal, word, numeric run, comment) suspends, and the
//! pending handler resumes when more input arrives. The byte-level model below
//! makes that exact: scanning is a fold of [`scan_step`] over the input bytes,
//! so splitting the input into chunks of any size yields the same tokens
//! ([`lemma_scan_run_app`]).
//!
//! Classification is per byte: every byte at or above 128 counts as a word or
//! string-content byte, so a chunk boundary inside a multi-byte encoded
//! character merely leaves the partial encoding in the carry buffer. Payload
//! bytes are decoded once, when the token completes; a payload that is not a
//! valid UTF-8 encoding is rejected with [`ScanError::InvalidCharacter`].
//!
//! String literals are delimited by `"` on both ends and consumed verbatim,
//! with no escape processing. An embedded statement separator — newline or
//! `;` — is a hard lexical error, [`ScanError::UnexpectedEnd`].

use crate::token::{lemma_views_of_push, spec_match_lexem, views_of, Token, TokenView};
use vstd::prelude::*;
use vstd::utf8::{decode_utf8, valid_utf8};

verus! {

broadcast use {lemma_views_of_push, vstd::seq_lib::group_seq_lib_default};

/// A failure of the scanner.
#[derive(Debug, Clone, Copy, PartialEq, Eq, Structural)]
pub enum ScanError {
    /// A byte not recognized by any lexical rule.
    InvalidCharacter,
    /// Input exhausted while a multi-character token was incomplete.
    UnexpectedEnd,
}

/// True of the two statement separators, newline and `;`.
pub open spec fn is_line_delim_byte(b: u8) -> bool {
    b == 10 || b == 59
}

/// True of the whitespace bytes other than newline (which separates
/// statements instead).
pub open spec fn is_space_byte(b: u8) -> bool {
    b == 32 || b == 9 || b == 11 || b == 12 || b == 13
}

/// True of the decimal digit bytes.
pub open spec fn is_digit_byte(b: u8) -> bool {
    48 <= b <= 57
}

/// True of the ASCII punctuation bytes.
pub open spec fn is_ascii_punct_byte(b: u8) -> bool {
    ||| 33 <= b <= 47
    ||| 58 <= b <= 64
    ||| 91 <= b <= 96
    ||| 123 <= b <= 126
}

/// True of the bytes that may stand in a word run: anything that is not
/// whitespace, not a statement separator and not ASCII punctuation. In
/// particular every byte of a multi-byte encoded character is a word byte.
pub open spec fn is_word_byte(b: u8) -> bool {
    &&& !is_space_byte(b)
    &&& !is_line_delim_byte(b)
    &&& !is_ascii_punct_byte(b)
}

/// The scanner's resumable state: which token-class handler must resume when
/// more input arrives, together with the payload bytes carried so far.
pub enum ScanState {
    /// No handler pending; the next byte starts a fresh token.
    Start,
    /// Inside a line comment; bytes are discarded until a newline.
    InComment,
    /// An `=` was read; the next byte decides between `=` and `==`.
    AfterEqual,
    /// A `/` was read; the next byte decides between `/` and a comment.
    AfterSlash,
    /// Inside a string literal, carrying the content bytes read so far.
    InString(Seq<u8>),
    /// Inside a word run, carrying the bytes read so far.
    InWord(Seq<u8>),
    /// Inside a numeric run, carrying the bytes read so far and whether an
    /// embedded `.` has been consumed.
    InNumber(Seq<u8>, bool),
}

/// The token a completed word run denotes: a keyword marker when the decoded
/// text is a keyword spelling, an identifier otherwise. A payload that is not
/// valid UTF-8 is rejected.
pub open spec fn complete_word(acc: Seq<u8>) -> Result<TokenView, ScanError> {
    if !valid_utf8(acc) {
        Err(ScanError::InvalidCharacter)
    } else {
        match spec_match_lexem(decode_utf8(acc)) {
            Some(t) => Ok(t),
            None => Ok(TokenView::Ident(decode_utf8(acc))),
        }
    }
}

/// The token a completed numeric run denotes: a number literal carrying the
/// run's text.
pub open spec fn complete_number(acc: Seq<u8>) -> Result<TokenView, ScanError> {
    if !valid_utf8(acc) {
        Err(ScanError::InvalidCharacter)
    } else {
        Ok(TokenView::Number(decode_utf8(acc)))
    }
}

/// The token a completed string literal denotes: a string literal carrying
/// the decoded content between the quotes, verbatim. A payload that is not
/// valid UTF-8 is rejected.
pub open spec fn complete_string(acc: Seq<u8>) -> Result<TokenView, ScanError> {
    if !valid_utf8(acc) {
        Err(ScanError::InvalidCharacter)
    } else {
        Ok(TokenView::Str(decode_utf8(acc)))
    }
}

/// Single-byte dispatch from the idle state: classify the byte and either
/// emit a token, start a handler, or reject the byte.
pub open spec fn scan_step_start(b: u8) -> Result<(ScanState, Seq<TokenView>), ScanError> {
    if b == 40 {
        Ok((ScanState::Start, seq![TokenView::LeftParen]))
    } else if b == 41 {
        Ok((ScanState::Start, seq![TokenView::RightParen]))
    } else if b == 91 {
        Ok((ScanState::Start, seq![TokenView::LeftBrace]))
    } else if b == 93 {
        Ok((ScanState::Start, seq![TokenView::RightBrace]))
    } else if b == 42 {
        Ok((ScanState::Start, seq![TokenView::Star]))
    } else if b == 43 {
        Ok((ScanState::Start, seq![TokenView::Plus]))
    } else if b == 45 {
        Ok((ScanState::Start, seq![TokenView::Minus]))
    } else if b == 46 {
        Ok((ScanState::Start, seq![TokenView::Dot]))
    } else if b == 44 {
        Ok((ScanState::Start, seq![TokenView::Comma]))
    } else if b == 47 {
        Ok((ScanState::AfterSlash, seq![]))
    } else if b == 61 {
        Ok((ScanState::AfterEqual, seq![]))
    } else if b == 34 {
        Ok((ScanState::InString(seq![]), seq![]))
    } else if is_line_delim_byte(b) {
        Ok((ScanState::Start, seq![TokenView::LineDelim]))
    } else if is_space_byte(b) {
        Ok((ScanState::Start, seq![]))
    } else if is_digit_byte(b) {
        Ok((ScanState::InNumber(seq![b], false), seq![]))
    } else if is_word_byte(b) {
        Ok((ScanState::InWord(seq![b]), seq![]))
    } else {
        Err(ScanError::InvalidCharacter)
    }
}

/// One step of the scanner: the state after consuming one byte, with the
/// tokens that byte caused to be emitted, or the lexical error it exposed.
pub open spec fn scan_step(m: ScanState, b: u8) -> Result<(ScanState, Seq<TokenView>), ScanError> {
    match m {
        ScanState::Start => scan_step_start(b),
        ScanState::InComment => {
            if b == 10 {
                Ok((ScanState::Start, seq![TokenView::LineDelim]))
            } else {
                Ok((ScanState::InComment, seq![]))
            }
        },
        ScanState::AfterEqual => {
            if b == 61 {
                Ok((ScanState::Start, seq![TokenView::DoubleEqual]))
            } else {
                match scan_step_start(b) {
                    Err(e) => Err(e),
                    Ok((m2, ts)) => Ok((m2, seq![TokenView::Equal] + ts)),
                }
            }
        },
        ScanState::AfterSlash => {
            if b == 47 {
                Ok((ScanState::InComment, seq![]))
            } else {
                match scan_step_start(b) {
                    Err(e) => Err(e),
                    Ok((m2, ts)) => Ok((m2, seq![TokenView::Slash] + ts)),
                }
            }
        },
        ScanState::InString(acc) => {
            if b == 34 {
                match complete_string(acc) {
                    Err(e) => Err(e),
                    Ok(t) => Ok((ScanState::Start, seq![t])),
                }
            } else if is_line_delim_byte(b) {
                Err(ScanError::UnexpectedEnd)
            } else {
                Ok((ScanState::InString(acc.push(b)), seq![]))
            }
        },
        ScanState::InWord(acc) => {
            if is_word_byte(b) {
                Ok((ScanState::InWord(acc.push(b)), seq![]))
            } else {
                match complete_word(acc) {
                    Err(e) => Err(e),
                    Ok(t) => match scan_step_start(b) {
                        Err(e) => Err(e),
                        Ok((m2, ts)) => Ok((m2, seq![t] + ts)),
                    },
                }
            }
        },
        ScanState::InNumber(acc, seen_dot) => {
            if is_digit_byte(b) {
                Ok((ScanState::InNumber(acc.push(b), seen_dot), seq![]))
            } else if b == 46 && !seen_dot {
                Ok((ScanState::InNumber(acc.push(b), true), seq![]))
            } else {
                match complete_number(acc) {
                    Err(e) => Err(e),
                    Ok(t) => match scan_step_start(b) {
                        Err(e) => Err(e),
                        Ok((m2, ts)) => Ok((m2, seq![t] + ts)),
                    },
                }
            }
        },
    }
}

/// What a pending handler yields when the source is exhausted: words, numeric
/// runs, comments and a pending `=` or `/` complete; an open string literal
/// cannot, and fails with [`ScanError::UnexpectedEnd`].
pub open spec fn scan_finish(m: ScanState) -> Result<Seq<TokenView>, ScanError> {
    match m {
        ScanState::Start => Ok(seq![]),
        ScanState::InComment => Ok(seq![]),
        ScanState::AfterEqual => Ok(seq![TokenView::Equal]),
        ScanState::AfterSlash => Ok(seq![TokenView::Slash]),
        ScanState::InString(_) => Err(ScanError::UnexpectedEnd),
        ScanState::InWord(acc) => {
            match complete_word(acc) {
                Err(e) => Err(e),
                Ok(t) => Ok(seq![t]),
            }
        },
        ScanState::InNumber(acc, _) => {
            match complete_number(acc) {
                Err(e) => Err(e),
                Ok(t) => Ok(seq![t]),
            }
        },
    }
}

/// The scanner folded over a byte sequence: the state it ends in and every
/// token it emits on the way, or the first lexical error.
pub open spec fn scan_run(m: ScanState, input: Seq<u8>) -> Result<
    (ScanState, Seq<TokenView>),
    ScanError,
>
    decreases input.len(),
{
    if input.len() == 0 {
        Ok((m, seq![]))
    } else {
        match scan_step(m, input[0]) {
            Err(e) => Err(e),
            Ok((m2, ts)) => {
                match scan_run(m2, input.drop_first()) {
                    Err(e) => Err(e),
                    Ok((m3, ts2)) => Ok((m3, ts + ts2)),
                }
            },
        }
    }
}

/// The token sequence of a complete input: the fold over all bytes, the
/// pending handler invoked once more with no further input, and exactly one
/// end-of-stream marker appended.
pub open spec fn spec_scan(input: Seq<u8>) -> Result<Seq<TokenView>, ScanError> {
    match scan_run(ScanState::Start, input) {
        Err(e) => Err(e),
        Ok((m, ts)) => {
            match scan_finish(m) {
                Err(e) => Err(e),
                Ok(ts2) => Ok(ts + ts2 + seq![TokenView::EOF]),
            }
        },
    }
}

/// Scanning a concatenation is scanning the first part and then the second
/// from the state the first part ended in. This is what makes the scanner
/// chunk-boundary safe: a chunk boundary may fall anywhere, including inside
/// an encoded character or a multi-character token, without changing what is
/// emitted.
pub proof fn lemma_scan_run_app(m: ScanState, a: Seq<u8>, b: Seq<u8>)
    ensures
        scan_run(m, a + b) == match scan_run(m, a) {
            Err(e) => Err::<(ScanState, Seq<TokenView>), ScanError>(e),
            Ok((m1, ts)) => match scan_run(m1, b) {
                Err(e) => Err(e),
                Ok((m2, ts2)) => Ok((m2, ts + ts2)),
            },
        },
    decreases a.len(),
{
    if a.len() == 0 {
        assert(a + b =~= b);
        match scan_run(m, b) {
            Err(_) => {},
            Ok((m2, ts2)) => {
                assert(Seq::<TokenView>::empty() + ts2 =~= ts2);
            },
        }
    } else {
        assert((a + b)[0] == a[0]);
        assert((a + b).drop_first() =~= a.drop_first() + b);
        match scan_step(m, a[0]) {
            Err(_) => {},
            Ok((m2, ts0)) => {
                lemma_scan_run_app(m2, a.drop_first(), b);
                match scan_run(m2, a.drop_first()) {
                    Err(_) => {},
                    Ok((m3, ts1)) => {
                        match scan_run(m3, b) {
                            Err(_) => {},
                            Ok((m4, ts2)) => {
                                assert(ts0 + (ts1 + ts2) =~= (ts0 + ts1) + ts2);
                            },
                        }
                    },
                }
            },
        }
    }
}

/// Consuming one more byte extends the fold by one step.
pub proof fn lemma_scan_run_snoc(m: ScanState, s: Seq<u8>, b: u8)
    ensures
        scan_run(m, s + seq![b]) == match scan_run(m, s) {
            Err(e) => Err::<(ScanState, Seq<TokenView>), ScanError>(e),
            Ok((m1, ts)) => match scan_step(m1, b) {
                Err(e) => Err(e),
                Ok((m2, d)) => Ok((m2, ts + d)),
            },
        },
{
    lemma_scan_run_app(m, s, seq![b]);
    assert(seq![b].len() == 1);
    assert(seq![b][0] == b);
    match scan_run(m, s) {
        Err(_) => {},
        Ok((m1, ts)) => {
            assert(seq![b].drop_first().len() == 0);
            match scan_step(m1, b) {
                Err(e) => {
                    assert(scan_run(m1, seq![b]) == Err::<(ScanState, Seq<TokenView>), ScanError>(
                        e,
                    ));
                },
                Ok((m2, d)) => {
                    assert(scan_run(m2, seq![b].drop_first()) == Ok::<
                        (ScanState, Seq<TokenView>),
                        ScanError,
                    >((m2, seq![])));
                    assert(d + Seq::<TokenView>::empty() =~= d);
                    assert(scan_run(m1, seq![b]) == Ok::<(ScanState, Seq<TokenView>), ScanError>(
                        (m2, d),
                    ));
                },
            }
        },
    }
}

/// No step of the scanner emits an end-of-stream or skip marker: the one
/// end-of-stream token is appended at the end of the scan, and whitespace is
/// filtered at emission time rather than marked.
proof fn lemma_step_no_eof_no_skip(m: ScanState, b: u8)
    ensures
        scan_step(m, b) is Ok ==> forall|i: int|
            0 <= i < scan_step(m, b)->Ok_0.1.len() ==> !(#[trigger] scan_step(m, b)->Ok_0.1[i]
                is EOF) && !(scan_step(m, b)->Ok_0.1[i] is Skip),
{
}

/// No fold of the scanner over input bytes emits an end-of-stream or skip
/// marker.
proof fn lemma_run_no_eof_no_skip(m: ScanState, input: Seq<u8>)
    ensures
        scan_run(m, input) is Ok ==> forall|i: int|
            0 <= i < scan_run(m, input)->Ok_0.1.len() ==> !(#[trigger] scan_run(
                m,
                input,
            )->Ok_0.1[i] is EOF) && !(scan_run(m, input)->Ok_0.1[i] is Skip),
    decreases input.len(),
{
    if input.len() == 0 {
    } else {
        match scan_step(m, input[0]) {
            Err(_) => {},
            Ok((m2, ts)) => {
                lemma_step_no_eof_no_skip(m, input[0]);
                lemma_run_no_eof_no_skip(m2, input.drop_first());
            },
        }
    }
}

/// Terminal token invariant: every successful scan's output ends with
/// exactly one end-of-stream token, and no skip token ever appears in the
/// output, for any input including the empty input.
pub proof fn lemma_terminal_token(input: Seq<u8>)
    ensures
        spec_scan(input) is Ok ==> {
            let ts = spec_scan(input)->Ok_0;
            &&& ts.len() >= 1
            &&& ts[ts.len() - 1] is EOF
            &&& forall|i: int| 0 <= i < ts.len() - 1 ==> !(#[trigger] ts[i] is EOF)
            &&& forall|i: int| 0 <= i < ts.len() ==> !(#[trigger] ts[i] is Skip)
        },
{
    lemma_run_no_eof_no_skip(ScanState::Start, input);
    if spec_scan(input) is Ok {
        let (m, ts1) = scan_run(ScanState::Start, input)->Ok_0;
        let ts2 = scan_finish(m)->Ok_0;
        let ts = spec_scan(input)->Ok_0;
        assert(ts == ts1 + ts2 + seq![TokenView::EOF]);
        assert forall|i: int| 0 <= i < ts.len() - 1 implies !(#[trigger] ts[i] is EOF) && !(ts[i]
            is Skip) by {
            if i < ts1.len() {
                assert(ts[i] == ts1[i]);
            } else {
                assert(ts[i] == ts2[i - ts1.len()]);
            }
        }
        assert(ts[ts.len() - 1] is EOF);
    }
}

/// Inside a string literal every byte except the closing quote and the
/// statement separators is consumed verbatim into the carry buffer.
proof fn lemma_string_run(acc: Seq<u8>, content: Seq<u8>)
    requires
        forall|i: int|
            0 <= i < content.len() ==> #[trigger] content[i] != 34 && !is_line_delim_byte(
                content[i],
            ),
    ensures
        scan_run(ScanState::InString(acc), content) == Ok::<(ScanState, Seq<TokenView>), ScanError>(
            (ScanState::InString(acc + content), Seq::empty()),
        ),
    decreases content.len(),
{
    if content.len() == 0 {
        assert(acc + content =~= acc);
    } else {
        lemma_string_run(acc.push(content[0]), content.drop_first());
        assert(acc.push(content[0]) + content.drop_first() =~= acc + content);
        assert(Seq::<TokenView>::empty() + Seq::<TokenView>::empty() =~= Seq::<
            TokenView,
        >::empty());
    }
}

/// Round-trip literal fidelity: for any string literal content with no
/// embedded quote or statement separator, scanning `"<content>"` yields
/// exactly one string token whose payload is the decoded content, followed
/// by the end-of-stream marker.
pub proof fn lemma_string_round_trip(content: Seq<u8>)
    requires
        forall|i: int|
            0 <= i < content.len() ==> #[trigger] content[i] != 34 && !is_line_delim_byte(
                content[i],
            ),
        valid_utf8(content),
    ensures
        spec_scan(seq![34u8] + content + seq![34u8]) == Ok::<Seq<TokenView>, ScanError>(
            seq![TokenView::Str(decode_utf8(content)), TokenView::EOF],
        ),
{
    let input = seq![34u8] + content + seq![34u8];
    assert(scan_run(ScanState::Start, seq![34u8]) == Ok::<(ScanState, Seq<TokenView>), ScanError>(
        (ScanState::InString(Seq::empty()), Seq::empty()),
    )) by {
        reveal_with_fuel(scan_run, 2);
        assert(seq![34u8].len() == 1);
        assert(seq![34u8][0] == 34u8);
        assert(scan_step(ScanState::Start, 34u8) == Ok::<(ScanState, Seq<TokenView>), ScanError>(
            (ScanState::InString(Seq::empty()), Seq::empty()),
        ));
        assert(seq![34u8].drop_first().len() == 0);
        assert(Seq::<TokenView>::empty() + Seq::<TokenView>::empty() =~= Seq::<
            TokenView,
        >::empty());
    }
    lemma_scan_run_app(ScanState::Start, seq![34u8], content);
    lemma_string_run(Seq::empty(), content);
    assert(Seq::<u8>::empty() + content =~= content);
    lemma_scan_run_snoc(ScanState::Start, seq![34u8] + content, 34u8);
    assert((seq![34u8] + content) + seq![34u8] =~= input);
    assert(scan_step(ScanState::InString(content), 34u8) == Ok::<
        (ScanState, Seq<TokenView>),
        ScanError,
    >((ScanState::Start, seq![TokenView::Str(decode_utf8(content))])));
    assert(spec_scan(input)->Ok_0 =~= seq![TokenView::Str(decode_utf8(content)), TokenView::EOF]);
}

/// The UTF-8 encoding of text that avoids the quote and the statement
/// separators contains neither the quote byte nor a separator byte: an ASCII
/// character encodes to its own byte, and every byte of a multi-byte
/// encoding is at or above 128.
proof fn lemma_encode_avoids_bytes(text: Seq<char>)
    requires
        forall|i: int|
            0 <= i < text.len() ==> #[trigger] text[i] != '"' && text[i] != '\n' && text[i] != ';',
    ensures
        forall|i: int|
            0 <= i < vstd::utf8::encode_utf8(text).len() ==> #[trigger] vstd::utf8::encode_utf8(
                text,
            )[i] != 34 && !is_line_delim_byte(vstd::utf8::encode_utf8(text)[i]),
    decreases text.len(),
{
    if text.len() == 0 {
    } else {
        let c = text[0];
        let u = c as u32;
        vstd::utf8::char_is_scalar(c);
        let first = vstd::utf8::encode_scalar(u);
        assert(forall|j: int|
            0 <= j < first.len() ==> #[trigger] first[j] != 34 && first[j] != 10 && first[j]
                != 59) by {
            if vstd::utf8::has_width_1_encoding(u) {
                assert(u != 34 && u != 10 && u != 59) by {
                    assert('"' as u32 == 34 && '\n' as u32 == 10 && ';' as u32 == 59);
                    if u == 34 {
                        vstd::utf8::char_u32_cast(c, u);
                        vstd::utf8::char_u32_cast('"', 34);
                    }
                    if u == 10 {
                        vstd::utf8::char_u32_cast(c, u);
                        vstd::utf8::char_u32_cast('\n', 10);
                    }
                    if u == 59 {
                        vstd::utf8::char_u32_cast(c, u);
                        vstd::utf8::char_u32_cast(';', 59);
                    }
                }
                assert((u & 0x7F) as u8 != 34 && (u & 0x7F) as u8 != 10 && (u & 0x7F) as u8 != 59)
                    by (bit_vector)
                    requires
                        u <= 0x7F,
                        u != 34,
                        u != 10,
                        u != 59,
                ;
            } else {
                assert((0xC0u8 | (((u >> 6) & 0x1F) as u8)) >= 0xC0) by (bit_vector);
                assert((0xE0u8 | (((u >> 12) & 0x0F) as u8)) >= 0xC0) by (bit_vector);
                assert((0xF0u8 | (((u >> 18) & 0x7) as u8)) >= 0xC0) by (bit_vector);
                assert((0x80u8 | ((u & 0x3F) as u8)) >= 0x80) by (bit_vector);
                assert((0x80u8 | (((u >> 6) & 0x3F) as u8)) >= 0x80) by (bit_vector);
                assert((0x80u8 | (((u >> 12) & 0x3F) as u8)) >= 0x80) by (bit_vector);
            }
        }
        lemma_encode_avoids_bytes(text.drop_first());
        let rest = vstd::utf8::encode_utf8(text.drop_first());
        assert forall|i: int|
            0 <= i < vstd::utf8::encode_utf8(text).len() implies #[trigger] vstd::utf8::encode_utf8(
            text,
        )[i] != 34 && !is_line_delim_byte(vstd::utf8::encode_utf8(text)[i]) by {
            assert(vstd::utf8::encode_utf8(text) == first + rest);
            if i < first.len() {
                assert(vstd::utf8::encode_utf8(text)[i] == first[i]);
            } else {
                assert(vstd::utf8::encode_utf8(text)[i] == rest[i - first.len()]);
            }
        }
    }
}

/// Round-trip literal fidelity, stated over the literal's text: for any text
/// with no embedded quote or statement separator, scanning `"<text>"` yields
/// exactly one string token whose payload equals the text, followed by the
/// end-of-stream marker.
pub proof fn lemma_string_literal_fidelity(text: Seq<char>)
    requires
        forall|i: int|
            0 <= i < text.len() ==> #[trigger] text[i] != '"' && text[i] != '\n' && text[i] != ';',
    ensures
        spec_scan(seq![34u8] + vstd::utf8::encode_utf8(text) + seq![34u8]) == Ok::<
            Seq<TokenView>,
            ScanError,
        >(seq![TokenView::Str(text), TokenView::EOF]),
{
    lemma_encode_avoids_bytes(text);
    vstd::utf8::encode_utf8_valid_utf8(text);
    lemma_string_round_trip(vstd::utf8::encode_utf8(text));
    vstd::utf8::encode_utf8_decode_utf8(text);
}

/// Inside a word run every word byte is consumed verbatim into the carry
/// buffer.
proof fn lemma_word_run(acc: Seq<u8>, rest: Seq<u8>)
    requires
        forall|i: int| 0 <= i < rest.len() ==> is_word_byte(#[trigger] rest[i]),
    ensures
        scan_run(ScanState::InWord(acc), rest) == Ok::<(ScanState, Seq<TokenView>), ScanError>(
            (ScanState::InWord(acc + rest), Seq::empty()),
        ),
    decreases rest.len(),
{
    if rest.len() == 0 {
        assert(acc + rest =~= acc);
    } else {
        lemma_word_run(acc.push(rest[0]), rest.drop_first());
        assert(acc.push(rest[0]) + rest.drop_first() =~= acc + rest);
        assert(Seq::<TokenView>::empty() + Seq::<TokenView>::empty() =~= Seq::<
            TokenView,
        >::empty());
    }
}

/// Keyword vs identifier partition: a maximal word run scans to the
/// matching keyword marker exactly when its decoded text is one of the five
/// keyword spellings, and to an identifier carrying the decoded text
/// verbatim otherwise.
pub proof fn lemma_keyword_identifier_partition(word: Seq<u8>)
    requires
        word.len() > 0,
        forall|i: int| 0 <= i < word.len() ==> is_word_byte(#[trigger] word[i]),
        !is_digit_byte(word[0]),
        valid_utf8(word),
    ensures
        spec_scan(word) == (match spec_match_lexem(decode_utf8(word)) {
            Some(kw) => Ok::<Seq<TokenView>, ScanError>(seq![kw, TokenView::EOF]),
            None => Ok::<Seq<TokenView>, ScanError>(
                seq![TokenView::Ident(decode_utf8(word)), TokenView::EOF],
            ),
        }),
{
    assert(is_word_byte(word[0]));
    assert(scan_step(ScanState::Start, word[0]) == Ok::<(ScanState, Seq<TokenView>), ScanError>(
        (ScanState::InWord(seq![word[0]]), Seq::empty()),
    ));
    lemma_word_run(seq![word[0]], word.drop_first());
    assert(seq![word[0]] + word.drop_first() =~= word);
    assert(scan_run(ScanState::Start, word) == Ok::<(ScanState, Seq<TokenView>), ScanError>(
        (ScanState::InWord(word), Seq::empty()),
    )) by {
        assert(Seq::<TokenView>::empty() + Seq::<TokenView>::empty() =~= Seq::<
            TokenView,
        >::empty());
    }
    match spec_match_lexem(decode_utf8(word)) {
        Some(kw) => {
            assert(spec_scan(word)->Ok_0 =~= seq![kw, TokenView::EOF]);
        },
        None => {
            assert(spec_scan(word)->Ok_0 =~= seq![TokenView::Ident(decode_utf8(word)), TokenView::EOF]);
        },
    }
}

/// Every byte of the UTF-8 encoding of word text is a word byte: an ASCII
/// word character encodes to its own byte, and every byte of a multi-byte
/// encoding is at or above 128, beyond all ASCII punctuation and whitespace.
proof fn lemma_encode_word_bytes(text: Seq<char>)
    requires
        forall|i: int|
            0 <= i < text.len() ==> ((#[trigger] text[i]) as u32 >= 128 || is_word_byte(
                ((text[i] as u32) as u8),
            )),
    ensures
        forall|i: int|
            0 <= i < vstd::utf8::encode_utf8(text).len() ==> is_word_byte(
                #[trigger] vstd::utf8::encode_utf8(text)[i],
            ),
    decreases text.len(),
{
    if text.len() == 0 {
    } else {
        let c = text[0];
        let u = c as u32;
        vstd::utf8::char_is_scalar(c);
        let first = vstd::utf8::encode_scalar(u);
        assert(forall|j: int| 0 <= j < first.len() ==> is_word_byte(#[trigger] first[j])) by {
            if vstd::utf8::has_width_1_encoding(u) {
                assert(first =~= seq![vstd::utf8::leading_byte_width_1(u)]);
                assert(is_word_byte(u as u8));
                assert((u & 0x7F) as u8 == u as u8) by (bit_vector)
                    requires
                        u <= 0x7F,
                ;
            } else {
                assert((0xC0u8 | (((u >> 6) & 0x1F) as u8)) >= 0xC0) by (bit_vector);
                assert((0xE0u8 | (((u >> 12) & 0x0F) as u8)) >= 0xC0) by (bit_vector);
                assert((0xF0u8 | (((u >> 18) & 0x7) as u8)) >= 0xC0) by (bit_vector);
                assert((0x80u8 | ((u & 0x3F) as u8)) >= 0x80) by (bit_vector);
                assert((0x80u8 | (((u >> 6) & 0x3F) as u8)) >= 0x80) by (bit_vector);
                assert((0x80u8 | (((u >> 12) & 0x3F) as u8)) >= 0x80) by (bit_vector);
            }
        }
        lemma_encode_word_bytes(text.drop_first());
        let rest = vstd::utf8::encode_utf8(text.drop_first());
        assert forall|i: int|
            0 <= i < vstd::utf8::encode_utf8(text).len() implies is_word_byte(
            #[trigger] vstd::utf8::encode_utf8(text)[i],
        ) by {
            assert(vstd::utf8::encode_utf8(text) == first + rest);
            if i < first.len() {
                assert(vstd::utf8::encode_utf8(text)[i] == first[i]);
            } else {
                assert(vstd::utf8::encode_utf8(text)[i] == rest[i - first.len()]);
            }
        }
    }
}

/// Keyword vs identifier partition, stated over the word's text: scanning a
/// maximal word run yields the matching keyword marker exactly when the text
/// is one of the five keyword spellings, and an identifier carrying the text
/// verbatim otherwise.
pub proof fn lemma_word_text_partition(text: Seq<char>)
    requires
        text.len() > 0,
        forall|i: int|
            0 <= i < text.len() ==> ((#[trigger] text[i]) as u32 >= 128 || is_word_byte(
                ((text[i] as u32) as u8),
            )),
        !(48 <= text[0] as u32 <= 57),
    ensures
        spec_scan(vstd::utf8::encode_utf8(text)) == (match spec_match_lexem(text) {
            Some(kw) => Ok::<Seq<TokenView>, ScanError>(seq![kw, TokenView::EOF]),
            None => Ok::<Seq<TokenView>, ScanError>(
                seq![TokenView::Ident(text), TokenView::EOF],
            ),
        }),
{
    let bytes = vstd::utf8::encode_utf8(text);
    lemma_encode_word_bytes(text);
    vstd::utf8::encode_utf8_valid_utf8(text);
    vstd::utf8::encode_utf8_first_scalar(text);
    let c = text[0];
    let u = c as u32;
    vstd::utf8::char_is_scalar(c);
    assert(bytes == vstd::utf8::encode_scalar(u) + vstd::utf8::encode_utf8(text.drop_first()));
    assert(bytes.len() > 0);
    assert(bytes[0] == vstd::utf8::encode_scalar(u)[0]);
    assert(!is_digit_byte(bytes[0])) by {
        if vstd::utf8::has_width_1_encoding(u) {
            assert((u & 0x7F) as u8 == u as u8) by (bit_vector)
                requires
                    u <= 0x7F,
            ;
            assert(!(48 <= u as u8 <= 57)) by (bit_vector)
                requires
                    u <= 0x7F,
                    !(48 <= u <= 57),
            ;
        } else {
            assert((0xC0u8 | (((u >> 6) & 0x1F) as u8)) >= 0xC0) by (bit_vector);
            assert((0xE0u8 | (((u >> 12) & 0x0F) as u8)) >= 0xC0) by (bit_vector);
            assert((0xF0u8 | (((u >> 18) & 0x7) as u8)) >= 0xC0) by (bit_vector);
        }
    }
    lemma_keyword_identifier_partition(bytes);
    vstd::utf8::encode_utf8_decode_utf8(text);
}

/// Relies on `String::from_utf8`: it returns `Ok` exactly when the bytes are
/// a valid UTF-8 encoding, and the string it returns then decodes those bytes.
#[verifier::external_body]
fn bytes_to_string(bytes: &Vec<u8>) -> (r: Option<String>)
    ensures
        r is Some <==> valid_utf8(bytes@),
        r is Some ==> r->0@ == decode_utf8(bytes@),
{
    match String::from_utf8(bytes.clone()) {
        Ok(s) => Some(s),
        Err(_) => None,
    }
}

/// The token a completed word run denotes: the keyword marker when the text
/// is a keyword spelling, an identifier otherwise.
fn word_token(buf: &Vec<u8>) -> (r: Result<Token, ScanError>)
    ensures
        match complete_word(buf@) {
            Ok(tv) => r is Ok && r->Ok_0@ == tv,
            Err(e) => r == Err::<Token, ScanError>(e),
        },
{
    match bytes_to_string(buf) {
        None => Err(ScanError::InvalidCharacter),
        Some(s) => match Token::match_lexem(s.as_str()) {
            Some(t) => Ok(t),
            None => Ok(Token::Ident(s)),
        },
    }
}

/// The token a completed numeric run denotes.
fn number_token(buf: &Vec<u8>) -> (r: Result<Token, ScanError>)
    ensures
        match complete_number(buf@) {
            Ok(tv) => r is Ok && r->Ok_0@ == tv,
            Err(e) => r == Err::<Token, ScanError>(e),
        },
{
    match bytes_to_string(buf) {
        None => Err(ScanError::InvalidCharacter),
        Some(s) => Ok(Token::Number(s)),
    }
}

/// The token a completed string literal denotes.
fn string_token(buf: &Vec<u8>) -> (r: Result<Token, ScanError>)
    ensures
        match complete_string(buf@) {
            Ok(tv) => r is Ok && r->Ok_0@ == tv,
            Err(e) => r == Err::<Token, ScanError>(e),
        },
{
    match bytes_to_string(buf) {
        None => Err(ScanError::InvalidCharacter),
        Some(s) => Ok(Token::Str(s)),
    }
}

/// The pending-continuation marker: which token-class handler must resume
/// when more input arrives. The payload carried so far lives in the scanner's
/// carry buffer.
#[derive(Clone, Copy)]
enum Pending {
    Start,
    InComment,
    AfterEqual,
    AfterSlash,
    InString,
    InWord,
    InNumber,
}

/// The scanner. It owns a growing token list, a carry buffer of pending
/// partial token text, line and column counters, and the pending-continuation
/// marker; all of it lives for the duration of one scan.
pub struct Lexer {
    /// The tokens emitted so far, in strict input order.
    pub tokens: Vec<Token>,
    pending: Pending,
    buf: Vec<u8>,
    seen_dot: bool,
    line: u64,
    column: u64,
    consumed: Ghost<Seq<u8>>,
    done: Ghost<Seq<TokenView>>,
}

impl Lexer {
    /// The resumable state the scanner is in, as a value of the byte-level
    /// model.
    pub closed spec fn state(self) -> ScanState {
        match self.pending {
            Pending::Start => ScanState::Start,
            Pending::InComment => ScanState::InComment,
            Pending::AfterEqual => ScanState::AfterEqual,
            Pending::AfterSlash => ScanState::AfterSlash,
            Pending::InString => ScanState::InString(self.buf@),
            Pending::InWord => ScanState::InWord(self.buf@),
            Pending::InNumber => ScanState::InNumber(self.buf@, self.seen_dot),
        }
    }

    /// The bytes fed since the current scan began.
    pub closed spec fn fed(self) -> Seq<u8> {
        self.consumed@
    }

    /// The token values settled by scans already finished, including their
    /// end-of-stream markers.
    pub closed spec fn settled(self) -> Seq<TokenView> {
        self.done@
    }

    /// Well-formedness: the scanner's state and token list are exactly what
    /// the byte-level model says of the bytes fed so far.
    pub closed spec fn wf(self) -> bool {
        &&& scan_run(ScanState::Start, self.consumed@) is Ok
        &&& scan_run(ScanState::Start, self.consumed@)->Ok_0.0 == self.state()
        &&& views_of(self.tokens@) == self.done@ + scan_run(ScanState::Start, self.consumed@)->Ok_0.1
    }

    /// Ready to begin a scan: well formed, no handler pending, no bytes fed.
    pub closed spec fn ready(self) -> bool {
        &&& self.wf()
        &&& self.pending is Start
        &&& self.consumed@.len() == 0
    }

    /// The values of the tokens emitted so far, in emission order.
    pub closed spec fn token_views(self) -> Seq<TokenView> {
        views_of(self.tokens@)
    }

    /// Freshly created or reset: ready, with no tokens at all.
    pub closed spec fn is_fresh(self) -> bool {
        &&& self.ready()
        &&& self.tokens@.len() == 0
        &&& self.settled().len() == 0
    }

    /// A scanner with no tokens, no pending handler and fresh counters.
    pub fn new() -> (r: Lexer)
        ensures
            r.is_fresh(),
            r.wf(),
            r.ready(),
    {
        let r = Lexer {
            tokens: Vec::new(),
            pending: Pending::Start,
            buf: Vec::new(),
            seen_dot: false,
            line: 0,
            column: 0,
            consumed: Ghost(Seq::empty()),
            done: Ghost(Seq::empty()),
        };
        proof {
            assert(views_of(r.tokens@) =~= r.done@ + scan_run(
                ScanState::Start,
                r.consumed@,
            )->Ok_0.1);
        }
        r
    }

    /// Discards everything and returns the scanner to its fresh state.
    pub fn clear(&mut self)
        ensures
            final(self).is_fresh(),
            final(self).wf(),
            final(self).ready(),
    {
        self.reset();
    }

    /// Discards all state; the scanner is destroyed and born again.
    fn reset(&mut self)
        ensures
            final(self).is_fresh(),
            final(self).wf(),
            final(self).ready(),
    {
        self.tokens = Vec::new();
        self.pending = Pending::Start;
        self.buf = Vec::new();
        self.seen_dot = false;
        self.line = 0;
        self.column = 0;
        self.consumed = Ghost(Seq::empty());
        self.done = Ghost(Seq::empty());
        proof {
            assert(views_of(self.tokens@) =~= self.done@ + scan_run(
                ScanState::Start,
                self.consumed@,
            )->Ok_0.1);
        }
    }

    /// Appends one token to the output, touching nothing else.
    fn emit(&mut self, t: Token)
        ensures
            final(self).tokens@ == old(self).tokens@.push(t),
            final(self).pending == old(self).pending,
            final(self).buf == old(self).buf,
            final(self).seen_dot == old(self).seen_dot,
            final(self).line == old(self).line,
            final(self).column == old(self).column,
            final(self).consumed == old(self).consumed,
            final(self).done == old(self).done,
    {
        self.tokens.push(t);
    }
}

/// A committed scanner step stays well formed: when one byte moves the model
/// from the scanner's state to a new state with some emissions, and the
/// scanner records that byte, that state and those emissions, the
/// correspondence with the model is preserved.
proof fn lemma_step_commit(pre: Lexer, post: Lexer, b: u8)
    requires
        pre.wf(),
        scan_step(pre.state(), b) is Ok,
        post.state() == scan_step(pre.state(), b)->Ok_0.0,
        views_of(post.tokens@) == views_of(pre.tokens@) + scan_step(pre.state(), b)->Ok_0.1,
        post.consumed@ == pre.consumed@ + seq![b],
        post.done@ == pre.done@,
    ensures
        post.wf(),
{
    lemma_scan_run_snoc(ScanState::Start, pre.consumed@, b);
    assert(views_of(post.tokens@) =~= post.done@ + scan_run(
        ScanState::Start,
        post.consumed@,
    )->Ok_0.1);
}

/// True of the bytes that may stand in a word run.
fn byte_is_word(b: u8) -> (r: bool)
    ensures
        r == is_word_byte(b),
{
    let space = b == 32 || b == 9 || b == 11 || b == 12 || b == 13;
    let delim = b == 10 || b == 59;
    let punct = (33 <= b && b <= 47) || (58 <= b && b <= 64) || (91 <= b && b <= 96) || (123 <= b
        && b <= 126);
    !space && !delim && !punct
}

impl Lexer {
    /// Single-character dispatch from the idle state: emit a single-character
    /// token, start a multi-character handler, skip whitespace, or reject the
    /// byte. Records nothing about which bytes were fed; the caller commits
    /// the step.
    fn start_byte(&mut self, b: u8) -> (r: Result<(), ScanError>)
        ensures
            match scan_step_start(b) {
                Ok((m2, ts)) => {
                    &&& r is Ok
                    &&& final(self).state() == m2
                    &&& views_of(final(self).tokens@) == views_of(old(self).tokens@) + ts
                    &&& final(self).consumed == old(self).consumed
                    &&& final(self).done == old(self).done
                },
                Err(e) => r == Err::<(), ScanError>(e),
            },
    {
        if b == 40 {
            self.emit(Token::LeftParen);
            self.pending = Pending::Start;
            Ok(())
        } else if b == 41 {
            self.emit(Token::RightParen);
            self.pending = Pending::Start;
            Ok(())
        } else if b == 91 {
            self.emit(Token::LeftBrace);
            self.pending = Pending::Start;
            Ok(())
        } else if b == 93 {
            self.emit(Token::RightBrace);
            self.pending = Pending::Start;
            Ok(())
        } else if b == 42 {
            self.emit(Token::Star);
            self.pending = Pending::Start;
            Ok(())
        } else if b == 43 {
            self.emit(Token::Plus);
            self.pending = Pending::Start;
            Ok(())
        } else if b == 45 {
            self.emit(Token::Minus);
            self.pending = Pending::Start;
            Ok(())
        } else if b == 46 {
            self.emit(Token::Dot);
            self.pending = Pending::Start;
            Ok(())
        } else if b == 44 {
            self.emit(Token::Comma);
            self.pending = Pending::Start;
            Ok(())
        } else if b == 47 {
            self.pending = Pending::AfterSlash;
            Ok(())
        } else if b == 61 {
            self.pending = Pending::AfterEqual;
            Ok(())
        } else if b == 34 {
            self.pending = Pending::InString;
            self.buf = Vec::new();
            Ok(())
        } else if b == 10 || b == 59 {
            self.emit(Token::LineDelim);
            self.pending = Pending::Start;
            Ok(())
        } else if b == 32 || b == 9 || b == 11 || b == 12 || b == 13 {
            self.pending = Pending::Start;
            Ok(())
        } else if 48 <= b && b <= 57 {
            self.pending = Pending::InNumber;
            self.buf = Vec::new();
            self.buf.push(b);
            self.seen_dot = false;
            proof {
                assert(self.buf@ =~= seq![b]);
            }
            Ok(())
        } else if byte_is_word(b) {
            self.pending = Pending::InWord;
            self.buf = Vec::new();
            self.buf.push(b);
            proof {
                assert(self.buf@ =~= seq![b]);
            }
            Ok(())
        } else {
            Err(ScanError::InvalidCharacter)
        }
    }

    /// Consumes one byte: advances the line and column bookkeeping, steps the
    /// pending handler, and commits the byte to the record of what was fed.
    /// On a lexical error the scanner discards its state.
    fn step_byte(&mut self, b: u8) -> (r: Result<(), ScanError>)
        requires
            old(self).wf(),
        ensures
            match scan_step(old(self).state(), b) {
                Ok((m2, ts)) => {
                    &&& r is Ok
                    &&& final(self).wf()
                    &&& final(self).state() == m2
                    &&& final(self).consumed@ == old(self).consumed@ + seq![b]
                    &&& final(self).done@ == old(self).done@
                },
                Err(e) => r == Err::<(), ScanError>(e) && final(self).is_fresh(),
            },
    {
        let ghost pre = *self;
        if b == 10 || b == 59 {
            if self.line < u64::MAX {
                self.line = self.line + 1;
            }
            self.column = 0;
        } else {
            if self.column < u64::MAX {
                self.column = self.column + 1;
            }
        }
        let pend = self.pending;
        match pend {
            Pending::Start => {
                match self.start_byte(b) {
                    Err(e) => {
                        self.reset();
                        return Err(e);
                    },
                    Ok(()) => {},
                }
            },
            Pending::InComment => {
                if b == 10 {
                    self.emit(Token::LineDelim);
                    self.pending = Pending::Start;
                }
            },
            Pending::AfterEqual => {
                if b == 61 {
                    self.emit(Token::DoubleEqual);
                    self.pending = Pending::Start;
                } else {
                    self.emit(Token::Equal);
                    self.pending = Pending::Start;
                    match self.start_byte(b) {
                        Err(e) => {
                            self.reset();
                            return Err(e);
                        },
                        Ok(()) => {},
                    }
                }
            },
            Pending::AfterSlash => {
                if b == 47 {
                    self.pending = Pending::InComment;
                } else {
                    self.emit(Token::Slash);
                    self.pending = Pending::Start;
                    match self.start_byte(b) {
                        Err(e) => {
                            self.reset();
                            return Err(e);
                        },
                        Ok(()) => {},
                    }
                }
            },
            Pending::InString => {
                if b == 34 {
                    match string_token(&self.buf) {
                        Err(e) => {
                            self.reset();
                            return Err(e);
                        },
                        Ok(t) => {
                            self.emit(t);
                            self.pending = Pending::Start;
                            self.buf = Vec::new();
                        },
                    }
                } else if b == 10 || b == 59 {
                    self.reset();
                    return Err(ScanError::UnexpectedEnd);
                } else {
                    self.buf.push(b);
                }
            },
            Pending::InWord => {
                if byte_is_word(b) {
                    self.buf.push(b);
                } else {
                    match word_token(&self.buf) {
                        Err(e) => {
                            self.reset();
                            return Err(e);
                        },
                        Ok(t) => {
                            self.emit(t);
                            self.pending = Pending::Start;
                            self.buf = Vec::new();
                            match self.start_byte(b) {
                                Err(e) => {
                                    self.reset();
                                    return Err(e);
                                },
                                Ok(()) => {},
                            }
                        },
                    }
                }
            },
            Pending::InNumber => {
                if 48 <= b && b <= 57 {
                    self.buf.push(b);
                } else if b == 46 && !self.seen_dot {
                    self.buf.push(b);
                    self.seen_dot = true;
                } else {
                    match number_token(&self.buf) {
                        Err(e) => {
                            self.reset();
                            return Err(e);
                        },
                        Ok(t) => {
                            self.emit(t);
                            self.pending = Pending::Start;
                            self.buf = Vec::new();
                            match self.start_byte(b) {
                                Err(e) => {
                                    self.reset();
                                    return Err(e);
                                },
                                Ok(()) => {},
                            }
                        },
                    }
                }
            },
        }
        self.consumed = Ghost(pre.consumed@ + seq![b]);
        proof {
            assert forall|x: Seq<TokenView>, y: Seq<TokenView>, z: Seq<TokenView>| ((x + y) + z)
                == (x + (y + z)) by {
                assert((x + y) + z =~= x + (y + z));
            }
            lemma_step_commit(pre, *self, b);
        }
        Ok(())
    }

    /// Feeds the scanner one more chunk of the byte source. The chunk may end
    /// anywhere — inside an encoded character or a multi-character token —
    /// and the pending handler will resume with the next chunk. On a lexical
    /// error the error is returned and the scanner discards its state.
    #[verifier::loop_isolation(false)]
    pub fn push_chunk(&mut self, chunk: &[u8]) -> (r: Result<(), ScanError>)
        requires
            old(self).wf(),
        ensures
            match scan_run(ScanState::Start, old(self).fed() + chunk@) {
                Ok((m, ts)) => {
                    &&& r is Ok
                    &&& final(self).wf()
                    &&& final(self).fed() == old(self).fed() + chunk@
                    &&& final(self).settled() == old(self).settled()
                    &&& final(self).token_views() == old(self).settled() + ts
                },
                Err(e) => r == Err::<(), ScanError>(e) && final(self).is_fresh(),
            },
    {
        let ghost pre = *self;
        let mut i: usize = 0;
        while i < chunk.len()
            invariant
                pre.wf(),
                self.wf(),
                i <= chunk@.len(),
                self.consumed@ == pre.consumed@ + chunk@.take(i as int),
                self.done@ == pre.done@,
            decreases chunk@.len() - i,
        {
            let ghost mid = *self;
            let b = chunk[i];
            match self.step_byte(b) {
                Ok(()) => {},
                Err(e) => {
                    proof {
                        lemma_scan_run_snoc(ScanState::Start, mid.consumed@, b);
                        assert(scan_run(ScanState::Start, mid.consumed@ + seq![b]) == Err::<
                            (ScanState, Seq<TokenView>),
                            ScanError,
                        >(e));
                        assert(mid.consumed@ + seq![b] =~= pre.consumed@ + chunk@.take(
                            i as int + 1,
                        ));
                        assert(scan_run(
                            ScanState::Start,
                            pre.consumed@ + chunk@.take(i as int + 1),
                        ) == Err::<(ScanState, Seq<TokenView>), ScanError>(e));
                        lemma_scan_run_app(
                            ScanState::Start,
                            pre.consumed@ + chunk@.take(i as int + 1),
                            chunk@.skip(i as int + 1),
                        );
                        assert((pre.consumed@ + chunk@.take(i as int + 1)) + chunk@.skip(
                            i as int + 1,
                        ) =~= pre.consumed@ + chunk@);
                        assert(scan_run(ScanState::Start, pre.consumed@ + chunk@) == Err::<
                            (ScanState, Seq<TokenView>),
                            ScanError,
                        >(e));
                    }
                    return Err(e);
                },
            }
            proof {
                assert(self.consumed@ =~= pre.consumed@ + chunk@.take(i as int + 1));
            }
            i = i + 1;
        }
        proof {
            assert(chunk@.take(chunk@.len() as int) =~= chunk@);
        }
        Ok(())
    }

    /// Declares the byte source exhausted: the pending handler, if any, is
    /// invoked once more with no further input, and the end-of-stream marker
    /// is appended, exactly once, even for empty input. An open string
    /// literal fails with [`ScanError::UnexpectedEnd`], and the scanner then
    /// discards its state.
    #[verifier::rlimit(40)]
    pub fn finish(&mut self) -> (r: Result<(), ScanError>)
        requires
            old(self).wf(),
        ensures
            match spec_scan(old(self).fed()) {
                Ok(ts) => {
                    &&& r is Ok
                    &&& final(self).wf()
                    &&& final(self).ready()
                    &&& final(self).token_views() == old(self).settled() + ts
                    &&& final(self).settled() == old(self).settled() + ts
                    &&& final(self).fed().len() == 0
                },
                Err(e) => r == Err::<(), ScanError>(e) && final(self).is_fresh(),
            },
    {
        let ghost pre = *self;
        let pend = self.pending;
        match pend {
            Pending::Start => {},
            Pending::InComment => {
                self.pending = Pending::Start;
            },
            Pending::AfterEqual => {
                self.emit(Token::Equal);
                self.pending = Pending::Start;
            },
            Pending::AfterSlash => {
                self.emit(Token::Slash);
                self.pending = Pending::Start;
            },
            Pending::InString => {
                self.reset();
                return Err(ScanError::UnexpectedEnd);
            },
            Pending::InWord => {
                match word_token(&self.buf) {
                    Err(e) => {
                        self.reset();
                        return Err(e);
                    },
                    Ok(t) => {
                        self.emit(t);
                        self.pending = Pending::Start;
                        self.buf = Vec::new();
                    },
                }
            },
            Pending::InNumber => {
                match number_token(&self.buf) {
                    Err(e) => {
                        self.reset();
                        return Err(e);
                    },
                    Ok(t) => {
                        self.emit(t);
                        self.pending = Pending::Start;
                        self.buf = Vec::new();
                    },
                }
            },
        }
        self.emit(Token::EOF);
        proof {
            assert forall|x: Seq<TokenView>, y: Seq<TokenView>, z: Seq<TokenView>| ((x + y) + z)
                == (x + (y + z)) by {
                assert((x + y) + z =~= x + (y + z));
            }
        }
        self.consumed = Ghost(Seq::empty());
        self.done = Ghost(views_of(self.tokens@));
        proof {
            assert(views_of(self.tokens@) =~= self.done@ + scan_run(
                ScanState::Start,
                self.consumed@,
            )->Ok_0.1);
        }
        Ok(())
    }

    /// Scans a whole in-memory byte source: feeds it and then finishes. The
    /// emitted tokens are appended to the token list; the scanner is ready
    /// for another scan afterwards. On a lexical error the error is returned
    /// and the scanner discards its state.
    pub fn scan(&mut self, input: &[u8]) -> (r: Result<(), ScanError>)
        requires
            old(self).ready(),
        ensures
            match spec_scan(input@) {
                Ok(ts) => {
                    &&& r is Ok
                    &&& final(self).wf()
                    &&& final(self).ready()
                    &&& final(self).token_views() == old(self).token_views() + ts
                },
                Err(e) => r == Err::<(), ScanError>(e) && final(self).is_fresh(),
            },
    {
        let ghost pre = *self;
        proof {
            assert(pre.consumed@ + input@ =~= input@);
            assert(views_of(pre.tokens@) =~= pre.done@ + scan_run(
                ScanState::Start,
                pre.consumed@,
            )->Ok_0.1);
        }
        match self.push_chunk(input) {
            Err(e) => Err(e),
            Ok(()) => self.finish(),
        }
    }

    /// A fresh cursor over the emitted tokens, for one-token lookahead and
    /// consuming in order.
    pub fn into_iter(&self) -> (r: TokenStream<'_>)
        ensures
            r.wf(),
            r.remaining() == self.token_views(),
    {
        TokenStream::new(&self.tokens)
    }
}

/// A cursor over a token list: non-consuming lookahead with [`TokenStream::peek`]
/// and consume-and-return with [`TokenStream::next`].
pub struct TokenStream<'a> {
    tokens: &'a Vec<Token>,
    pos: usize,
}

impl<'a> TokenStream<'a> {
    /// The values of the tokens not yet consumed, in order.
    pub closed spec fn remaining(self) -> Seq<TokenView> {
        views_of(self.tokens@).skip(self.pos as int)
    }

    /// The cursor points into the token list.
    pub closed spec fn wf(self) -> bool {
        self.pos <= self.tokens@.len()
    }

    /// A cursor at the head of the given token list.
    pub fn new(tokens: &'a Vec<Token>) -> (r: TokenStream<'a>)
        ensures
            r.wf(),
            r.remaining() == views_of(tokens@),
    {
        let r = TokenStream { tokens, pos: 0 };
        proof {
            assert(views_of(tokens@).skip(0) =~= views_of(tokens@));
        }
        r
    }

    /// The next token, without consuming it; nothing when the stream is
    /// exhausted.
    pub fn peek(&self) -> (r: Option<&'a Token>)
        requires
            self.wf(),
        ensures
            r is Some <==> self.remaining().len() > 0,
            r is Some ==> r->0@ == self.remaining()[0],
    {
        if self.pos < self.tokens.len() {
            let toks: &'a Vec<Token> = self.tokens;
            Some(&toks[self.pos])
        } else {
            None
        }
    }

    /// Consumes and returns the next token; nothing when the stream is
    /// exhausted.
    pub fn next(&mut self) -> (r: Option<&'a Token>)
        requires
            old(self).wf(),
        ensures
            final(self).wf(),
            r is Some <==> old(self).remaining().len() > 0,
            r is Some ==> r->0@ == old(self).remaining()[0] && final(self).remaining() == old(
                self,
            ).remaining().drop_first(),
            r is None ==> final(self).remaining() == old(self).remaining(),
    {
        if self.pos < self.tokens.len() {
            let toks: &'a Vec<Token> = self.tokens;
            let t = &toks[self.pos];
            let ghost prior = self.pos as int;
            self.pos = self.pos + 1;
            proof {
                assert(views_of(self.tokens@).skip(self.pos as int) =~= views_of(
                    self.tokens@,
                ).skip(prior).drop_first());
            }
            Some(t)
        } else {
            None
        }
    }
}

} // verus!
