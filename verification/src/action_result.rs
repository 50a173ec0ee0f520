//! Parsing of per-action result records out of a completion element.
//!
//! The payload of a submission's completion is a sequence of fixed-size
//! result records, one per action, in action order: a simple record (an
//! error word), a length record, a handle record, or an inline record
//! whose length field is followed by that many inline bytes padded to an
//! eight-byte boundary.  Each parser consumes its record from the element
//! — also when the record reports an error — so the next record can be
//! read behind it.  A record that does not fit the remaining bytes, or
//! whose error word is outside the known set, marks a corrupted element
//! and is reported as a [`WireError`], never silently mapped.

use vstd::prelude::*;

use crate::handle::{Handle, NULL_DESCRIPTOR, THIS_UNIVERSE_DESCRIPTOR};
use crate::queue::QueueElement;
use crate::result::{CODE_NONE, Error, error_of_code, is_known_code};
use crate::wire::{read_le32, read_le64, spec_le32, spec_le64};

verus! {

/// Bytes of a simple result record: the error word and a reserved word.
pub const SIMPLE_RESULT_BYTES: u64 = 8;

/// Bytes of a length result record: error, reserved, a 64-bit length.
pub const LENGTH_RESULT_BYTES: u64 = 16;

/// Bytes of a handle result record: error, reserved, a descriptor word.
pub const HANDLE_RESULT_BYTES: u64 = 16;

/// Bytes of an inline result record before its inline bytes: error,
/// reserved, a 64-bit length.
pub const INLINE_RESULT_BYTES: u64 = 16;

/// A corrupted result stream.  Every variant marks a protocol violation.
#[derive(Debug, Clone, Copy, PartialEq, Eq, Structural)]
pub enum WireError {
    /// The record does not fit the bytes that remain in the element.
    Truncated,
    /// The record's error word lies outside the known code set.
    UnknownCode,
    /// An inline or buffer length does not fit the element or the platform.
    LengthOutOfBounds,
}

/// The kind of result record one action produces.
#[derive(Debug, Clone, Copy, PartialEq, Eq, Structural)]
pub enum ResultKind {
    /// An error word alone.
    Simple,
    /// An error word and a transferred length.
    Length,
    /// An error word and a pulled descriptor.
    Handle,
    /// An error word, a length, and that many inline bytes padded to eight.
    Inline,
}

/// One parsed result record.
#[derive(Debug)]
pub enum ParsedResult {
    /// Outcome of a simple record.
    Simple(Result<(), Error>),
    /// Outcome of a length record.
    Length(Result<usize, Error>),
    /// Outcome of a handle record: the pulled handle, or `None` when the
    /// record carries the null descriptor.
    Handle(Result<Option<Handle>, Error>),
    /// Outcome of an inline record: the inline bytes.
    Inline(Result<Vec<u8>, Error>),
}

/// The outcome a known error word denotes.
pub open spec fn spec_check(code: u32) -> Result<(), Error>
    recommends
        is_known_code(code),
{
    if code == CODE_NONE {
        Ok(())
    } else {
        Err(error_of_code(code))
    }
}

/// `x` rounded up to the next multiple of eight.
pub open spec fn spec_pad8(x: int) -> int {
    ((x + 7) / 8) * 8
}

/// The view of one parsed record, next to the offset where the following
/// record starts.
pub enum SpecParsed {
    /// Outcome of a simple record.
    Simple(Result<(), Error>),
    /// Outcome of a length record.
    Length(Result<int, Error>),
    /// Outcome of a handle record, as the raw descriptor word.
    Handle(Result<i64, Error>),
    /// Outcome of an inline record, as the inline byte sequence.
    Inline(Result<Seq<u8>, Error>),
}

/// Parses one record of the given kind at `offset` of `data`: the record's
/// outcome and the offset behind it, or the wire error that makes the
/// stream unusable.
pub open spec fn spec_parse_one(kind: ResultKind, data: Seq<u8>, offset: int) -> Result<
    (SpecParsed, int),
    WireError,
> {
    match kind {
        ResultKind::Simple => {
            if offset + SIMPLE_RESULT_BYTES > data.len() {
                Err(WireError::Truncated)
            } else {
                let code = spec_le32(data, offset);
                if !is_known_code(code) {
                    Err(WireError::UnknownCode)
                } else {
                    Ok((SpecParsed::Simple(spec_check(code)), offset + SIMPLE_RESULT_BYTES))
                }
            }
        },
        ResultKind::Length => {
            if offset + LENGTH_RESULT_BYTES > data.len() {
                Err(WireError::Truncated)
            } else {
                let code = spec_le32(data, offset);
                let length = spec_le64(data, offset + 8);
                if !is_known_code(code) {
                    Err(WireError::UnknownCode)
                } else if code == CODE_NONE && length > usize::MAX {
                    Err(WireError::LengthOutOfBounds)
                } else {
                    Ok(
                        (
                            SpecParsed::Length(
                                if code == CODE_NONE {
                                    Ok(length as int)
                                } else {
                                    Err(error_of_code(code))
                                },
                            ),
                            offset + LENGTH_RESULT_BYTES,
                        ),
                    )
                }
            }
        },
        ResultKind::Handle => {
            if offset + HANDLE_RESULT_BYTES > data.len() {
                Err(WireError::Truncated)
            } else {
                let code = spec_le32(data, offset);
                let word = spec_le64(data, offset + 8) as i64;
                if !is_known_code(code) {
                    Err(WireError::UnknownCode)
                } else {
                    Ok(
                        (
                            SpecParsed::Handle(
                                if code == CODE_NONE {
                                    Ok(word)
                                } else {
                                    Err(error_of_code(code))
                                },
                            ),
                            offset + HANDLE_RESULT_BYTES,
                        ),
                    )
                }
            }
        },
        ResultKind::Inline => {
            if offset + INLINE_RESULT_BYTES > data.len() {
                Err(WireError::Truncated)
            } else {
                let code = spec_le32(data, offset);
                let length = spec_le64(data, offset + 8);
                if !is_known_code(code) {
                    Err(WireError::UnknownCode)
                } else if offset + INLINE_RESULT_BYTES + spec_pad8(length as int) > data.len() {
                    Err(WireError::LengthOutOfBounds)
                } else {
                    Ok(
                        (
                            SpecParsed::Inline(
                                if code == CODE_NONE {
                                    Ok(
                                        data.subrange(
                                            offset + INLINE_RESULT_BYTES,
                                            offset + INLINE_RESULT_BYTES + length,
                                        ),
                                    )
                                } else {
                                    Err(error_of_code(code))
                                },
                            ),
                            offset + INLINE_RESULT_BYTES + spec_pad8(length as int),
                        ),
                    )
                }
            }
        },
    }
}

/// The view an exec-level parsed record denotes.
pub open spec fn spec_of_parsed(p: ParsedResult) -> SpecParsed {
    match p {
        ParsedResult::Simple(r) => SpecParsed::Simple(r),
        ParsedResult::Length(r) => SpecParsed::Length(
            match r {
                Ok(n) => Ok(n as int),
                Err(e) => Err(e),
            },
        ),
        ParsedResult::Handle(r) => SpecParsed::Handle(
            match r {
                Ok(Some(h)) => Ok(h.descriptor),
                Ok(None) => Ok(NULL_DESCRIPTOR),
                Err(e) => Err(e),
            },
        ),
        ParsedResult::Inline(r) => SpecParsed::Inline(
            match r {
                Ok(bytes) => Ok(bytes@),
                Err(e) => Err(e),
            },
        ),
    }
}

/// A marker for the record an action that expects no payload produces.
pub struct SimpleResult;

/// A marker for the record a buffer receive produces.
pub struct LengthResult;

/// A marker for the record a descriptor pull or an offer produces.
pub struct HandleResult;

/// A marker for the record an inline receive produces.
pub struct InlineResult;

impl SimpleResult {
    /// Parses a simple result record at the element's current offset and
    /// consumes it.
    pub fn from_queue_element(element: &mut QueueElement) -> (r: Result<
        Result<(), Error>,
        WireError,
    >)
        requires
            old(element).offset <= old(element).data@.len(),
        ensures
            final(element).data == old(element).data,
            final(element).context == old(element).context,
            final(element).chunk_index == old(element).chunk_index,
            match spec_parse_one(
                ResultKind::Simple,
                old(element).data@,
                old(element).offset as int,
            ) {
                Ok((p, end)) => r matches Ok(inner) && SpecParsed::Simple(inner) == p && final(element).offset == end,
                Err(w) => r == Err::<Result<(), Error>, WireError>(w) && *final(element) == *old(element),
            },
    {
        if element.remaining() < 8 {
            return Err(WireError::Truncated);
        }
        let n = element.data.len();
        let code = read_le32(element.data.as_slice(), element.offset);
        match crate::result::classify_code(code) {
            crate::result::CodeClass::Success => {
                element.advance(8);
                Ok(Ok(()))
            },
            crate::result::CodeClass::Failure(e) => {
                element.advance(8);
                Ok(Err(e))
            },
            crate::result::CodeClass::Unknown(_) => Err(WireError::UnknownCode),
        }
    }
}

impl LengthResult {
    /// Parses a length result record at the element's current offset and
    /// consumes it.
    pub fn from_queue_element(element: &mut QueueElement) -> (r: Result<
        Result<usize, Error>,
        WireError,
    >)
        requires
            old(element).offset <= old(element).data@.len(),
        ensures
            final(element).data == old(element).data,
            final(element).context == old(element).context,
            final(element).chunk_index == old(element).chunk_index,
            match spec_parse_one(
                ResultKind::Length,
                old(element).data@,
                old(element).offset as int,
            ) {
                Ok((p, end)) => r matches Ok(inner) && spec_of_parsed(ParsedResult::Length(inner))
                    == p && final(element).offset == end,
                Err(w) => r == Err::<Result<usize, Error>, WireError>(w) && *final(element)
                    == *old(element),
            },
    {
        if element.remaining() < 16 {
            return Err(WireError::Truncated);
        }
        let n = element.data.len();
        let code = read_le32(element.data.as_slice(), element.offset);
        let length = read_le64(element.data.as_slice(), element.offset + 8);
        match crate::result::classify_code(code) {
            crate::result::CodeClass::Success => {
                if length > usize::MAX as u64 {
                    return Err(WireError::LengthOutOfBounds);
                }
                element.advance(16);
                Ok(Ok(length as usize))
            },
            crate::result::CodeClass::Failure(e) => {
                element.advance(16);
                Ok(Err(e))
            },
            crate::result::CodeClass::Unknown(_) => Err(WireError::UnknownCode),
        }
    }
}

impl HandleResult {
    /// Parses a handle result record at the element's current offset and
    /// consumes it.  A null descriptor word parses to `None`; any other is
    /// adopted as an owned handle of the calling universe.
    pub fn from_queue_element(element: &mut QueueElement) -> (r: Result<
        Result<Option<Handle>, Error>,
        WireError,
    >)
        requires
            old(element).offset <= old(element).data@.len(),
        ensures
            final(element).data == old(element).data,
            final(element).context == old(element).context,
            final(element).chunk_index == old(element).chunk_index,
            match spec_parse_one(
                ResultKind::Handle,
                old(element).data@,
                old(element).offset as int,
            ) {
                Ok((p, end)) => r matches Ok(inner) && spec_of_parsed(ParsedResult::Handle(inner))
                    == p && final(element).offset == end,
                Err(w) => r == Err::<Result<Option<Handle>, Error>, WireError>(w) && *final(element) == *old(element),
            },
            r matches Ok(Ok(Some(h))) ==> h.descriptor != NULL_DESCRIPTOR && h.universe
                == THIS_UNIVERSE_DESCRIPTOR,
    {
        if element.remaining() < 16 {
            return Err(WireError::Truncated);
        }
        let n = element.data.len();
        let code = read_le32(element.data.as_slice(), element.offset);
        let word = read_le64(element.data.as_slice(), element.offset + 8) as i64;
        match crate::result::classify_code(code) {
            crate::result::CodeClass::Success => {
                element.advance(16);
                if word != NULL_DESCRIPTOR {
                    Ok(Ok(Some(Handle::from_raw(word))))
                } else {
                    Ok(Ok(None))
                }
            },
            crate::result::CodeClass::Failure(e) => {
                element.advance(16);
                Ok(Err(e))
            },
            crate::result::CodeClass::Unknown(_) => Err(WireError::UnknownCode),
        }
    }
}

impl InlineResult {
    /// Parses an inline result record at the element's current offset and
    /// consumes it together with its padded inline bytes.
    pub fn from_queue_element(element: &mut QueueElement) -> (r: Result<
        Result<Vec<u8>, Error>,
        WireError,
    >)
        requires
            old(element).offset <= old(element).data@.len(),
        ensures
            final(element).data == old(element).data,
            final(element).context == old(element).context,
            final(element).chunk_index == old(element).chunk_index,
            match spec_parse_one(
                ResultKind::Inline,
                old(element).data@,
                old(element).offset as int,
            ) {
                Ok((p, end)) => r matches Ok(inner) && spec_of_parsed(ParsedResult::Inline(inner))
                    == p && final(element).offset == end,
                Err(w) => r == Err::<Result<Vec<u8>, Error>, WireError>(w) && *final(element)
                    == *old(element),
            },
    {
        if element.remaining() < 16 {
            return Err(WireError::Truncated);
        }
        let n = element.data.len();
        let code = read_le32(element.data.as_slice(), element.offset);
        let length = read_le64(element.data.as_slice(), element.offset + 8);
        match crate::result::classify_code(code) {
            crate::result::CodeClass::Unknown(_) => Err(WireError::UnknownCode),
            cls => {
                // the remaining bytes bound the length, so the padded size
                // stays within the machine's range
                let rem: usize = element.remaining();
                if length > rem as u64 - 16 {
                    proof {
                        lemma_pad8_bounds(length as int);
                    }
                    return Err(WireError::LengthOutOfBounds);
                }
                let padded: u64 = (length + 7) / 8 * 8;
                proof {
                    lemma_pad8_bounds(length as int);
                }
                if padded > rem as u64 - 16 {
                    return Err(WireError::LengthOutOfBounds);
                }
                let start: usize = element.offset + 16;
                let len_usize: usize = length as usize;
                let mut bytes: Vec<u8> = Vec::new();
                let mut i: usize = 0;
                while i < len_usize
                    invariant
                        i <= len_usize,
                        n == element.data@.len(),
                        start + len_usize <= n,
                        bytes@ =~= element.data@.subrange(start as int, start + i),
                    decreases len_usize - i,
                {
                    let b = element.data[start + i];
                    bytes.push(b);
                    proof {
                        assert(bytes@ =~= element.data@.subrange(start as int, start + i + 1));
                    }
                    i = i + 1;
                }
                element.advance(16 + padded as usize);
                match cls {
                    crate::result::CodeClass::Success => Ok(Ok(bytes)),
                    crate::result::CodeClass::Failure(e) => Ok(Err(e)),
                    crate::result::CodeClass::Unknown(_) => Err(WireError::UnknownCode),
                }
            },
        }
    }
}

/// Padding to eight bytes adds at most seven.
proof fn lemma_pad8_bounds(x: int)
    requires
        0 <= x,
    ensures
        x <= spec_pad8(x) < x + 8,
        spec_pad8(x) == ((x + 7) / 8) * 8,
{
    vstd::arithmetic::div_mod::lemma_fundamental_div_mod(x + 7, 8);
    vstd::arithmetic::div_mod::lemma_mod_bound(x + 7, 8);
}

/// Parses records of the given kinds in order at `offset` of `data`: all
/// their outcomes and the offset behind the last, or the first wire error.
pub open spec fn spec_parse_seq(kinds: Seq<ResultKind>, data: Seq<u8>, offset: int) -> Result<
    (Seq<SpecParsed>, int),
    WireError,
>
    decreases kinds.len(),
{
    if kinds.len() == 0 {
        Ok((Seq::empty(), offset))
    } else {
        match spec_parse_one(kinds[0], data, offset) {
            Err(w) => Err(w),
            Ok((p, mid)) => match spec_parse_seq(kinds.drop_first(), data, mid) {
                Err(w) => Err(w),
                Ok((rest, end)) => Ok((seq![p] + rest, end)),
            },
        }
    }
}

/// The views of a list of parsed records.
pub open spec fn specs_of(v: Seq<ParsedResult>) -> Seq<SpecParsed> {
    Seq::new(v.len(), |i: int| spec_of_parsed(v[i]))
}

/// A record parsed behind a list extends the list's parse.
#[verifier::rlimit(50)]
#[verifier::spinoff_prover]
proof fn lemma_parse_seq_snoc(kinds: Seq<ResultKind>, k: ResultKind, data: Seq<u8>, offset: int)
    ensures
        spec_parse_seq(kinds.push(k), data, offset) == (match spec_parse_seq(
            kinds,
            data,
            offset,
        ) {
            Err(w) => Err(w),
            Ok((ps, mid)) => match spec_parse_one(k, data, mid) {
                Err(w) => Err(w),
                Ok((p, end)) => Ok((ps.push(p), end)),
            },
        }),
    decreases kinds.len(),
{
    let whole = kinds.push(k);
    if kinds.len() == 0 {
        assert(whole[0] == k);
        assert(whole.drop_first() =~= Seq::<ResultKind>::empty());
        assert(spec_parse_seq(kinds, data, offset) == Ok::<(Seq<SpecParsed>, int), WireError>(
            (Seq::empty(), offset),
        ));
        match spec_parse_one(k, data, offset) {
            Err(w) => {
                assert(spec_parse_seq(whole, data, offset) == Err::<
                    (Seq<SpecParsed>, int),
                    WireError,
                >(w));
            },
            Ok((p, end)) => {
                assert(spec_parse_seq(whole.drop_first(), data, end) == Ok::<
                    (Seq<SpecParsed>, int),
                    WireError,
                >((Seq::empty(), end)));
                assert(seq![p] + Seq::<SpecParsed>::empty() =~= Seq::<
                    SpecParsed,
                >::empty().push(p));
                assert(spec_parse_seq(whole, data, offset) == Ok::<
                    (Seq<SpecParsed>, int),
                    WireError,
                >((Seq::<SpecParsed>::empty().push(p), end)));
            },
        }
    } else {
        assert(whole[0] == kinds[0]);
        assert(whole.drop_first() =~= kinds.drop_first().push(k));
        match spec_parse_one(kinds[0], data, offset) {
            Err(w) => {
                assert(spec_parse_seq(whole, data, offset) == Err::<
                    (Seq<SpecParsed>, int),
                    WireError,
                >(w));
                assert(spec_parse_seq(kinds, data, offset) == Err::<
                    (Seq<SpecParsed>, int),
                    WireError,
                >(w));
            },
            Ok((p, mid)) => {
                lemma_parse_seq_snoc(kinds.drop_first(), k, data, mid);
                match spec_parse_seq(kinds.drop_first(), data, mid) {
                    Err(w) => {
                        assert(spec_parse_seq(kinds.drop_first().push(k), data, mid) == Err::<
                            (Seq<SpecParsed>, int),
                            WireError,
                        >(w));
                        assert(spec_parse_seq(whole, data, offset) == Err::<
                            (Seq<SpecParsed>, int),
                            WireError,
                        >(w));
                    },
                    Ok((rest, end2)) => {
                        assert(spec_parse_seq(kinds, data, offset) == Ok::<
                            (Seq<SpecParsed>, int),
                            WireError,
                        >((seq![p] + rest, end2)));
                        match spec_parse_one(k, data, end2) {
                            Err(w) => {
                                assert(spec_parse_seq(kinds.drop_first().push(k), data, mid)
                                    == Err::<(Seq<SpecParsed>, int), WireError>(w));
                                assert(spec_parse_seq(whole, data, offset) == Err::<
                                    (Seq<SpecParsed>, int),
                                    WireError,
                                >(w));
                            },
                            Ok((p2, end3)) => {
                                assert(spec_parse_seq(kinds.drop_first().push(k), data, mid)
                                    == Ok::<(Seq<SpecParsed>, int), WireError>(
                                    (rest.push(p2), end3),
                                ));
                                assert(seq![p] + rest.push(p2) =~= (seq![p] + rest).push(p2));
                                assert(spec_parse_seq(whole, data, offset) == Ok::<
                                    (Seq<SpecParsed>, int),
                                    WireError,
                                >(((seq![p] + rest).push(p2), end3)));
                            },
                        }
                    },
                }
            },
        }
    }
}

/// A failing record behind a list fails the whole parse.
proof fn lemma_parse_seq_extend_err(kinds: Seq<ResultKind>, rest: Seq<ResultKind>, data: Seq<u8>, offset: int, w: WireError)
    requires
        rest.len() > 0,
        spec_parse_seq(kinds, data, offset) matches Ok((ps, mid)) && spec_parse_one(
            rest[0],
            data,
            mid,
        ) == Err::<(SpecParsed, int), WireError>(w),
    ensures
        spec_parse_seq(kinds + rest, data, offset) == Err::<(Seq<SpecParsed>, int), WireError>(w),
    decreases kinds.len(),
{
    if kinds.len() == 0 {
        assert(kinds + rest =~= rest);
    } else {
        assert((kinds + rest)[0] == kinds[0]);
        assert((kinds + rest).drop_first() =~= kinds.drop_first() + rest);
        match spec_parse_one(kinds[0], data, offset) {
            Err(w2) => {},
            Ok((p, mid)) => {
                lemma_parse_seq_extend_err(kinds.drop_first(), rest, data, mid, w);
            },
        }
    }
}

/// Parses one record per kind, in order, out of the element.  Each record
/// is consumed as its own parser consumes it; the first wire error is
/// reported and ends the parse, leaving the records before it consumed.
pub fn parse_results(kinds: &Vec<ResultKind>, element: &mut QueueElement) -> (r: Result<
    Vec<ParsedResult>,
    WireError,
>)
    requires
        old(element).offset <= old(element).data@.len(),
    ensures
        final(element).data == old(element).data,
        final(element).context == old(element).context,
        final(element).chunk_index == old(element).chunk_index,
        final(element).offset <= final(element).data@.len(),
        match spec_parse_seq(kinds@, old(element).data@, old(element).offset as int) {
            Ok((ps, end)) => r matches Ok(v) && specs_of(v@) == ps && final(element).offset == end,
            Err(w) => r == Err::<Vec<ParsedResult>, WireError>(w),
        },
        // every handle parsed out of the batch is a non-null descriptor
        // owned by the calling universe
        r matches Ok(v) ==> forall|i: int|
            0 <= i < v@.len() ==> ((#[trigger] v@[i]) matches ParsedResult::Handle(Ok(Some(h)))
                ==> h.descriptor != NULL_DESCRIPTOR && h.universe == THIS_UNIVERSE_DESCRIPTOR),
{
    let ghost data = element.data@;
    let ghost off0 = element.offset as int;
    proof {
        assert(element.data == old(element).data);
    }
    let mut out: Vec<ParsedResult> = Vec::new();
    let n = kinds.len();
    let mut i: usize = 0;
    #[verifier::loop_isolation(false)]
    while i < n
        invariant
            i <= n,
            n == kinds@.len(),
            element.data == old(element).data,
            element.data@ == data,
            element.context == old(element).context,
            element.chunk_index == old(element).chunk_index,
            element.offset <= element.data@.len(),
            spec_parse_seq(kinds@.take(i as int), data, off0) matches Ok((ps, mid)) && ps
                == specs_of(out@) && mid == element.offset as int,
            forall|q: int|
                0 <= q < out@.len() ==> ((#[trigger] out@[q]) matches ParsedResult::Handle(
                    Ok(Some(h)),
                ) ==> h.descriptor != NULL_DESCRIPTOR && h.universe == THIS_UNIVERSE_DESCRIPTOR),
        decreases n - i,
    {
        let ghost pre_off = element.offset as int;
        let kind = kinds[i];
        let step: Result<ParsedResult, WireError> = match kind {
            ResultKind::Simple => match SimpleResult::from_queue_element(element) {
                Ok(inner) => Ok(ParsedResult::Simple(inner)),
                Err(w) => Err(w),
            },
            ResultKind::Length => match LengthResult::from_queue_element(element) {
                Ok(inner) => Ok(ParsedResult::Length(inner)),
                Err(w) => Err(w),
            },
            ResultKind::Handle => match HandleResult::from_queue_element(element) {
                Ok(inner) => Ok(ParsedResult::Handle(inner)),
                Err(w) => Err(w),
            },
            ResultKind::Inline => match InlineResult::from_queue_element(element) {
                Ok(inner) => Ok(ParsedResult::Inline(inner)),
                Err(w) => Err(w),
            },
        };
        match step {
            Ok(p) => {
                out.push(p);
                proof {
                    lemma_parse_seq_snoc(kinds@.take(i as int), kinds@[i as int], data, off0);
                    assert(kinds@.take(i as int).push(kinds@[i as int]) =~= kinds@.take(i + 1));
                    assert(specs_of(out@) =~= specs_of(out@.drop_last()).push(
                        spec_of_parsed(out@.last()),
                    ));
                }
                i = i + 1;
            },
            Err(w) => {
                proof {
                    assert(kinds@.skip(i as int)[0] == kinds@[i as int]);
                    assert(spec_parse_one(kinds@[i as int], data, pre_off) == Err::<
                        (SpecParsed, int),
                        WireError,
                    >(w));
                    lemma_parse_seq_extend_err(
                        kinds@.take(i as int),
                        kinds@.skip(i as int),
                        data,
                        off0,
                        w,
                    );
                    assert(kinds@.take(i as int) + kinds@.skip(i as int) =~= kinds@);
                    assert(spec_parse_seq(kinds@, data, off0) == Err::<
                        (Seq<SpecParsed>, int),
                        WireError,
                    >(w));
                }
                return Err(w);
            },
        }
    }
    proof {
        assert(kinds@.take(n as int) =~= kinds@);
    }
    Ok(out)
}

} // verus!
