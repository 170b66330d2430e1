//! Decoding of watch responses: newline-delimited JSON events read from a
//! streaming body, one event per line.
use vstd::prelude::*;

use crate::error::{ClientError, ErrorResponse, IoKind, ReadFailure};
use crate::text::{contains_text, spec_contains};

verus! {

/// Relies on `serde_json::Error::is_eof`: whether a parse failed only because the
/// input ended early. Nothing is promised of the answer.
pub assume_specification[ serde_json::Error::is_eof ](e: &serde_json::Error) -> bool;

/// The words by which the chunked decoder reports a body cut off mid-chunk.
pub open spec fn chunk_eof_marker() -> Seq<char> {
    "unexpected EOF during chunk"@
}

/// The kind given to a failure of the body stream, from its description: a body cut
/// off in the middle of a chunk counts as an early end of stream.
pub fn chunk_error_kind(message: &str) -> (r: IoKind)
    ensures
        r == (if spec_contains(message@, chunk_eof_marker()) {
            IoKind::UnexpectedEof
        } else {
            IoKind::Other
        }),
{
    let marker = "unexpected EOF during chunk";
    proof {
        reveal_strlit("unexpected EOF during chunk");
    }
    if contains_text(message, marker) {
        IoKind::UnexpectedEof
    } else {
        IoKind::Other
    }
}

/// Why the line framing of a streaming body stopped.
#[derive(Clone, Debug, PartialEq, Eq)]
pub enum FrameError {
    /// Reading the underlying body failed.
    Io(ReadFailure),
    /// No line terminator was found within the configured maximum line length.
    MaxLineLengthExceeded,
}

/// One step of line framing over a watch body.
#[derive(Debug)]
pub enum WatchFrame<T> {
    /// A complete line: its text, what it parsed to as an event, whether a failed
    /// parse only ran out of input, and what the line parsed to as an error response.
    Line {
        line: String,
        parsed: Result<T, serde_json::Error>,
        eof: bool,
        api: Option<ErrorResponse>,
    },
    /// The framing failed; no frame follows.
    Failed(FrameError),
}

/// What a complete line contributes to the event sequence.
pub open spec fn spec_line_item<T>(
    line: String,
    parsed: Result<T, serde_json::Error>,
    eof: bool,
    api: Option<ErrorResponse>,
) -> Option<Result<T, ClientError>> {
    match parsed {
        Ok(v) => Some(Ok(v)),
        Err(e) => if eof {
            None
        } else {
            match api {
                Some(a) => Some(Err(ClientError::Api(a))),
                None => Some(Err(ClientError::SerdeError { error: e, text: line })),
            }
        },
    }
}

/// A complete line ends the sequence: it is not an event but a server error response.
pub open spec fn spec_line_ends<T>(
    parsed: Result<T, serde_json::Error>,
    eof: bool,
    api: Option<ErrorResponse>,
) -> bool {
    parsed is Err && !eof && api is Some
}

/// What a framing failure contributes to the event sequence before it ends.
pub open spec fn spec_frame_error_item(e: FrameError) -> Option<ClientError> {
    match e {
        FrameError::Io(f) => match f.kind {
            IoKind::Other => Some(ClientError::ReadEvents(f)),
            _ => None,
        },
        FrameError::MaxLineLengthExceeded => Some(ClientError::LinesCodecMaxLineLengthExceeded),
    }
}

/// What a frame contributes to the event sequence.
pub open spec fn spec_frame_item<T>(f: WatchFrame<T>) -> Option<Result<T, ClientError>> {
    match f {
        WatchFrame::Line { line, parsed, eof, api } => spec_line_item(line, parsed, eof, api),
        WatchFrame::Failed(e) => match spec_frame_error_item(e) {
            Some(x) => Some(Err(x)),
            None => None,
        },
    }
}

/// A frame ends the event sequence: a framing failure, or a line holding an error response.
pub open spec fn spec_frame_ends<T>(f: WatchFrame<T>) -> bool {
    match f {
        WatchFrame::Line { parsed, eof, api, .. } => spec_line_ends(parsed, eof, api),
        WatchFrame::Failed(_) => true,
    }
}

/// The empty or one-element sequence of an option.
pub open spec fn option_seq<A>(o: Option<A>) -> Seq<A> {
    match o {
        Some(a) => seq![a],
        None => seq![],
    }
}

/// The event sequence that a series of frames yields: each frame's item in order, up
/// to and including the first frame that ends the sequence.
pub open spec fn watch_items<T>(frames: Seq<WatchFrame<T>>) -> Seq<Result<T, ClientError>>
    decreases frames.len(),
{
    if frames.len() == 0 {
        seq![]
    } else {
        option_seq(spec_frame_item(frames[0])) + if spec_frame_ends(frames[0]) {
            seq![]
        } else {
            watch_items(frames.drop_first())
        }
    }
}

/// No frame of the series ends the sequence.
pub open spec fn none_ends<T>(frames: Seq<WatchFrame<T>>) -> bool {
    forall|i: int| 0 <= i < frames.len() ==> !spec_frame_ends(#[trigger] frames[i])
}

/// The item, if any, that a complete line yields.
pub fn line_item<T>(
    line: String,
    parsed: Result<T, serde_json::Error>,
    eof: bool,
    api: Option<ErrorResponse>,
) -> (r: Option<Result<T, ClientError>>)
    ensures
        r == spec_line_item(line, parsed, eof, api),
{
    match parsed {
        Ok(v) => Some(Ok(v)),
        Err(e) => if eof {
            None
        } else {
            match api {
                Some(a) => Some(Err(ClientError::Api(a))),
                None => Some(Err(ClientError::SerdeError { error: e, text: line })),
            }
        },
    }
}

/// Builds the frame of a complete line from what it parsed to, asking the parse
/// failure, if any, whether it only ran out of input.
pub fn line_frame<T>(line: String, parsed: Result<T, serde_json::Error>, api: Option<ErrorResponse>) -> (r:
    WatchFrame<T>)
    ensures
        r matches WatchFrame::Line { line: l, parsed: p, eof, api: a } && l == line && p == parsed
            && a == api && (parsed is Ok ==> !eof),
{
    let eof = match &parsed {
        Ok(_) => false,
        Err(e) => e.is_eof(),
    };
    WatchFrame::Line { line, parsed, eof, api }
}

/// The item, if any, that a framing failure yields before the sequence ends.
pub fn frame_error_item(e: FrameError) -> (r: Option<ClientError>)
    ensures
        r == spec_frame_error_item(e),
{
    match e {
        FrameError::Io(f) => match f.kind {
            IoKind::Other => Some(ClientError::ReadEvents(f)),
            _ => None,
        },
        FrameError::MaxLineLengthExceeded => Some(ClientError::LinesCodecMaxLineLengthExceeded),
    }
}

/// The item, if any, that a frame yields, and whether the sequence ends with it.
pub fn watch_step<T>(f: WatchFrame<T>) -> (r: (Option<Result<T, ClientError>>, bool))
    ensures
        r.0 == spec_frame_item(f),
        r.1 == spec_frame_ends(f),
{
    match f {
        WatchFrame::Line { line, parsed, eof, api } => {
            let ends = parsed.is_err() && !eof && api.is_some();
            (line_item(line, parsed, eof, api), ends)
        },
        WatchFrame::Failed(e) => match frame_error_item(e) {
            Some(x) => (Some(Err(x)), true),
            None => (None, true),
        },
    }
}

/// Decodes a series of frames into the event sequence.
pub fn decode_watch_frames<T>(frames: Vec<WatchFrame<T>>) -> (r: Vec<Result<T, ClientError>>)
    ensures
        r@ == watch_items(frames@),
{
    let ghost all = frames@;
    let mut rest = frames;
    let mut out: Vec<Result<T, ClientError>> = Vec::new();
    while rest.len() > 0
        invariant
            all == frames@,
            out@ + watch_items(rest@) == watch_items(all),
        decreases rest.len(),
    {
        let ghost before = rest@;
        let ghost start_out = out@;
        let f = rest.remove(0);
        assert(rest@ == before.drop_first());
        let (item, ends) = watch_step(f);
        match item {
            Some(x) => out.push(x),
            None => {},
        }
        assert(out@ == start_out + option_seq(spec_frame_item(before[0])));
        if ends {
            assert(out@ == start_out + watch_items(before));
            return out;
        }
        assert(out@ + watch_items(rest@) == start_out + watch_items(before));
    }
    assert(out@ + watch_items(rest@) == out@);
    out
}

/// Appending to a series of frames that do not end the sequence appends to it.
pub proof fn lemma_watch_items_concat<T>(a: Seq<WatchFrame<T>>, b: Seq<WatchFrame<T>>)
    requires
        none_ends(a),
    ensures
        watch_items(a + b) == watch_items(a) + watch_items(b),
    decreases a.len(),
{
    if a.len() > 0 {
        assert((a + b).drop_first() == a.drop_first() + b);
        assert(!spec_frame_ends(a[0]));
        assert(none_ends(a.drop_first())) by {
            assert forall|i: int| 0 <= i < a.drop_first().len() implies !spec_frame_ends(
                #[trigger] a.drop_first()[i],
            ) by {
                assert(a.drop_first()[i] == a[i + 1]);
            }
        }
        lemma_watch_items_concat(a.drop_first(), b);
        assert((a + b)[0] == a[0]);
    } else {
        assert(a + b == b);
    }
}

/// The sequence a single frame followed by anything yields when that frame ends it.
proof fn lemma_ending_frame<T>(f: WatchFrame<T>, later: Seq<WatchFrame<T>>)
    requires
        spec_frame_ends(f),
    ensures
        watch_items(seq![f] + later) == option_seq(spec_frame_item(f)),
{
    let s = seq![f] + later;
    assert(s[0] == f);
    assert(option_seq(spec_frame_item(f)) + Seq::<Result<T, ClientError>>::empty() =~= option_seq(
        spec_frame_item(f),
    ));
}

/// Lines that each hold an event yield exactly those events, in the order of the lines.
pub proof fn lemma_events_in_order<T>(frames: Seq<WatchFrame<T>>)
    requires
        forall|i: int| 0 <= i < frames.len() ==> (#[trigger] frames[i]) matches WatchFrame::Line {
            parsed: Ok(_),
            ..
        },
    ensures
        watch_items(frames).len() == frames.len(),
        forall|i: int|
            0 <= i < frames.len() ==> watch_items(frames)[i] == Ok::<T, ClientError>(
                (#[trigger] frames[i])->parsed->Ok_0,
            ),
    decreases frames.len(),
{
    if frames.len() > 0 {
        let rest = frames.drop_first();
        assert forall|i: int| 0 <= i < rest.len() implies (#[trigger] rest[i]) matches WatchFrame::Line {
            parsed: Ok(_),
            ..
        } by {
            assert(rest[i] == frames[i + 1]);
        }
        lemma_events_in_order(rest);
        assert(frames[0] matches WatchFrame::Line { parsed: Ok(_), .. });
        assert forall|i: int| 0 <= i < frames.len() implies watch_items(frames)[i] == Ok::<
            T,
            ClientError,
        >((#[trigger] frames[i])->parsed->Ok_0) by {
            if i > 0 {
                assert(frames[i] == rest[i - 1]);
            }
        }
    }
}

/// A last line cut short, whose parse ran out of input, yields nothing.
pub proof fn lemma_truncated_last_line_ignored<T>(
    frames: Seq<WatchFrame<T>>,
    line: String,
    e: serde_json::Error,
    api: Option<ErrorResponse>,
)
    requires
        none_ends(frames),
    ensures
        watch_items(frames.push(WatchFrame::Line { line, parsed: Err(e), eof: true, api }))
            == watch_items(frames),
{
    let f = WatchFrame::Line { line, parsed: Err::<T, serde_json::Error>(e), eof: true, api };
    let last = seq![f];
    assert(frames.push(f) == frames + last);
    lemma_watch_items_concat(frames, last);
    assert(last.drop_first().len() == 0);
    assert(watch_items(last.drop_first()) == Seq::<Result<T, ClientError>>::empty());
    assert(last[0] == f);
    assert(watch_items(last) =~= seq![]);
}

/// A read failure ends the event sequence: a timeout or an early end of stream
/// silently, any other failure with a read error; later frames yield nothing.
pub proof fn lemma_read_failure_ends<T>(
    frames: Seq<WatchFrame<T>>,
    f: ReadFailure,
    later: Seq<WatchFrame<T>>,
)
    requires
        none_ends(frames),
    ensures
        watch_items(frames + seq![WatchFrame::Failed(FrameError::Io(f))] + later) == (if f.kind
            == IoKind::Other {
            watch_items(frames).push(Err(ClientError::ReadEvents(f)))
        } else {
            watch_items(frames)
        }),
{
    let fr = WatchFrame::<T>::Failed(FrameError::Io(f));
    let tail = seq![fr] + later;
    assert(frames + seq![fr] + later == frames + tail);
    lemma_watch_items_concat(frames, tail);
    lemma_ending_frame(fr, later);
    if f.kind == IoKind::Other {
        assert(watch_items(tail) == seq![Err::<T, ClientError>(ClientError::ReadEvents(f))]);
    } else {
        assert(watch_items(tail) == Seq::<Result<T, ClientError>>::empty());
        assert(watch_items(frames) + watch_items(tail) == watch_items(frames));
    }
}

/// A line that is no event but a server error response ends the event sequence with
/// that API error; later frames yield nothing.
pub proof fn lemma_api_error_line_ends<T>(
    frames: Seq<WatchFrame<T>>,
    line: String,
    e: serde_json::Error,
    a: ErrorResponse,
    later: Seq<WatchFrame<T>>,
)
    requires
        none_ends(frames),
    ensures
        watch_items(
            frames + seq![WatchFrame::Line { line, parsed: Err(e), eof: false, api: Some(a) }]
                + later,
        ) == watch_items(frames).push(Err(ClientError::Api(a))),
{
    let fr = WatchFrame::Line { line, parsed: Err::<T, serde_json::Error>(e), eof: false, api: Some(a) };
    let tail = seq![fr] + later;
    assert(frames + seq![fr] + later == frames + tail);
    lemma_watch_items_concat(frames, tail);
    lemma_ending_frame(fr, later);
    assert(watch_items(tail) == seq![Err::<T, ClientError>(ClientError::Api(a))]);
}

} // verus!
