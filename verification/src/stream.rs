//! The streamed reply: newline-delimited JSON. Bytes are cut into lines, and
//! what the lines carry is put together to the answer.
use crate::lists;
use crate::records;
use crate::records::{ResearchResponse, StreamEvent};
use crate::text;
use vstd::prelude::*;
use vstd::string::StringExecFns;
use vstd::utf8::*;

verus! {

/// The text that `String::from_utf8_lossy` makes of bytes.
pub uninterp spec fn lossy_text(bytes: Seq<u8>) -> Seq<char>;

/// Calls `String::from_utf8_lossy`. The claim is that the text depends on the
/// bytes alone, and that valid UTF-8 is decoded without any replacement.
#[verifier::external_body]
fn decode_lossy(bytes: &[u8]) -> (r: String)
    ensures
        r@ == lossy_text(bytes@),
        valid_utf8(bytes@) ==> r@ == decode_utf8(bytes@),
{
    String::from_utf8_lossy(bytes).into_owned()
}

/// What a line carries: its text without white space around it. For a line of
/// valid UTF-8 that is the text that it encodes.
pub open spec fn line_text(line: Seq<u8>) -> Seq<char> {
    text::trimmed(
        if valid_utf8(line) {
            decode_utf8(line)
        } else {
            lossy_text(line)
        },
    )
}

/// What a line carries: its text without white space around it.
pub fn read_line(line: &[u8]) -> (r: String)
    ensures
        r@ == line_text(line@),
{
    text::trim(&decode_lossy(line))
}

/// The next line that is not blank, and the bytes that follow it. Where no
/// such line is complete, `None` and what follows the last line end.
pub open spec fn next_line_of(bytes: Seq<u8>) -> (Option<Seq<char>>, Seq<u8>)
    decreases bytes.len(),
    via next_line_decreases
{
    match lists::position(bytes, 10u8) {
        Some(i) => if line_text(bytes.take(i + 1)).len() == 0 {
            next_line_of(bytes.skip(i + 1))
        } else {
            (Some(line_text(bytes.take(i + 1))), bytes.skip(i + 1))
        },
        None => (None, bytes),
    }
}

#[via_fn]
proof fn next_line_decreases(bytes: Seq<u8>) {
    lists::lemma_position_found(bytes, 10u8);
}

/// The complete lines that are not blank, in order.
pub open spec fn lines_in(bytes: Seq<u8>) -> Seq<Seq<char>>
    decreases bytes.len(),
    via lines_decreases
{
    match lists::position(bytes, 10u8) {
        Some(i) => if line_text(bytes.take(i + 1)).len() == 0 {
            lines_in(bytes.skip(i + 1))
        } else {
            seq![line_text(bytes.take(i + 1))] + lines_in(bytes.skip(i + 1))
        },
        None => seq![],
    }
}

#[via_fn]
proof fn lines_decreases(bytes: Seq<u8>) {
    lists::lemma_position_found(bytes, 10u8);
}

/// What follows the last line end.
pub open spec fn unfinished(bytes: Seq<u8>) -> Seq<u8>
    decreases bytes.len(),
    via unfinished_decreases
{
    match lists::position(bytes, 10u8) {
        Some(i) => unfinished(bytes.skip(i + 1)),
        None => bytes,
    }
}

#[via_fn]
proof fn unfinished_decreases(bytes: Seq<u8>) {
    lists::lemma_position_found(bytes, 10u8);
}

/// Bytes that were received and not yet taken out as lines.
#[derive(Debug)]
pub struct LineBuffer {
    pending: Vec<u8>,
}

impl View for LineBuffer {
    type V = Seq<u8>;

    closed spec fn view(&self) -> Seq<u8> {
        self.pending@
    }
}

impl LineBuffer {
    /// A buffer without bytes.
    pub fn new() -> (r: Self)
        ensures
            r@ == Seq::<u8>::empty(),
    {
        LineBuffer { pending: Vec::new() }
    }

    /// Takes in the bytes that were received.
    pub fn feed(&mut self, bytes: &[u8])
        ensures
            final(self)@ == old(self)@ + bytes@,
    {
        self.pending.extend_from_slice(bytes);
        assert(self@ =~= old(self)@ + bytes@);
    }

    /// Takes out the next line that is not blank.
    pub fn next_line(&mut self) -> (r: Option<String>)
        ensures
            (r.deep_view(), final(self)@) == next_line_of(old(self)@),
    {
        let mut i: usize = 0;
        while i < self.pending.len()
            invariant
                i <= self.pending@.len(),
                forall|j: int| 0 <= j < i ==> self.pending@[j] != 10u8,
                next_line_of(self.pending@) == next_line_of(old(self)@),
            decreases self.pending@.len() - i,
        {
            if self.pending[i] == 10 {
                proof {
                    lists::lemma_position(self.pending@, 10u8, i as int);
                }
                let rest = self.pending.split_off(i + 1);
                let line = read_line(&self.pending);
                self.pending = rest;
                if !line.as_str().is_empty() {
                    return Some(line);
                }
                i = 0;
            } else {
                i = i + 1;
            }
        }
        proof {
            lists::lemma_position(self.pending@, 10u8, i as int);
        }
        None
    }
}

/// Taking out lines until there is none left gives the complete lines in
/// order, and leaves what follows the last line end.
pub proof fn lines_come_out_in_order(bytes: Seq<u8>)
    ensures
        match next_line_of(bytes) {
            (Some(line), rest) => lines_in(bytes) == seq![line] + lines_in(rest) && unfinished(
                bytes,
            ) == unfinished(rest),
            (None, rest) => lines_in(bytes) == Seq::<Seq<char>>::empty() && rest == unfinished(
                bytes,
            ),
        },
    decreases bytes.len(),
{
    lists::lemma_position_found(bytes, 10u8);
    if let Some(i) = lists::position(bytes, 10u8) {
        lines_come_out_in_order(bytes.skip(i + 1));
    }
}

/// The lines do not depend on how the bytes were cut into pieces on their way.
pub proof fn lines_do_not_depend_on_the_pieces(a: Seq<u8>, b: Seq<u8>)
    ensures
        lines_in(a + b) == lines_in(a) + lines_in(unfinished(a) + b),
        unfinished(a + b) == unfinished(unfinished(a) + b),
    decreases a.len(),
{
    lists::lemma_position_found(a, 10u8);
    match lists::position(a, 10u8) {
        Some(i) => {
            lists::lemma_position(a + b, 10u8, i);
            assert((a + b).take(i + 1) == a.take(i + 1));
            assert((a + b).skip(i + 1) == a.skip(i + 1) + b);
            lines_do_not_depend_on_the_pieces(a.skip(i + 1), b);
            let line = line_text(a.take(i + 1));
            let tail = a.skip(i + 1);
            assert(seq![line] + (lines_in(tail) + lines_in(unfinished(tail) + b)) == (seq![line]
                + lines_in(tail)) + lines_in(unfinished(tail) + b));
        },
        None => {
            assert(lines_in(a) + lines_in(unfinished(a) + b) == lines_in(a + b));
        },
    }
}

/// The message part of a streamed chunk.
#[derive(Debug)]
pub struct StreamMessage {
    pub thinking: Option<String>,
    pub content: Option<String>,
}

/// What a [`StreamMessage`] holds.
#[verifier::ext_equal]
pub struct StreamMessageView {
    pub thinking: Option<Seq<char>>,
    pub content: Option<Seq<char>>,
}

impl DeepView for StreamMessage {
    type V = StreamMessageView;

    open spec fn deep_view(&self) -> StreamMessageView {
        StreamMessageView {
            thinking: self.thinking.deep_view(),
            content: self.content.deep_view(),
        }
    }
}

/// One chunk of a streamed reply. `message` carries incremental `thinking` and
/// `content`; the terminal chunk (`done`) may repeat the complete message.
#[derive(Debug)]
pub struct StreamChunk {
    pub message: Option<StreamMessage>,
    pub done: bool,
}

/// What a [`StreamChunk`] holds.
#[verifier::ext_equal]
pub struct StreamChunkView {
    pub message: Option<StreamMessageView>,
    pub done: bool,
}

impl DeepView for StreamChunk {
    type V = StreamChunkView;

    open spec fn deep_view(&self) -> StreamChunkView {
        StreamChunkView { message: self.message.deep_view(), done: self.done }
    }
}

/// What a chunk adds to the reasoning trace.
pub open spec fn thinking_in(chunk: StreamChunkView) -> Seq<char> {
    match chunk.message {
        Some(StreamMessageView { thinking: Some(delta), .. }) => delta,
        _ => seq![],
    }
}

/// The answer text that a chunk carries.
pub open spec fn content_in(chunk: StreamChunkView) -> Seq<char> {
    match chunk.message {
        Some(StreamMessageView { content: Some(delta), .. }) => delta,
        _ => seq![],
    }
}

/// Whether a chunk is a terminal one that repeats the answer that is known
/// already.
pub open spec fn repeats_answer(
    response: records::ResearchResponseView,
    chunk: StreamChunkView,
) -> bool {
    chunk.done && response.message.len() > 0 && content_in(chunk) == response.message
}

/// A response after one more chunk.
pub open spec fn extended(
    response: records::ResearchResponseView,
    chunk: StreamChunkView,
) -> records::ResearchResponseView {
    records::ResearchResponseView {
        message: if repeats_answer(response, chunk) {
            response.message
        } else {
            response.message + content_in(chunk)
        },
        thinking: response.thinking + thinking_in(chunk),
        ..response
    }
}

/// Whether a chunk is a terminal one that carries the whole answer at once.
pub open spec fn is_whole_answer(
    response: records::ResearchResponseView,
    chunk: StreamChunkView,
) -> bool {
    chunk.done && response.message.len() == 0
}

/// The progress that a chunk makes known: its part of the reasoning trace, then
/// its part of the answer. Empty parts are not made known, nor is a terminal
/// chunk that carries the whole answer or repeats it.
pub open spec fn chunk_events(
    response: records::ResearchResponseView,
    chunk: StreamChunkView,
) -> Seq<records::StreamEventView> {
    (if thinking_in(chunk).len() == 0 {
        seq![]
    } else {
        seq![records::StreamEventView::ThinkingDelta { delta: thinking_in(chunk) }]
    }) + (if content_in(chunk).len() == 0 || is_whole_answer(response, chunk) || repeats_answer(
        response,
        chunk,
    ) {
        seq![]
    } else {
        seq![records::StreamEventView::AnswerDelta { delta: content_in(chunk) }]
    })
}

/// Adds a chunk to the response and says what progress to make known.
pub fn apply_chunk(out: &mut ResearchResponse, chunk: StreamChunk) -> (events: Vec<StreamEvent>)
    ensures
        final(out).deep_view() == extended(old(out).deep_view(), chunk.deep_view()),
        events.deep_view() == chunk_events(old(out).deep_view(), chunk.deep_view()),
{
    let mut events: Vec<StreamEvent> = Vec::new();
    let ghost before = out.deep_view();
    let ghost seen = chunk.deep_view();
    assert(events.deep_view() == Seq::<records::StreamEventView>::empty());
    let done = chunk.done;
    if let Some(message) = chunk.message {
        if let Some(thinking) = message.thinking {
            if !thinking.as_str().is_empty() {
                out.thinking.append(&thinking);
                events.push(StreamEvent::ThinkingDelta { delta: thinking });
                assert(events.deep_view() == seq![
                    records::StreamEventView::ThinkingDelta { delta: thinking_in(seen) },
                ]);
            }
        }
        let ghost shown = events.deep_view();
        if let Some(content) = message.content {
            if !content.as_str().is_empty() {
                if done && out.message.as_str().is_empty() {
                    out.message = content;
                } else if !(done && text::same_text(&out.message, &content)) {
                    out.message.append(&content);
                    events.push(StreamEvent::AnswerDelta { delta: content });
                    assert(events.deep_view() == shown.push(
                        records::StreamEventView::AnswerDelta { delta: content_in(seen) },
                    ));
                }
            }
        }
    }
    assert(out.message@ == extended(before, seen).message);
    assert(out.thinking@ == extended(before, seen).thinking);
    events
}

/// A response after all the chunks.
pub open spec fn extended_by_all(
    response: records::ResearchResponseView,
    chunks: Seq<StreamChunkView>,
) -> records::ResearchResponseView
    decreases chunks.len(),
{
    if chunks.len() == 0 {
        response
    } else {
        extended(extended_by_all(response, chunks.drop_last()), chunks.last())
    }
}

/// The progress that all the chunks make known.
pub open spec fn all_chunk_events(
    response: records::ResearchResponseView,
    chunks: Seq<StreamChunkView>,
) -> Seq<records::StreamEventView>
    decreases chunks.len(),
{
    if chunks.len() == 0 {
        seq![]
    } else {
        all_chunk_events(response, chunks.drop_last()) + chunk_events(
            extended_by_all(response, chunks.drop_last()),
            chunks.last(),
        )
    }
}

/// What a chunk adds to the answer: its content, unless that repeats the
/// answer.
pub open spec fn new_content(
    response: records::ResearchResponseView,
    chunk: StreamChunkView,
) -> Seq<char> {
    if repeats_answer(response, chunk) {
        seq![]
    } else {
        content_in(chunk)
    }
}

/// What all the chunks add to the answer, one after the other.
pub open spec fn all_content(
    response: records::ResearchResponseView,
    chunks: Seq<StreamChunkView>,
) -> Seq<char>
    decreases chunks.len(),
{
    if chunks.len() == 0 {
        seq![]
    } else {
        all_content(response, chunks.drop_last()) + new_content(
            extended_by_all(response, chunks.drop_last()),
            chunks.last(),
        )
    }
}

/// The contents of all the chunks, one after the other.
pub open spec fn joined_content(chunks: Seq<StreamChunkView>) -> Seq<char>
    decreases chunks.len(),
{
    if chunks.len() == 0 {
        seq![]
    } else {
        joined_content(chunks.drop_last()) + content_in(chunks.last())
    }
}

/// The reasoning of all the chunks, one after the other.
pub open spec fn all_thinking(chunks: Seq<StreamChunkView>) -> Seq<char>
    decreases chunks.len(),
{
    if chunks.len() == 0 {
        seq![]
    } else {
        all_thinking(chunks.drop_last()) + thinking_in(chunks.last())
    }
}

/// The answer text that events make known, one after the other.
pub open spec fn told_answer(events: Seq<records::StreamEventView>) -> Seq<char>
    decreases events.len(),
{
    if events.len() == 0 {
        seq![]
    } else {
        told_answer(events.drop_last()) + match events.last() {
            records::StreamEventView::AnswerDelta { delta } => delta,
            _ => seq![],
        }
    }
}

/// The reasoning that events make known, one after the other.
pub open spec fn told_thinking(events: Seq<records::StreamEventView>) -> Seq<char>
    decreases events.len(),
{
    if events.len() == 0 {
        seq![]
    } else {
        told_thinking(events.drop_last()) + match events.last() {
            records::StreamEventView::ThinkingDelta { delta } => delta,
            _ => seq![],
        }
    }
}

/// The answer is what the chunks add, in order and complete, and so is the
/// reasoning trace; nothing else of the response changes.
pub proof fn the_answer_is_what_the_chunks_carry(
    response: records::ResearchResponseView,
    chunks: Seq<StreamChunkView>,
)
    ensures
        extended_by_all(response, chunks) == (records::ResearchResponseView {
            message: response.message + all_content(response, chunks),
            thinking: response.thinking + all_thinking(chunks),
            ..response
        }),
    decreases chunks.len(),
{
    let goal = records::ResearchResponseView {
        message: response.message + all_content(response, chunks),
        thinking: response.thinking + all_thinking(chunks),
        ..response
    };
    if chunks.len() > 0 {
        the_answer_is_what_the_chunks_carry(response, chunks.drop_last());
    }
    assert(extended_by_all(response, chunks).message =~= goal.message);
    assert(extended_by_all(response, chunks).thinking =~= goal.thinking);
}

/// The progress made known adds up to the complete answer, unless a terminal
/// chunk carried the whole answer at once.
pub proof fn the_progress_adds_up(
    response: records::ResearchResponseView,
    chunks: Seq<StreamChunkView>,
)
    requires
        forall|i: int|
            0 <= i < chunks.len() ==> !is_whole_answer(
                extended_by_all(response, chunks.take(i)),
                #[trigger] chunks[i],
            ),
    ensures
        told_answer(all_chunk_events(response, chunks)) == all_content(response, chunks),
    decreases chunks.len(),
{
    if chunks.len() > 0 {
        let rest = chunks.drop_last();
        let n = rest.len() as int;
        assert forall|i: int| 0 <= i < rest.len() implies !is_whole_answer(
            extended_by_all(response, rest.take(i)),
            #[trigger] rest[i],
        ) by {
            assert(rest.take(i) == chunks.take(i));
            assert(rest[i] == chunks[i]);
        }
        the_progress_adds_up(response, rest);
        assert(chunks.take(n) == rest);
        assert(chunks[n] == chunks.last());
        lemma_told(all_chunk_events(response, rest), chunks.last(), extended_by_all(response, rest));
    }
}

/// The reasoning made known adds up to the complete trace.
pub proof fn the_reasoning_adds_up(
    response: records::ResearchResponseView,
    chunks: Seq<StreamChunkView>,
)
    ensures
        told_thinking(all_chunk_events(response, chunks)) == all_thinking(chunks),
    decreases chunks.len(),
{
    if chunks.len() > 0 {
        let rest = chunks.drop_last();
        the_reasoning_adds_up(response, rest);
        lemma_told(all_chunk_events(response, rest), chunks.last(), extended_by_all(response, rest));
    }
}

/// Chunks that are not terminal add all that they carry.
proof fn lemma_deltas_add_up(response: records::ResearchResponseView, deltas: Seq<StreamChunkView>)
    requires
        forall|i: int| 0 <= i < deltas.len() ==> !(#[trigger] deltas[i]).done,
    ensures
        all_content(response, deltas) == joined_content(deltas),
    decreases deltas.len(),
{
    if deltas.len() > 0 {
        let rest = deltas.drop_last();
        assert(forall|i: int| 0 <= i < rest.len() ==> rest[i] == deltas[i]);
        lemma_deltas_add_up(response, rest);
        assert(!deltas[deltas.len() - 1].done);
    }
}

/// A terminal chunk that repeats the complete answer does not double it: the
/// answer is what the chunks before it carry, and so is the progress that was
/// made known.
pub proof fn a_repeated_answer_counts_once(
    response: records::ResearchResponseView,
    deltas: Seq<StreamChunkView>,
    terminal: StreamChunkView,
)
    requires
        forall|i: int| 0 <= i < deltas.len() ==> !(#[trigger] deltas[i]).done,
        terminal.done,
        content_in(terminal) == response.message + joined_content(deltas),
        content_in(terminal).len() > 0,
    ensures
        extended_by_all(response, deltas.push(terminal)).message == response.message
            + joined_content(deltas),
        told_answer(all_chunk_events(response, deltas.push(terminal))) == joined_content(deltas),
{
    let chunks = deltas.push(terminal);
    assert(chunks.drop_last() == deltas);
    lemma_deltas_add_up(response, deltas);
    the_answer_is_what_the_chunks_carry(response, deltas);
    assert(repeats_answer(extended_by_all(response, deltas), terminal));
    assert forall|i: int| 0 <= i < chunks.len() implies !is_whole_answer(
        extended_by_all(response, chunks.take(i)),
        #[trigger] chunks[i],
    ) by {
        if i == deltas.len() {
            assert(chunks.take(i) == deltas);
        } else {
            assert(chunks[i] == deltas[i]);
        }
    }
    the_progress_adds_up(response, chunks);
    assert(all_content(response, chunks) == joined_content(deltas));
}

/// What events tell, followed by the events of one more chunk.
proof fn lemma_told(
    events: Seq<records::StreamEventView>,
    chunk: StreamChunkView,
    response: records::ResearchResponseView,
)
    ensures
        told_thinking(events + chunk_events(response, chunk)) == told_thinking(events)
            + thinking_in(chunk),
        !is_whole_answer(response, chunk) ==> told_answer(events + chunk_events(response, chunk))
            == told_answer(events) + new_content(response, chunk),
{
    let thinking = thinking_in(chunk);
    let content = content_in(chunk);
    let first = if thinking.len() == 0 {
        events
    } else {
        events.push(records::StreamEventView::ThinkingDelta { delta: thinking })
    };
    if thinking.len() > 0 {
        assert(first.drop_last() == events);
    }
    assert(told_thinking(first) == told_thinking(events) + thinking);
    assert(told_answer(first) == told_answer(events));
    let all = events + chunk_events(response, chunk);
    if content.len() == 0 || is_whole_answer(response, chunk) || repeats_answer(response, chunk) {
        assert(all == first);
    } else {
        assert(all == first.push(records::StreamEventView::AnswerDelta { delta: content }));
        assert(all.drop_last() == first);
        assert(told_thinking(all) == told_thinking(first));
    }
}

/// A part of the answer is appended as it is, white space included, and made
/// known as it is unless it is empty. This holds of every chunk that is not
/// terminal.
pub proof fn parts_of_the_answer_are_appended_as_they_are(
    response: records::ResearchResponseView,
    chunk: StreamChunkView,
    message: StreamMessageView,
    c: Seq<char>,
)
    requires
        !chunk.done,
        chunk.message == Some(message),
        message.content == Some(c),
    ensures
        extended(response, chunk).message == response.message + c,
        c.len() > 0 ==> chunk_events(response, chunk).len() > 0 && chunk_events(
            response,
            chunk,
        ).last() == (records::StreamEventView::AnswerDelta { delta: c }),
        c.len() == 0 ==> forall|i: int|
            0 <= i < chunk_events(response, chunk).len() ==> (#[trigger] chunk_events(
                response,
                chunk,
            )[i]) is ThinkingDelta,
{
}

/// A part of the reasoning trace is appended as it is and made known as it is,
/// before the answer, unless it is empty. This holds of every chunk.
pub proof fn parts_of_the_reasoning_are_appended_as_they_are(
    response: records::ResearchResponseView,
    chunk: StreamChunkView,
    message: StreamMessageView,
    t: Seq<char>,
)
    requires
        chunk.message == Some(message),
        message.thinking == Some(t),
    ensures
        extended(response, chunk).thinking == response.thinking + t,
        t.len() > 0 ==> chunk_events(response, chunk).len() > 0 && chunk_events(response, chunk)[0]
            == (records::StreamEventView::ThinkingDelta { delta: t }),
{
}

/// A terminal chunk brings the whole answer where there is none yet, changes
/// nothing where it repeats the answer, and else brings the last part. Only in
/// the last case is its content made known as a part of the answer.
pub proof fn a_terminal_chunk_brings_the_whole_answer_or_the_last_part(
    response: records::ResearchResponseView,
    chunk: StreamChunkView,
    message: StreamMessageView,
    c: Seq<char>,
)
    requires
        chunk.done,
        chunk.message == Some(message),
        message.content == Some(c),
    ensures
        response.message.len() == 0 ==> extended(response, chunk).message == c,
        c == response.message ==> extended(response, chunk).message == c,
        response.message.len() == 0 || c == response.message ==> forall|i: int|
            0 <= i < chunk_events(response, chunk).len() ==> (#[trigger] chunk_events(
                response,
                chunk,
            )[i]) is ThinkingDelta,
        response.message.len() > 0 && c != response.message ==> extended(response, chunk).message
            == response.message + c,
        response.message.len() > 0 && c.len() > 0 && c != response.message ==> chunk_events(
            response,
            chunk,
        ).len() > 0 && chunk_events(response, chunk).last()
            == (records::StreamEventView::AnswerDelta { delta: c }),
{
    if response.message.len() == 0 {
        assert(response.message + c == c);
    }
}

/// What a chunk does not carry stays as it is and is not made known; nothing
/// but the answer and the reasoning trace ever changes. A chunk makes known at
/// most one part of each.
pub proof fn what_a_chunk_does_not_carry_stays(
    response: records::ResearchResponseView,
    chunk: StreamChunkView,
)
    ensures
        extended(response, chunk).sources == response.sources,
        extended(response, chunk).model == response.model,
        chunk.message is None ==> extended(response, chunk) == response && chunk_events(
            response,
            chunk,
        ).len() == 0,
        chunk.message matches Some(message) ==> {
            &&& message.content is None ==> extended(response, chunk).message == response.message
            &&& message.thinking is None ==> extended(response, chunk).thinking
                == response.thinking
            &&& message.content is None ==> forall|i: int|
                0 <= i < chunk_events(response, chunk).len() ==> (#[trigger] chunk_events(
                    response,
                    chunk,
                )[i]) is ThinkingDelta
            &&& message.thinking is None || message.thinking->0.len() == 0 ==> forall|i: int|
                0 <= i < chunk_events(response, chunk).len() ==> (#[trigger] chunk_events(
                    response,
                    chunk,
                )[i]) is AnswerDelta
        },
        chunk_events(response, chunk).len() <= 2,
        chunk_events(response, chunk).len() == 2 ==> chunk_events(response, chunk)[0]
            is ThinkingDelta && chunk_events(response, chunk)[1] is AnswerDelta,
{
    let after = extended(response, chunk);
    if content_in(chunk).len() == 0 {
        assert(after.message == response.message);
    }
    if thinking_in(chunk).len() == 0 {
        assert(after.thinking == response.thinking);
    }
}

/// A line reaches up to the first line end. It comes out next, as the text that
/// it carries, unless that is blank; the bytes after it are left for later.
/// Bytes without a line end wait for more.
pub proof fn a_line_reaches_up_to_its_end(line: Seq<u8>, rest: Seq<u8>)
    requires
        forall|i: int| 0 <= i < line.len() ==> #[trigger] line[i] != 10u8,
    ensures
        line_text(line.push(10u8)).len() > 0 ==> {
            &&& next_line_of(line.push(10u8) + rest) == (
                Some(line_text(line.push(10u8))),
                rest,
            )
            &&& lines_in(line.push(10u8) + rest) == seq![line_text(line.push(10u8))] + lines_in(
                rest,
            )
        },
        line_text(line.push(10u8)).len() == 0 ==> {
            &&& next_line_of(line.push(10u8) + rest) == next_line_of(rest)
            &&& lines_in(line.push(10u8) + rest) == lines_in(rest)
        },
        unfinished(line.push(10u8) + rest) == unfinished(rest),
        next_line_of(line) == (None::<Seq<char>>, line),
        lines_in(line) == Seq::<Seq<char>>::empty(),
        unfinished(line) == line,
{
    let bytes = line.push(10u8) + rest;
    let n = line.len() as int;
    assert(forall|j: int| 0 <= j < n ==> bytes[j] == line[j]);
    assert(bytes[n] == 10u8);
    lists::lemma_position(bytes, 10u8, n);
    assert(bytes.take(n + 1) == line.push(10u8));
    assert(bytes.skip(n + 1) == rest);
    lists::lemma_position(line, 10u8, n);
}

/// A line carries the text that its bytes encode, or what can be made of them
/// where they encode none, without white space around it.
pub proof fn a_line_carries_the_text_that_it_encodes(s: Seq<char>, bytes: Seq<u8>)
    ensures
        line_text(encode_utf8(s)) == text::trimmed(s),
        !valid_utf8(bytes) ==> line_text(bytes) == text::trimmed(lossy_text(bytes)),
{
    encode_utf8_valid_utf8(s);
    encode_utf8_decode_utf8(s);
}

/// The views hold what the types here hold, field by field.
pub proof fn views_hold_what_is_there(
    stream_message: StreamMessage,
    stream_chunk: StreamChunk,
)
    ensures
        stream_message.deep_view().thinking == stream_message.thinking.deep_view(),
        stream_message.deep_view().content == stream_message.content.deep_view(),
        stream_chunk.deep_view().message == stream_chunk.message.deep_view(),
        stream_chunk.deep_view().done == stream_chunk.done,
{
}

} // verus!
