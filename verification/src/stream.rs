use vstd::prelude::*;

verus! {

/// What one read of extracted text gave.
#[derive(Clone, Copy, Debug, PartialEq, Eq, Structural)]
pub enum ReadEvent {
    /// That many bytes were read into the buffer; zero means the text has ended.
    Read(usize),
    /// The read was interrupted before any data arrived.
    Interrupted,
    /// The read failed for any other reason.
    Failed,
}

/// What to do after a read.
#[derive(Clone, Copy, Debug, PartialEq, Eq, Structural)]
pub enum StreamAction {
    /// Write the first that many bytes of the buffer to the output, then read on.
    Write(usize),
    /// The text has ended: stop successfully.
    Finish,
    /// Read again.
    Retry,
    /// Report the error and exit with failure.
    Abort,
}

pub open spec fn spec_stream_action(event: ReadEvent) -> StreamAction {
    match event {
        ReadEvent::Read(n) => if n == 0 {
            StreamAction::Finish
        } else {
            StreamAction::Write(n)
        },
        ReadEvent::Interrupted => StreamAction::Retry,
        ReadEvent::Failed => StreamAction::Abort,
    }
}

/// Size in bytes of the buffer extracted text is read through.
pub fn stream_buffer_size() -> (size: usize)
    ensures
        size == 8192,
{
    8192
}

/// Decides what to do with the outcome of a read of extracted text: forward
/// the bytes read, stop at the end of the text, retry an interrupted read,
/// and give up on any other error.
pub fn stream_action(event: ReadEvent) -> (action: StreamAction)
    ensures
        action == spec_stream_action(event),
{
    match event {
        ReadEvent::Read(n) => if n == 0 {
            StreamAction::Finish
        } else {
            StreamAction::Write(n)
        },
        ReadEvent::Interrupted => StreamAction::Retry,
        ReadEvent::Failed => StreamAction::Abort,
    }
}

/// The program takes exactly one argument besides its own name: the input file.
pub fn stream_args_ok(argc: usize) -> (ok: bool)
    ensures
        ok == (argc == 2),
{
    argc == 2
}

/// The usage line printed when the arguments are wrong.
pub fn usage_message(program: &str) -> (msg: String)
    ensures
        msg@ == "Usage: "@ + program@ + " <input file>"@,
{
    let mut msg = String::from_str("Usage: ");
    msg.append(program);
    msg.append(" <input file>");
    msg
}

/// The chunk sizes written out when the reads give `events` in turn; reading
/// stops at the end of the text or at a failure.
pub open spec fn spec_written(events: Seq<ReadEvent>) -> Seq<usize>
    decreases events.len(),
{
    if events.len() == 0 {
        seq![]
    } else {
        match spec_stream_action(events[0]) {
            StreamAction::Write(n) => seq![n] + spec_written(events.drop_first()),
            StreamAction::Retry => spec_written(events.drop_first()),
            _ => seq![],
        }
    }
}

/// A read after which streaming stops: the end of the text or a failure.
pub open spec fn spec_is_stop(event: ReadEvent) -> bool {
    event == ReadEvent::Failed || event == ReadEvent::Read(0)
}

/// The number of bytes a read delivered, if it delivered any.
pub open spec fn spec_read_size(event: ReadEvent) -> Option<usize> {
    match event {
        ReadEvent::Read(n) => Some(n),
        _ => None,
    }
}

proof fn lemma_filter_map_cons(e: ReadEvent, s: Seq<ReadEvent>)
    ensures
        (seq![e] + s).filter_map(|x: ReadEvent| spec_read_size(x)) == (match spec_read_size(e) {
            Some(n) => seq![n],
            None => Seq::<usize>::empty(),
        }) + s.filter_map(|x: ReadEvent| spec_read_size(x)),
    decreases s.len(),
{
    let f = |x: ReadEvent| spec_read_size(x);
    let head = match spec_read_size(e) {
        Some(n) => seq![n],
        None => Seq::<usize>::empty(),
    };
    let t = seq![e] + s;
    if s.len() == 0 {
        assert(t.drop_last() =~= Seq::<ReadEvent>::empty());
        assert(t.drop_last().filter_map(f) == Seq::<usize>::empty());
        assert(s.filter_map(f) == Seq::<usize>::empty());
        assert(t.last() == e);
        assert(t.filter_map(f) =~= head + s.filter_map(f));
    } else {
        lemma_filter_map_cons(e, s.drop_last());
        assert(t.drop_last() =~= seq![e] + s.drop_last());
        assert(t.last() == s.last());
        match f(s.last()) {
            Some(n) => {
                assert(t.filter_map(f) =~= head + s.filter_map(f));
            },
            None => {
                assert(t.filter_map(f) =~= head + s.filter_map(f));
            },
        }
    }
}

/// Streaming forwards, in order and once each, the chunks of every read
/// before the first end of text or failure (`stop` is its position, or the
/// number of reads if there is none); interrupted reads are retried and lose
/// nothing, nothing after the stop is written, and no chunk is empty.
pub proof fn lemma_stream_forwards_all_reads(events: Seq<ReadEvent>, stop: int)
    requires
        0 <= stop <= events.len(),
        forall|i: int| 0 <= i < stop ==> !spec_is_stop(#[trigger] events[i]),
        stop < events.len() ==> spec_is_stop(events[stop]),
    ensures
        spec_written(events) == events.take(stop).filter_map(|e: ReadEvent| spec_read_size(e)),
        forall|i: int| 0 <= i < spec_written(events).len() ==> #[trigger] spec_written(events)[i] > 0,
    decreases stop,
{
    let f = |e: ReadEvent| spec_read_size(e);
    if stop == 0 {
        assert(events.take(0) =~= Seq::<ReadEvent>::empty());
        assert(events.take(0).filter_map(f) =~= Seq::<usize>::empty());
    } else {
        let rest = events.drop_first();
        assert forall|i: int| 0 <= i < stop - 1 implies !spec_is_stop(#[trigger] rest[i]) by {
            assert(rest[i] == events[i + 1]);
        }
        if stop - 1 < rest.len() {
            assert(rest[stop - 1] == events[stop]);
        }
        lemma_stream_forwards_all_reads(rest, stop - 1);
        assert(!spec_is_stop(events[0]));
        assert(events.take(stop) =~= seq![events[0]] + rest.take(stop - 1));
        lemma_filter_map_cons(events[0], rest.take(stop - 1));
        let tail = spec_written(rest);
        match events[0] {
            ReadEvent::Read(n) => {
                assert(spec_written(events) == seq![n] + tail);
                assert forall|i: int|
                    0 <= i < spec_written(events).len() implies #[trigger] spec_written(events)[i]
                    > 0 by {
                    if i > 0 {
                        assert(spec_written(events)[i] == tail[i - 1]);
                    }
                }
            },
            _ => {},
        }
    }
}

} // verus!
