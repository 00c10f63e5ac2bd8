//! The pumps of a session: PTY output to the client, child stderr to the log.
use vstd::prelude::*;
use crate::platform::Platform;

verus! {

/// Read buffer size for the PTY master pump.
pub const MASTER_BUF: usize = 32768;

/// Read buffer size for the stderr pump.
pub const STDERR_BUF: usize = 8192;

/// What a pump is told of its source.
#[derive(Debug)]
pub enum ReadEvent {
    /// The session was cancelled.
    Cancelled,
    /// These bytes were read; none means the end of the stream.
    Data(Vec<u8>),
    /// Reading failed, with this error number where there is one.
    Failed(Option<i32>),
}

/// Why a pump stops.
#[derive(Clone, Copy, Debug, PartialEq, Eq, Structural)]
pub enum End {
    /// The session was cancelled.
    Cancelled,
    /// The stream ended.
    EndOfStream,
    /// The other side of the PTY hung up.
    Hangup,
    /// Reading failed otherwise, which is worth a warning.
    ReadError,
    /// The client's channel is gone.
    ClientGone,
}

/// What is read of a stream by an event: bytes, or the reason why it is over.
pub open spec fn outcome(platform: Platform, event: ReadEvent) -> Result<Seq<u8>, End> {
    match event {
        ReadEvent::Cancelled => Err(End::Cancelled),
        ReadEvent::Data(bytes) => if bytes@.len() == 0 {
            Err(End::EndOfStream)
        } else {
            Ok(bytes@)
        },
        ReadEvent::Failed(errno) => if crate::session::hangup(platform, errno) {
            Err(End::Hangup)
        } else {
            Err(End::ReadError)
        },
    }
}

fn read_outcome(platform: &Platform, event: ReadEvent) -> (r: Result<Vec<u8>, End>)
    ensures
        match (r, outcome(*platform, event)) {
            (Ok(bytes), Ok(expected)) => bytes@ == expected,
            (Err(end), Err(expected)) => end == expected,
            _ => false,
        },
{
    match event {
        ReadEvent::Cancelled => Err(End::Cancelled),
        ReadEvent::Data(bytes) => if bytes.len() == 0 {
            Err(End::EndOfStream)
        } else {
            Ok(bytes)
        },
        ReadEvent::Failed(errno) => if crate::session::is_pty_hangup(platform, errno) {
            Err(End::Hangup)
        } else {
            Err(End::ReadError)
        },
    }
}

/// What the PTY master pump does next.
#[derive(Debug)]
pub enum MasterStep {
    /// Read from the PTY master.
    Read,
    /// Send these bytes to the client.
    Send(Vec<u8>),
    /// Stop.
    Stop(End),
}

/// What the PTY master pump is busy with.
#[derive(Clone, Copy, Debug, PartialEq, Eq, Structural)]
pub enum MasterPhase {
    /// Reading from the PTY master.
    Reading,
    /// Sending to the client.
    Sending,
    /// Nothing any more.
    Stopped,
}

/// The pump from the PTY master to the client.
#[derive(Clone, Copy, Debug)]
pub struct MasterPump {
    /// What it is busy with.
    pub phase: MasterPhase,
}

impl MasterPump {
    /// The state before the first event.
    pub open spec fn starts(self) -> bool {
        self.phase == MasterPhase::Reading
    }

    /// A pump that is about to read.
    pub fn new() -> (r: MasterPump)
        ensures
            r.starts(),
    {
        MasterPump { phase: MasterPhase::Reading }
    }

    /// What was read is sent; the end of the stream stops the pump.
    pub fn after_read(&mut self, platform: &Platform, event: ReadEvent) -> (r: MasterStep)
        requires
            old(self).phase == MasterPhase::Reading,
        ensures
            match outcome(*platform, event) {
                Ok(expected) => {
                    &&& final(self).phase == MasterPhase::Sending
                    &&& r matches MasterStep::Send(bytes)
                    &&& bytes@ == expected
                },
                Err(end) => {
                    &&& final(self).phase == MasterPhase::Stopped
                    &&& r == MasterStep::Stop(end)
                },
            },
            event matches ReadEvent::Data(bytes) ==> bytes@.len() > 0 ==> {
                &&& r matches MasterStep::Send(sent)
                &&& sent@ == bytes@
            },
    {
        match read_outcome(platform, event) {
            Ok(bytes) => {
                self.phase = MasterPhase::Sending;
                MasterStep::Send(bytes)
            },
            Err(end) => {
                self.phase = MasterPhase::Stopped;
                MasterStep::Stop(end)
            },
        }
    }

    /// Reading goes on unless the client's channel is gone.
    pub fn after_send(&mut self, sent: bool) -> (r: MasterStep)
        requires
            old(self).phase == MasterPhase::Sending,
        ensures
            sent ==> final(self).phase == MasterPhase::Reading && r == MasterStep::Read,
            !sent ==> final(self).phase == MasterPhase::Stopped && r == MasterStep::Stop(
                End::ClientGone,
            ),
    {
        if sent {
            self.phase = MasterPhase::Reading;
            MasterStep::Read
        } else {
            self.phase = MasterPhase::Stopped;
            MasterStep::Stop(End::ClientGone)
        }
    }
}

/// A turn of the pump: what it is told of a read, and whether sending what was
/// read succeeds, where there is anything to send.
pub type Turn = (ReadEvent, bool);

/// What is handed to the client in a run of turns: the bytes of each read, until
/// a read gives none or a send fails.
pub open spec fn handed(platform: Platform, turns: Seq<Turn>) -> Seq<u8>
    decreases turns.len(),
{
    if turns.len() == 0 {
        seq![]
    } else {
        match outcome(platform, turns.first().0) {
            Ok(bytes) => if turns.first().1 {
                bytes + handed(platform, turns.drop_first())
            } else {
                bytes
            },
            Err(_) => seq![],
        }
    }
}

/// This event is a read of exactly these bytes.
pub open spec fn delivers(event: ReadEvent, chunk: Seq<u8>) -> bool {
    &&& chunk.len() > 0
    &&& event matches ReadEvent::Data(bytes)
    &&& bytes@ == chunk
}

/// The reads of these turns deliver these chunks.
pub open spec fn reads(turns: Seq<Turn>, chunks: Seq<Seq<u8>>) -> bool {
    &&& turns.len() == chunks.len()
    &&& forall|i: int| #![trigger turns[i]] 0 <= i < turns.len() ==> delivers(turns[i].0, chunks[i])
}

/// The sends of these turns succeed.
pub open spec fn all_sent(turns: Seq<Turn>) -> bool {
    forall|i: int| 0 <= i < turns.len() ==> (#[trigger] turns[i]).1
}

/// While sends succeed, the client is handed the output of the child as it is,
/// whole and in order; what comes later is handed to it behind that.
pub proof fn law_output_is_forwarded(
    platform: Platform,
    chunks: Seq<Seq<u8>>,
    turns: Seq<Turn>,
    later: Seq<Turn>,
)
    requires
        reads(turns, chunks),
        all_sent(turns),
    ensures
        handed(platform, turns + later) == crate::lines::concat(chunks) + handed(platform, later),
    decreases turns.len(),
{
    let all = turns + later;
    if turns.len() == 0 {
        assert(all =~= later);
        assert(crate::lines::concat(chunks) + handed(platform, later) =~= handed(platform, later));
    } else {
        assert(all.first() == turns[0]);
        assert(delivers(turns[0].0, chunks[0]));
        assert(all.drop_first() =~= turns.drop_first() + later);
        law_output_is_forwarded(platform, chunks.drop_first(), turns.drop_first(), later);
        lemma_concat_first(chunks);
        assert(handed(platform, all) =~= crate::lines::concat(chunks) + handed(platform, later));
    }
}

/// The client is handed the output up to the event that ends the stream, and
/// nothing after it.
pub proof fn law_output_ends_with_the_stream(
    platform: Platform,
    chunks: Seq<Seq<u8>>,
    turns: Seq<Turn>,
    end: Turn,
    later: Seq<Turn>,
)
    requires
        reads(turns, chunks),
        all_sent(turns),
        end.0 matches ReadEvent::Data(bytes) ==> bytes@.len() == 0,
    ensures
        handed(platform, turns.push(end) + later) == crate::lines::concat(chunks),
{
    let tail = seq![end] + later;
    law_output_is_forwarded(platform, chunks, turns, tail);
    assert(tail.first() == end);
    assert(turns.push(end) + later =~= turns + tail);
    assert(crate::lines::concat(chunks) + handed(platform, tail) =~= crate::lines::concat(chunks));
}

/// The client is handed the chunks that were read, in order, up to and with the
/// first whose send fails, and nothing after it.
pub proof fn law_output_ends_with_the_client(
    platform: Platform,
    chunks: Seq<Seq<u8>>,
    turns: Seq<Turn>,
    later: Seq<Turn>,
)
    requires
        reads(turns, chunks),
        turns.len() > 0,
        all_sent(turns.drop_last()),
        !turns.last().1,
    ensures
        handed(platform, turns + later) == crate::lines::concat(chunks),
{
    let tail = seq![turns.last()] + later;
    law_output_is_forwarded(platform, chunks.drop_last(), turns.drop_last(), tail);
    assert(tail.first() == turns.last());
    assert(turns + later =~= turns.drop_last() + tail);
}

proof fn lemma_concat_first(chunks: Seq<Seq<u8>>)
    requires
        chunks.len() > 0,
    ensures
        crate::lines::concat(chunks) == chunks.first() + crate::lines::concat(chunks.drop_first()),
    decreases chunks.len(),
{
    let front = chunks.drop_last();
    if front.len() == 0 {
        assert(chunks.drop_first() =~= seq![]);
        assert(front =~= seq![]);
        assert(crate::lines::concat(chunks) =~= chunks.first() + crate::lines::concat(
            chunks.drop_first(),
        ));
    } else {
        lemma_concat_first(front);
        assert(front.drop_first() =~= chunks.drop_first().drop_last());
        assert(front.first() == chunks.first());
        assert(crate::lines::concat(chunks) =~= chunks.first() + crate::lines::concat(
            chunks.drop_first(),
        ));
    }
}

/// The pump from the child's stderr to the log.
#[derive(Debug)]
pub struct StderrPump {
    /// The unfinished line.
    pub pending: Vec<u8>,
    /// Whether it has stopped.
    pub stopped: bool,
}

/// What the stderr pump does on an event.
#[derive(Debug)]
pub struct StderrStep {
    /// The lines to log, in order.
    pub lines: Vec<String>,
    /// Why the pump stops, if it does.
    pub end: Option<End>,
}

/// What is logged of an unfinished line when the pump stops.
pub open spec fn leftover(pending: Seq<u8>) -> Seq<Seq<char>> {
    if pending.len() == 0 {
        seq![]
    } else {
        seq![crate::text::utf8_lossy(pending)]
    }
}

impl StderrPump {
    /// The state before the first event.
    pub open spec fn starts(self) -> bool {
        self.pending@.len() == 0 && !self.stopped
    }

    /// A pump that has read nothing.
    pub fn new() -> (r: StderrPump)
        ensures
            r.starts(),
    {
        StderrPump { pending: Vec::new(), stopped: false }
    }

    /// Finished lines are logged as they come; when the pump stops, what is
    /// left of an unfinished one is logged too.
    pub fn after_read(&mut self, platform: &Platform, event: ReadEvent) -> (r: StderrStep)
        requires
            !old(self).stopped,
        ensures
            match outcome(*platform, event) {
                Ok(bytes) => {
                    &&& crate::text::strings(r.lines@) == crate::lines::texts(
                        crate::lines::lines(old(self).pending@ + bytes),
                    )
                    &&& crate::lines::plain_texts(
                        crate::lines::lines(old(self).pending@ + bytes),
                        crate::text::strings(r.lines@),
                    )
                    &&& r.end is None
                    &&& final(self).pending@ == crate::lines::rest(old(self).pending@ + bytes)
                    &&& !final(self).stopped
                },
                Err(end) => {
                    &&& crate::text::strings(r.lines@) == leftover(old(self).pending@)
                    &&& old(self).pending@.len() > 0 && vstd::utf8::valid_utf8(old(self).pending@)
                        ==> r.lines@[0]@ == vstd::utf8::decode_utf8(old(self).pending@)
                    &&& r.end == Some(end)
                    &&& final(self).pending@.len() == 0
                    &&& final(self).stopped
                },
            },
    {
        match read_outcome(platform, event) {
            Ok(bytes) => {
                let lines = crate::lines::emit_lines(&mut self.pending, bytes.as_slice());
                StderrStep { lines, end: None }
            },
            Err(end) => {
                let mut lines: Vec<String> = Vec::new();
                if self.pending.len() > 0 {
                    lines.push(crate::text::from_utf8_lossy(self.pending.as_slice()));
                }
                assert(crate::text::strings(lines@) =~= leftover(old(self).pending@));
                self.pending = Vec::new();
                self.stopped = true;
                StderrStep { lines, end: Some(end) }
            },
        }
    }
}

/// The unfinished line after a run of chunks.
pub open spec fn pending_after(chunks: Seq<Seq<u8>>) -> Seq<u8>
    decreases chunks.len(),
{
    if chunks.len() == 0 {
        seq![]
    } else {
        crate::lines::rest(pending_after(chunks.drop_last()) + chunks.last())
    }
}

/// The lines that are logged while a run of chunks comes in.
pub open spec fn log_after(chunks: Seq<Seq<u8>>) -> Seq<Seq<char>>
    decreases chunks.len(),
{
    if chunks.len() == 0 {
        seq![]
    } else {
        log_after(chunks.drop_last()) + crate::lines::texts(
            crate::lines::lines(pending_after(chunks.drop_last()) + chunks.last()),
        )
    }
}

/// The log of a stream depends on its bytes alone, not on how they came in:
/// it holds the finished lines of the whole stream, and what is kept back is
/// its unfinished line.
pub proof fn law_log_is_that_of_the_stream(chunks: Seq<Seq<u8>>)
    ensures
        log_after(chunks) == crate::lines::texts(crate::lines::lines(crate::lines::concat(chunks))),
        pending_after(chunks) == crate::lines::rest(crate::lines::concat(chunks)),
    decreases chunks.len(),
{
    if chunks.len() > 0 {
        let before = chunks.drop_last();
        law_log_is_that_of_the_stream(before);
        let a = crate::lines::concat(before);
        let b = chunks.last();
        crate::lines::law_chunks_do_not_matter(a, b);
        let early = crate::lines::lines(a);
        let late = crate::lines::lines(crate::lines::rest(a) + b);
        assert(crate::lines::texts(early + late) =~= crate::lines::texts(early)
            + crate::lines::texts(late));
    } else {
        assert(log_after(chunks) =~= crate::lines::texts(
            crate::lines::lines(crate::lines::concat(chunks)),
        ));
    }
}

/// What a read delivers is taken whole; the end of the stream, a hangup, any
/// other error and a cancellation are told apart, and nothing else ends it.
pub proof fn law_reads_are_taken_whole(
    platform: Platform,
    bytes: Vec<u8>,
    errno: Option<i32>,
)
    ensures
        bytes@.len() > 0 ==> outcome(platform, ReadEvent::Data(bytes)) == Ok::<Seq<u8>, End>(bytes@),
        bytes@.len() == 0 ==> outcome(platform, ReadEvent::Data(bytes)) == Err::<Seq<u8>, End>(
            End::EndOfStream,
        ),
        outcome(platform, ReadEvent::Cancelled) == Err::<Seq<u8>, End>(End::Cancelled),
        errno == Some(platform.eio) ==> outcome(platform, ReadEvent::Failed(errno)) == Err::<
            Seq<u8>,
            End,
        >(End::Hangup),
        errno != Some(platform.eio) ==> outcome(platform, ReadEvent::Failed(errno)) == Err::<
            Seq<u8>,
            End,
        >(End::ReadError),
{
}

/// What is logged of a run of reads by a pump that has kept back an unfinished
/// line: the lines that each read finishes and, once it stops, what is left.
pub open spec fn logged(platform: Platform, pending: Seq<u8>, events: Seq<ReadEvent>) -> Seq<
    Seq<char>,
>
    decreases events.len(),
{
    if events.len() == 0 {
        seq![]
    } else {
        match outcome(platform, events.first()) {
            Ok(bytes) => crate::lines::texts(crate::lines::lines(pending + bytes)) + logged(
                platform,
                crate::lines::rest(pending + bytes),
                events.drop_first(),
            ),
            Err(_) => leftover(pending),
        }
    }
}

/// These events deliver these chunks.
pub open spec fn deliver(events: Seq<ReadEvent>, chunks: Seq<Seq<u8>>) -> bool {
    &&& events.len() == chunks.len()
    &&& forall|i: int| #![trigger events[i]] 0 <= i < events.len() ==> delivers(events[i], chunks[i])
}

/// All of the child's stderr is logged once the stream ends: each finished line,
/// in order, and then the unfinished one as it is, if there is one.
pub proof fn law_all_of_stderr_is_logged(
    platform: Platform,
    chunks: Seq<Seq<u8>>,
    events: Seq<ReadEvent>,
    end: ReadEvent,
    later: Seq<ReadEvent>,
)
    requires
        deliver(events, chunks),
        end matches ReadEvent::Data(bytes) ==> bytes@.len() == 0,
    ensures
        ({
            let stream = crate::lines::concat(chunks);
            let finished = crate::lines::texts(crate::lines::lines(stream));
            let unfinished = crate::lines::rest(stream);
            let log = logged(platform, seq![], events.push(end) + later);
            &&& unfinished.len() == 0 ==> log == finished
            &&& unfinished.len() > 0 ==> log == finished.push(crate::text::utf8_lossy(unfinished))
        }),
{
    lemma_logged(platform, seq![], chunks, events, end, later);
    assert(Seq::<u8>::empty() + crate::lines::concat(chunks) =~= crate::lines::concat(chunks));
    let finished = crate::lines::texts(crate::lines::lines(crate::lines::concat(chunks)));
    let unfinished = crate::lines::rest(crate::lines::concat(chunks));
    assert(unfinished.len() == 0 ==> finished + leftover(unfinished) =~= finished);
    assert(unfinished.len() > 0 ==> finished + leftover(unfinished) =~= finished.push(
        crate::text::utf8_lossy(unfinished),
    ));
}

proof fn lemma_logged(
    platform: Platform,
    pending: Seq<u8>,
    chunks: Seq<Seq<u8>>,
    events: Seq<ReadEvent>,
    end: ReadEvent,
    later: Seq<ReadEvent>,
)
    requires
        deliver(events, chunks),
        end matches ReadEvent::Data(bytes) ==> bytes@.len() == 0,
        crate::lines::rest(pending) == pending,
        crate::lines::lines(pending) == Seq::<Seq<u8>>::empty(),
    ensures
        logged(platform, pending, events.push(end) + later) == crate::lines::texts(
            crate::lines::lines(pending + crate::lines::concat(chunks)),
        ) + leftover(crate::lines::rest(pending + crate::lines::concat(chunks))),
    decreases events.len(),
{
    let all = events.push(end) + later;
    let stream = pending + crate::lines::concat(chunks);
    if events.len() == 0 {
        assert(all.first() == end);
        assert(stream =~= pending);
        assert(crate::lines::texts(crate::lines::lines(stream)) + leftover(pending) =~= leftover(
            pending,
        ));
    } else {
        let a = pending + chunks[0];
        let b = crate::lines::concat(chunks.drop_first());
        assert(all.first() == events[0]);
        assert(delivers(events[0], chunks[0]));
        assert(all.drop_first() =~= events.drop_first().push(end) + later);
        lemma_concat_first(chunks);
        assert(stream =~= a + b);
        crate::lines::law_chunks_do_not_matter(a, b);
        crate::lines::law_chunks_do_not_matter(a, seq![]);
        assert(a + Seq::<u8>::empty() =~= a);
        let kept = crate::lines::rest(a);
        assert(kept + Seq::<u8>::empty() =~= kept);
        assert(crate::lines::lines(kept) =~= Seq::<Seq<u8>>::empty());
        lemma_logged(platform, kept, chunks.drop_first(), events.drop_first(), end, later);
        let early = crate::lines::lines(a);
        let late = crate::lines::lines(kept + b);
        assert(crate::lines::texts(early + late) =~= crate::lines::texts(early)
            + crate::lines::texts(late));
        let last = leftover(crate::lines::rest(kept + b));
        assert((crate::lines::texts(early) + crate::lines::texts(late)) + last
            =~= crate::lines::texts(early) + (crate::lines::texts(late) + last));
    }
}

/// Both pumps start with nothing read and nothing kept back.
pub proof fn law_pumps_start_empty(master: MasterPump, stderr: StderrPump)
    ensures
        master.starts() <==> master.phase == MasterPhase::Reading,
        stderr.starts() <==> stderr.pending@ =~= seq![] && !stderr.stopped,
{
}

} // verus!
