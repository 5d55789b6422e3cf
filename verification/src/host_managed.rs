//! The byte transport of a session whose host supplies the frames.
//!
//! The host feeds one message per call; a message is a line. Messages for the
//! host are handed over without the end of their line.
use vstd::prelude::*;

use crate::text;

verus! {

/// The byte that ends a line.
pub const NEWLINE: u8 = 10;

/// A frame ends its line.
pub open spec fn ends_line(bytes: Seq<u8>) -> bool {
    bytes.len() > 0 && bytes.last() == NEWLINE
}

/// A message as it is fed to the session: a line.
pub open spec fn framed(bytes: Seq<u8>) -> Seq<u8> {
    if ends_line(bytes) {
        bytes
    } else {
        bytes.push(NEWLINE)
    }
}

/// A line as it is handed to the host: without its end.
pub open spec fn unframed(bytes: Seq<u8>) -> Seq<u8> {
    if ends_line(bytes) {
        bytes.drop_last()
    } else {
        bytes
    }
}

/// Makes a line of a message.
pub fn frame_inbound(bytes: &[u8]) -> (r: Vec<u8>)
    ensures
        r@ == framed(bytes@),
{
    let mut frame: Vec<u8> = Vec::new();
    let mut i: usize = 0;
    while i < bytes.len()
        invariant
            i <= bytes@.len(),
            frame@ == bytes@.take(i as int),
        decreases bytes@.len() - i,
    {
        frame.push(bytes[i]);
        assert(bytes@.take(i + 1) =~= bytes@.take(i as int).push(bytes@[i as int]));
        i = i + 1;
    }
    assert(bytes@.take(bytes@.len() as int) =~= bytes@);
    if bytes.len() == 0 || bytes[bytes.len() - 1] != NEWLINE {
        frame.push(NEWLINE);
    }
    frame
}

/// Takes the end off a line.
pub fn frame_outbound(bytes: &[u8]) -> (r: &[u8])
    ensures
        r@ == unframed(bytes@),
{
    let n: usize = bytes.len();
    if n > 0 && bytes[n - 1] == NEWLINE {
        let r = vstd::slice::slice_subrange(bytes, 0, n - 1);
        assert(r@ =~= bytes@.drop_last());
        r
    } else {
        bytes
    }
}

/// What came of handing a frame to the host, from the code that its callback
/// returned. A write counts as a whole, with the end of the line.
pub fn write_outcome(buffer_len: usize, code: i32) -> (r: Result<usize, String>)
    ensures
        code == 0 ==> (r matches Err(reason) && reason@ == "host send callback failed"@),
        code != 0 ==> r == Ok::<usize, String>(buffer_len),
{
    if code == 0 {
        Err("host send callback failed".to_string())
    } else {
        Ok(buffer_len)
    }
}

/// The bytes that the session reads, as they come from the host.
#[derive(Debug)]
pub struct Reader {
    pending: Vec<u8>,
    offset: usize,
    done: bool,
}

/// What a read came to.
#[derive(Clone, Copy, Debug, PartialEq, Eq, Structural)]
pub enum ReadStep {
    /// This many bytes have been read.
    Ready(usize),
    /// The next chunk is needed first.
    NeedChunk,
}

/// How many bytes a read takes.
pub open spec fn read_amount(unread: Seq<u8>, room: nat) -> nat {
    if unread.len() <= room {
        unread.len()
    } else {
        room
    }
}

impl Reader {
    /// The position lies within what has come.
    pub closed spec fn wf(self) -> bool {
        self.offset <= self.pending@.len()
    }

    /// What has come and has not been read.
    pub closed spec fn unread(self) -> Seq<u8> {
        self.pending@.skip(self.offset as int)
    }

    /// Nothing more will come.
    pub closed spec fn ended(self) -> bool {
        self.done
    }

    pub fn new() -> (r: Self)
        ensures
            r.wf(),
            r.unread() == Seq::<u8>::empty(),
            !r.ended(),
    {
        let r = Reader { pending: Vec::new(), offset: 0, done: false };
        assert(r.unread() =~= Seq::<u8>::empty());
        r
    }

    /// Reads into a buffer as much as has come and fits. Where everything has
    /// been read, the next chunk is needed; at the end nothing is read.
    pub fn read(&mut self, buffer: &mut [u8]) -> (r: ReadStep)
        requires
            old(self).wf(),
        ensures
            final(self).wf(),
            final(self).ended() == old(self).ended(),
            final(buffer)@.len() == old(buffer)@.len(),
            old(self).unread().len() > 0 ==> ({
                let n = read_amount(old(self).unread(), old(buffer)@.len());
                &&& r == ReadStep::Ready(n as usize)
                &&& final(buffer)@ == old(self).unread().take(n as int) + old(buffer)@.skip(
                    n as int,
                )
                &&& final(self).unread() == old(self).unread().skip(n as int)
            }),
            old(self).unread().len() == 0 ==> ({
                &&& r == if old(self).ended() {
                    ReadStep::Ready(0)
                } else {
                    ReadStep::NeedChunk
                }
                &&& final(buffer)@ == old(buffer)@
                &&& final(self).unread() == old(self).unread()
            }),
            steps_to(
                *old(self),
                ReaderStep::Read(old(buffer)@.len()),
                final(buffer)@.take(read_amount(old(self).unread(), old(buffer)@.len()) as int),
                *final(self),
            ),
    {
        let ghost room_given = buffer@.len();
        let ghost unread_before = self.unread();
        if self.offset < self.pending.len() {
            let left: usize = self.pending.len() - self.offset;
            let room: usize = buffer.len();
            let n: usize = if left <= room {
                left
            } else {
                room
            };
            let ghost unread = self.unread();
            let ghost given = buffer@;
            let mut i: usize = 0;
            assert(buffer@ =~= unread.take(0) + given.skip(0));
            while i < n
                invariant
                    i <= n <= buffer@.len(),
                    self.offset + n <= self.pending@.len(),
                    self.pending.len() == self.pending@.len(),
                    unread == self.pending@.skip(self.offset as int),
                    given.len() == buffer@.len(),
                    buffer@ == unread.take(i as int) + given.skip(i as int),
                decreases n - i,
            {
                buffer[i] = self.pending[self.offset + i];
                assert(buffer@ =~= unread.take(i + 1) + given.skip(i + 1));
                i = i + 1;
            }
            self.offset = self.offset + n;
            assert(self.unread() =~= unread.skip(n as int));
            assert(buffer@.take(n as int) =~= unread.take(n as int));
            return ReadStep::Ready(n);
        }
        proof {
            let n = read_amount(unread_before, room_given) as int;
            assert(buffer@.take(n) =~= unread_before.take(n));
            assert(unread_before.skip(n) =~= unread_before);
        }
        if self.done {
            ReadStep::Ready(0)
        } else {
            ReadStep::NeedChunk
        }
    }

    /// Takes in the next chunk, once everything before it has been read.
    pub fn accept(&mut self, chunk: Vec<u8>)
        requires
            old(self).unread().len() == 0,
        ensures
            final(self).wf(),
            final(self).unread() == chunk@,
            final(self).ended() == old(self).ended(),
            steps_to(*old(self), ReaderStep::Chunk(chunk@), seq![], *final(self)),
    {
        self.pending = chunk;
        self.offset = 0;
        assert(self.unread() =~= chunk@);
    }

    /// Takes note that nothing more will come.
    pub fn end(&mut self)
        requires
            old(self).wf(),
        ensures
            final(self).wf(),
            final(self).unread() == old(self).unread(),
            final(self).ended(),
            steps_to(*old(self), ReaderStep::End, seq![], *final(self)),
    {
        self.done = true;
    }
}

/// What is done to a reader.
pub enum ReaderStep {
    /// It takes in a chunk.
    Chunk(Seq<u8>),
    /// It is read, with room for so many bytes.
    Read(nat),
    /// It takes note of the end.
    End,
}

/// A reader goes through a step and hands out bytes: a chunk comes where nothing
/// lies unread, and a read takes the front of what does.
pub open spec fn steps_to(before: Reader, step: ReaderStep, out: Seq<u8>, after: Reader) -> bool {
    match step {
        ReaderStep::Chunk(chunk) => {
            &&& before.unread().len() == 0
            &&& out.len() == 0
            &&& after.unread() == chunk
            &&& after.ended() == before.ended()
        },
        ReaderStep::Read(room) => {
            let n = read_amount(before.unread(), room) as int;
            &&& out == before.unread().take(n)
            &&& after.unread() == before.unread().skip(n)
            &&& after.ended() == before.ended()
        },
        ReaderStep::End => {
            &&& out.len() == 0
            &&& after.unread() == before.unread()
            &&& after.ended()
        },
    }
}

/// All the bytes of the chunks among steps.
pub open spec fn bytes_fed(steps: Seq<ReaderStep>) -> Seq<u8>
    decreases steps.len(),
{
    if steps.len() == 0 {
        seq![]
    } else {
        match steps.last() {
            ReaderStep::Chunk(chunk) => bytes_fed(steps.drop_last()) + chunk,
            _ => bytes_fed(steps.drop_last()),
        }
    }
}

/// All the bytes that were handed out.
pub open spec fn bytes_read(outs: Seq<Seq<u8>>) -> Seq<u8>
    decreases outs.len(),
{
    if outs.len() == 0 {
        seq![]
    } else {
        bytes_read(outs.drop_last()) + outs.last()
    }
}

/// A fresh reader goes through steps, from state to state, and hands out bytes
/// at each.
pub open spec fn is_run(
    readers: Seq<Reader>,
    steps: Seq<ReaderStep>,
    outs: Seq<Seq<u8>>,
) -> bool {
    &&& readers.len() == steps.len() + 1
    &&& outs.len() == steps.len()
    &&& readers[0].unread().len() == 0
    &&& forall|i: int|
        0 <= i < steps.len() ==> steps_to(
            readers[i],
            #[trigger] steps[i],
            outs[i],
            readers[i + 1],
        )
}

/// However chunks and reads alternate, what a reader has handed out and what
/// lies unread in it is what it was fed: nothing is lost, doubled or reordered.
pub proof fn nothing_is_lost(
    readers: Seq<Reader>,
    steps: Seq<ReaderStep>,
    outs: Seq<Seq<u8>>,
)
    requires
        is_run(readers, steps, outs),
    ensures
        bytes_read(outs) + readers.last().unread() == bytes_fed(steps),
    decreases steps.len(),
{
    if steps.len() == 0 {
        assert(bytes_read(outs) + readers.last().unread() =~= bytes_fed(steps));
    } else {
        let n = steps.len() - 1;
        let readers0 = readers.drop_last();
        let steps0 = steps.drop_last();
        let outs0 = outs.drop_last();
        assert forall|i: int| 0 <= i < steps0.len() implies steps_to(
            readers0[i],
            #[trigger] steps0[i],
            outs0[i],
            readers0[i + 1],
        ) by {
            assert(steps_to(readers[i], steps[i], outs[i], readers[i + 1]));
        }
        nothing_is_lost(readers0, steps0, outs0);
        let before = readers[n];
        let after = readers[n + 1];
        assert(readers0.last() == before);
        assert(readers.last() == after);
        assert(steps_to(before, steps[n], outs[n], after));
        match steps.last() {
            ReaderStep::Chunk(chunk) => {
                assert(bytes_read(outs) =~= bytes_read(outs0) + before.unread());
                assert(bytes_read(outs) + after.unread() =~= bytes_fed(steps));
            },
            ReaderStep::Read(room) => {
                let taken = read_amount(before.unread(), room) as int;
                assert(before.unread().take(taken) + before.unread().skip(taken)
                    =~= before.unread());
                assert(bytes_read(outs) + after.unread() =~= bytes_read(outs0) + before.unread());
            },
            ReaderStep::End => {
                assert(bytes_read(outs) =~= bytes_read(outs0));
            },
        }
    }
}

/// Every fed message is a line, and framing a line changes nothing; a message
/// without a line end comes out of framing and unframing as it was.
pub proof fn framing_is_undone(bytes: Seq<u8>)
    ensures
        ends_line(framed(bytes)),
        framed(framed(bytes)) == framed(bytes),
        !ends_line(bytes) ==> unframed(framed(bytes)) == bytes,
{
    if !ends_line(bytes) {
        assert(bytes.push(NEWLINE).drop_last() =~= bytes);
    }
}

/// The bytes of messages that are fed one after the other.
pub open spec fn fed(messages: Seq<Seq<u8>>) -> Seq<u8>
    decreases messages.len(),
{
    if messages.len() == 0 {
        seq![]
    } else {
        fed(messages.drop_last()) + framed(messages.last())
    }
}

/// The lines in a run of bytes, without their ends, and what follows the last.
pub open spec fn lines(bytes: Seq<u8>) -> (Seq<Seq<u8>>, Seq<u8>)
    decreases bytes.len(),
{
    if bytes.len() == 0 {
        (seq![], seq![])
    } else {
        let before = lines(bytes.drop_last());
        if bytes.last() == NEWLINE {
            (before.0.push(before.1), seq![])
        } else {
            (before.0, before.1.push(bytes.last()))
        }
    }
}

/// No line ends within the bytes.
pub open spec fn on_one_line(bytes: Seq<u8>) -> bool {
    forall|i: int| 0 <= i < bytes.len() ==> bytes[i] != NEWLINE
}

proof fn lines_of_more(bytes: Seq<u8>, more: Seq<u8>)
    requires
        on_one_line(more),
    ensures
        lines(bytes + more).0 == lines(bytes).0,
        lines(bytes + more).1 == lines(bytes).1 + more,
    decreases more.len(),
{
    if more.len() == 0 {
        assert(bytes + more =~= bytes);
        assert(lines(bytes).1 + more =~= lines(bytes).1);
    } else {
        let fewer = more.drop_last();
        lines_of_more(bytes, fewer);
        assert((bytes + more).drop_last() =~= bytes + fewer);
        assert((bytes + more).last() == more[more.len() - 1]);
        assert(lines(bytes).1 + more =~= (lines(bytes).1 + fewer).push(more.last()));
    }
}

/// Messages arrive one by one: the lines that the session reads are the messages
/// that were fed, in their order and without their line ends, and nothing is
/// left over. A message must not hold a line end within.
pub proof fn messages_arrive_one_by_one(messages: Seq<Seq<u8>>)
    requires
        forall|i: int| 0 <= i < messages.len() ==> on_one_line(unframed(#[trigger] messages[i])),
    ensures
        lines(fed(messages)).0 == messages.map_values(|m: Seq<u8>| unframed(m)),
        lines(fed(messages)).1.len() == 0,
    decreases messages.len(),
{
    let expected = messages.map_values(|m: Seq<u8>| unframed(m));
    if messages.len() == 0 {
        assert(expected =~= seq![]);
    } else {
        let earlier = messages.drop_last();
        let message = messages.last();
        let n = messages.len() - 1;
        assert(on_one_line(unframed(messages[n])));
        assert forall|i: int| 0 <= i < earlier.len() implies on_one_line(
            unframed(#[trigger] earlier[i]),
        ) by {
            assert(earlier[i] == messages[i]);
        }
        messages_arrive_one_by_one(earlier);
        let before = fed(earlier);
        let body = unframed(message);
        lines_of_more(before, body);
        assert(framed(message) =~= body.push(NEWLINE));
        assert(fed(messages) =~= (before + body).push(NEWLINE));
        assert(fed(messages).drop_last() =~= before + body);
        assert(lines(before).1 + body =~= body);
        assert(expected =~= earlier.map_values(|m: Seq<u8>| unframed(m)).push(body));
    }
}

/// A session that the host drives.
#[derive(Debug)]
pub struct OctosHostManaged {
    running: bool,
    feeding: bool,
}

/// What ends a session.
#[derive(Clone, Copy, Debug, PartialEq, Eq, Structural)]
pub struct EndPlan {
    /// Close the feed first, so that the session reads its end.
    pub close_feed: bool,
    /// Then shut the session down within this time, in milliseconds.
    pub shut_down_ms: Option<u64>,
}

impl OctosHostManaged {
    /// The session runs.
    pub closed spec fn runs(self) -> bool {
        self.running
    }

    /// The session can be fed.
    pub closed spec fn is_fed(self) -> bool {
        self.feeding
    }
}

/// Checks what a session is started with: there has to be a callback, and the
/// name of the sandbox has to be readable. The result is that name.
pub fn octos_host_managed_start(has_callback: bool, sandbox: Result<String, String>) -> (r: Result<
    String,
    String,
>)
    ensures
        !has_callback ==> (r matches Err(reason) && reason@ == "a send callback is required"@),
        has_callback ==> match sandbox {
            Ok(name) => r matches Ok(found) && found@ == name@,
            Err(why) => r matches Err(reason) && reason@ == why@,
        },
{
    if !has_callback {
        return Err("a send callback is required".to_string());
    }
    match sandbox {
        Ok(name) => Ok(name),
        Err(why) => Err(why),
    }
}

/// The session, once its runtime has been built, or why it could not be.
pub fn session_with_runtime(runtime: Result<(), String>) -> (r: Result<OctosHostManaged, String>)
    ensures
        match runtime {
            Ok(_) => r matches Ok(session) && session.runs() && session.is_fed(),
            Err(why) => r matches Err(reason) && reason@ == "failed to build tokio runtime: "@
                + why@,
        },
{
    match runtime {
        Ok(_) => Ok(OctosHostManaged { running: true, feeding: true }),
        Err(why) => Err(text::concat("failed to build tokio runtime: ", why.as_str())),
    }
}

/// What is said of a connection that ended with an error.
pub fn connection_ended(why: &str) -> (r: String)
    ensures
        r@ == "host-managed ACP connection ended: "@ + why@,
{
    text::concat("host-managed ACP connection ended: ", why)
}

/// The frame to feed to a session, where there is a session that can be fed and
/// there are bytes to feed.
pub fn octos_host_managed_feed(handle: Option<&OctosHostManaged>, data: Option<&[u8]>) -> (r:
    Option<Vec<u8>>)
    ensures
        match (handle, data) {
            (Some(session), Some(bytes)) => if session.is_fed() {
                r matches Some(frame) && frame@ == framed(bytes@)
            } else {
                r is None
            },
            _ => r is None,
        },
{
    match handle {
        Some(session) => match data {
            Some(bytes) => if session.feeding {
                Some(frame_inbound(bytes))
            } else {
                None
            },
            None => None,
        },
        None => None,
    }
}

/// The code that a feed returns: one where the frame was queued.
pub fn feed_code(queued: bool) -> (r: i32)
    ensures
        r == if queued {
            1
        } else {
            0i32
        },
{
    if queued {
        1
    } else {
        0
    }
}

/// Ends a session: what is still open is closed, the feed first.
pub fn octos_host_managed_free(handle: &mut OctosHostManaged) -> (r: EndPlan)
    ensures
        r.close_feed == old(handle).is_fed(),
        r.shut_down_ms == if old(handle).runs() {
            Some(500u64)
        } else {
            None
        },
        !final(handle).runs(),
        !final(handle).is_fed(),
{
    let plan = EndPlan {
        close_feed: handle.feeding,
        shut_down_ms: if handle.running {
            Some(500)
        } else {
            None
        },
    };
    handle.feeding = false;
    handle.running = false;
    plan
}

} // verus!
