//! Bytes between the host and a session that it manages.
use vstd::prelude::*;

use crate::host_managed::{
    bytes_fed, bytes_read, ends_line, fed, framed, lines, on_one_line, read_amount, unframed,
    ReaderStep,
};

verus! {

/// A message is put on the wire byte for byte, with a line end behind it where
/// it has none.
pub proof fn framing_adds_a_line_end(bytes: Seq<u8>)
    ensures
        framed(bytes).take(bytes.len() as int) == bytes,
        framed(bytes).len() > 0 && framed(bytes)[framed(bytes).len() - 1] == 10,
        bytes.len() > 0 && bytes[bytes.len() - 1] == 10 ==> framed(bytes) == bytes,
        bytes.len() == 0 || bytes[bytes.len() - 1] != 10 ==> framed(bytes) == bytes.push(10),
{
    assert(framed(bytes).take(bytes.len() as int) =~= bytes);
}

/// A line is taken off the wire byte for byte, without the one line end behind
/// it.
pub proof fn unframing_takes_one_line_end_off(bytes: Seq<u8>)
    ensures
        unframed(bytes.push(10)) == bytes,
        bytes.len() == 0 || bytes[bytes.len() - 1] != 10 ==> unframed(bytes) == bytes,
        ends_line(bytes) <==> bytes.len() > 0 && bytes[bytes.len() - 1] == 10,
{
    assert(bytes.push(10).drop_last() =~= bytes);
}

/// As many bytes are read as are there, or as there is room for.
pub proof fn reading_fills_the_room(unread: Seq<u8>, room: nat)
    ensures
        read_amount(unread, room) <= unread.len(),
        read_amount(unread, room) <= room,
        read_amount(unread, room) == unread.len() || read_amount(unread, room) == room,
{
}

/// Messages stand on the wire one behind the other; so do chunks that are fed
/// and bytes that are read, and nothing else counts.
pub proof fn bytes_add_up(
    messages: Seq<Seq<u8>>,
    message: Seq<u8>,
    steps: Seq<ReaderStep>,
    room: nat,
)
    ensures
        fed(Seq::<Seq<u8>>::empty()).len() == 0,
        fed(messages.push(message)) == fed(messages) + framed(message),
        bytes_read(Seq::<Seq<u8>>::empty()).len() == 0,
        bytes_read(messages.push(message)) == bytes_read(messages) + message,
        bytes_fed(Seq::<ReaderStep>::empty()).len() == 0,
        bytes_fed(steps.push(ReaderStep::Chunk(message))) == bytes_fed(steps) + message,
        bytes_fed(steps.push(ReaderStep::Read(room))) == bytes_fed(steps),
        bytes_fed(steps.push(ReaderStep::End)) == bytes_fed(steps),
{
    assert(messages.push(message).drop_last() =~= messages);
    assert(steps.push(ReaderStep::Chunk(message)).drop_last() =~= steps);
    assert(steps.push(ReaderStep::Read(room)).drop_last() =~= steps);
    assert(steps.push(ReaderStep::End).drop_last() =~= steps);
}

/// The lines of bytes, each with its line end, and what is left behind the last
/// one make up the bytes; and no line holds a line end.
pub proof fn lines_make_up_the_bytes(bytes: Seq<u8>)
    ensures
        with_ends(lines(bytes).0) + lines(bytes).1 == bytes,
        forall|i: int, j: int|
            0 <= i < lines(bytes).0.len() && 0 <= j < lines(bytes).0[i].len()
                ==> #[trigger] lines(bytes).0[i][j] != 10,
        forall|j: int| 0 <= j < lines(bytes).1.len() ==> #[trigger] lines(bytes).1[j] != 10,
    decreases bytes.len(),
{
    if bytes.len() > 0 {
        let fewer = bytes.drop_last();
        lines_make_up_the_bytes(fewer);
        let before = lines(fewer);
        assert(bytes =~= fewer.push(bytes.last()));
        if bytes.last() == 10 {
            let all = before.0.push(before.1);
            assert(all.drop_last() =~= before.0);
            assert(with_ends(all) == with_ends(before.0) + before.1.push(10));
            assert(with_ends(all) + Seq::<u8>::empty() =~= bytes);
        } else {
            assert(with_ends(before.0) + before.1.push(bytes.last()) =~= bytes);
        }
    }
}

/// Lines one behind the other, each with its line end.
pub open spec fn with_ends(all: Seq<Seq<u8>>) -> Seq<u8>
    decreases all.len(),
{
    if all.len() == 0 {
        seq![]
    } else {
        with_ends(all.drop_last()) + all.last().push(10)
    }
}

/// Bytes stand on one line where none of them is a line end.
pub proof fn one_line_has_no_line_end(bytes: Seq<u8>)
    ensures
        on_one_line(bytes) <==> !bytes.contains(10),
{
}

} // verus!
