//! What a buffer holds after several channels have written to it in turn.
//!
//! A [`Session`] is the buffer together with the channels that write to it;
//! a [`WriteCall`] names one of them and the bytes it is given. Replaying a
//! sequence of calls applies [`buffer_after_write`] and
//! [`channel_after_write`] once per call, which is what the executable
//! writers do while they hold the buffer's lock. The proof functions below
//! state what every such replay satisfies.

use crate::output::{
    buffer_after_write, channel_after_write, fresh_channel, header_line, separator_for,
    ChannelModel, WriterState,
};
use vstd::prelude::*;
use vstd::utf8::*;

verus! {

/// One write: the channel that makes it and the bytes it passes.
pub struct WriteCall {
    pub writer: int,
    pub bytes: Seq<u8>,
}

/// A buffer and the channels that share it, each under its own number.
pub struct Session {
    pub buffer: Seq<char>,
    pub channels: Map<int, ChannelModel>,
}

/// The session after one call. A call by a channel that the session does not
/// know changes nothing.
pub open spec fn after_call(session: Session, call: WriteCall) -> Session {
    if session.channels.dom().contains(call.writer) {
        let channel = session.channels[call.writer];
        Session {
            buffer: buffer_after_write(session.buffer, channel, call.bytes),
            channels: session.channels.insert(
                call.writer,
                channel_after_write(channel, call.bytes),
            ),
        }
    } else {
        session
    }
}

/// The session after `calls`, first to last.
pub open spec fn after_calls(session: Session, calls: Seq<WriteCall>) -> Session
    decreases calls.len(),
{
    if calls.len() == 0 {
        session
    } else {
        after_calls(after_call(session, calls.first()), calls.drop_first())
    }
}

/// The text that `calls` carry, in order.
pub open spec fn written_text(calls: Seq<WriteCall>) -> Seq<char>
    decreases calls.len(),
{
    if calls.len() == 0 {
        Seq::empty()
    } else {
        decode_utf8(calls.first().bytes) + written_text(calls.drop_first())
    }
}

/// Every call in `calls` is made by `writer` and carries valid UTF-8.
pub open spec fn all_accepted_from(calls: Seq<WriteCall>, writer: int) -> bool {
    forall|i: int|
        0 <= i < calls.len() ==> (#[trigger] calls[i]).writer == writer && valid_utf8(
            calls[i].bytes,
        )
}

/// A session with one more channel, on which nothing has been written.
pub open spec fn with_fresh_channel(
    session: Session,
    writer: int,
    location_key: Seq<char>,
    content_kind: Seq<char>,
) -> Session {
    Session {
        buffer: session.buffer,
        channels: session.channels.insert(writer, fresh_channel(location_key, content_kind)),
    }
}

/// A channel that is never written to contributes nothing: whatever its
/// name and kind, the buffer ends up as it would have without the channel,
/// and the channel is still awaiting its first write.
pub proof fn lemma_silent_channel_contributes_nothing(
    session: Session,
    writer: int,
    location_key: Seq<char>,
    content_kind: Seq<char>,
    calls: Seq<WriteCall>,
)
    requires
        !session.channels.dom().contains(writer),
        forall|i: int| 0 <= i < calls.len() ==> (#[trigger] calls[i]).writer != writer,
    ensures
        after_calls(with_fresh_channel(session, writer, location_key, content_kind), calls)
            == with_fresh_channel(
            after_calls(session, calls),
            writer,
            location_key,
            content_kind,
        ),
        !after_calls(session, calls).channels.dom().contains(writer),
    decreases calls.len(),
{
    if calls.len() > 0 {
        let first = calls.first();
        let rest = calls.drop_first();
        let joined = with_fresh_channel(session, writer, location_key, content_kind);
        let stepped = after_call(session, first);
        assert(first.writer != writer);
        assert(after_call(joined, first).channels =~= with_fresh_channel(
            stepped,
            writer,
            location_key,
            content_kind,
        ).channels);
        assert(after_call(joined, first) == with_fresh_channel(
            stepped,
            writer,
            location_key,
            content_kind,
        ));
        assert forall|i: int| 0 <= i < rest.len() implies (#[trigger] rest[i]).writer != writer by {
            assert(rest[i] == calls[i + 1]);
        }
        lemma_silent_channel_contributes_nothing(stepped, writer, location_key, content_kind, rest);
    }
}

/// Once a channel's header is out, its accepted writes append their text and
/// nothing else.
pub proof fn lemma_no_second_header(session: Session, writer: int, calls: Seq<WriteCall>)
    requires
        session.channels.dom().contains(writer),
        session.channels[writer].state == WriterState::HeaderEmitted,
        all_accepted_from(calls, writer),
    ensures
        after_calls(session, calls).buffer == session.buffer + written_text(calls),
        after_calls(session, calls).channels == session.channels,
    decreases calls.len(),
{
    if calls.len() > 0 {
        let first = calls.first();
        let rest = calls.drop_first();
        let stepped = after_call(session, first);
        assert(first == calls[0]);
        assert(stepped.channels =~= session.channels);
        assert forall|i: int| 0 <= i < rest.len() implies (#[trigger] rest[i]).writer == writer
            && valid_utf8(rest[i].bytes) by {
            assert(rest[i] == calls[i + 1]);
        }
        lemma_no_second_header(stepped, writer, rest);
        assert(session.buffer + decode_utf8(first.bytes) + written_text(rest) =~= session.buffer
            + written_text(calls));
    } else {
        assert(session.buffer + written_text(calls) =~= session.buffer);
    }
}

/// A fresh channel that makes one or more accepted writes adds exactly one
/// header line, naming its artifact and kind, followed by the text of its
/// writes in order; the header is parted from earlier content by a blank line.
pub proof fn lemma_one_header_then_text(
    session: Session,
    writer: int,
    location_key: Seq<char>,
    content_kind: Seq<char>,
    calls: Seq<WriteCall>,
)
    requires
        session.channels.dom().contains(writer),
        session.channels[writer] == fresh_channel(location_key, content_kind),
        calls.len() > 0,
        all_accepted_from(calls, writer),
    ensures
        after_calls(session, calls).buffer == session.buffer + separator_for(session.buffer)
            + header_line(location_key, content_kind) + written_text(calls),
        after_calls(session, calls).channels[writer].state == WriterState::HeaderEmitted,
{
    let first = calls.first();
    let rest = calls.drop_first();
    let stepped = after_call(session, first);
    assert(first == calls[0]);
    assert forall|i: int| 0 <= i < rest.len() implies (#[trigger] rest[i]).writer == writer
        && valid_utf8(rest[i].bytes) by {
        assert(rest[i] == calls[i + 1]);
    }
    lemma_no_second_header(stepped, writer, rest);
    assert(stepped.buffer + written_text(rest) =~= session.buffer + separator_for(session.buffer)
        + header_line(location_key, content_kind) + written_text(calls));
}

/// A header line is never empty.
pub proof fn lemma_header_line_not_empty(location_key: Seq<char>, content_kind: Seq<char>)
    ensures
        header_line(location_key, content_kind).len() > 0,
{
    reveal_strlit("Writing out file '");
    reveal_strlit("' (");
    reveal_strlit("):\n\n");
}

/// Two fresh channels that each make one accepted write leave both headers
/// and both texts in the buffer, in the order of the writes, with exactly one
/// blank line between the first text and the second header.
pub proof fn lemma_two_channels_in_first_write_order(
    session: Session,
    first: int,
    first_key: Seq<char>,
    first_kind: Seq<char>,
    first_bytes: Seq<u8>,
    second: int,
    second_key: Seq<char>,
    second_kind: Seq<char>,
    second_bytes: Seq<u8>,
)
    requires
        first != second,
        session.channels.dom().contains(first),
        session.channels.dom().contains(second),
        session.channels[first] == fresh_channel(first_key, first_kind),
        session.channels[second] == fresh_channel(second_key, second_kind),
        valid_utf8(first_bytes),
        valid_utf8(second_bytes),
    ensures
        after_calls(
            session,
            seq![
                WriteCall { writer: first, bytes: first_bytes },
                WriteCall { writer: second, bytes: second_bytes },
            ],
        ).buffer == session.buffer + separator_for(session.buffer) + header_line(
            first_key,
            first_kind,
        ) + decode_utf8(first_bytes) + "\n\n"@ + header_line(second_key, second_kind)
            + decode_utf8(second_bytes),
{
    let one = WriteCall { writer: first, bytes: first_bytes };
    let two = WriteCall { writer: second, bytes: second_bytes };
    let calls = seq![one, two];
    let middle = after_call(session, one);
    let end = after_call(middle, two);
    lemma_header_line_not_empty(first_key, first_kind);
    assert(calls.drop_first() =~= seq![two]);
    assert(seq![two].drop_first() =~= Seq::<WriteCall>::empty());
    assert(after_calls(end, Seq::<WriteCall>::empty()) == end);
    assert(after_calls(middle, seq![two]) == end);
    assert(after_calls(session, calls) == end);
    assert(middle.buffer.len() > 0);
}

/// A write only ever adds to the end of the buffer, and an accepted write
/// adds its text last: nothing written before is changed or dropped.
pub proof fn lemma_write_appends(buffer: Seq<char>, channel: ChannelModel, bytes: Seq<u8>)
    ensures
        buffer.is_prefix_of(buffer_after_write(buffer, channel, bytes)),
        valid_utf8(bytes) ==> decode_utf8(bytes).is_suffix_of(
            buffer_after_write(buffer, channel, bytes),
        ),
{
    let after = buffer_after_write(buffer, channel, bytes);
    if valid_utf8(bytes) {
        let text = decode_utf8(bytes);
        assert(after.subrange(0, buffer.len() as int) =~= buffer);
        assert(after.subrange(after.len() - text.len(), after.len() as int) =~= text);
    } else {
        assert(after.subrange(0, buffer.len() as int) =~= buffer);
    }
}

/// Whatever the calls, the buffer they leave begins with the buffer they
/// found.
pub proof fn lemma_calls_append(session: Session, calls: Seq<WriteCall>)
    ensures
        session.buffer.is_prefix_of(after_calls(session, calls).buffer),
    decreases calls.len(),
{
    if calls.len() == 0 {
        assert(session.buffer.subrange(0, session.buffer.len() as int) =~= session.buffer);
    } else {
        let stepped = after_call(session, calls.first());
        let end = after_calls(stepped, calls.drop_first()).buffer;
        if session.channels.dom().contains(calls.first().writer) {
            lemma_write_appends(
                session.buffer,
                session.channels[calls.first().writer],
                calls.first().bytes,
            );
        } else {
            assert(session.buffer.subrange(0, session.buffer.len() as int) =~= session.buffer);
        }
        lemma_calls_append(stepped, calls.drop_first());
        assert(end.subrange(0, session.buffer.len() as int) =~= stepped.buffer.subrange(
            0,
            session.buffer.len() as int,
        ));
    }
}

/// A write of bytes that are not valid UTF-8 leaves the buffer and the
/// channel exactly as they were: no header, no part of the bytes.
pub proof fn lemma_refused_write_changes_nothing(
    buffer: Seq<char>,
    channel: ChannelModel,
    bytes: Seq<u8>,
)
    requires
        !valid_utf8(bytes),
    ensures
        buffer_after_write(buffer, channel, bytes) == buffer,
        channel_after_write(channel, bytes) == channel,
{
}

} // verus!
