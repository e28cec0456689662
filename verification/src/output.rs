//! The multi-stream output aggregator.
//!
//! An engine that produces several named artifacts is handed an
//! [`OutputAggregator`]. For each artifact it asks for a [`StreamWriter`];
//! whatever it writes through any of them lands in one shared text buffer,
//! each artifact introduced once by a header line.
//!
//! The rules of a single write are those of [`Channel::write_to`], which works
//! on an [`OutputBuffer`] that the caller owns and says exactly what it
//! appends. A [`StreamWriter`] applies the same step to the shared buffer
//! while it holds the buffer's lock, so no two writes interleave.

use crate::shared::{
    acquire, final_text, guarded_buffer, initial_text, new_lock, release_buffer, share,
    sole_owner,
};
use crate::text::{string_with_capacity, text_of_bytes};
use parking_lot::lock_api::Mutex;
use parking_lot::RawMutex;
use std::sync::Arc;
use vstd::prelude::*;
use vstd::utf8::*;

verus! {

/// Where a channel stands: before or after its header line.
#[derive(Clone, Copy, Debug, PartialEq, Eq, Structural)]
pub enum WriterState {
    AwaitingFirstWrite,
    HeaderEmitted,
}

/// Why a write was refused.
#[derive(Clone, Copy, Debug, PartialEq, Eq, Structural)]
pub enum WriteError {
    /// The bytes were not valid UTF-8; nothing was appended.
    InvalidData,
}

impl WriteError {
    pub fn message(&self) -> (text: String)
        ensures
            text@ == "Tried to write out invalid UTF-8."@,
    {
        "Tried to write out invalid UTF-8.".to_string()
    }
}

/// The mathematical value of a channel.
pub struct ChannelModel {
    pub location_key: Seq<char>,
    pub content_kind: Seq<char>,
    pub state: WriterState,
}

/// The line that introduces an artifact, with the blank line after it.
pub open spec fn header_line(location_key: Seq<char>, content_kind: Seq<char>) -> Seq<char> {
    "Writing out file '"@ + location_key + "' ("@ + content_kind + "):\n\n"@
}

/// What parts a new artifact from what the buffer already holds.
pub open spec fn separator_for(buffer: Seq<char>) -> Seq<char> {
    if buffer.len() == 0 {
        Seq::empty()
    } else {
        "\n\n"@
    }
}

/// A channel on which nothing has been written.
pub open spec fn fresh_channel(location_key: Seq<char>, content_kind: Seq<char>) -> ChannelModel {
    ChannelModel { location_key, content_kind, state: WriterState::AwaitingFirstWrite }
}

/// The buffer after `channel` is asked to write `bytes` to `buffer`.
pub open spec fn buffer_after_write(buffer: Seq<char>, channel: ChannelModel, bytes: Seq<u8>) -> Seq<
    char,
> {
    if !valid_utf8(bytes) {
        buffer
    } else if channel.state == WriterState::AwaitingFirstWrite {
        buffer + separator_for(buffer) + header_line(channel.location_key, channel.content_kind)
            + decode_utf8(bytes)
    } else {
        buffer + decode_utf8(bytes)
    }
}

/// The channel after it is asked to write `bytes`.
pub open spec fn channel_after_write(channel: ChannelModel, bytes: Seq<u8>) -> ChannelModel {
    if valid_utf8(bytes) {
        ChannelModel { state: WriterState::HeaderEmitted, ..channel }
    } else {
        channel
    }
}

/// What a write of `bytes` reports.
pub open spec fn write_result(bytes: Seq<u8>) -> Result<usize, WriteError> {
    if valid_utf8(bytes) {
        Ok(bytes.len() as usize)
    } else {
        Err(WriteError::InvalidData)
    }
}

/// A growable text buffer: what the artifacts written so far add up to.
#[derive(Debug)]
pub struct OutputBuffer {
    text: String,
}

impl View for OutputBuffer {
    type V = Seq<char>;

    closed spec fn view(&self) -> Seq<char> {
        self.text@
    }
}

/// The size, in bytes, that a new buffer has room for: 4 MiB, about what
/// one run of the engine writes.
pub const EXPECTED_OUTPUT_BYTES: usize = 4194304;

impl OutputBuffer {
    /// An empty buffer with room for [`EXPECTED_OUTPUT_BYTES`].
    pub fn new() -> (buffer: OutputBuffer)
        ensures
            buffer@ == Seq::<char>::empty(),
    {
        OutputBuffer { text: string_with_capacity(EXPECTED_OUTPUT_BYTES) }
    }

    pub fn is_empty(&self) -> (empty: bool)
        ensures
            empty == (self@.len() == 0),
    {
        self.text.as_str().is_empty()
    }

    pub fn as_str(&self) -> (text: &str)
        ensures
            text@ == self@,
    {
        self.text.as_str()
    }

    /// Gives up the buffer for its text.
    pub fn into_text(self) -> (text: String)
        ensures
            text@ == self@,
    {
        self.text
    }
}

/// One named output channel: an artifact's name, its content kind, and
/// whether its header line is out yet.
pub struct Channel {
    location_key: String,
    content_kind: String,
    state: WriterState,
}

impl View for Channel {
    type V = ChannelModel;

    closed spec fn view(&self) -> ChannelModel {
        ChannelModel {
            location_key: self.location_key@,
            content_kind: self.content_kind@,
            state: self.state,
        }
    }
}

impl Channel {
    pub fn new(location_key: &str, content_kind: &str) -> (channel: Channel)
        ensures
            channel@ == fresh_channel(location_key@, content_kind@),
    {
        Channel {
            location_key: location_key.to_owned(),
            content_kind: content_kind.to_owned(),
            state: WriterState::AwaitingFirstWrite,
        }
    }

    pub fn state(&self) -> (state: WriterState)
        ensures
            state == self@.state,
    {
        self.state
    }

    pub fn location_key(&self) -> (key: &str)
        ensures
            key@ == self@.location_key,
    {
        self.location_key.as_str()
    }

    pub fn content_kind(&self) -> (kind: &str)
        ensures
            kind@ == self@.content_kind,
    {
        self.content_kind.as_str()
    }

    /// Appends `bytes`, as text, to `buffer`.
    ///
    /// Bytes that are not valid UTF-8 are refused and change nothing. The
    /// first accepted write puts the artifact's header line before the text,
    /// and a blank line before that if the buffer already holds something.
    /// On success the result is the number of bytes taken, which is all of
    /// them.
    pub fn write_to(&mut self, buffer: &mut OutputBuffer, bytes: &[u8]) -> (r: Result<
        usize,
        WriteError,
    >)
        ensures
            r == write_result(bytes@),
            final(buffer)@ == buffer_after_write(old(buffer)@, old(self)@, bytes@),
            final(self)@ == channel_after_write(old(self)@, bytes@),
    {
        let ghost before = buffer@;
        match text_of_bytes(bytes) {
            None => Err(WriteError::InvalidData),
            Some(text) => {
                match self.state {
                    WriterState::AwaitingFirstWrite => {
                        if !buffer.is_empty() {
                            buffer.text.append("\n\n");
                        }
                        buffer.text.append("Writing out file '");
                        buffer.text.append(self.location_key.as_str());
                        buffer.text.append("' (");
                        buffer.text.append(self.content_kind.as_str());
                        buffer.text.append("):\n\n");
                        self.state = WriterState::HeaderEmitted;
                        assert(buffer@ == before + separator_for(before) + header_line(
                            self.location_key@,
                            self.content_kind@,
                        ));
                    },
                    WriterState::HeaderEmitted => {},
                }
                buffer.text.append(text);
                Ok(bytes.len())
            },
        }
    }
}

/// A handle through which one artifact is written to a shared buffer.
pub struct StreamWriter {
    shared: Arc<Mutex<RawMutex, OutputBuffer>>,
    channel: Channel,
}

impl View for StreamWriter {
    type V = ChannelModel;

    closed spec fn view(&self) -> ChannelModel {
        self.channel@
    }
}

impl StreamWriter {
    /// The shared buffer that this writer appends to.
    pub closed spec fn target(&self) -> Mutex<RawMutex, OutputBuffer> {
        *self.shared
    }

    pub fn state(&self) -> (state: WriterState)
        ensures
            state == self@.state,
    {
        self.channel.state()
    }

    /// Appends `bytes` to the shared buffer as one uninterrupted step: the
    /// buffer's lock is held while [`Channel::write_to`] runs on it.
    ///
    /// What the buffer held when the lock was taken depends on the other
    /// writers, so the contract speaks of the result and of this writer only.
    pub fn write(&mut self, bytes: &[u8]) -> (r: Result<usize, WriteError>)
        ensures
            r == write_result(bytes@),
            final(self)@ == channel_after_write(old(self)@, bytes@),
            final(self).target() == old(self).target(),
    {
        let mut locked = acquire(&self.shared);
        let buffer = guarded_buffer(&mut locked);
        self.channel.write_to(buffer, bytes)
    }

    /// Does nothing: every write is in the buffer when it returns.
    pub fn flush(&mut self) -> (r: Result<(), WriteError>)
        ensures
            r is Ok,
            *final(self) == *old(self),
    {
        Ok(())
    }
}

/// Owner of the shared buffer and maker of the writers that fill it.
pub struct OutputAggregator {
    shared: Arc<Mutex<RawMutex, OutputBuffer>>,
}

impl OutputAggregator {
    /// The shared buffer that this aggregator owns.
    pub closed spec fn target(&self) -> Mutex<RawMutex, OutputBuffer> {
        *self.shared
    }

    /// An aggregator over a new, empty buffer.
    pub fn new() -> (aggregator: OutputAggregator)
        ensures
            initial_text(aggregator.target()) == Seq::<char>::empty(),
    {
        OutputAggregator { shared: Arc::new(new_lock(OutputBuffer::new())) }
    }

    /// A writer for the artifact `location_key` of kind `content_kind`.
    ///
    /// Making a writer leaves the buffer alone: the writer starts out
    /// awaiting its first write.
    pub fn new_writer(&self, location_key: &str, content_kind: &str) -> (writer: StreamWriter)
        ensures
            writer@ == fresh_channel(location_key@, content_kind@),
            writer.target() == self.target(),
    {
        StreamWriter { shared: share(&self.shared), channel: Channel::new(location_key, content_kind) }
    }

    /// Gives up the aggregator for the text gathered so far, or `None` while
    /// a writer made from it still exists.
    ///
    /// The text, when given, is the one that the aggregator's lock gives
    /// back: everything its writers appended, in the order of their writes.
    pub fn into_contents(self) -> (contents: Option<String>)
        ensures
            contents matches Some(text) ==> text@ == final_text(self.target()),
    {
        match sole_owner(self.shared) {
            Some(lock) => Some(release_buffer(lock).into_text()),
            None => None,
        }
    }
}

} // verus!
