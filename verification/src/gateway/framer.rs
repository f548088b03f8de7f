//! Framing of a compressed gateway stream. The whole connection is one
//! zlib stream; a message ends where the stream was flushed, which shows as
//! four fixed bytes.

use crate::text::chars_of;
use crate::text::trim_bounds;
use crate::text::trimmed;
use flate2::Decompress;
use flate2::FlushDecompress;
use std::string::FromUtf8Error;
use vstd::prelude::*;
use vstd::string::StringExecFns;
use vstd::utf8::decode_utf8;
use vstd::utf8::valid_utf8;

verus! {

/// The room that is made for what one round of inflating gives.
pub const MESSAGE_CAPACITY: usize = 262144;

/// A message is given up after this many rounds of inflating.
pub const MAX_ROUNDS: usize = 4096;

/// `flate2::Decompress`: the state of a decompression stream.
#[verifier::external_type_specification]
#[verifier::external_body]
pub struct ExDecompress(Decompress);

/// `std::string::FromUtf8Error`: why bytes are no UTF-8 text.
#[verifier::external_type_specification]
#[verifier::external_body]
pub struct ExFromUtf8Error(FromUtf8Error);

/// `String::from_utf8` of the standard library: the text that the bytes
/// encode in UTF-8, or an error where they encode none.
pub assume_specification[ String::from_utf8 ](bytes: Vec<u8>) -> (r: Result<String, FromUtf8Error>)
    ensures
        r is Ok <==> valid_utf8(bytes@),
        r matches Ok(s) ==> s@ == decode_utf8(bytes@),
;

/// How many bytes a stream has taken in since it was made.
pub uninterp spec fn stream_taken(d: Decompress) -> u64;

/// `Decompress::new` of the crate `flate2`, for a stream with a zlib
/// header: a stream at its start, which has taken in nothing yet.
#[verifier::external_body]
fn new_stream() -> (d: Decompress)
    ensures
        stream_taken(d) == 0,
{
    Decompress::new(true)
}

/// `Decompress::total_in` of the crate `flate2`: how many bytes the
/// stream has taken in so far.
#[verifier::external_body]
fn stream_total_in(d: &Decompress) -> (n: u64)
    ensures
        n == stream_taken(*d),
{
    d.total_in()
}

/// `Decompress::decompress_vec` of the crate `flate2`, with a sync flush:
/// feeds bytes of `input` to the stream and appends what comes out to
/// `out`, as far as `out` has room. What was in `out` stays. An error
/// says that the stream is corrupt.
#[verifier::external_body]
fn inflate_sync(d: &mut Decompress, input: &[u8], out: &mut Vec<u8>) -> (r: Result<(), String>)
    ensures
        final(out)@.len() >= old(out)@.len(),
        final(out)@.subrange(0, old(out)@.len() as int) == old(out)@,
{
    match d.decompress_vec(input, out, FlushDecompress::Sync) {
        Ok(_) => Ok(()),
        Err(e) => Err(e.to_string()),
    }
}

/// Why a message could not be inflated.
#[derive(Debug)]
pub enum InflateError {
    /// The stream says that it is corrupt, in these words.
    Corrupt(String),
    /// The stream takes no more input and gives nothing out, before it
    /// has taken in the whole message.
    Stalled,
    /// The count of bytes that the stream keeps makes no sense.
    LostCount,
    /// The rounds ran out.
    TooLarge,
}

impl InflateError {
    /// The error in words.
    pub open spec fn text(self) -> Seq<char> {
        match self {
            InflateError::Corrupt(why) => why@,
            InflateError::Stalled => "the stream takes no more input"@,
            InflateError::LostCount => "the stream lost count of its input"@,
            InflateError::TooLarge => "the message is too large"@,
        }
    }

    /// The error in words.
    pub fn to_text(self) -> (s: String)
        ensures
            s@ == self.text(),
    {
        match self {
            InflateError::Corrupt(why) => why,
            InflateError::Stalled => String::from_str("the stream takes no more input"),
            InflateError::LostCount => String::from_str("the stream lost count of its input"),
            InflateError::TooLarge => String::from_str("the message is too large"),
        }
    }
}

/// Inflates one message. The stream is fed in rounds, each with fresh
/// room for what comes out, until it takes nothing in and gives nothing
/// out: `judge_round` says how each round went. A message is inflated
/// only when the stream has taken in every byte of it. It is an error
/// when the stream says that it is corrupt, when it stops before it has
/// taken in the whole message, when its count of bytes makes no sense,
/// and when the rounds run out; but for a corrupt stream, the count then
/// tells how far the stream came.
fn inflate_message(stream: &mut Decompress, chunk: Vec<u8>) -> (r: Result<Vec<u8>, InflateError>)
    ensures
        match r {
            Ok(_) => stream_taken(*final(stream)) == stream_taken(*old(stream)) + chunk@.len(),
            Err(InflateError::Stalled) => stream_taken(*old(stream)) <= stream_taken(*final(stream))
                < stream_taken(*old(stream)) + chunk@.len(),
            Err(InflateError::LostCount) => stream_taken(*final(stream)) != stream_taken(
                *old(stream),
            ) + chunk@.len(),
            Err(InflateError::TooLarge) => stream_taken(*old(stream)) <= stream_taken(
                *final(stream),
            ) <= stream_taken(*old(stream)) + chunk@.len(),
            Err(InflateError::Corrupt(_)) => true,
        },
{
    let ghost start = stream_taken(*stream) as int;
    let ghost whole = chunk@.len() as int;
    let mut pending = chunk;
    let mut out: Vec<u8> = Vec::new();
    let mut rounds: usize = 0;
    while rounds < MAX_ROUNDS
        invariant
            rounds <= MAX_ROUNDS,
            start == stream_taken(*old(stream)),
            whole == chunk@.len(),
            pending@.len() <= whole,
            stream_taken(*stream) == start + (whole - pending@.len()),
        decreases MAX_ROUNDS - rounds,
    {
        let before = stream_total_in(stream);
        let had = out.len();
        out.reserve(MESSAGE_CAPACITY);
        if let Err(why) = inflate_sync(stream, pending.as_slice(), &mut out) {
            return Err(InflateError::Corrupt(why));
        }
        let after = stream_total_in(stream);
        match judge_round(before, after, pending.len(), had, out.len()) {
            Round::Taken(taken) => {
                pending = pending.split_off(taken);
            },
            Round::Finished => {
                return Ok(out);
            },
            Round::Stalled => {
                return Err(InflateError::Stalled);
            },
            Round::LostCount => {
                return Err(InflateError::LostCount);
            },
        }
        rounds += 1;
    }
    Err(InflateError::TooLarge)
}

/// Whether the four bytes that end a message stand at `i` in `buf`.
pub open spec fn suffix_at(buf: Seq<u8>, i: int) -> bool {
    0 <= i && i + 4 <= buf.len() && buf[i] == 0x00 && buf[i + 1] == 0x00 && buf[i + 2] == 0xFF
        && buf[i + 3] == 0xFF
}

/// The first place at or after `i` where a message ends in `buf`, if any.
pub open spec fn suffix_from(buf: Seq<u8>, i: int) -> Option<int>
    decreases buf.len() - i,
{
    if i < 0 || i + 4 > buf.len() {
        None
    } else if suffix_at(buf, i) {
        Some(i)
    } else {
        suffix_from(buf, i + 1)
    }
}

/// The first place in `buf` where a message ends, if any.
pub open spec fn first_suffix(buf: Seq<u8>) -> Option<int> {
    suffix_from(buf, 0)
}

/// The place of the first message end in `buf`, if there is one.
pub fn find_zlib_suffix(buf: &Vec<u8>) -> (r: Option<usize>)
    ensures
        match r {
            Some(pos) => first_suffix(buf@) == Some(pos as int) && pos + 4 <= buf.len(),
            None => first_suffix(buf@) is None,
        },
{
    if buf.len() < 4 {
        return None;
    }
    let mut i: usize = 0;
    while i <= buf.len() - 4
        invariant
            buf.len() >= 4,
            i <= buf.len() - 3,
            suffix_from(buf@, 0) == suffix_from(buf@, i as int),
        decreases buf.len() - i,
    {
        if buf[i] == 0x00 && buf[i + 1] == 0x00 && buf[i + 2] == 0xFF && buf[i + 3] == 0xFF {
            return Some(i);
        }
        i += 1;
    }
    None
}

/// What is left of `buf` once every complete message is taken off its
/// front.
pub open spec fn remainder(buf: Seq<u8>) -> Seq<u8>
    decreases buf.len(),
{
    match first_suffix(buf) {
        Some(pos) if 0 <= pos && pos + 4 <= buf.len() => remainder(
            buf.subrange(pos + 4, buf.len() as int),
        ),
        _ => buf,
    }
}

/// The number of complete messages in `buf`.
pub open spec fn message_count(buf: Seq<u8>) -> nat
    decreases buf.len(),
{
    match first_suffix(buf) {
        Some(pos) if 0 <= pos && pos + 4 <= buf.len() => 1 + message_count(
            buf.subrange(pos + 4, buf.len() as int),
        ),
        _ => 0,
    }
}

/// Taking the first message off `buf` leaves the same remainder and one
/// message less.
proof fn lemma_first_message(buf: Seq<u8>, pos: int)
    requires
        first_suffix(buf) == Some(pos),
        0 <= pos,
        pos + 4 <= buf.len(),
    ensures
        remainder(buf) == remainder(buf.subrange(pos + 4, buf.len() as int)),
        message_count(buf) == 1 + message_count(buf.subrange(pos + 4, buf.len() as int)),
{
}

/// Where no message ends, all of `buf` is left.
proof fn lemma_no_message(buf: Seq<u8>)
    requires
        first_suffix(buf) is None,
    ensures
        remainder(buf) == buf,
{
}

/// What one inflated message is worth.
#[derive(Debug)]
pub enum Chunk {
    /// A text for the session.
    Text(String),
    /// Nothing but white space.
    Blank,
    /// Bytes that are no UTF-8 text: the message is dropped.
    NotText,
    /// The stream is corrupt.
    Corrupt(String),
}

/// Judges what came out of the stream for one message: an error of the
/// stream makes it `Corrupt`; bytes that are no UTF-8 text make it
/// `NotText`; a text of white space alone is `Blank`; any other text is
/// handed on as it is.
pub fn judge_chunk(inflated: Result<Vec<u8>, String>) -> (c: Chunk)
    ensures
        match inflated {
            Err(why) => c matches Chunk::Corrupt(m) && m@ == why@,
            Ok(bytes) => if !valid_utf8(bytes@) {
                c is NotText
            } else if trimmed(decode_utf8(bytes@)).len() == 0 {
                c is Blank
            } else {
                c matches Chunk::Text(s) && s@ == decode_utf8(bytes@)
            },
        },
{
    match inflated {
        Err(why) => Chunk::Corrupt(why),
        Ok(bytes) => match String::from_utf8(bytes) {
            Err(_) => Chunk::NotText,
            Ok(s) => {
                let v = chars_of(s.as_str());
                assert(v@.subrange(0, v.len() as int) =~= s@);
                let b = trim_bounds(&v, 0, v.len());
                if b.0 == b.1 {
                    Chunk::Blank
                } else {
                    Chunk::Text(s)
                }
            },
        },
    }
}

/// What a batch of compressed bytes gave.
#[derive(Debug)]
pub struct Framed {
    /// The texts of the messages that the bytes completed, in order.
    pub texts: Vec<String>,
    /// Why the stream is corrupt, if it is: the connection is of no use
    /// any more.
    pub corrupt: Option<String>,
}

/// Takes the first complete message off the front of `buffer`, with the
/// four bytes that end it, where there is one: these are the bytes that
/// go to the stream. What stands behind it stays in `buffer`.
pub fn take_message(buffer: &mut Vec<u8>) -> (chunk: Option<Vec<u8>>)
    ensures
        match chunk {
            Some(c) => first_suffix(old(buffer)@) matches Some(pos) && c@ == old(buffer)@.subrange(
                0,
                pos + 4,
            ) && final(buffer)@ == old(buffer)@.subrange(pos + 4, old(buffer)@.len() as int),
            None => first_suffix(old(buffer)@) is None && final(buffer)@ == old(buffer)@,
        },
{
    match find_zlib_suffix(buffer) {
        None => None,
        Some(pos) => {
            let mut chunk = buffer.split_off(pos + 4);
            core::mem::swap(buffer, &mut chunk);
            Some(chunk)
        },
    }
}

/// The number of bytes that the complete messages of `buf` take up.
pub open spec fn messages_len(buf: Seq<u8>) -> int {
    buf.len() - remainder(buf).len()
}

/// A message ends inside `buf`, at or after the place from which it
/// was looked for.
proof fn lemma_suffix_bounds(buf: Seq<u8>, i: int)
    requires
        0 <= i,
    ensures
        suffix_from(buf, i) matches Some(pos) ==> i <= pos && pos + 4 <= buf.len() && suffix_at(
            buf,
            pos,
        ),
    decreases buf.len() - i,
{
    if i + 4 <= buf.len() && !suffix_at(buf, i) {
        lemma_suffix_bounds(buf, i + 1);
    }
}

/// The framer of one connection: the stream, and the bytes that do not
/// make a whole message yet.
pub struct ZlibFramer {
    stream: Decompress,
    buffer: Vec<u8>,
}

impl ZlibFramer {
    /// The bytes that wait for the rest of their message.
    pub closed spec fn buffered(&self) -> Seq<u8> {
        self.buffer@
    }

    /// How many bytes the stream has taken in.
    pub closed spec fn taken(&self) -> u64 {
        stream_taken(self.stream)
    }

    /// A framer at the start of a connection.
    pub fn new() -> (f: Self)
        ensures
            f.buffered() == Seq::<u8>::empty(),
            f.taken() == 0,
    {
        ZlibFramer { stream: new_stream(), buffer: Vec::new() }
    }

    /// Takes in the bytes of one binary frame and hands out the texts of
    /// the messages that are now complete. Each complete message is cut
    /// off the buffer by `take_message` and goes to the stream, in
    /// order; `judge_chunk` says what comes of it. Incomplete bytes stay
    /// for the next call. While the stream is sound it takes in every
    /// byte of every complete message. When the stream is corrupt the
    /// buffer is emptied. Bytes that complete no message leave the
    /// stream alone and give no text and no error.
    pub fn push(&mut self, data: &[u8]) -> (framed: Framed)
        ensures
            framed.corrupt is None ==> final(self).buffered() == remainder(
                old(self).buffered() + data@,
            ),
            framed.corrupt is None ==> final(self).taken() == old(self).taken() + messages_len(
                old(self).buffered() + data@,
            ),
            framed.corrupt is Some ==> final(self).buffered() == Seq::<u8>::empty(),
            message_count(old(self).buffered() + data@) == 0 ==> (framed.corrupt is None
                && framed.texts@.len() == 0 && final(self).taken() == old(self).taken()),
            first_suffix(final(self).buffered()) is None,
            framed.texts@.len() <= message_count(old(self).buffered() + data@),
            forall|k: int|
                0 <= k < framed.texts@.len() ==> trimmed((#[trigger] framed.texts@[k])@).len() > 0,
    {
        self.buffer.extend_from_slice(data);
        let ghost all = self.buffer@;
        let mut texts: Vec<String> = Vec::new();
        loop
            invariant
                all == old(self).buffer@ + data@,
                remainder(self.buffer@) == remainder(all),
                self.buffer@.len() <= all.len(),
                stream_taken(self.stream) == stream_taken(old(self).stream) + (all.len()
                    - self.buffer@.len()),
                texts@.len() + message_count(self.buffer@) <= message_count(all),
                message_count(all) == 0 ==> self.buffer@ == all,
                forall|k: int| 0 <= k < texts@.len() ==> trimmed((#[trigger] texts@[k])@).len() > 0,
            decreases self.buffer@.len(),
        {
            let ghost before = self.buffer@;
            let chunk = match take_message(&mut self.buffer) {
                Some(chunk) => chunk,
                None => {
                    proof {
                        lemma_no_message(self.buffer@);
                    }
                    return Framed { texts, corrupt: None };
                },
            };
            proof {
                let pos = first_suffix(before)->0;
                lemma_suffix_bounds(before, 0);
                lemma_first_message(before, pos);
            }
            let inflated = match inflate_message(&mut self.stream, chunk) {
                Ok(bytes) => Ok(bytes),
                Err(e) => Err(e.to_text()),
            };
            match judge_chunk(inflated) {
                Chunk::Text(s) => {
                    texts.push(s);
                },
                Chunk::Blank => {},
                Chunk::NotText => {},
                Chunk::Corrupt(why) => {
                    self.buffer.clear();
                    assert(first_suffix(self.buffer@) is None);
                    return Framed { texts, corrupt: Some(why) };
                },
            }
        }
    }
}

/// How one round of inflating went.
#[derive(Debug, Clone, Copy, PartialEq, Eq, Structural)]
pub enum Round {
    /// The stream took in so many bytes of what was pending, or gave
    /// something out: the next round goes on after those bytes.
    Taken(usize),
    /// The stream took nothing in and gave nothing out, and nothing is
    /// pending: the message is whole.
    Finished,
    /// The stream took nothing in and gave nothing out, while bytes are
    /// pending.
    Stalled,
    /// The count of the stream went back, or went further than there
    /// were bytes pending.
    LostCount,
}

/// How a round went, in which the count of bytes that the stream has
/// taken in went from `before` to `after`, with `pending` bytes handed to
/// it, and in which what came out grew in length from `had` to `has`.
pub open spec fn round_spec(before: u64, after: u64, pending: usize, had: usize, has: usize) -> Round {
    if after < before || after - before > pending {
        Round::LostCount
    } else if after == before && has == had {
        if pending == 0 {
            Round::Finished
        } else {
            Round::Stalled
        }
    } else {
        Round::Taken((after - before) as usize)
    }
}

/// Judges one round of inflating by the counts before and after it: see
/// `round_spec`. The bytes that a round is said to have taken are never
/// more than were pending.
pub fn judge_round(before: u64, after: u64, pending: usize, had: usize, has: usize) -> (round: Round)
    ensures
        round == round_spec(before, after, pending, had, has),
        round matches Round::Taken(taken) ==> taken <= pending,
{
    if after < before || after - before > pending as u64 {
        Round::LostCount
    } else if after == before && has == had {
        if pending == 0 {
            Round::Finished
        } else {
            Round::Stalled
        }
    } else {
        Round::Taken((after - before) as usize)
    }
}

} // verus!
