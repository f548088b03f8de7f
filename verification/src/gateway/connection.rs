//! The receiving side of a connection: what each frame of the transport
//! asks of the receive loop.

use crate::error::DiscordError;
use crate::error::ErrorView;
use crate::gateway::framer::first_suffix;
use crate::gateway::framer::message_count;
use crate::gateway::framer::messages_len;
use crate::gateway::framer::remainder;
use crate::gateway::framer::ZlibFramer;
use crate::text::trimmed;
use vstd::prelude::*;
use vstd::string::StringExecFns;

verus! {

/// Why the peer closed the connection.
#[derive(Debug)]
pub struct CloseFrame {
    pub code: u16,
    pub reason: String,
}

/// One frame of the transport, or its failure.
#[derive(Debug)]
pub enum Frame {
    Text(String),
    Binary(Vec<u8>),
    Close(Option<CloseFrame>),
    Ping,
    Pong,
    /// A frame of any other kind.
    Other,
    /// The transport failed, with what it said.
    Failed(String),
}

/// The close code with which the gateway refuses the token.
pub const AUTHENTICATION_FAILED: u16 = 4004;

/// What a frame asks of the receive loop.
#[derive(Debug)]
pub enum FrameAction {
    /// Decode these texts into payloads and handle them, in order.
    Texts(Vec<String>),
    /// Handle these texts as well; then the connection is over, and
    /// another is due.
    End(Vec<String>),
    /// The session is over, with this error: no other connection is
    /// made.
    Fatal(DiscordError),
}

/// What is said where the gateway refuses the token.
pub open spec fn authentication_failed() -> Seq<char> {
    "Authentication failed"@
}

impl Frame {
    /// Whether the frame says that the gateway refuses the token.
    pub open spec fn refuses_token(self) -> bool {
        self matches Frame::Close(Some(close)) && close.code == AUTHENTICATION_FAILED
    }
}

/// The receiving side of one connection.
pub struct Connection {
    framer: Option<ZlibFramer>,
}

impl Connection {
    /// Whether binary frames are inflated.
    pub closed spec fn compressed(&self) -> bool {
        self.framer is Some
    }

    /// The compressed bytes that wait for the rest of their message.
    pub closed spec fn buffered(&self) -> Seq<u8> {
        match self.framer {
            Some(f) => f.buffered(),
            None => Seq::empty(),
        }
    }

    /// How many bytes the stream of the connection has taken in; none
    /// where the connection is not compressed.
    pub closed spec fn taken(&self) -> u64 {
        match self.framer {
            Some(f) => f.taken(),
            None => 0,
        }
    }

    /// Whether the frame leaves the compressed bytes and the stream as
    /// they were.
    pub open spec fn untouched(&self, before: &Connection) -> bool {
        self.buffered() == before.buffered() && self.taken() == before.taken()
    }

    /// The receiving side of a new connection.
    pub fn new(compress: bool) -> (c: Self)
        ensures
            c.compressed() == compress,
            c.buffered() == Seq::<u8>::empty(),
            c.taken() == 0,
    {
        if compress {
            Connection { framer: Some(ZlibFramer::new()) }
        } else {
            Connection { framer: None }
        }
    }

    /// What the frame asks for. A text frame is one text. A binary frame
    /// is inflated where the connection is compressed, and gives the texts
    /// of the messages that it completes, while the stream takes in every
    /// byte of them; a corrupt stream ends the connection, after the
    /// texts that came before it showed. Bytes that complete no message
    /// give no text and do not end the connection. Without compression a
    /// binary frame gives nothing, as do pings, pongs and other frames. A
    /// close frame or a failure of the transport ends the connection; a
    /// close frame that says that the token was refused ends the session.
    pub fn handle_frame(&mut self, frame: Frame) -> (action: FrameAction)
        ensures
            final(self).compressed() == old(self).compressed(),
            match frame {
                Frame::Text(t) => action matches FrameAction::Texts(texts) && texts@ == seq![t]
                    && final(self).untouched(old(self)),
                Frame::Binary(data) => if old(self).compressed() {
                    match action {
                        FrameAction::Texts(texts) => {
                            &&& final(self).buffered() == remainder(old(self).buffered() + data@)
                            &&& final(self).taken() == old(self).taken() + messages_len(
                                old(self).buffered() + data@,
                            )
                            &&& texts@.len() <= message_count(old(self).buffered() + data@)
                            &&& forall|k: int|
                                0 <= k < texts@.len() ==> trimmed((#[trigger] texts@[k])@).len()
                                    > 0
                        },
                        FrameAction::End(texts) => {
                            &&& message_count(old(self).buffered() + data@) > 0
                            &&& final(self).buffered() == Seq::<u8>::empty()
                            &&& texts@.len() <= message_count(old(self).buffered() + data@)
                            &&& forall|k: int|
                                0 <= k < texts@.len() ==> trimmed((#[trigger] texts@[k])@).len()
                                    > 0
                        },
                        FrameAction::Fatal(_) => false,
                    }
                } else {
                    action matches FrameAction::Texts(texts) && texts@.len() == 0 && final(self).untouched(old(self))
                },
                Frame::Close(_) => final(self).untouched(old(self)) && if frame.refuses_token() {
                    action matches FrameAction::Fatal(e) && e@ == ErrorView::Gateway(
                        authentication_failed(),
                    )
                } else {
                    action matches FrameAction::End(texts) && texts@.len() == 0
                },
                Frame::Failed(_) => action matches FrameAction::End(texts) && texts@.len() == 0
                    && final(self).untouched(old(self)),
                _ => action matches FrameAction::Texts(texts) && texts@.len() == 0 && final(self).untouched(old(self)),
            },
            (frame matches Frame::Binary(data) && old(self).compressed() && message_count(
                old(self).buffered() + data@,
            ) == 0) ==> (action matches FrameAction::Texts(texts) && texts@.len() == 0 && final(self).taken() == old(self).taken()),
            first_suffix(old(self).buffered()) is None ==> first_suffix(final(self).buffered())
                is None,
    {
        match frame {
            Frame::Text(t) => {
                let mut texts = Vec::new();
                texts.push(t);
                FrameAction::Texts(texts)
            },
            Frame::Binary(data) => {
                match &mut self.framer {
                    Some(framer) => {
                        let framed = framer.push(data.as_slice());
                        match framed.corrupt {
                            Some(_) => FrameAction::End(framed.texts),
                            None => FrameAction::Texts(framed.texts),
                        }
                    },
                    None => FrameAction::Texts(Vec::new()),
                }
            },
            Frame::Close(close) => {
                let refused = match &close {
                    Some(c) => c.code == AUTHENTICATION_FAILED,
                    None => false,
                };
                if refused {
                    FrameAction::Fatal(
                        DiscordError::Gateway(String::from_str("Authentication failed")),
                    )
                } else {
                    FrameAction::End(Vec::new())
                }
            },
            Frame::Failed(_) => FrameAction::End(Vec::new()),
            _ => FrameAction::Texts(Vec::new()),
        }
    }
}

} // verus!
