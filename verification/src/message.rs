use vstd::prelude::*;

verus! {

/// Why a connection is being closed: a status code and a reason in words.
pub struct CloseFrame {
    pub code: u16,
    pub reason: String,
}

pub struct CloseFrameView {
    pub code: u16,
    pub reason: Seq<char>,
}

impl View for CloseFrame {
    type V = CloseFrameView;

    open spec fn view(&self) -> CloseFrameView {
        CloseFrameView { code: self.code, reason: self.reason@ }
    }
}

/// A message as the host application sends and receives it.
pub enum WebSocketMessage {
    Text(String),
    Binary(Vec<u8>),
    Ping(Vec<u8>),
    Pong(Vec<u8>),
    Close(Option<CloseFrame>),
}

pub enum MessageView {
    Text(Seq<char>),
    Binary(Seq<u8>),
    Ping(Seq<u8>),
    Pong(Seq<u8>),
    Close(Option<CloseFrameView>),
}

impl View for WebSocketMessage {
    type V = MessageView;

    open spec fn view(&self) -> MessageView {
        match *self {
            WebSocketMessage::Text(text) => MessageView::Text(text@),
            WebSocketMessage::Binary(data) => MessageView::Binary(data@),
            WebSocketMessage::Ping(data) => MessageView::Ping(data@),
            WebSocketMessage::Pong(data) => MessageView::Pong(data@),
            WebSocketMessage::Close(frame) => MessageView::Close(
                match frame {
                    Some(frame) => Some(frame@),
                    None => None,
                },
            ),
        }
    }
}

/// The close frame of the wire protocol: the status code as a number and the reason.
pub struct WireClose {
    pub code: u16,
    pub reason: String,
}

pub struct WireCloseView {
    pub code: u16,
    pub reason: Seq<char>,
}

impl View for WireClose {
    type V = WireCloseView;

    open spec fn view(&self) -> WireCloseView {
        WireCloseView { code: self.code, reason: self.reason@ }
    }
}

/// A message as the wire protocol carries it. Besides the five kinds that travel there is
/// the raw frame, which the protocol layer keeps for its own bookkeeping.
pub enum WireMessage {
    Text(String),
    Binary(Vec<u8>),
    Ping(Vec<u8>),
    Pong(Vec<u8>),
    Close(Option<WireClose>),
    Frame,
}

pub enum WireView {
    Text(Seq<char>),
    Binary(Seq<u8>),
    Ping(Seq<u8>),
    Pong(Seq<u8>),
    Close(Option<WireCloseView>),
    Frame,
}

impl View for WireMessage {
    type V = WireView;

    open spec fn view(&self) -> WireView {
        match *self {
            WireMessage::Text(text) => WireView::Text(text@),
            WireMessage::Binary(data) => WireView::Binary(data@),
            WireMessage::Ping(data) => WireView::Ping(data@),
            WireMessage::Pong(data) => WireView::Pong(data@),
            WireMessage::Close(frame) => WireView::Close(
                match frame {
                    Some(frame) => Some(frame@),
                    None => None,
                },
            ),
            WireMessage::Frame => WireView::Frame,
        }
    }
}

/// The wire form of a message: the same kind with the same payload, untouched.
pub open spec fn encoded(message: MessageView) -> WireView {
    match message {
        MessageView::Text(text) => WireView::Text(text),
        MessageView::Binary(data) => WireView::Binary(data),
        MessageView::Ping(data) => WireView::Ping(data),
        MessageView::Pong(data) => WireView::Pong(data),
        MessageView::Close(frame) => WireView::Close(
            match frame {
                Some(frame) => Some(WireCloseView { code: frame.code, reason: frame.reason }),
                None => None,
            },
        ),
    }
}

/// The message that a wire message stands for. A raw frame stands for none.
pub open spec fn decoded(wire: WireView) -> Option<MessageView> {
    match wire {
        WireView::Text(text) => Some(MessageView::Text(text)),
        WireView::Binary(data) => Some(MessageView::Binary(data)),
        WireView::Ping(data) => Some(MessageView::Ping(data)),
        WireView::Pong(data) => Some(MessageView::Pong(data)),
        WireView::Close(frame) => Some(
            MessageView::Close(
                match frame {
                    Some(frame) => Some(CloseFrameView { code: frame.code, reason: frame.reason }),
                    None => None,
                },
            ),
        ),
        WireView::Frame => None,
    }
}

/// Puts a message in its wire form.
pub fn encode(message: WebSocketMessage) -> (wire: WireMessage)
    ensures
        wire@ == encoded(message@),
{
    match message {
        WebSocketMessage::Text(text) => WireMessage::Text(text),
        WebSocketMessage::Binary(data) => WireMessage::Binary(data),
        WebSocketMessage::Ping(data) => WireMessage::Ping(data),
        WebSocketMessage::Pong(data) => WireMessage::Pong(data),
        WebSocketMessage::Close(frame) => WireMessage::Close(
            match frame {
                Some(frame) => Some(WireClose { code: frame.code, reason: frame.reason }),
                None => None,
            },
        ),
    }
}

/// Reads a wire message. A raw frame gives no message.
pub fn decode(wire: WireMessage) -> (message: Option<WebSocketMessage>)
    ensures
        match message {
            Some(message) => decoded(wire@) == Some(message@),
            None => decoded(wire@) is None,
        },
{
    match wire {
        WireMessage::Text(text) => Some(WebSocketMessage::Text(text)),
        WireMessage::Binary(data) => Some(WebSocketMessage::Binary(data)),
        WireMessage::Ping(data) => Some(WebSocketMessage::Ping(data)),
        WireMessage::Pong(data) => Some(WebSocketMessage::Pong(data)),
        WireMessage::Close(frame) => Some(
            WebSocketMessage::Close(
                match frame {
                    Some(frame) => Some(CloseFrame { code: frame.code, reason: frame.reason }),
                    None => None,
                },
            ),
        ),
        WireMessage::Frame => None,
    }
}

/// Decoding what was encoded gives the message back, whatever the message.
pub proof fn law_codec_round_trip(message: MessageView)
    ensures
        decoded(encoded(message)) == Some(message),
{
}

/// Encoding what was decoded gives the wire message back: nothing that travels on the
/// wire is lost in a message.
pub proof fn law_codec_lossless(wire: WireView)
    requires
        wire != WireView::Frame,
    ensures
        decoded(wire) matches Some(message) && encoded(message) == wire,
{
}

/// No message is encoded as a raw frame, and two messages with one wire form are one.
pub proof fn law_codec_injective(first: MessageView, second: MessageView)
    ensures
        encoded(first) != WireView::Frame,
        encoded(first) == encoded(second) ==> first == second,
{
    law_codec_round_trip(first);
    law_codec_round_trip(second);
}

} // verus!
