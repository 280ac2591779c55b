//! The autoreload WebSocket: what the server sends to a browser when the build state changes,
//! and how it answers what the browser sends.
use vstd::prelude::*;

verus! {

/// A message to the browser.
#[derive(Clone, Debug, PartialEq, Eq)]
pub enum ClientMessage {
    Reload,
    BuildFailure { reason: String },
}

/// The state of the last build.
#[derive(Clone, Debug, PartialEq, Eq)]
pub enum State {
    Success,
    Failed { reason: String },
}

impl Default for State {
    fn default() -> (res: State)
        ensures
            res is Success,
    {
        State::Success
    }
}

/// What the browser sent, or that its connection ended.
#[derive(Clone, Debug)]
pub enum BrowserEvent {
    /// A close frame, with its reason's code and text when it has one.
    Close,
    /// A ping with its payload.
    Ping { payload: Vec<u8> },
    /// Any other message.
    Other,
    /// An error on the connection.
    Error,
    /// The connection is gone.
    Gone,
}

/// Something the session reacts to.
#[derive(Clone, Debug)]
pub enum WsEvent {
    Browser(BrowserEvent),
    /// A new build state, or none when its source closed.
    BuildState(Option<State>),
}

/// What the session does.
#[derive(Clone, Debug)]
pub enum WsAction {
    /// Echo the close frame, close the socket and end.
    CloseAndEnd,
    /// Answer a ping with a pong carrying its payload.
    Pong { payload: Vec<u8> },
    /// Nothing.
    Ignore,
    /// End the session.
    End,
    /// Send a message to the browser (ending the session if that fails).
    Send(ClientMessage),
}

/// One autoreload WebSocket session.
#[derive(Clone, Debug)]
pub struct WsSession {
    /// No message has been sent yet.
    pub first: bool,
}

impl WsSession {
    /// A new session.
    pub fn new() -> (res: WsSession)
        ensures
            res.first,
    {
        WsSession { first: true }
    }

    /// React to an event. A successful build state that would be the first message sent after
    /// connecting is dropped, as it would reload the page right away; a failed build is always
    /// reported, and after it a success reloads.
    pub fn step(&mut self, event: WsEvent) -> (res: WsAction)
        ensures
            match event {
                WsEvent::Browser(b) => final(self).first == old(self).first && (match b {
                    BrowserEvent::Close => res is CloseAndEnd,
                    BrowserEvent::Ping { payload } => (res matches WsAction::Pong { payload: p } && p@ == payload@),
                    BrowserEvent::Other => res is Ignore,
                    BrowserEvent::Error | BrowserEvent::Gone => res is End,
                }),
                WsEvent::BuildState(None) => res is End && final(self).first == old(self).first,
                WsEvent::BuildState(Some(State::Success)) => if old(self).first {
                    res is Ignore && !final(self).first
                } else {
                    (res matches WsAction::Send(ClientMessage::Reload)) && !final(self).first
                },
                WsEvent::BuildState(Some(State::Failed { reason })) => !final(self).first
                    && (res matches WsAction::Send(ClientMessage::BuildFailure { reason: r }) && r@ == reason@),
            },
    {
        match event {
            WsEvent::Browser(b) => match b {
                BrowserEvent::Close => WsAction::CloseAndEnd,
                BrowserEvent::Ping { payload } => WsAction::Pong { payload },
                BrowserEvent::Other => WsAction::Ignore,
                BrowserEvent::Error => WsAction::End,
                BrowserEvent::Gone => WsAction::End,
            },
            WsEvent::BuildState(None) => WsAction::End,
            WsEvent::BuildState(Some(State::Success)) => {
                if self.first {
                    self.first = false;
                    WsAction::Ignore
                } else {
                    WsAction::Send(ClientMessage::Reload)
                }
            },
            WsEvent::BuildState(Some(State::Failed { reason })) => {
                self.first = false;
                WsAction::Send(ClientMessage::BuildFailure { reason })
            },
        }
    }
}

} // verus!
