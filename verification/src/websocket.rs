use vstd::prelude::*;

verus! {

/// What a client's socket gave the server.
pub enum SocketEvent {
    /// A text message.
    Text(String),
    /// Any other message: binary data, a ping, a pong or a close frame.
    Other,
    /// The receive failed, or the socket closed.
    Gone,
}

/// What the server does with a socket event.
#[derive(Clone, Copy, Debug, PartialEq, Eq, Structural)]
pub enum SocketAction {
    /// Send the client the current radar data.
    SendRadarData,
    /// Wait for the next message.
    Ignore,
    /// Drop the client.
    Stop,
}

/// The one request a client makes.
pub open spec fn request_info() -> Seq<char> {
    "requestInfo"@
}

/// The server's answer to a socket event: the radar data for the text `requestInfo`,
/// nothing for any other message, and the end of the connection where the client is gone.
pub fn on_event(ev: &SocketEvent) -> (r: SocketAction)
    ensures
        match ev {
            SocketEvent::Text(t) => if t@ == request_info() {
                r == SocketAction::SendRadarData
            } else {
                r == SocketAction::Ignore
            },
            SocketEvent::Other => r == SocketAction::Ignore,
            SocketEvent::Gone => r == SocketAction::Stop,
        },
{
    match ev {
        SocketEvent::Text(t) => {
            let request = "requestInfo".to_owned();
            if *t == request {
                SocketAction::SendRadarData
            } else {
                SocketAction::Ignore
            }
        },
        SocketEvent::Other => SocketAction::Ignore,
        SocketEvent::Gone => SocketAction::Stop,
    }
}

/// The text sent for a request: the radar data as JSON, or `error` where it could not be
/// turned into JSON.
pub fn reply_body(json: Option<String>) -> (r: String)
    ensures
        match json {
            Some(j) => r@ == j@,
            None => r@ == "error"@,
        },
{
    match json {
        Some(j) => j,
        None => "error".to_owned(),
    }
}

} // verus!
