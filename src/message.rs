//! Events that correlate byte-stream and keyboard activity with a session.

use vstd::prelude::*;

verus! {

/// An event addressed to the session with the given id.
#[derive(Debug, Clone)]
pub enum Message {
    /// Bytes read from the session's pseudo-terminal.
    DataUpdated(u64, Vec<u8>),
    /// A key typed into the session's view.
    CharacterReceived(u64, char),
    /// A poll that brought nothing.
    Ignored(u64),
    /// The session's output has ended: its child process has exited.
    Closed(u64),
}

impl Message {
    /// The id of the session that this event belongs to.
    pub open spec fn session_spec(&self) -> u64 {
        match self {
            Message::DataUpdated(id, _) => *id,
            Message::CharacterReceived(id, _) => *id,
            Message::Ignored(id) => *id,
            Message::Closed(id) => *id,
        }
    }

    /// The event for one poll of session `id`'s output: `None` where the
    /// stream has ended, no bytes where nothing had arrived yet, else the
    /// bytes that arrived.
    pub fn from_read(id: u64, read: Option<Vec<u8>>) -> (r: Message)
        ensures
            read is None ==> r == Message::Closed(id),
            read matches Some(data) ==> data@.len() == 0 ==> r == Message::Ignored(id),
            read matches Some(data) ==> data@.len() > 0 ==> (r matches Message::DataUpdated(i, d)
                && i == id && d@ == data@),
    {
        match read {
            None => Message::Closed(id),
            Some(data) => {
                if data.len() == 0 {
                    Message::Ignored(id)
                } else {
                    Message::DataUpdated(id, data)
                }
            },
        }
    }

    /// The id of the session that this event belongs to.
    pub fn session(&self) -> (r: u64)
        ensures
            r == self.session_spec(),
    {
        match self {
            Message::DataUpdated(id, _) => *id,
            Message::CharacterReceived(id, _) => *id,
            Message::Ignored(id) => *id,
            Message::Closed(id) => *id,
        }
    }
}

} // verus!
