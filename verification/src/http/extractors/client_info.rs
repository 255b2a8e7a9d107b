//! What a request tells of the client that sent it.
use vstd::prelude::*;

verus! {

/// The address and the user agent of a client, as far as they are known.
pub struct ClientInfo {
    pub ip: Option<String>,
    pub ua: Option<String>,
}

impl ClientInfo {
    /// The client of a request: its address is the one that the connection
    /// reports for the remote end, or else the peer's.
    pub fn resolve(remote: Option<String>, peer: Option<String>, ua: Option<String>) -> (r: Self)
        ensures
            r.ip == (if remote is Some {
                remote
            } else {
                peer
            }),
            r.ua == ua,
    {
        let ip = match remote {
            Some(v) => Some(v),
            None => peer,
        };
        ClientInfo { ip, ua }
    }

    /// The address and the user agent.
    pub fn into_parts(self) -> (r: (Option<String>, Option<String>))
        ensures
            r.0 == self.ip,
            r.1 == self.ua,
    {
        (self.ip, self.ua)
    }
}

} // verus!
