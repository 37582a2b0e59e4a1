//! The handshake that a new connection has to pass where one is asked for.
//!
//! The server waits for one frame. If it carries an identity that the
//! authenticator accepts, the server acknowledges and the connection is
//! admitted. Otherwise the server rejects and closes where a frame came, and
//! the handshake has failed.

use vstd::prelude::*;
use bytes::Bytes;
use crate::addr::PeerAddr;
use crate::error::RepError;
use crate::message::AuthMessage;

verus! {

/// Decides which identities may connect.
pub trait Authenticator {
    /// Whether a client presenting `id` is admitted.
    fn authenticate(&self, id: &Bytes) -> bool;
}

/// What the server saw while it waited for the client's first frame.
pub enum AuthInbound {
    /// A frame arrived.
    Frame(AuthMessage),
    /// Something arrived that is no frame; the text says what was wrong.
    BadFrame(String),
    /// The connection ended.
    Closed,
}

/// A connection that passed the handshake.
#[derive(Debug)]
pub struct AuthResult {
    /// The identity that the client presented.
    pub id: Bytes,
    /// The address of the client.
    pub addr: PeerAddr,
}

/// How the server goes on after the client's first frame.
#[derive(Debug)]
pub struct Verdict {
    /// The frame to send and flush, if any.
    pub reply: Option<AuthMessage>,
    /// Whether to close the connection after that.
    pub close: bool,
    /// What the handshake comes to, provided that sending goes well.
    pub outcome: Result<AuthResult, RepError>,
}

/// Whether `inbound` is a frame that presents an identity.
pub open spec fn presents_identity(inbound: AuthInbound) -> bool {
    inbound matches AuthInbound::Frame(AuthMessage::Auth(_))
}

/// Whether `v` is the way to go on after `inbound` from `addr`, where
/// `accepted` is the authenticator's answer to the identity presented. The
/// answer matters only if an identity was presented.
pub open spec fn is_verdict(v: Verdict, addr: PeerAddr, inbound: AuthInbound, accepted: bool) -> bool {
    match inbound {
        AuthInbound::Closed => {
            &&& v.reply is None
            &&& !v.close
            &&& v.outcome matches Err(RepError::SocketClosed)
        },
        AuthInbound::BadFrame(what) => {
            &&& v.reply is None
            &&& !v.close
            &&& v.outcome matches Err(RepError::Auth(why))
            &&& why == what
        },
        AuthInbound::Frame(AuthMessage::Auth(id)) => if accepted {
            &&& v.reply matches Some(AuthMessage::Ack)
            &&& !v.close
            &&& v.outcome matches Ok(admitted)
            &&& admitted.id == id
            &&& admitted.addr == addr
        } else {
            &&& v.reply matches Some(AuthMessage::Reject)
            &&& v.close
            &&& v.outcome matches Err(RepError::Auth(why))
            &&& why@ == "Authentication failed"@
        },
        AuthInbound::Frame(_) => {
            &&& v.reply matches Some(AuthMessage::Reject)
            &&& v.close
            &&& v.outcome matches Err(RepError::Auth(why))
            &&& why@ == "Invalid auth message"@
        },
    }
}

/// Decides how to go on after the client's first frame, given the
/// authenticator's answer to the identity in it.
pub fn decide(addr: PeerAddr, inbound: AuthInbound, accepted: bool) -> (v: Verdict)
    ensures
        is_verdict(v, addr, inbound, accepted),
{
    match inbound {
        AuthInbound::Closed => Verdict {
            reply: None,
            close: false,
            outcome: Err(RepError::SocketClosed),
        },
        AuthInbound::BadFrame(what) => Verdict {
            reply: None,
            close: false,
            outcome: Err(RepError::Auth(what)),
        },
        AuthInbound::Frame(AuthMessage::Auth(id)) => {
            if accepted {
                Verdict {
                    reply: Some(AuthMessage::Ack),
                    close: false,
                    outcome: Ok(AuthResult { id, addr }),
                }
            } else {
                Verdict {
                    reply: Some(AuthMessage::Reject),
                    close: true,
                    outcome: Err(RepError::Auth("Authentication failed".to_owned())),
                }
            }
        },
        AuthInbound::Frame(_) => Verdict {
            reply: Some(AuthMessage::Reject),
            close: true,
            outcome: Err(RepError::Auth("Invalid auth message".to_owned())),
        },
    }
}

/// Decides how to go on after the client's first frame, asking
/// `authenticator` about the identity if the frame presents one.
///
/// Without an identity the verdict does not depend on the authenticator. With
/// one, it is the verdict for acceptance or the one for refusal.
pub fn respond<A: Authenticator + ?Sized>(
    authenticator: &A,
    addr: PeerAddr,
    inbound: AuthInbound,
) -> (v: Verdict)
    ensures
        !presents_identity(inbound) ==> is_verdict(v, addr, inbound, false),
        presents_identity(inbound) ==> is_verdict(v, addr, inbound, true) || is_verdict(
            v,
            addr,
            inbound,
            false,
        ),
{
    let accepted = match &inbound {
        AuthInbound::Frame(AuthMessage::Auth(id)) => authenticator.authenticate(id),
        _ => false,
    };
    decide(addr, inbound, accepted)
}

/// What the handshake comes to once the verdict's frame has been sent:
/// the error of sending, if there was one, else the verdict's outcome.
pub fn conclude(verdict: Verdict, sent: Result<(), RepError>) -> (r: Result<AuthResult, RepError>)
    ensures
        r == (match sent {
            Ok(_) => verdict.outcome,
            Err(e) => Err(e),
        }),
{
    match sent {
        Ok(_) => verdict.outcome,
        Err(e) => Err(e),
    }
}

} // verus!
