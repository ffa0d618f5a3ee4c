//! The decision on one delivery: which reply it gets, and whether its body is
//! relayed downstream.

use crate::encoding::decoded;
use crate::mac::hmac_sha256;
use crate::signature::{
    lemma_own_signature_verifies, prefix, signature, verification, verify_signature,
    SignatureError,
};
use vstd::prelude::*;
use vstd::string::StringSliceAdditionalSpecFns;

verus! {

/// The largest body that is taken, in bytes: 25 MiB.
pub const BODY_LIMIT: usize = 26214400;

/// What the gateway answers to one delivery.
#[derive(Clone, Copy, Debug, PartialEq, Eq, Structural)]
pub enum Reply {
    /// No signature header came.
    MissingSignature,
    /// The body could not be read, or is over the limit.
    UnreadableBody,
    /// The signature header does not authenticate the body.
    InvalidSignature(SignatureError),
    /// An authentic connectivity check: answered, not relayed.
    Pong,
    /// An authentic event: acknowledged, and relayed in the background.
    Accepted,
}

impl Reply {
    /// The HTTP status of the reply.
    pub open spec fn spec_status(self) -> u16 {
        match self {
            Reply::MissingSignature => 401,
            Reply::UnreadableBody => 400,
            Reply::InvalidSignature(_) => 401,
            Reply::Pong => 200,
            Reply::Accepted => 202,
        }
    }

    /// The text sent with the reply.
    pub open spec fn spec_message(self) -> Seq<char> {
        match self {
            Reply::MissingSignature => "Missing signature"@,
            Reply::UnreadableBody => "Failed to read body"@,
            Reply::InvalidSignature(_) => "Invalid signature"@,
            Reply::Pong => ""@,
            Reply::Accepted => ""@,
        }
    }

    /// Whether the body is handed to the forwarder: only an accepted event is.
    pub open spec fn spec_forwards(self) -> bool {
        self == Reply::Accepted
    }

    #[verifier::when_used_as_spec(spec_status)]
    pub fn status(self) -> (code: u16)
        ensures
            code == self.spec_status(),
    {
        match self {
            Reply::MissingSignature => 401,
            Reply::UnreadableBody => 400,
            Reply::InvalidSignature(_) => 401,
            Reply::Pong => 200,
            Reply::Accepted => 202,
        }
    }

    pub fn message(self) -> (text: &'static str)
        ensures
            text@ == self.spec_message(),
    {
        match self {
            Reply::MissingSignature => "Missing signature",
            Reply::UnreadableBody => "Failed to read body",
            Reply::InvalidSignature(_) => "Invalid signature",
            Reply::Pong => "",
            Reply::Accepted => "",
        }
    }

    #[verifier::when_used_as_spec(spec_forwards)]
    pub fn forwards(self) -> (yes: bool)
        ensures
            yes == self.spec_forwards(),
    {
        match self {
            Reply::Accepted => true,
            _ => false,
        }
    }
}

/// The bytes of `ping`, the event that only checks the connection.
pub open spec fn ping() -> Seq<u8> {
    seq!['p' as u8, 'i' as u8, 'n' as u8, 'g' as u8]
}

/// The reply to a delivery, from the secret and what came with the request,
/// each as bytes: the signature header if any, the body if it could be read,
/// the event header if any. The signature header is asked for first, then a
/// body within the limit, then the signature is checked; only then is the
/// event looked at.
pub open spec fn decision(
    secret: Seq<u8>,
    signature_header: Option<Seq<u8>>,
    body: Option<Seq<u8>>,
    event: Option<Seq<u8>>,
) -> Reply {
    match (signature_header, body) {
        (None, _) => Reply::MissingSignature,
        (Some(_), None) => Reply::UnreadableBody,
        (Some(header), Some(bytes)) => if bytes.len() > BODY_LIMIT {
            Reply::UnreadableBody
        } else {
            match verification(secret, bytes, header) {
                Err(e) => Reply::InvalidSignature(e),
                Ok(_) => if event == Some(ping()) {
                    Reply::Pong
                } else {
                    Reply::Accepted
                },
            }
        },
    }
}

/// The bytes of a header that is text.
pub open spec fn text_bytes(header: Option<&str>) -> Option<Seq<u8>> {
    match header {
        Some(text) => Some(text.spec_bytes()),
        None => None,
    }
}

/// The bytes of a body or of a header that is bytes.
pub open spec fn raw_bytes(part: Option<&[u8]>) -> Option<Seq<u8>> {
    match part {
        Some(bytes) => Some(bytes@),
        None => None,
    }
}

fn is_ping(event: Option<&[u8]>) -> (yes: bool)
    ensures
        yes == (raw_bytes(event) == Some(ping())),
{
    match event {
        None => false,
        Some(name) => {
            let yes = name.len() == 4 && name[0] == 'p' as u8 && name[1] == 'i' as u8
                && name[2] == 'n' as u8 && name[3] == 'g' as u8;
            proof {
                if yes {
                    assert(name@ =~= ping());
                }
            }
            yes
        },
    }
}

/// What the gateway does first, once the headers of a request are in.
#[derive(Clone, Copy, Debug, PartialEq, Eq, Structural)]
pub enum Step {
    /// The reply is already decided; the body is left unread.
    Respond(Reply),
    /// The body is to be read, up to this many bytes, and handed to `handle`.
    ReadBody(usize),
}

/// Decides from the signature header alone whether the body is read: without
/// the header the request is refused at once, and that reply is the one that
/// `handle` gives whatever the body and the event are.
pub fn begin(signature_header: Option<&str>) -> (step: Step)
    ensures
        signature_header is None ==> step == Step::Respond(Reply::MissingSignature),
        signature_header is Some ==> step == Step::ReadBody(BODY_LIMIT),
        forall|secret: Seq<u8>, body: Option<Seq<u8>>, event: Option<Seq<u8>>|
            step matches Step::Respond(reply) ==> reply == #[trigger] decision(
                secret,
                text_bytes(signature_header),
                body,
                event,
            ),
{
    match signature_header {
        None => Step::Respond(Reply::MissingSignature),
        Some(_) => Step::ReadBody(BODY_LIMIT),
    }
}

/// Decides the reply to one delivery. `body` is `None` where the body could
/// not be read; `event` is the value of the event header, if one came.
pub fn handle(
    secret: &str,
    signature_header: Option<&str>,
    body: Option<&[u8]>,
    event: Option<&[u8]>,
) -> (reply: Reply)
    ensures
        reply == decision(
            secret.spec_bytes(),
            text_bytes(signature_header),
            raw_bytes(body),
            raw_bytes(event),
        ),
        signature_header is None ==> reply.status() == 401 && !reply.forwards(),
        signature_header is Some && (body is None || body.unwrap()@.len() > BODY_LIMIT)
            ==> reply.status() == 400 && !reply.forwards(),
        signature_header is Some && body is Some && body.unwrap()@.len() <= BODY_LIMIT ==> {
            let verdict = verification(
                secret.spec_bytes(),
                body.unwrap()@,
                signature_header.unwrap().spec_bytes(),
            );
            &&& verdict is Err ==> reply.status() == 401 && !reply.forwards()
            &&& verdict is Ok && raw_bytes(event) == Some(ping()) ==> reply.status() == 200
                && !reply.forwards()
            &&& verdict is Ok && raw_bytes(event) != Some(ping()) ==> reply.status() == 202
                && reply.forwards()
        },
{
    let header = match signature_header {
        Some(header) => header,
        None => {
            return Reply::MissingSignature;
        },
    };
    let bytes = match body {
        Some(bytes) => bytes,
        None => {
            return Reply::UnreadableBody;
        },
    };
    if bytes.len() > BODY_LIMIT {
        return Reply::UnreadableBody;
    }
    match verify_signature(secret, bytes, header) {
        Err(e) => Reply::InvalidSignature(e),
        Ok(_) => if is_ping(event) {
            Reply::Pong
        } else {
            Reply::Accepted
        },
    }
}

/// A delivery without a signature header is answered 401 and never relayed,
/// whatever else it carries.
pub proof fn lemma_unsigned_is_refused(
    secret: Seq<u8>,
    body: Option<Seq<u8>>,
    event: Option<Seq<u8>>,
)
    ensures
        decision(secret, None, body, event).status() == 401,
        !decision(secret, None, body, event).forwards(),
{
}

/// A signature header that is well formed (the prefix, then hexadecimal text
/// that decodes) but carries another code than the body's is answered 401
/// when it comes with a body within the limit, and the body is not relayed.
pub proof fn lemma_wrong_code_is_refused(
    secret: Seq<u8>,
    header: Seq<u8>,
    body: Seq<u8>,
    event: Option<Seq<u8>>,
)
    requires
        body.len() <= BODY_LIMIT,
        prefix().is_prefix_of(header),
        decoded(header.skip(prefix().len() as int)) is Ok,
        decoded(header.skip(prefix().len() as int))->Ok_0 != hmac_sha256(secret, body),
    ensures
        decision(secret, Some(header), Some(body), event) == Reply::InvalidSignature(
            SignatureError::Mismatch,
        ),
        decision(secret, Some(header), Some(body), event).status() == 401,
        !decision(secret, Some(header), Some(body), event).forwards(),
{
}

/// A connectivity check within the limit that carries its own signature is
/// answered 200 and never relayed.
pub proof fn lemma_signed_ping_is_answered(secret: Seq<u8>, body: Seq<u8>)
    requires
        body.len() <= BODY_LIMIT,
    ensures
        decision(secret, Some(signature(secret, body)), Some(body), Some(ping())) == Reply::Pong,
        Reply::Pong.status() == 200,
        !Reply::Pong.forwards(),
{
    lemma_own_signature_verifies(secret, body);
}

/// Any other event within the limit that carries its own signature is
/// answered 202 and relayed; nothing that happens downstream enters the
/// decision.
pub proof fn lemma_signed_event_is_accepted(
    secret: Seq<u8>,
    body: Seq<u8>,
    event: Option<Seq<u8>>,
)
    requires
        body.len() <= BODY_LIMIT,
        event != Some(ping()),
    ensures
        decision(secret, Some(signature(secret, body)), Some(body), event) == Reply::Accepted,
        Reply::Accepted.status() == 202,
        Reply::Accepted.forwards(),
{
    lemma_own_signature_verifies(secret, body);
}

/// A body over the limit, or one that could not be read, is answered 400
/// whenever a signature header came, whether or not the header is valid.
pub proof fn lemma_oversized_is_rejected(
    secret: Seq<u8>,
    header: Seq<u8>,
    body: Option<Seq<u8>>,
    event: Option<Seq<u8>>,
)
    requires
        body is None || body.unwrap().len() > BODY_LIMIT,
    ensures
        decision(secret, Some(header), body, event).status() == 400,
        !decision(secret, Some(header), body, event).forwards(),
{
}

} // verus!
