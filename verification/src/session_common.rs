//! Commands, replies, session ids and wire parsing shared by both backends.
//!
//! Numeric observations travel through the protocol as IEEE 754 double
//! bit patterns (`u64`): the verified core never computes with them, it only
//! records, hands out and echoes them, so the bit pattern is the faithful
//! model of the wire value.

use vstd::prelude::*;
use vstd::string::StrSliceExecFns;
use vstd::string::StringExecFns;

verus! {

/// A command delivered through a session's mailbox.  `SessionCommand` carries
/// the opaque message string of an `Execute` request; `SessionStop` is the
/// terminal command of the shutdown fan-out.
#[derive(Debug, Clone)]
pub enum SessionRequestCommand {
    SessionCommand(String),
    SessionStop,
}

/// Whether the replying session stays alive (`SessionOk`) or has performed
/// its terminal transition (`SessionExit`).
#[derive(Debug, Clone, Copy, PartialEq, Eq, Structural)]
pub enum SessionResponseStatus {
    SessionOk,
    SessionExit,
}

/// A structured action request: `{"action": <string>, "value": <number>}`.
/// The number is kept as its IEEE 754 double bit pattern.
#[derive(Debug, Clone)]
pub struct SessionRequestMessage {
    pub action: String,
    pub value_bits: u64,
}

/// A structured reply: a success flag, a human-readable explanation and a
/// numeric payload, again as an IEEE 754 double bit pattern.  The all-zero
/// bit pattern is the number zero.
#[derive(Debug, Clone)]
pub struct SessionResponseMessage {
    pub status: bool,
    pub status_message: String,
    pub value_bits: u64,
}

impl Default for SessionResponseMessage {
    /// The reply before any handler has filled it in: failure, no text, zero.
    fn default() -> (r: Self)
        ensures
            !r.status,
            r.status_message@ == Seq::<char>::empty(),
            r.value_bits == 0,
    {
        SessionResponseMessage { status: false, status_message: String::new(), value_bits: 0 }
    }
}

/// The name of a reply status, as it appears in logs.
pub fn session_status_to_string(status: &SessionResponseStatus) -> (r: String)
    ensures
        r@ == (match status {
            SessionResponseStatus::SessionOk => "SessionOk"@,
            SessionResponseStatus::SessionExit => "SessionExit"@,
        }),
{
    match status {
        SessionResponseStatus::SessionOk => String::from_str("SessionOk"),
        SessionResponseStatus::SessionExit => String::from_str("SessionExit"),
    }
}

/// A reply text prefixed with the session id it concerns: `[id] text`.
pub open spec fn tagged(sessionid: Seq<char>, text: Seq<char>) -> Seq<char> {
    "["@ + sessionid + "] "@ + text
}

/// Builds the `[id] text` form that every session reply carries.
pub fn tag_message(sessionid: &str, text: &str) -> (r: String)
    ensures
        r@ == tagged(sessionid@, text@),
{
    let mut r = String::from_str("[");
    r.append(sessionid);
    r.append("] ");
    r.append(text);
    r
}

/// Character-by-character string equality, proved against the views.
pub fn str_eq(a: &str, b: &str) -> (r: bool)
    ensures
        r == (a@ == b@),
{
    let alen = a.unicode_len();
    let blen = b.unicode_len();
    if alen != blen {
        proof {
            if a@ == b@ {
                assert(a@.len() == b@.len());
            }
        }
        return false;
    }
    let mut i: usize = 0;
    while i < alen
        invariant
            i <= alen,
            alen == a@.len(),
            blen == b@.len(),
            alen == blen,
            forall|j: int| 0 <= j < i ==> a@[j] == b@[j],
        decreases alen - i,
    {
        if a.get_char(i) != b.get_char(i) {
            proof {
                if a@ == b@ {
                    assert(a@[i as int] == b@[i as int]);
                }
            }
            return false;
        }
        i += 1;
    }
    proof {
        assert(a@ =~= b@);
    }
    true
}

/// The three recognized action names are pairwise distinct (their lengths
/// already differ).
pub proof fn lemma_distinct_actions()
    ensures
        "encrypt"@ != "mean"@,
        "encrypt"@ != "shutdown"@,
        "mean"@ != "shutdown"@,
{
    reveal_strlit("encrypt");
    reveal_strlit("mean");
    reveal_strlit("shutdown");
    assert("encrypt"@.len() == 7);
    assert("mean"@.len() == 4);
    assert("shutdown"@.len() == 8);
}

/// What the wire parser returns for a given request text: the action name and
/// the value's bit pattern, or nothing when the text is not a well-formed
/// action request.
pub uninterp spec fn parse_request_spec(s: Seq<char>) -> Option<(Seq<char>, u64)>;

/// Relies on serde_json: parses the wire object `{"action": <string>,
/// "value": <number>}`, ignoring unrecognized fields; `None` when the text is
/// not JSON, not an object, or misses either field or its type.  The result
/// depends on the request text alone.
#[verifier::external_body]
pub(crate) fn parse_request(s: &str) -> (r: Option<SessionRequestMessage>)
    ensures
        (match r {
            Some(m) => parse_request_spec(s@) == Some((m.action@, m.value_bits)),
            None => parse_request_spec(s@) is None,
        }),
{
    let v: serde_json::Value = match serde_json::from_str(s) {
        Ok(v) => v,
        Err(_) => return None,
    };
    let action = match v.get("action").and_then(|a| a.as_str()) {
        Some(a) => a.to_string(),
        None => return None,
    };
    let value_bits = match v.get("value").and_then(|x| x.as_f64()) {
        Some(x) => x.to_bits(),
        None => return None,
    };
    Some(SessionRequestMessage { action, value_bits })
}

/// A lower-case hexadecimal digit.
pub open spec fn is_lower_hex(c: char) -> bool {
    ('0' <= c && c <= '9') || ('a' <= c && c <= 'f')
}

/// Relies on uuid: `Uuid::new_v4()` in its simple form prints a fresh random
/// 128-bit identifier as exactly 32 lower-case hexadecimal digits.  The
/// result is random; only its shape is promised.
#[verifier::external_body]
fn fresh_id_hex() -> (r: String)
    ensures
        r@.len() == 32,
        forall|i: int| 0 <= i < r@.len() ==> is_lower_hex(#[trigger] r@[i]),
{
    uuid::Uuid::new_v4().simple().to_string()
}

/// A fresh session id: the backend kind as prefix (`"open"` for plaintext,
/// `"enc"` for homomorphic), followed by 32 random lower-case hex digits.
pub fn new_session_id(encrypted: bool) -> (r: String)
    ensures
        !encrypted ==> r@.len() == 36 && r@.subrange(0, 4) == "open"@,
        encrypted ==> r@.len() == 35 && r@.subrange(0, 3) == "enc"@,
        forall|i: int|
            (if encrypted { 3int } else { 4int }) <= i < r@.len() ==> is_lower_hex(#[trigger] r@[i]),
{
    let prefix = if encrypted {
        String::from_str("enc")
    } else {
        String::from_str("open")
    };
    let suffix = fresh_id_hex();
    let r = prefix.concat(suffix.as_str());
    proof {
        reveal_strlit("open");
        reveal_strlit("enc");
        if encrypted {
            assert(r@.subrange(0, 3) =~= "enc"@);
        } else {
            assert(r@.subrange(0, 4) =~= "open"@);
        }
    }
    r
}

} // verus!
