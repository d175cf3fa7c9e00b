//! The homomorphic session backend: the verified protocol around the
//! cryptographic collaborator.
//!
//! The collaborator (secret-key generation, encoder construction,
//! encode-and-encrypt, ciphertext addition and scaling, decryption) computes
//! on floating-point values and ciphertexts, which this crate's sources
//! exclude, so the runtime performs those calls and reports each outcome
//! back.  The machine here owns everything decidable: parsing and defaulting
//! of the encryption parameters, the plaintext shadow accumulator that checks
//! the homomorphic path, which step the runtime must take next, and the exact
//! reply every outcome earns.  On an encryption failure the shadow is left
//! untouched (no partial state); a mean consumes its batch whether or not the
//! homomorphic reduction succeeds.

use vstd::prelude::*;
use vstd::string::StringExecFns;
use crate::session_common::SessionRequestCommand;
use crate::session_common::SessionRequestMessage;
use crate::session_common::SessionResponseMessage;
use crate::session_common::SessionResponseStatus;
use crate::session_common::lemma_distinct_actions;
use crate::session_common::parse_request;
use crate::session_common::parse_request_spec;
use crate::session_common::str_eq;
use crate::session_common::tag_message;
use crate::session_common::tagged;

verus! {

/// Documented default for `encoder_min`: the bit pattern of zero.
pub const DEFAULT_ENCODER_MIN_BITS: u64 = 0;

/// Documented default for `encoder_max`: the bit pattern of one hundred.
pub const DEFAULT_ENCODER_MAX_BITS: u64 = 0x4059_0000_0000_0000;

/// Documented default for `encoder_precision_bits`.
pub const DEFAULT_ENCODER_PRECISION_BITS: usize = 16;

/// Documented default for `encoder_padding_bits`.
pub const DEFAULT_ENCODER_PADDING_BITS: usize = 4;

/// Documented default for `secret_key_dimensions`.
pub const DEFAULT_SECRET_KEY_DIMENSIONS: usize = 1024;

/// Documented default for `secret_key_log2_std_dev`.
pub const DEFAULT_SECRET_KEY_LOG2_STD_DEV: i32 = -40;

/// The encryption parameters of one homomorphic session.  The two encoder
/// bounds are IEEE 754 double bit patterns.
#[derive(Debug, Clone, Copy, PartialEq, Eq, Structural)]
pub struct EncryptionParameters {
    pub encoder_min_bits: u64,
    pub encoder_max_bits: u64,
    pub encoder_precision_bits: usize,
    pub encoder_padding_bits: usize,
    pub secret_key_dimensions: usize,
    pub secret_key_log2_std_dev: i32,
}

/// Each field of the init payload, as far as it was present: `None` for an
/// absent field; the whole tuple is absent when the payload is malformed.
pub type RawEncryptionFields = (
    Option<u64>,
    Option<u64>,
    Option<usize>,
    Option<usize>,
    Option<usize>,
    Option<i32>,
);

/// What the init-payload parser returns for the two encoder bounds.
pub uninterp spec fn parse_encoder_bounds_spec(s: Seq<char>) -> Option<(Option<u64>, Option<u64>)>;

/// Relies on serde_json: reads the optional `encoder_min` and `encoder_max`
/// fields of the init object, as double bit patterns.  `None` when the text
/// is not a JSON object or a present field is not a number.  The result
/// depends on the text alone.
#[verifier::external_body]
fn parse_encoder_bounds(s: &str) -> (r: Option<(Option<u64>, Option<u64>)>)
    ensures
        r == parse_encoder_bounds_spec(s@),
{
    let v: serde_json::Value = match serde_json::from_str(s) {
        Ok(v) => v,
        Err(_) => return None,
    };
    if !v.is_object() {
        return None;
    }
    let min = match v.get("encoder_min") { Some(x) => Some(x.as_f64()?.to_bits()), None => None };
    let max = match v.get("encoder_max") { Some(x) => Some(x.as_f64()?.to_bits()), None => None };
    Some((min, max))
}

/// What the init-payload parser returns for the two encoder bit widths.
pub uninterp spec fn parse_encoder_shape_spec(s: Seq<char>) -> Option<(Option<usize>, Option<usize>)>;

/// Relies on serde_json: reads the optional `encoder_precision_bits` and
/// `encoder_padding_bits` fields of the init object.  `None` when the text
/// is not a JSON object or a present field is not an unsigned integer in
/// range.  The result depends on the text alone.
#[verifier::external_body]
fn parse_encoder_shape(s: &str) -> (r: Option<(Option<usize>, Option<usize>)>)
    ensures
        r == parse_encoder_shape_spec(s@),
{
    let v: serde_json::Value = match serde_json::from_str(s) {
        Ok(v) => v,
        Err(_) => return None,
    };
    if !v.is_object() {
        return None;
    }
    let prec = match v.get("encoder_precision_bits") { Some(x) => Some(usize::try_from(x.as_u64()?).ok()?), None => None };
    let pad = match v.get("encoder_padding_bits") { Some(x) => Some(usize::try_from(x.as_u64()?).ok()?), None => None };
    Some((prec, pad))
}

/// What the init-payload parser returns for the two secret-key parameters.
pub uninterp spec fn parse_key_params_spec(s: Seq<char>) -> Option<(Option<usize>, Option<i32>)>;

/// Relies on serde_json: reads the optional `secret_key_dimensions` and
/// `secret_key_log2_std_dev` fields of the init object.  `None` when the
/// text is not a JSON object or a present field is not an integer in range.
/// The result depends on the text alone.
#[verifier::external_body]
fn parse_key_params(s: &str) -> (r: Option<(Option<usize>, Option<i32>)>)
    ensures
        r == parse_key_params_spec(s@),
{
    let v: serde_json::Value = match serde_json::from_str(s) {
        Ok(v) => v,
        Err(_) => return None,
    };
    if !v.is_object() {
        return None;
    }
    let dim = match v.get("secret_key_dimensions") { Some(x) => Some(usize::try_from(x.as_u64()?).ok()?), None => None };
    let dev = match v.get("secret_key_log2_std_dev") { Some(x) => Some(i32::try_from(x.as_i64()?).ok()?), None => None };
    Some((dim, dev))
}

/// The parsed fields with the documented default filling each absent one.
pub open spec fn with_defaults(t: RawEncryptionFields) -> EncryptionParameters {
    EncryptionParameters {
        encoder_min_bits: (match t.0 {
            Some(x) => x,
            None => DEFAULT_ENCODER_MIN_BITS,
        }),
        encoder_max_bits: (match t.1 {
            Some(x) => x,
            None => DEFAULT_ENCODER_MAX_BITS,
        }),
        encoder_precision_bits: (match t.2 {
            Some(x) => x,
            None => DEFAULT_ENCODER_PRECISION_BITS,
        }),
        encoder_padding_bits: (match t.3 {
            Some(x) => x,
            None => DEFAULT_ENCODER_PADDING_BITS,
        }),
        secret_key_dimensions: (match t.4 {
            Some(x) => x,
            None => DEFAULT_SECRET_KEY_DIMENSIONS,
        }),
        secret_key_log2_std_dev: (match t.5 {
            Some(x) => x,
            None => DEFAULT_SECRET_KEY_LOG2_STD_DEV,
        }),
    }
}

impl Default for EncryptionParameters {
    /// Every field at its documented default.
    fn default() -> (r: Self)
        ensures
            r == with_defaults((None, None, None, None, None, None)),
    {
        EncryptionParameters {
            encoder_min_bits: DEFAULT_ENCODER_MIN_BITS,
            encoder_max_bits: DEFAULT_ENCODER_MAX_BITS,
            encoder_precision_bits: DEFAULT_ENCODER_PRECISION_BITS,
            encoder_padding_bits: DEFAULT_ENCODER_PADDING_BITS,
            secret_key_dimensions: DEFAULT_SECRET_KEY_DIMENSIONS,
            secret_key_log2_std_dev: DEFAULT_SECRET_KEY_LOG2_STD_DEV,
        }
    }
}

impl EncryptionParameters {
    /// Parses the init payload, applying the documented default to every
    /// absent field.  `None` exactly when the payload is malformed, which
    /// fails the initialization handshake.
    pub fn from_init(init_message: &str) -> (r: Option<EncryptionParameters>)
        ensures
            (match (
                parse_encoder_bounds_spec(init_message@),
                parse_encoder_shape_spec(init_message@),
                parse_key_params_spec(init_message@),
            ) {
                (Some(b), Some(w), Some(k)) => r == Some(
                    with_defaults((b.0, b.1, w.0, w.1, k.0, k.1)),
                ),
                _ => r is None,
            }),
    {
        let bounds = match parse_encoder_bounds(init_message) {
            Some(b) => b,
            None => return None,
        };
        let shape = match parse_encoder_shape(init_message) {
            Some(w) => w,
            None => return None,
        };
        let key = match parse_key_params(init_message) {
            Some(k) => k,
            None => return None,
        };
        match (bounds, shape, key) {
            ((min, max), (prec, pad), (dim, dev)) => Some(
                EncryptionParameters {
                    encoder_min_bits: (match min {
                        Some(x) => x,
                        None => DEFAULT_ENCODER_MIN_BITS,
                    }),
                    encoder_max_bits: (match max {
                        Some(x) => x,
                        None => DEFAULT_ENCODER_MAX_BITS,
                    }),
                    encoder_precision_bits: (match prec {
                        Some(x) => x,
                        None => DEFAULT_ENCODER_PRECISION_BITS,
                    }),
                    encoder_padding_bits: (match pad {
                        Some(x) => x,
                        None => DEFAULT_ENCODER_PADDING_BITS,
                    }),
                    secret_key_dimensions: (match dim {
                        Some(x) => x,
                        None => DEFAULT_SECRET_KEY_DIMENSIONS,
                    }),
                    secret_key_log2_std_dev: (match dev {
                        Some(x) => x,
                        None => DEFAULT_SECRET_KEY_LOG2_STD_DEV,
                    }),
                },
            ),
        }
    }
}

/// The homomorphic reduction stage at which the collaborator failed.
#[derive(Debug, Clone, Copy, PartialEq, Eq, Structural)]
pub enum MeanFailure {
    Add,
    Scale,
    Decrypt,
}

/// The reply text for each failed reduction stage.
pub open spec fn mean_failure_text(stage: MeanFailure) -> Seq<char> {
    match stage {
        MeanFailure::Add => "Mean action, failed to add two encrypted values. "@,
        MeanFailure::Scale => "Mean action, failed to scale the encrypted sum. "@,
        MeanFailure::Decrypt => "Mean action, failed to decrypt mean. "@,
    }
}

/// What the homomorphic machine asks of its caller after one command.
pub enum EncStep {
    /// Send this reply; when `terminate` holds, the actor loop exits after
    /// sending.
    Reply { status: SessionResponseStatus, message: SessionResponseMessage, terminate: bool },
    /// Encode and encrypt this value under the session's key and encoder,
    /// then report the outcome to [`EncryptedSession::encrypt_done`].
    Encrypt { value_bits: u64 },
    /// Homomorphically sum the session's ciphertexts, scale the sum by the
    /// reciprocal of the batch size, decrypt, and build the reply with
    /// [`EncryptedSession::mean_reply`].  The batch (the plaintext shadow of
    /// those ciphertexts) is consumed now, whatever the outcome.
    Mean { values: Vec<u64> },
}

/// One homomorphic session: its parameters, the plaintext shadow of the
/// ciphertext accumulator held by the runtime, and whether it still reads
/// its mailbox.
pub struct EncryptedSession {
    params: EncryptionParameters,
    shadow: Vec<u64>,
    ready: bool,
}

impl EncryptedSession {
    /// The parameters the session was initialized with.
    pub closed spec fn params(&self) -> EncryptionParameters {
        self.params
    }

    /// The plaintext shadow of the recorded observations, oldest first; one
    /// entry for each ciphertext the runtime holds.
    pub closed spec fn shadow_view(&self) -> Seq<u64> {
        self.shadow@
    }

    /// False once the session has handled a terminal command.
    pub closed spec fn is_ready(&self) -> bool {
        self.ready
    }

    /// A session starts with an empty accumulator, ready for commands.
    pub fn new(params: EncryptionParameters) -> (r: Self)
        ensures
            r.params() == params,
            r.shadow_view() == Seq::<u64>::empty(),
            r.is_ready(),
    {
        EncryptedSession { params, shadow: Vec::new(), ready: true }
    }

    /// Whether the session still accepts commands.
    pub fn ready(&self) -> (r: bool)
        ensures
            r == self.is_ready(),
    {
        self.ready
    }

    /// The init handshake reply when the payload could not be decoded: the
    /// session never existed from the caller's perspective.
    pub fn init_parse_failure_reply(sessionid: &str) -> (r: (
        SessionResponseStatus,
        SessionResponseMessage,
    ))
        ensures
            r.0 == SessionResponseStatus::SessionExit,
            !r.1.status,
            r.1.status_message@ == tagged(
                sessionid@,
                "Session initialization failed, could not decode encryption parameters"@,
            ),
            r.1.value_bits == 0,
    {
        (
            SessionResponseStatus::SessionExit,
            SessionResponseMessage {
                status: false,
                status_message: tag_message(
                    sessionid,
                    "Session initialization failed, could not decode encryption parameters",
                ),
                value_bits: 0,
            },
        )
    }

    /// The init handshake reply when the collaborator refused the encoder
    /// (for instance an invalid min/max/precision combination), with its
    /// reason.
    pub fn init_encoder_failure_reply(sessionid: &str, reason: &str) -> (r: (
        SessionResponseStatus,
        SessionResponseMessage,
    ))
        ensures
            r.0 == SessionResponseStatus::SessionExit,
            !r.1.status,
            r.1.status_message@ == tagged(
                sessionid@,
                "Session initialization failed, unable to instantiate encoder. "@ + reason@,
            ),
            r.1.value_bits == 0,
    {
        let mut text = tag_message(
            sessionid,
            "Session initialization failed, unable to instantiate encoder. ",
        );
        text.append(reason);
        proof {
            assert(text@ =~= tagged(
                sessionid@,
                "Session initialization failed, unable to instantiate encoder. "@ + reason@,
            ));
        }
        (
            SessionResponseStatus::SessionExit,
            SessionResponseMessage { status: false, status_message: text, value_bits: 0 },
        )
    }

    /// The init handshake reply when key and encoder were derived: the
    /// session may now be registered.
    pub fn init_success_reply(sessionid: &str) -> (r: (
        SessionResponseStatus,
        SessionResponseMessage,
    ))
        ensures
            r.0 == SessionResponseStatus::SessionOk,
            r.1.status,
            r.1.status_message@ == tagged(sessionid@, "Session initialized"@),
            r.1.value_bits == 0,
    {
        (
            SessionResponseStatus::SessionOk,
            SessionResponseMessage {
                status: true,
                status_message: tag_message(sessionid, "Session initialized"),
                value_bits: 0,
            },
        )
    }

    /// Handles one dequeued command; the same protocol as the plaintext
    /// machine, except that `encrypt` and a non-empty `mean` need the
    /// collaborator and so become [`EncStep::Encrypt`] and [`EncStep::Mean`].
    pub fn handle_command(&mut self, sessionid: &str, cmd: &SessionRequestCommand) -> (step:
        EncStep)
        requires
            old(self).is_ready(),
        ensures
            final(self).params() == old(self).params(),
            (cmd is SessionStop ==> (step matches EncStep::Reply { status, message, terminate }
                && status == SessionResponseStatus::SessionExit
                && terminate
                && message.status
                && message.status_message@ == tagged(sessionid@, "Stopping session"@)
                && message.value_bits == 0
                && final(self).shadow_view() == old(self).shadow_view()
                && !final(self).is_ready())),
            (cmd matches SessionRequestCommand::SessionCommand(m) ==> {
                let p = parse_request_spec(m@);
                &&& (p is None ==> (step matches EncStep::Reply { status, message, terminate }
                    && status == SessionResponseStatus::SessionOk
                    && !terminate
                    && !message.status
                    && message.status_message@ == tagged(
                        sessionid@,
                        "Failed to json decode request's message field"@,
                    )
                    && *final(self) == *old(self)))
                &&& (p matches Some((a, v)) ==> {
                    &&& (a == "encrypt"@ ==> (step matches EncStep::Encrypt { value_bits }
                        && value_bits == v
                        && *final(self) == *old(self)))
                    &&& (a == "mean"@ && old(self).shadow_view().len() == 0 ==> (step
                        matches EncStep::Reply { status, message, terminate }
                        && status == SessionResponseStatus::SessionOk
                        && !terminate
                        && message.status
                        && message.status_message@ == tagged(
                            sessionid@,
                            "Mean action received, no data"@,
                        )
                        && message.value_bits == 0
                        && *final(self) == *old(self)))
                    &&& (a == "mean"@ && old(self).shadow_view().len() > 0 ==> (step
                        matches EncStep::Mean { values }
                        && values@ == old(self).shadow_view()
                        && final(self).shadow_view() == Seq::<u64>::empty()
                        && final(self).is_ready()))
                    &&& (a == "shutdown"@ ==> (step matches EncStep::Reply {
                        status,
                        message,
                        terminate,
                    }
                        && status == SessionResponseStatus::SessionExit
                        && terminate
                        && message.status
                        && message.status_message@ == tagged(
                            sessionid@,
                            "Shutdown action received"@,
                        )
                        && message.value_bits == 0
                        && final(self).shadow_view() == old(self).shadow_view()
                        && !final(self).is_ready()))
                    &&& (a != "encrypt"@ && a != "mean"@ && a != "shutdown"@ ==> (step
                        matches EncStep::Reply { status, message, terminate }
                        && status == SessionResponseStatus::SessionOk
                        && !terminate
                        && !message.status
                        && message.status_message@ == tagged(sessionid@, "Unknown action"@)
                        && *final(self) == *old(self)))
                })
            }),
    {
        match cmd {
            SessionRequestCommand::SessionStop => {
                self.ready = false;
                EncStep::Reply {
                    status: SessionResponseStatus::SessionExit,
                    message: SessionResponseMessage {
                        status: true,
                        status_message: tag_message(sessionid, "Stopping session"),
                        value_bits: 0,
                    },
                    terminate: true,
                }
            },
            SessionRequestCommand::SessionCommand(m) => {
                let parsed: Option<SessionRequestMessage> = parse_request(m.as_str());
                match parsed {
                    None => EncStep::Reply {
                        status: SessionResponseStatus::SessionOk,
                        message: SessionResponseMessage {
                            status: false,
                            status_message: tag_message(
                                sessionid,
                                "Failed to json decode request's message field",
                            ),
                            value_bits: 0,
                        },
                        terminate: false,
                    },
                    Some(request) => self.handle_action(sessionid, &request),
                }
            },
        }
    }

    /// Dispatches one well-formed action request.
    fn handle_action(&mut self, sessionid: &str, request: &SessionRequestMessage) -> (step: EncStep)
        requires
            old(self).is_ready(),
        ensures
            final(self).params() == old(self).params(),
            (request.action@ == "encrypt"@ ==> (step matches EncStep::Encrypt { value_bits }
                && value_bits == request.value_bits
                && *final(self) == *old(self))),
            (request.action@ == "mean"@ && old(self).shadow_view().len() == 0 ==> (step
                matches EncStep::Reply { status, message, terminate }
                && status == SessionResponseStatus::SessionOk
                && !terminate
                && message.status
                && message.status_message@ == tagged(sessionid@, "Mean action received, no data"@)
                && message.value_bits == 0
                && *final(self) == *old(self))),
            (request.action@ == "mean"@ && old(self).shadow_view().len() > 0 ==> (step
                matches EncStep::Mean { values }
                && values@ == old(self).shadow_view()
                && final(self).shadow_view() == Seq::<u64>::empty()
                && final(self).is_ready())),
            (request.action@ == "shutdown"@ ==> (step matches EncStep::Reply {
                status,
                message,
                terminate,
            }
                && status == SessionResponseStatus::SessionExit
                && terminate
                && message.status
                && message.status_message@ == tagged(sessionid@, "Shutdown action received"@)
                && message.value_bits == 0
                && final(self).shadow_view() == old(self).shadow_view()
                && !final(self).is_ready())),
            (request.action@ != "encrypt"@ && request.action@ != "mean"@ && request.action@
                != "shutdown"@ ==> (step matches EncStep::Reply { status, message, terminate }
                && status == SessionResponseStatus::SessionOk
                && !terminate
                && !message.status
                && message.status_message@ == tagged(sessionid@, "Unknown action"@)
                && *final(self) == *old(self))),
    {
        proof {
            lemma_distinct_actions();
        }
        if str_eq(request.action.as_str(), "encrypt") {
            EncStep::Encrypt { value_bits: request.value_bits }
        } else if str_eq(request.action.as_str(), "mean") {
            if self.shadow.len() == 0 {
                EncStep::Reply {
                    status: SessionResponseStatus::SessionOk,
                    message: SessionResponseMessage {
                        status: true,
                        status_message: tag_message(sessionid, "Mean action received, no data"),
                        value_bits: 0,
                    },
                    terminate: false,
                }
            } else {
                let mut batch: Vec<u64> = Vec::new();
                core::mem::swap(&mut batch, &mut self.shadow);
                EncStep::Mean { values: batch }
            }
        } else if str_eq(request.action.as_str(), "shutdown") {
            self.ready = false;
            EncStep::Reply {
                status: SessionResponseStatus::SessionExit,
                message: SessionResponseMessage {
                    status: true,
                    status_message: tag_message(sessionid, "Shutdown action received"),
                    value_bits: 0,
                },
                terminate: true,
            }
        } else {
            EncStep::Reply {
                status: SessionResponseStatus::SessionOk,
                message: SessionResponseMessage {
                    status: false,
                    status_message: tag_message(sessionid, "Unknown action"),
                    value_bits: 0,
                },
                terminate: false,
            }
        }
    }

    /// Records the collaborator's outcome for one [`EncStep::Encrypt`].  On
    /// success the value joins the shadow accumulator (the runtime keeps the
    /// ciphertext beside it); on failure nothing is recorded, so the
    /// accumulators never drift apart.
    pub fn encrypt_done(&mut self, sessionid: &str, value_bits: u64, outcome: Result<
        (),
        String,
    >) -> (r: SessionResponseMessage)
        requires
            old(self).is_ready(),
        ensures
            final(self).is_ready(),
            final(self).params() == old(self).params(),
            (outcome is Ok ==> final(self).shadow_view() == old(self).shadow_view().push(value_bits)
                && r.status
                && r.value_bits == value_bits
                && r.status_message@ == tagged(
                    sessionid@,
                    "Encrypt action, value encrypted successfully"@,
                )),
            (outcome matches Err(e) ==> *final(self) == *old(self)
                && !r.status
                && r.value_bits == 0
                && r.status_message@ == tagged(sessionid@, "Failed to encrypt value. "@ + e@)),
    {
        match outcome {
            Ok(()) => {
                self.shadow.push(value_bits);
                SessionResponseMessage {
                    status: true,
                    status_message: tag_message(
                        sessionid,
                        "Encrypt action, value encrypted successfully",
                    ),
                    value_bits,
                }
            },
            Err(e) => {
                let mut text = tag_message(sessionid, "Failed to encrypt value. ");
                text.append(e.as_str());
                proof {
                    assert(text@ =~= tagged(sessionid@, "Failed to encrypt value. "@ + e@));
                }
                SessionResponseMessage { status: false, status_message: text, value_bits: 0 }
            },
        }
    }

    /// The reply to a [`EncStep::Mean`] once the runtime has run the
    /// homomorphic reduction: the decrypted mean on success, the failing
    /// stage and its reason otherwise.  Either way the batch was already
    /// consumed when the step was handed out.
    pub fn mean_reply(sessionid: &str, outcome: &Result<u64, (MeanFailure, String)>) -> (r:
        SessionResponseMessage)
        ensures
            (outcome matches Ok(mean_bits) ==> r.status
                && r.value_bits == mean_bits
                && r.status_message@ == tagged(
                    sessionid@,
                    "Mean action, mean calculated successfully"@,
                )),
            (outcome matches Err((stage, e)) ==> !r.status
                && r.value_bits == 0
                && r.status_message@ == tagged(sessionid@, mean_failure_text(*stage) + e@)),
    {
        match outcome {
            Ok(mean_bits) => SessionResponseMessage {
                status: true,
                status_message: tag_message(sessionid, "Mean action, mean calculated successfully"),
                value_bits: *mean_bits,
            },
            Err((stage, e)) => {
                let mut text = (match stage {
                    MeanFailure::Add => tag_message(
                        sessionid,
                        "Mean action, failed to add two encrypted values. ",
                    ),
                    MeanFailure::Scale => tag_message(
                        sessionid,
                        "Mean action, failed to scale the encrypted sum. ",
                    ),
                    MeanFailure::Decrypt => tag_message(
                        sessionid,
                        "Mean action, failed to decrypt mean. ",
                    ),
                });
                text.append(e.as_str());
                proof {
                    assert(text@ =~= tagged(sessionid@, mean_failure_text(*stage) + e@));
                }
                SessionResponseMessage { status: false, status_message: text, value_bits: 0 }
            },
        }
    }
}

} // verus!
