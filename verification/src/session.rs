//! The plaintext session backend: a state machine that records numeric
//! observations and hands them out for an arithmetic-mean reduction.
//!
//! The machine owns the session's accumulator and makes every decision of the
//! actor loop: which reply a command earns, whether the session terminates,
//! and how the accumulator changes.  The surrounding runtime only moves
//! commands in, computes the floating-point mean of a batch the machine hands
//! out, and moves replies back.

use vstd::prelude::*;
use vstd::string::StringExecFns;
use crate::session_common::SessionRequestCommand;
use crate::session_common::SessionRequestMessage;
use crate::session_common::SessionResponseMessage;
use crate::session_common::SessionResponseStatus;
use crate::session_common::parse_request;
use crate::session_common::str_eq;
use crate::session_common::lemma_distinct_actions;
use crate::session_common::parse_request_spec;
use crate::session_common::tag_message;
use crate::session_common::tagged;

verus! {

/// What the plaintext machine asks of its caller after one command.
pub enum PlainStep {
    /// Send this reply; when `terminate` holds, the session has performed its
    /// terminal transition and its actor loop must exit after sending.
    Reply { status: SessionResponseStatus, message: SessionResponseMessage, terminate: bool },
    /// Compute the arithmetic mean of this non-empty batch, in its order,
    /// then build the reply with [`PlainSession::mean_reply`].
    Mean { values: Vec<u64> },
}

/// One plaintext session: its accumulator of observed values (IEEE 754 double
/// bit patterns, in arrival order) and whether it still reads its mailbox.
pub struct PlainSession {
    values: Vec<u64>,
    ready: bool,
}

impl PlainSession {
    /// The recorded observations, oldest first.
    pub closed spec fn values_view(&self) -> Seq<u64> {
        self.values@
    }

    /// False once the session has handled a terminal command.
    pub closed spec fn is_ready(&self) -> bool {
        self.ready
    }

    /// A session starts with an empty accumulator, ready for commands.
    pub fn new() -> (r: Self)
        ensures
            r.values_view() == Seq::<u64>::empty(),
            r.is_ready(),
    {
        PlainSession { values: Vec::new(), ready: true }
    }

    /// Whether the session still accepts commands.
    pub fn ready(&self) -> (r: bool)
        ensures
            r == self.is_ready(),
    {
        self.ready
    }

    /// The initialization handshake reply: plaintext initialization always
    /// succeeds, so the session may be registered as soon as this is sent.
    pub fn init_reply() -> (r: (SessionResponseStatus, SessionResponseMessage))
        ensures
            r.0 == SessionResponseStatus::SessionOk,
            r.1.status,
            r.1.status_message@ == "Session Initialized"@,
            r.1.value_bits == 0,
    {
        (
            SessionResponseStatus::SessionOk,
            SessionResponseMessage {
                status: true,
                status_message: String::from_str("Session Initialized"),
                value_bits: 0,
            },
        )
    }

    /// Handles one dequeued command.
    ///
    /// Protocol errors (text that is not a well-formed action request, or an
    /// unrecognized action) earn a failed reply and change nothing: they never
    /// terminate the session.  `Stop` and the `shutdown` action are terminal.
    /// An `encrypt` action records its value; `mean` with data hands the whole
    /// batch out and empties the accumulator; `mean` without data succeeds
    /// with value zero.
    pub fn handle_command(&mut self, sessionid: &str, cmd: &SessionRequestCommand) -> (step:
        PlainStep)
        requires
            old(self).is_ready(),
        ensures
            (cmd is SessionStop ==> (step matches PlainStep::Reply { status, message, terminate }
                && status == SessionResponseStatus::SessionExit
                && terminate
                && message.status
                && message.status_message@ == tagged(sessionid@, "Stopping session"@)
                && message.value_bits == 0
                && final(self).values_view() == old(self).values_view()
                && !final(self).is_ready())),
            (cmd matches SessionRequestCommand::SessionCommand(m) ==> {
                let p = parse_request_spec(m@);
                &&& (p is None ==> (step matches PlainStep::Reply { status, message, terminate }
                    && status == SessionResponseStatus::SessionOk
                    && !terminate
                    && !message.status
                    && message.status_message@ == tagged(
                        sessionid@,
                        "Failed to json decode request's message field"@,
                    )
                    && *final(self) == *old(self)))
                &&& (p matches Some((a, v)) ==> {
                    &&& (a == "encrypt"@ ==> (step matches PlainStep::Reply {
                        status,
                        message,
                        terminate,
                    }
                        && status == SessionResponseStatus::SessionOk
                        && !terminate
                        && message.status
                        && message.status_message@ == tagged(
                            sessionid@,
                            "Encrypt action received"@,
                        )
                        && message.value_bits == v
                        && final(self).values_view() == old(self).values_view().push(v)
                        && final(self).is_ready()))
                    &&& (a == "mean"@ && old(self).values_view().len() == 0 ==> (step
                        matches PlainStep::Reply { status, message, terminate }
                        && status == SessionResponseStatus::SessionOk
                        && !terminate
                        && message.status
                        && message.status_message@ == tagged(
                            sessionid@,
                            "Mean action received, no data"@,
                        )
                        && message.value_bits == 0
                        && *final(self) == *old(self)))
                    &&& (a == "mean"@ && old(self).values_view().len() > 0 ==> (step
                        matches PlainStep::Mean { values }
                        && values@ == old(self).values_view()
                        && final(self).values_view() == Seq::<u64>::empty()
                        && final(self).is_ready()))
                    &&& (a == "shutdown"@ ==> (step matches PlainStep::Reply {
                        status,
                        message,
                        terminate,
                    }
                        && status == SessionResponseStatus::SessionExit
                        && terminate
                        && message.status
                        && message.status_message@ == tagged(
                            sessionid@,
                            "Shutdown action received"@,
                        )
                        && message.value_bits == 0
                        && final(self).values_view() == old(self).values_view()
                        && !final(self).is_ready()))
                    &&& (a != "encrypt"@ && a != "mean"@ && a != "shutdown"@ ==> (step
                        matches PlainStep::Reply { status, message, terminate }
                        && status == SessionResponseStatus::SessionOk
                        && !terminate
                        && !message.status
                        && message.status_message@ == tagged(sessionid@, "Unknown action"@)
                        && *final(self) == *old(self)))
                })
            }),
    {
        match cmd {
            SessionRequestCommand::SessionStop => {
                self.ready = false;
                PlainStep::Reply {
                    status: SessionResponseStatus::SessionExit,
                    message: SessionResponseMessage {
                        status: true,
                        status_message: tag_message(sessionid, "Stopping session"),
                        value_bits: 0,
                    },
                    terminate: true,
                }
            },
            SessionRequestCommand::SessionCommand(m) => {
                let parsed: Option<SessionRequestMessage> = parse_request(m.as_str());
                match parsed {
                    None => PlainStep::Reply {
                        status: SessionResponseStatus::SessionOk,
                        message: SessionResponseMessage {
                            status: false,
                            status_message: tag_message(
                                sessionid,
                                "Failed to json decode request's message field",
                            ),
                            value_bits: 0,
                        },
                        terminate: false,
                    },
                    Some(request) => self.handle_action(sessionid, &request),
                }
            },
        }
    }

    /// Dispatches one well-formed action request.
    fn handle_action(&mut self, sessionid: &str, request: &SessionRequestMessage) -> (step:
        PlainStep)
        requires
            old(self).is_ready(),
        ensures
            (request.action@ == "encrypt"@ ==> (step matches PlainStep::Reply {
                status,
                message,
                terminate,
            }
                && status == SessionResponseStatus::SessionOk
                && !terminate
                && message.status
                && message.status_message@ == tagged(sessionid@, "Encrypt action received"@)
                && message.value_bits == request.value_bits
                && final(self).values_view() == old(self).values_view().push(request.value_bits)
                && final(self).is_ready())),
            (request.action@ == "mean"@ && old(self).values_view().len() == 0 ==> (step
                matches PlainStep::Reply { status, message, terminate }
                && status == SessionResponseStatus::SessionOk
                && !terminate
                && message.status
                && message.status_message@ == tagged(sessionid@, "Mean action received, no data"@)
                && message.value_bits == 0
                && *final(self) == *old(self))),
            (request.action@ == "mean"@ && old(self).values_view().len() > 0 ==> (step
                matches PlainStep::Mean { values }
                && values@ == old(self).values_view()
                && final(self).values_view() == Seq::<u64>::empty()
                && final(self).is_ready())),
            (request.action@ == "shutdown"@ ==> (step matches PlainStep::Reply {
                status,
                message,
                terminate,
            }
                && status == SessionResponseStatus::SessionExit
                && terminate
                && message.status
                && message.status_message@ == tagged(sessionid@, "Shutdown action received"@)
                && message.value_bits == 0
                && final(self).values_view() == old(self).values_view()
                && !final(self).is_ready())),
            (request.action@ != "encrypt"@ && request.action@ != "mean"@ && request.action@
                != "shutdown"@ ==> (step matches PlainStep::Reply { status, message, terminate }
                && status == SessionResponseStatus::SessionOk
                && !terminate
                && !message.status
                && message.status_message@ == tagged(sessionid@, "Unknown action"@)
                && *final(self) == *old(self))),
    {
        proof {
            lemma_distinct_actions();
        }
        if str_eq(request.action.as_str(), "encrypt") {
            self.values.push(request.value_bits);
            PlainStep::Reply {
                status: SessionResponseStatus::SessionOk,
                message: SessionResponseMessage {
                    status: true,
                    status_message: tag_message(sessionid, "Encrypt action received"),
                    value_bits: request.value_bits,
                },
                terminate: false,
            }
        } else if str_eq(request.action.as_str(), "mean") {
            if self.values.len() == 0 {
                PlainStep::Reply {
                    status: SessionResponseStatus::SessionOk,
                    message: SessionResponseMessage {
                        status: true,
                        status_message: tag_message(sessionid, "Mean action received, no data"),
                        value_bits: 0,
                    },
                    terminate: false,
                }
            } else {
                let mut batch: Vec<u64> = Vec::new();
                core::mem::swap(&mut batch, &mut self.values);
                PlainStep::Mean { values: batch }
            }
        } else if str_eq(request.action.as_str(), "shutdown") {
            self.ready = false;
            PlainStep::Reply {
                status: SessionResponseStatus::SessionExit,
                message: SessionResponseMessage {
                    status: true,
                    status_message: tag_message(sessionid, "Shutdown action received"),
                    value_bits: 0,
                },
                terminate: true,
            }
        } else {
            PlainStep::Reply {
                status: SessionResponseStatus::SessionOk,
                message: SessionResponseMessage {
                    status: false,
                    status_message: tag_message(sessionid, "Unknown action"),
                    value_bits: 0,
                },
                terminate: false,
            }
        }
    }

    /// The reply to a `mean` action once the caller has reduced the batch:
    /// success, echoing the computed mean.
    pub fn mean_reply(sessionid: &str, mean_bits: u64) -> (r: SessionResponseMessage)
        ensures
            r.status,
            r.value_bits == mean_bits,
            r.status_message@ == tagged(sessionid@, "Mean action received"@),
    {
        SessionResponseMessage {
            status: true,
            status_message: tag_message(sessionid, "Mean action received"),
            value_bits: mean_bits,
        }
    }
}

/// The accumulator after a run of `encrypt` (observe) actions with the given
/// values, applied oldest first.
pub open spec fn observe_all(init: Seq<u64>, vs: Seq<u64>) -> Seq<u64>
    decreases vs.len(),
{
    if vs.len() == 0 {
        init
    } else {
        observe_all(init.push(vs[0]), vs.drop_first())
    }
}

/// Law: a run of observations loses none and invents none.  Observing the
/// values `vs` one by one appends exactly `vs`, in order, to the accumulator;
/// with the `mean` case of [`PlainSession::handle_command`], the batch handed
/// out for the reduction after such a run from an empty accumulator is
/// exactly `vs`, whatever interleaving of callers enqueued them.
pub proof fn lemma_observations_accumulate(init: Seq<u64>, vs: Seq<u64>)
    ensures
        observe_all(init, vs) == init + vs,
    decreases vs.len(),
{
    if vs.len() == 0 {
        assert(init + vs =~= init);
    } else {
        lemma_observations_accumulate(init.push(vs[0]), vs.drop_first());
        assert(init.push(vs[0]) + vs.drop_first() =~= init + vs);
    }
}

} // verus!
