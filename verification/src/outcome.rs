//! Transaction outcomes and the response-classification policy.
//!
//! One round trip against the target produces an [`HttpEvent`]: either the
//! transport failed outright, or a response arrived with a status code and a
//! body that can be read or not. [`classify`] turns such an event into a
//! [`TransactionOutcome`] record. A status code of any value counts as
//! "received" at this layer: interpreting 4xx/5xx is left to aggregation.

use vstd::prelude::*;

verus! {

/// How a failed transaction is classified.
#[derive(Clone, Copy, PartialEq, Eq, Structural, Debug)]
pub enum ErrorClass {
    /// The request never yielded a response: connection, timeout, TLS or
    /// DNS failure.
    Transport,
    /// A response arrived but reading its body failed mid-stream.
    ResponseRead,
}

/// What reading the response body yielded.
pub enum BodyOutcome {
    /// The body was read completely.
    Content(String),
    /// The connection broke while the body was being read.
    ReadFailed,
}

/// What one request/response round trip observably did.
pub enum HttpEvent {
    /// No response at all: the transport layer failed.
    TransportFailure,
    /// A response arrived with this status code; `body` says what a body
    /// read would yield (it is consulted only when response parsing is on).
    Response { status: u16, body: BodyOutcome },
}

/// The body-free shape of an event: everything classification depends on
/// except the body text itself.
#[derive(Clone, Copy, PartialEq, Eq, Structural, Debug)]
pub enum EventShape {
    TransportFailure,
    Response { status: u16, body_ok: bool },
}

impl HttpEvent {
    /// The shape of this event.
    pub open spec fn shape(self) -> EventShape {
        match self {
            HttpEvent::TransportFailure => EventShape::TransportFailure,
            HttpEvent::Response { status, body } => EventShape::Response {
                status,
                body_ok: body is Content,
            },
        }
    }
}

/// The record produced for one transaction execution.
#[derive(Debug)]
pub struct TransactionOutcome {
    /// True when a response was received and, if parsing was on, its body
    /// was read successfully. Status-code values never clear this flag.
    pub received: bool,
    /// The failure classification, when the transaction failed.
    pub error: Option<ErrorClass>,
    /// The response status code, when a response arrived at all.
    pub status: Option<u16>,
    /// Wall-clock duration of the round trip, as measured by the caller.
    pub elapsed_micros: u64,
    /// The response body, materialized only when response parsing is on
    /// and the read succeeded.
    pub body: Option<String>,
}

/// The body-free summary of an outcome: what aggregation depends on.
#[derive(Clone, Copy, PartialEq, Eq, Debug)]
pub struct OutcomeSummary {
    pub received: bool,
    pub error: Option<ErrorClass>,
    pub status: Option<u16>,
    pub elapsed_micros: u64,
}

impl TransactionOutcome {
    /// The summary of this outcome.
    pub open spec fn summary(self) -> OutcomeSummary {
        OutcomeSummary {
            received: self.received,
            error: self.error,
            status: self.status,
            elapsed_micros: self.elapsed_micros,
        }
    }

    /// The outcome is internally consistent: failure and error
    /// classification coincide, and a body is only present on success.
    pub open spec fn wf(self) -> bool {
        &&& self.received <==> self.error is None
        &&& self.body is Some ==> self.received
    }
}

/// What classification produces, at the level of shapes.
///
/// A transport failure yields a failed outcome classified `Transport` with
/// no status code. A received response yields a "received" outcome with its
/// status code, whatever that code is; only when parsing is on and the body
/// read failed is the outcome instead classified `ResponseRead`.
pub open spec fn spec_classify(shape: EventShape, parse_response: bool, elapsed_micros: u64) -> OutcomeSummary {
    match shape {
        EventShape::TransportFailure => OutcomeSummary {
            received: false,
            error: Option::Some(ErrorClass::Transport),
            status: Option::None,
            elapsed_micros,
        },
        EventShape::Response { status, body_ok } => {
            if parse_response && !body_ok {
                OutcomeSummary {
                    received: false,
                    error: Option::Some(ErrorClass::ResponseRead),
                    status: Option::Some(status),
                    elapsed_micros,
                }
            } else {
                OutcomeSummary {
                    received: true,
                    error: Option::None,
                    status: Option::Some(status),
                    elapsed_micros,
                }
            }
        },
    }
}

/// Whether classification materializes the body for this shape: only when
/// parsing is on and the body read succeeded.
pub open spec fn spec_keeps_body(shape: EventShape, parse_response: bool) -> bool {
    parse_response && shape matches EventShape::Response { body_ok: true, .. }
}

/// Applies the response-classification policy to one observed event.
///
/// When response parsing is off, the body is never consulted nor
/// materialized; when it is on, a successfully read body is kept in the
/// outcome and a failed read fails the transaction.
pub fn classify(event: HttpEvent, parse_response: bool, elapsed_micros: u64) -> (o: TransactionOutcome)
    ensures
        o.summary() == spec_classify(event.shape(), parse_response, elapsed_micros),
        o.wf(),
        spec_keeps_body(event.shape(), parse_response) <==> o.body is Some,
        event matches HttpEvent::Response { body: BodyOutcome::Content(c), .. }
            ==> (parse_response ==> o.body == Option::Some(c)),
{
    match event {
        HttpEvent::TransportFailure => TransactionOutcome {
            received: false,
            error: Option::Some(ErrorClass::Transport),
            status: Option::None,
            elapsed_micros,
            body: Option::None,
        },
        HttpEvent::Response { status, body } => {
            if parse_response {
                match body {
                    BodyOutcome::Content(c) => TransactionOutcome {
                        received: true,
                        error: Option::None,
                        status: Option::Some(status),
                        elapsed_micros,
                        body: Option::Some(c),
                    },
                    BodyOutcome::ReadFailed => TransactionOutcome {
                        received: false,
                        error: Option::Some(ErrorClass::ResponseRead),
                        status: Option::Some(status),
                        elapsed_micros,
                        body: Option::None,
                    },
                }
            } else {
                TransactionOutcome {
                    received: true,
                    error: Option::None,
                    status: Option::Some(status),
                    elapsed_micros,
                    body: Option::None,
                }
            }
        },
    }
}

/// The summaries of a stream of outcomes, in order.
pub open spec fn spec_summaries(s: Seq<TransactionOutcome>) -> Seq<OutcomeSummary> {
    Seq::new(s.len(), |i: int| s[i].summary())
}

pub proof fn lemma_summaries_push(s: Seq<TransactionOutcome>, o: TransactionOutcome)
    ensures
        spec_summaries(s.push(o)) =~= spec_summaries(s).push(o.summary()),
{
}

/// Whether a transaction's parsed body should be surfaced to the
/// observability sink: only when verbose is on and a body was materialized.
pub fn should_emit(verbose: bool, o: &TransactionOutcome) -> (b: bool)
    ensures
        b == (verbose && o.body is Some),
{
    verbose && o.body.is_some()
}

} // verus!
