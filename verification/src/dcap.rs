//! DCAP remote attestation: the quote of an enclave report over 64 bytes
//! of the caller's data. Inside an enclave the quote comes from three calls
//! out of the enclave (the quoting enclave's target, the report for it,
//! the quote of the report); the decisions between them are the state
//! machine of this module. Outside an enclave no quote can be made.
use vstd::prelude::*;

verus! {

/// The status of the quote library for success (`SGX_QL_SUCCESS`).
pub const SGX_QL_SUCCESS: u32 = 0;

/// The size of the buffer that a quote is written into.
pub const QUOTE_BUFFER_SIZE: usize = 25600;

/// An error of attestation: its origin, under the frames of the steps that
/// it went through.
#[derive(Debug)]
pub enum DcapError {
    /// The quote library reported the status of this name.
    Quote3(String),
    /// Attestation is not available outside an enclave.
    Unsupported,
    GetTarget(Box<DcapError>),
    CreateReport(Box<DcapError>),
    GetQuote(Box<DcapError>),
}

/// The value of a `DcapError`.
pub enum DcapErrorView {
    Quote3(Seq<char>),
    Unsupported,
    GetTarget(Box<DcapErrorView>),
    CreateReport(Box<DcapErrorView>),
    GetQuote(Box<DcapErrorView>),
}

impl View for DcapError {
    type V = DcapErrorView;

    open spec fn view(&self) -> DcapErrorView
        decreases self,
    {
        match self {
            DcapError::Quote3(s) => DcapErrorView::Quote3(s@),
            DcapError::Unsupported => DcapErrorView::Unsupported,
            DcapError::GetTarget(e) => DcapErrorView::GetTarget(Box::new((**e).view())),
            DcapError::CreateReport(e) => DcapErrorView::CreateReport(Box::new((**e).view())),
            DcapError::GetQuote(e) => DcapErrorView::GetQuote(Box::new((**e).view())),
        }
    }
}

/// The value of the result of an attestation step.
pub open spec fn dcap_result_view(r: Result<Vec<u8>, DcapError>) -> Result<Seq<u8>, DcapErrorView> {
    match r {
        Ok(v) => Ok(v@),
        Err(e) => Err(e@),
    }
}

/// The status that the quote library returned, with the name of its
/// variant.
pub struct Quote3Status {
    pub code: u32,
    pub name: String,
}

/// The error of a failed status of the quote library.
pub open spec fn quote3_error(status: Quote3Status) -> DcapErrorView {
    DcapErrorView::Quote3(status.name@)
}

/// Attestation outside an enclave: never available.
pub fn dcap_quote(data: [u8; 64]) -> (r: Result<Vec<u8>, DcapError>)
    ensures
        r matches Err(e) && e@ == DcapErrorView::Unsupported,
{
    Err(DcapError::Unsupported)
}

/// The calls out of an enclave that attestation makes.
pub struct Dcap {}

impl Dcap {
    /// The target of the quoting enclave that the library returned with
    /// `status`: the target on success, else the status as an error.
    pub fn target_outcome(status: &Quote3Status, target: Vec<u8>) -> (r: Result<Vec<u8>, DcapError>)
        ensures
            dcap_result_view(r) == if status.code == SGX_QL_SUCCESS {
                Ok::<Seq<u8>, DcapErrorView>(target@)
            } else {
                Err(quote3_error(*status))
            },
    {
        if status.code == SGX_QL_SUCCESS {
            Ok(target)
        } else {
            Err(DcapError::Quote3(status.name.clone()))
        }
    }

    /// The quote that the library wrote into `buffer`, `filled` bytes of
    /// it, with `status`: those bytes on success (the whole buffer when it
    /// is shorter), else the status as an error.
    pub fn quote_outcome(status: &Quote3Status, buffer: Vec<u8>, filled: usize) -> (r: Result<
        Vec<u8>,
        DcapError,
    >)
        ensures
            dcap_result_view(r) == if status.code == SGX_QL_SUCCESS {
                Ok::<Seq<u8>, DcapErrorView>(
                    if filled <= buffer@.len() {
                        buffer@.subrange(0, filled as int)
                    } else {
                        buffer@
                    },
                )
            } else {
                Err(quote3_error(*status))
            },
    {
        if status.code == SGX_QL_SUCCESS {
            let mut out = buffer;
            out.truncate(filled);
            Ok(out)
        } else {
            Err(DcapError::Quote3(status.name.clone()))
        }
    }
}

/// Where an attestation inside an enclave stands; each waiting stage holds
/// the caller's data.
#[derive(Clone, Copy, Debug)]
pub enum QuoteStage {
    Start([u8; 64]),
    AwaitTarget([u8; 64]),
    AwaitReport([u8; 64]),
    AwaitQuote([u8; 64]),
    Finished,
}

/// What a call out of the enclave gave.
pub enum QuoteEvent {
    /// The attestation is asked for.
    Begin,
    /// The target of the quoting enclave, with the library's status.
    Target { status: Quote3Status, target: Vec<u8> },
    /// The report of this enclave for the target.
    Report { report: Vec<u8> },
    /// The quote buffer, with the library's status and how much it filled.
    Quote { status: Quote3Status, buffer: Vec<u8>, filled: usize },
}

/// What to do next.
pub enum QuoteAction {
    /// Ask the quote library for the target of the quoting enclave.
    GetTarget,
    /// Create this enclave's report for `target` over `data`.
    CreateReport { target: Vec<u8>, data: [u8; 64] },
    /// Ask the quote library for the quote of `report`, into a buffer of
    /// `capacity` bytes.
    GetQuote { report: Vec<u8>, capacity: usize },
    /// The attestation is over, with this result.
    Done(Result<Vec<u8>, DcapError>),
    /// The event does not fit the stage; nothing to do.
    Ignore,
}

/// The value of a `QuoteAction`.
pub enum QuoteActionView {
    GetTarget,
    CreateReport(Seq<u8>, [u8; 64]),
    GetQuote(Seq<u8>, nat),
    Done(Result<Seq<u8>, DcapErrorView>),
    Ignore,
}

impl View for QuoteAction {
    type V = QuoteActionView;

    open spec fn view(&self) -> QuoteActionView {
        match self {
            QuoteAction::GetTarget => QuoteActionView::GetTarget,
            QuoteAction::CreateReport { target, data } => QuoteActionView::CreateReport(
                target@,
                *data,
            ),
            QuoteAction::GetQuote { report, capacity } => QuoteActionView::GetQuote(
                report@,
                *capacity as nat,
            ),
            QuoteAction::Done(r) => QuoteActionView::Done(dcap_result_view(*r)),
            QuoteAction::Ignore => QuoteActionView::Ignore,
        }
    }
}

/// The value of a `QuoteEvent`.
pub enum QuoteEventView {
    Begin,
    Target(u32, Seq<char>, Seq<u8>),
    Report(Seq<u8>),
    Quote(u32, Seq<char>, Seq<u8>, nat),
}

impl View for QuoteEvent {
    type V = QuoteEventView;

    open spec fn view(&self) -> QuoteEventView {
        match self {
            QuoteEvent::Begin => QuoteEventView::Begin,
            QuoteEvent::Target { status, target } => QuoteEventView::Target(
                status.code,
                status.name@,
                target@,
            ),
            QuoteEvent::Report { report } => QuoteEventView::Report(report@),
            QuoteEvent::Quote { status, buffer, filled } => QuoteEventView::Quote(
                status.code,
                status.name@,
                buffer@,
                *filled as nat,
            ),
        }
    }
}

/// The next stage and action of an attestation: ask for the target; on
/// success create the report over the data, else end with the status under
/// a `GetTarget` frame; then ask for the quote of the report; then end with
/// the filled part of the buffer, or the status under a `GetQuote` frame.
/// An event that does not fit the stage changes nothing.
pub open spec fn quote_transition(stage: QuoteStage, event: QuoteEventView) -> (
    QuoteStage,
    QuoteActionView,
) {
    match (stage, event) {
        (QuoteStage::Start(data), QuoteEventView::Begin) => (
            QuoteStage::AwaitTarget(data),
            QuoteActionView::GetTarget,
        ),
        (QuoteStage::AwaitTarget(data), QuoteEventView::Target(code, name, target)) => {
            if code == SGX_QL_SUCCESS {
                (QuoteStage::AwaitReport(data), QuoteActionView::CreateReport(target, data))
            } else {
                (
                    QuoteStage::Finished,
                    QuoteActionView::Done(
                        Err(DcapErrorView::GetTarget(Box::new(DcapErrorView::Quote3(name)))),
                    ),
                )
            }
        },
        (QuoteStage::AwaitReport(data), QuoteEventView::Report(report)) => (
            QuoteStage::AwaitQuote(data),
            QuoteActionView::GetQuote(report, QUOTE_BUFFER_SIZE as nat),
        ),
        (QuoteStage::AwaitQuote(data), QuoteEventView::Quote(code, name, buffer, filled)) => {
            if code == SGX_QL_SUCCESS {
                (
                    QuoteStage::Finished,
                    QuoteActionView::Done(
                        Ok(
                            if filled <= buffer.len() {
                                buffer.subrange(0, filled as int)
                            } else {
                                buffer
                            },
                        ),
                    ),
                )
            } else {
                (
                    QuoteStage::Finished,
                    QuoteActionView::Done(
                        Err(DcapErrorView::GetQuote(Box::new(DcapErrorView::Quote3(name)))),
                    ),
                )
            }
        },
        _ => (stage, QuoteActionView::Ignore),
    }
}

/// Advances an attestation inside an enclave by one event.
pub fn quote_step(stage: QuoteStage, event: QuoteEvent) -> (r: (QuoteStage, QuoteAction))
    ensures
        (r.0, r.1@) == quote_transition(stage, event@),
{
    match (stage, event) {
        (QuoteStage::Start(data), QuoteEvent::Begin) => (
            QuoteStage::AwaitTarget(data),
            QuoteAction::GetTarget,
        ),
        (QuoteStage::AwaitTarget(data), QuoteEvent::Target { status, target }) => {
            match Dcap::target_outcome(&status, target) {
                Ok(t) => (QuoteStage::AwaitReport(data), QuoteAction::CreateReport { target: t, data }),
                Err(e) => {
                    let ghost inner = e@;
                    let framed = DcapError::GetTarget(Box::new(e));
                    assert(framed@ == DcapErrorView::GetTarget(Box::new(inner)));
                    (QuoteStage::Finished, QuoteAction::Done(Err(framed)))
                },
            }
        },
        (QuoteStage::AwaitReport(data), QuoteEvent::Report { report }) => (
            QuoteStage::AwaitQuote(data),
            QuoteAction::GetQuote { report, capacity: QUOTE_BUFFER_SIZE },
        ),
        (QuoteStage::AwaitQuote(_), QuoteEvent::Quote { status, buffer, filled }) => {
            match Dcap::quote_outcome(&status, buffer, filled) {
                Ok(q) => (QuoteStage::Finished, QuoteAction::Done(Ok(q))),
                Err(e) => {
                    let ghost inner = e@;
                    let framed = DcapError::GetQuote(Box::new(e));
                    assert(framed@ == DcapErrorView::GetQuote(Box::new(inner)));
                    (QuoteStage::Finished, QuoteAction::Done(Err(framed)))
                },
            }
        },
        (s, _) => (s, QuoteAction::Ignore),
    }
}

/// A full attestation inside an enclave: started, then given the target
/// with `target_code`, the report, and the quote buffer with `quote_code`,
/// it asks for the target, the report over the caller's data, and the
/// quote of that report, and ends with the filled part of the buffer when
/// both statuses are success; otherwise it ends at the first failing call,
/// with its status under that call's frame.
pub proof fn lemma_quote_flow(
    data: [u8; 64],
    target_code: u32,
    target_name: Seq<char>,
    target: Seq<u8>,
    report: Seq<u8>,
    quote_code: u32,
    quote_name: Seq<char>,
    buffer: Seq<u8>,
    filled: nat,
)
    ensures
        ({
            let (s1, a1) = quote_transition(QuoteStage::Start(data), QuoteEventView::Begin);
            let (s2, a2) = quote_transition(
                s1,
                QuoteEventView::Target(target_code, target_name, target),
            );
            &&& a1 == QuoteActionView::GetTarget
            &&& if target_code != SGX_QL_SUCCESS {
                &&& s2 == QuoteStage::Finished
                &&& a2 == QuoteActionView::Done(
                    Err(DcapErrorView::GetTarget(Box::new(DcapErrorView::Quote3(target_name)))),
                )
            } else {
                let (s3, a3) = quote_transition(s2, QuoteEventView::Report(report));
                let (s4, a4) = quote_transition(
                    s3,
                    QuoteEventView::Quote(quote_code, quote_name, buffer, filled),
                );
                &&& a2 == QuoteActionView::CreateReport(target, data)
                &&& a3 == QuoteActionView::GetQuote(report, QUOTE_BUFFER_SIZE as nat)
                &&& s4 == QuoteStage::Finished
                &&& a4 == QuoteActionView::Done(
                    if quote_code == SGX_QL_SUCCESS {
                        Ok(
                            if filled <= buffer.len() {
                                buffer.subrange(0, filled as int)
                            } else {
                                buffer
                            },
                        )
                    } else {
                        Err(DcapErrorView::GetQuote(Box::new(DcapErrorView::Quote3(quote_name))))
                    },
                )
            }
        }),
{
}

/// A finished attestation stays finished: no event changes it or asks for
/// anything more.
pub proof fn lemma_quote_finished_is_final(event: QuoteEventView)
    ensures
        quote_transition(QuoteStage::Finished, event) == (
            QuoteStage::Finished,
            QuoteActionView::Ignore,
        ),
{
}

} // verus!
