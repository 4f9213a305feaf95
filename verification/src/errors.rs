//! What can go wrong in a cycle, and what is logged about it.
//!
//! A failed resolution, a failure of the secrets service and a rejection by
//! the provider end the cycle they occur in. A record that cannot be told
//! apart from others, or is missing, ends the process.

use crate::logging::{lines_of, LogEntry, LogLevel, LogLine};
use crate::text::{decimal, decimal_text};
use vstd::prelude::*;
use vstd::string::*;

verus! {

/// Why a DNS query gave no address.
#[derive(Debug, PartialEq, Eq)]
pub enum ResolutionError {
    /// The resolver could not be reached.
    Unreachable(String),
    /// No answer came in time.
    TimedOut,
    /// The answer holds no record.
    NoRecords,
    /// The answer cannot be read.
    Malformed(String),
}

/// `ResolutionError` over plain text.
pub enum ResolutionFault {
    Unreachable(Seq<char>),
    TimedOut,
    NoRecords,
    Malformed(Seq<char>),
}

impl ResolutionFault {
    /// What is said of the failure.
    pub open spec fn text(self) -> Seq<char> {
        match self {
            ResolutionFault::Unreachable(detail) => "resolver unreachable: "@ + detail,
            ResolutionFault::TimedOut => "query timed out"@,
            ResolutionFault::NoRecords => "response holds no records"@,
            ResolutionFault::Malformed(detail) => "response cannot be read: "@ + detail,
        }
    }
}

impl View for ResolutionError {
    type V = ResolutionFault;

    open spec fn view(&self) -> ResolutionFault {
        match self {
            ResolutionError::Unreachable(detail) => ResolutionFault::Unreachable(detail@),
            ResolutionError::TimedOut => ResolutionFault::TimedOut,
            ResolutionError::NoRecords => ResolutionFault::NoRecords,
            ResolutionError::Malformed(detail) => ResolutionFault::Malformed(detail@),
        }
    }
}

impl ResolutionError {
    /// What is said of the failure.
    pub fn message(&self) -> (s: String)
        ensures
            s@ == self@.text(),
    {
        match self {
            ResolutionError::Unreachable(detail) => {
                String::from_str("resolver unreachable: ").concat(detail.as_str())
            },
            ResolutionError::TimedOut => String::from_str("query timed out"),
            ResolutionError::NoRecords => String::from_str("response holds no records"),
            ResolutionError::Malformed(detail) => {
                String::from_str("response cannot be read: ").concat(detail.as_str())
            },
        }
    }
}

/// Why the secrets service did not give what was asked.
#[derive(Debug, PartialEq, Eq)]
pub enum StoreFailure {
    /// The service could not be reached.
    Network(String),
    /// The service answered with a status that is no success.
    Rejected { status: u16, detail: String },
    /// The answer cannot be read.
    Malformed(String),
}

/// `StoreFailure` over plain text.
pub enum StoreFault {
    Network(Seq<char>),
    Rejected { status: u16, detail: Seq<char> },
    Malformed(Seq<char>),
}

impl StoreFault {
    /// What is said of the failure.
    pub open spec fn text(self) -> Seq<char> {
        match self {
            StoreFault::Network(detail) => "network failure: "@ + detail,
            StoreFault::Rejected { status, detail } => "status "@ + decimal_text(status as nat)
                + ": "@ + detail,
            StoreFault::Malformed(detail) => "malformed response: "@ + detail,
        }
    }
}

impl View for StoreFailure {
    type V = StoreFault;

    open spec fn view(&self) -> StoreFault {
        match self {
            StoreFailure::Network(detail) => StoreFault::Network(detail@),
            StoreFailure::Rejected { status, detail } => StoreFault::Rejected {
                status: *status,
                detail: detail@,
            },
            StoreFailure::Malformed(detail) => StoreFault::Malformed(detail@),
        }
    }
}

impl StoreFailure {
    /// What is said of the failure.
    pub fn message(&self) -> (s: String)
        ensures
            s@ == self@.text(),
    {
        match self {
            StoreFailure::Network(detail) => {
                String::from_str("network failure: ").concat(detail.as_str())
            },
            StoreFailure::Rejected { status, detail } => {
                let mut s = String::from_str("status ");
                s.append(decimal(*status as u64).as_str());
                s.append(": ");
                s.append(detail.as_str());
                s
            },
            StoreFailure::Malformed(detail) => {
                String::from_str("malformed response: ").concat(detail.as_str())
            },
        }
    }
}

/// A login, or a look at the session's remaining lifetime, that failed.
#[derive(Debug, PartialEq, Eq)]
pub struct AuthError {
    pub failure: StoreFailure,
}

impl View for AuthError {
    type V = StoreFault;

    open spec fn view(&self) -> StoreFault {
        self.failure@
    }
}

/// A secret that could not be read.
#[derive(Debug, PartialEq, Eq)]
pub struct SecretReadError {
    pub failure: StoreFailure,
}

impl View for SecretReadError {
    type V = StoreFault;

    open spec fn view(&self) -> StoreFault {
        self.failure@
    }
}

/// A name and a value that came with an error, beside its code and message.
#[derive(Debug, PartialEq, Eq)]
pub struct Extra {
    pub key: String,
    pub value: String,
}

/// `Extra` over plain text.
pub struct ExtraView {
    pub key: Seq<char>,
    pub value: Seq<char>,
}

impl ExtraView {
    /// The line logged for the pair.
    pub open spec fn line(self) -> Seq<char> {
        self.key + ": "@ + self.value
    }
}

impl View for Extra {
    type V = ExtraView;

    open spec fn view(&self) -> ExtraView {
        ExtraView { key: self.key@, value: self.value@ }
    }
}

/// The pairs that a vector holds, in order.
pub open spec fn extras_of(extras: Seq<Extra>) -> Seq<ExtraView> {
    extras.map_values(|e: Extra| e@)
}

/// The lines logged for some pairs: one each, in order.
pub open spec fn extra_lines(extras: Seq<ExtraView>) -> Seq<Seq<char>> {
    extras.map_values(|e: ExtraView| e.line())
}

/// One error of the provider: its code, its message, and what else it said.
#[derive(Debug, PartialEq, Eq)]
pub struct ApiErrorDetail {
    pub code: u16,
    pub message: String,
    pub other: Vec<Extra>,
}

/// `ApiErrorDetail` over plain text.
pub struct ApiDetailView {
    pub code: u16,
    pub message: Seq<char>,
    pub other: Seq<ExtraView>,
}

impl ApiDetailView {
    /// The lines logged for the error: code and message, then its pairs.
    pub open spec fn lines(self) -> Seq<Seq<char>> {
        seq!["Error "@ + decimal_text(self.code as nat) + ": "@ + self.message] + extra_lines(
            self.other,
        )
    }
}

impl View for ApiErrorDetail {
    type V = ApiDetailView;

    open spec fn view(&self) -> ApiDetailView {
        ApiDetailView { code: self.code, message: self.message@, other: extras_of(self.other@) }
    }
}

/// The errors that a vector holds, in order.
pub open spec fn details_of(details: Seq<ApiErrorDetail>) -> Seq<ApiDetailView> {
    details.map_values(|d: ApiErrorDetail| d@)
}

/// The lines logged for some errors: those of each, in order.
pub open spec fn detail_lines(details: Seq<ApiDetailView>) -> Seq<Seq<char>>
    decreases details.len(),
{
    if details.len() == 0 {
        Seq::empty()
    } else {
        detail_lines(details.drop_last()) + details.last().lines()
    }
}

/// A call of the provider's API that failed.
#[derive(Debug, PartialEq, Eq)]
pub enum ApiError {
    /// The provider answered with a status that is no success.
    Status { status: u16, reason: String, errors: Vec<ApiErrorDetail>, other: Vec<Extra> },
    /// No answer was had, or none that can be read.
    Transport(String),
}

/// `ApiError` over plain text.
pub enum ApiFault {
    Status { status: u16, reason: Seq<char>, errors: Seq<ApiDetailView>, other: Seq<ExtraView> },
    Transport(Seq<char>),
}

impl ApiFault {
    /// The lines logged for the failure: the status, then each error with
    /// its pairs, then the pairs of the answer itself.
    pub open spec fn lines(self) -> Seq<Seq<char>> {
        match self {
            ApiFault::Status { status, reason, errors, other } => seq![
                "HTTP "@ + decimal_text(status as nat) + " "@ + reason + ":"@,
            ] + detail_lines(errors) + extra_lines(other),
            ApiFault::Transport(detail) => seq!["Error: "@ + detail],
        }
    }
}

impl View for ApiError {
    type V = ApiFault;

    open spec fn view(&self) -> ApiFault {
        match self {
            ApiError::Status { status, reason, errors, other } => ApiFault::Status {
                status: *status,
                reason: reason@,
                errors: details_of(errors@),
                other: extras_of(other@),
            },
            ApiError::Transport(detail) => ApiFault::Transport(detail@),
        }
    }
}

/// Each text as a warning.
pub open spec fn warnings(texts: Seq<Seq<char>>) -> Seq<LogLine> {
    texts.map_values(|t: Seq<char>| LogLine { level: LogLevel::Warn, text: t })
}

fn warn(out: &mut Vec<LogEntry>, message: String)
    ensures
        lines_of(final(out)@) == lines_of(old(out)@) + warnings(seq![message@]),
{
    out.push(LogEntry { level: LogLevel::Warn, message });
    assert(lines_of(out@) =~= lines_of(old(out)@) + warnings(seq![message@]));
}

fn warn_extras(out: &mut Vec<LogEntry>, extras: &Vec<Extra>)
    ensures
        lines_of(final(out)@) == lines_of(old(out)@) + warnings(extra_lines(extras_of(extras@))),
{
    let mut i: usize = 0;
    while i < extras.len()
        invariant
            i <= extras.len(),
            lines_of(out@) == lines_of(old(out)@) + warnings(
                extra_lines(extras_of(extras@)).take(i as int),
            ),
        decreases extras.len() - i,
    {
        let ghost before = out@;
        let mut line = extras[i].key.clone();
        line.append(": ");
        line.append(extras[i].value.as_str());
        warn(out, line);
        proof {
            let all = extra_lines(extras_of(extras@));
            assert(line@ == all[i as int]);
            assert(all.take(i + 1) =~= all.take(i as int) + seq![all[i as int]]);
            assert(warnings(all.take(i + 1)) =~= warnings(all.take(i as int)) + warnings(
                seq![all[i as int]],
            ));
        }
        i = i + 1;
    }
    proof {
        let all = extra_lines(extras_of(extras@));
        assert(all.take(i as int) =~= all);
    }
}

impl ApiErrorDetail {
    fn warn_to(&self, out: &mut Vec<LogEntry>)
        ensures
            lines_of(final(out)@) == lines_of(old(out)@) + warnings(self@.lines()),
    {
        let mut line = String::from_str("Error ");
        line.append(decimal(self.code as u64).as_str());
        line.append(": ");
        line.append(self.message.as_str());
        warn(out, line);
        warn_extras(out, &self.other);
        proof {
            let head = seq![line@];
            let tail = extra_lines(extras_of(self.other@));
            assert(warnings(head + tail) =~= warnings(head) + warnings(tail));
        }
    }
}

/// Warnings of a concatenation are the warnings of its parts.
proof fn lemma_detail_lines_step(details: Seq<ApiDetailView>, i: int)
    requires
        0 <= i < details.len(),
    ensures
        warnings(detail_lines(details.take(i + 1))) == warnings(detail_lines(details.take(i)))
            + warnings(details[i].lines()),
{
    let next = details.take(i + 1);
    assert(next.drop_last() =~= details.take(i));
    assert(next.last() == details[i]);
    assert(warnings(detail_lines(details.take(i)) + details[i].lines()) =~= warnings(
        detail_lines(details.take(i)),
    ) + warnings(details[i].lines()));
}

impl ApiError {
    /// The status of the provider's answer, where it gave one.
    pub fn status(&self) -> (code: Option<u16>)
        ensures
            code == match self@ {
                ApiFault::Status { status, .. } => Some(status),
                ApiFault::Transport(_) => None,
            },
    {
        match self {
            ApiError::Status { status, .. } => Some(*status),
            ApiError::Transport(_) => None,
        }
    }

    /// Appends to `out` the warnings that tell of this failure.
    pub fn warn_to(&self, out: &mut Vec<LogEntry>)
        ensures
            lines_of(final(out)@) == lines_of(old(out)@) + warnings(self@.lines()),
    {
        match self {
            ApiError::Status { status, reason, errors, other } => {
                let mut line = String::from_str("HTTP ");
                line.append(decimal(*status as u64).as_str());
                line.append(" ");
                line.append(reason.as_str());
                line.append(":");
                warn(out, line);
                let ghost head = seq![line@];
                let ghost all = details_of(errors@);
                let mut i: usize = 0;
                while i < errors.len()
                    invariant
                        i <= errors.len(),
                        all == details_of(errors@),
                        lines_of(out@) == lines_of(old(out)@) + warnings(head) + warnings(
                            detail_lines(all.take(i as int)),
                        ),
                    decreases errors.len() - i,
                {
                    errors[i].warn_to(out);
                    proof {
                        assert(all[i as int] == errors@[i as int]@);
                        lemma_detail_lines_step(all, i as int);
                    }
                    i = i + 1;
                }
                warn_extras(out, other);
                proof {
                    assert(all.take(i as int) =~= all);
                    let middle = detail_lines(all);
                    let tail = extra_lines(extras_of(other@));
                    assert(warnings(head + middle + tail) =~= warnings(head) + warnings(middle)
                        + warnings(tail));
                }
            },
            ApiError::Transport(detail) => {
                let line = String::from_str("Error: ").concat(detail.as_str());
                warn(out, line);
            },
        }
    }

    /// The warnings that tell of this failure.
    pub fn log_lines(&self) -> (out: Vec<LogEntry>)
        ensures
            lines_of(out@) == warnings(self@.lines()),
    {
        let mut out: Vec<LogEntry> = Vec::new();
        self.warn_to(&mut out);
        assert(lines_of(out@) =~= warnings(self@.lines()));
        out
    }
}

} // verus!
