//! The two DNS questions of a cycle, and what is made of their answers.

use crate::address::{
    echo_resolver, echo_resolver_address, provider_resolver, provider_resolver_address,
    Ipv4Address, DNS_PORT,
};
use crate::errors::{ResolutionError, ResolutionFault};
use vstd::prelude::*;
use vstd::string::*;

verus! {

/// The host whose address, asked of the echo resolver, is the caller's own.
pub const LOOKUP_HOSTNAME: &'static str = "myip.opendns.com";

/// The type of record that a question asks for.
#[derive(Clone, Copy, Debug, PartialEq, Eq, Structural)]
pub enum RecordType {
    /// An IPv4 address.
    A,
}

/// The class of record that a question asks for.
#[derive(Clone, Copy, Debug, PartialEq, Eq, Structural)]
pub enum RecordClass {
    /// The Internet.
    In,
}

/// One question: the records of `record_type` and `class` of `hostname`,
/// asked of `resolver` at `port`.
#[derive(Debug, PartialEq, Eq)]
pub struct LookupRequest {
    pub resolver: Ipv4Address,
    pub port: u16,
    pub hostname: String,
    pub record_type: RecordType,
    pub class: RecordClass,
}

/// `LookupRequest` over plain text.
pub struct LookupRequestView {
    pub resolver: Ipv4Address,
    pub port: u16,
    pub hostname: Seq<char>,
    pub record_type: RecordType,
    pub class: RecordClass,
}

impl View for LookupRequest {
    type V = LookupRequestView;

    open spec fn view(&self) -> LookupRequestView {
        LookupRequestView {
            resolver: self.resolver,
            port: self.port,
            hostname: self.hostname@,
            record_type: self.record_type,
            class: self.class,
        }
    }
}

/// The question that finds the caller's public address: the A record of
/// the echo host, asked of the echo resolver.
pub open spec fn echo_question() -> LookupRequestView {
    LookupRequestView {
        resolver: echo_resolver_address(),
        port: DNS_PORT,
        hostname: LOOKUP_HOSTNAME@,
        record_type: RecordType::A,
        class: RecordClass::In,
    }
}

/// The question that finds the address published for `record`: its A
/// record, asked of the provider's resolver.
pub open spec fn record_question(record: Seq<char>) -> LookupRequestView {
    LookupRequestView {
        resolver: provider_resolver_address(),
        port: DNS_PORT,
        hostname: record,
        record_type: RecordType::A,
        class: RecordClass::In,
    }
}

impl LookupRequest {
    /// The question that finds the caller's public address.
    pub fn echo() -> (request: LookupRequest)
        ensures
            request@ == echo_question(),
    {
        LookupRequest {
            resolver: echo_resolver(),
            port: DNS_PORT,
            hostname: String::from_str(LOOKUP_HOSTNAME),
            record_type: RecordType::A,
            class: RecordClass::In,
        }
    }

    /// The question that finds the address published for `record`.
    pub fn published(record: &str) -> (request: LookupRequest)
        ensures
            request@ == record_question(record@),
    {
        LookupRequest {
            resolver: provider_resolver(),
            port: DNS_PORT,
            hostname: String::from_str(record),
            record_type: RecordType::A,
            class: RecordClass::In,
        }
    }
}

/// What a question gave: the answer's records in order, or why there are none.
pub type Answer = Result<Vec<Ipv4Address>, ResolutionError>;

/// `Answer` over plain values.
pub type AnswerView = Result<Seq<Ipv4Address>, ResolutionFault>;

/// The view of an answer.
pub open spec fn answer_view(answer: Answer) -> AnswerView {
    match answer {
        Ok(records) => Ok(records@),
        Err(e) => Err(e@),
    }
}

/// The address that an answer stands for: the first of its records. An
/// answer without records is a failed resolution.
pub open spec fn resolved(answer: AnswerView) -> Result<Ipv4Address, ResolutionFault> {
    match answer {
        Ok(records) => if records.len() > 0 {
            Ok(records[0])
        } else {
            Err(ResolutionFault::NoRecords)
        },
        Err(e) => Err(e),
    }
}

/// The first address of a record set; none is a failed resolution.
pub fn first_address(records: &Vec<Ipv4Address>) -> (res: Result<Ipv4Address, ResolutionError>)
    ensures
        records@.len() > 0 ==> res == Ok::<Ipv4Address, ResolutionError>(records@[0]),
        records@.len() == 0 ==> (res matches Err(e) && e@ == ResolutionFault::NoRecords),
{
    if records.len() > 0 {
        Ok(records[0])
    } else {
        Err(ResolutionError::NoRecords)
    }
}

/// An address, with the host it belongs to and the resolver that gave it.
/// It is found anew in every cycle and kept for none.
#[derive(Debug, PartialEq, Eq)]
pub struct ResolvedAddress {
    pub address: Ipv4Address,
    pub hostname: String,
    pub resolver: Ipv4Address,
}

/// `ResolvedAddress` over plain text.
pub struct ResolvedAddressView {
    pub address: Ipv4Address,
    pub hostname: Seq<char>,
    pub resolver: Ipv4Address,
}

impl View for ResolvedAddress {
    type V = ResolvedAddressView;

    open spec fn view(&self) -> ResolvedAddressView {
        ResolvedAddressView {
            address: self.address,
            hostname: self.hostname@,
            resolver: self.resolver,
        }
    }
}

/// What a question came to: the address found, or why none was.
pub type Resolution = Result<ResolvedAddress, ResolutionError>;

/// `Resolution` over plain values.
pub type ResolutionView = Result<ResolvedAddressView, ResolutionFault>;

/// The view of what a question came to.
pub open spec fn resolution_view(resolution: Resolution) -> ResolutionView {
    match resolution {
        Ok(found) => Ok(found@),
        Err(e) => Err(e@),
    }
}

/// What the question `request` comes to with the answer `answer`: the
/// address that the answer stands for, found for the host and at the
/// resolver of the question.
pub open spec fn resolution(request: LookupRequestView, answer: AnswerView) -> ResolutionView {
    match resolved(answer) {
        Ok(address) => Ok(
            ResolvedAddressView { address, hostname: request.hostname, resolver: request.resolver },
        ),
        Err(e) => Err(e),
    }
}

impl LookupRequest {
    /// What this question comes to with the answer `answer`.
    pub fn resolve(self, answer: Answer) -> (res: Resolution)
        ensures
            resolution_view(res) == resolution(self@, answer_view(answer)),
    {
        match answer {
            Ok(records) => match first_address(&records) {
                Ok(address) => Ok(
                    ResolvedAddress { address, hostname: self.hostname, resolver: self.resolver },
                ),
                Err(e) => Err(e),
            },
            Err(e) => Err(e),
        }
    }
}

} // verus!
