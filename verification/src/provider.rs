//! What is asked of the DNS provider: which record, and what it becomes.

use crate::address::Ipv4Address;
use vstd::prelude::*;
use vstd::string::*;

verus! {

/// The TTL, in seconds, that every update sets.
pub const RECORD_TTL: u32 = 60;

/// The question that finds a record's identifier: the records named `name`
/// in the zone `zone_id`.
#[derive(Debug, PartialEq, Eq)]
pub struct RecordQuery {
    pub zone_id: String,
    pub name: String,
}

/// `RecordQuery` over plain text.
pub struct RecordQueryView {
    pub zone_id: Seq<char>,
    pub name: Seq<char>,
}

impl View for RecordQuery {
    type V = RecordQueryView;

    open spec fn view(&self) -> RecordQueryView {
        RecordQueryView { zone_id: self.zone_id@, name: self.name@ }
    }
}

/// What addresses a record at the provider.
#[derive(Debug, PartialEq, Eq)]
pub struct RecordIdentity {
    pub zone_id: String,
    pub record_id: String,
}

/// `RecordIdentity` over plain text.
pub struct RecordIdentityView {
    pub zone_id: Seq<char>,
    pub record_id: Seq<char>,
}

impl View for RecordIdentity {
    type V = RecordIdentityView;

    open spec fn view(&self) -> RecordIdentityView {
        RecordIdentityView { zone_id: self.zone_id@, record_id: self.record_id@ }
    }
}

/// The change asked of the provider: the record `identity`, named `name`,
/// gets the A content `content` and the TTL `ttl`. `proxied` unset leaves
/// proxying as the provider has it.
#[derive(Debug, PartialEq, Eq)]
pub struct UpdateRequest {
    pub identity: RecordIdentity,
    pub name: String,
    pub content: Ipv4Address,
    pub ttl: u32,
    pub proxied: Option<bool>,
}

/// `UpdateRequest` over plain text.
pub struct UpdateRequestView {
    pub identity: RecordIdentityView,
    pub name: Seq<char>,
    pub content: Ipv4Address,
    pub ttl: u32,
    pub proxied: Option<bool>,
}

impl View for UpdateRequest {
    type V = UpdateRequestView;

    open spec fn view(&self) -> UpdateRequestView {
        UpdateRequestView {
            identity: self.identity@,
            name: self.name@,
            content: self.content,
            ttl: self.ttl,
            proxied: self.proxied,
        }
    }
}

/// The update that gives the record `record_id` of `zone_id`, named `name`,
/// the address `address`: TTL 60, proxying untouched.
pub open spec fn update_of(
    zone_id: Seq<char>,
    record_id: Seq<char>,
    name: Seq<char>,
    address: Ipv4Address,
) -> UpdateRequestView {
    UpdateRequestView {
        identity: RecordIdentityView { zone_id, record_id },
        name,
        content: address,
        ttl: RECORD_TTL,
        proxied: None,
    }
}

impl UpdateRequest {
    /// The update that gives the record `identity`, named `name`, the
    /// address `address`.
    pub fn new(identity: RecordIdentity, name: String, address: Ipv4Address) -> (request:
        UpdateRequest)
        ensures
            request@ == update_of(identity@.zone_id, identity@.record_id, name@, address),
            request@.ttl == 60,
            request@.proxied is None,
            request@.content == address,
    {
        UpdateRequest { identity, name, content: address, ttl: RECORD_TTL, proxied: None }
    }
}

/// Why a lookup by name gave no identifier.
#[derive(Clone, Copy, Debug, PartialEq, Eq, Structural)]
pub enum LookupError {
    /// Nothing has the name.
    NotFound,
    /// More than one thing has the name.
    Ambiguous,
}

/// The texts that a vector of strings holds, in order.
pub open spec fn texts_of(strings: Seq<String>) -> Seq<Seq<char>> {
    strings.map_values(|s: String| s@)
}

/// The one match of a lookup by name. None, or more than one, is an error:
/// no match is ever picked among several.
pub open spec fn the_match(matches: Seq<Seq<char>>) -> Result<Seq<char>, LookupError> {
    if matches.len() == 1 {
        Ok(matches[0])
    } else if matches.len() == 0 {
        Err(LookupError::NotFound)
    } else {
        Err(LookupError::Ambiguous)
    }
}

/// The identifier that a lookup by name found, where it found exactly one.
pub fn single_match(matches: Vec<String>) -> (res: Result<String, LookupError>)
    ensures
        match the_match(texts_of(matches@)) {
            Ok(id) => (res matches Ok(found) && found@ == id),
            Err(e) => res == Err::<String, LookupError>(e),
        },
        res is Ok <==> matches@.len() == 1,
        res == Err::<String, LookupError>(LookupError::NotFound) <==> matches@.len() == 0,
        res == Err::<String, LookupError>(LookupError::Ambiguous) <==> matches@.len() > 1,
{
    let mut matches = matches;
    if matches.len() == 1 {
        let found = matches.remove(0);
        Ok(found)
    } else if matches.len() == 0 {
        Err(LookupError::NotFound)
    } else {
        Err(LookupError::Ambiguous)
    }
}

/// A lookup that ends the process: the record is missing, or not the only
/// one of its name.
#[derive(Debug, PartialEq, Eq)]
pub struct FatalError {
    pub cause: LookupError,
    pub record: String,
}

/// `FatalError` over plain text.
pub struct FatalErrorView {
    pub cause: LookupError,
    pub record: Seq<char>,
}

impl FatalErrorView {
    /// What the process says as it ends.
    pub open spec fn text(self) -> Seq<char> {
        "Unable to lookup address for: "@ + self.record
    }
}

impl View for FatalError {
    type V = FatalErrorView;

    open spec fn view(&self) -> FatalErrorView {
        FatalErrorView { cause: self.cause, record: self.record@ }
    }
}

impl FatalError {
    /// What the process says as it ends.
    pub fn message(&self) -> (s: String)
        ensures
            s@ == self@.text(),
    {
        String::from_str("Unable to lookup address for: ").concat(self.record.as_str())
    }
}

} // verus!
