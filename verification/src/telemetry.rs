//! The spans under which the outside work of a command is traced: each
//! carries the name, the zone or the address that the work touches.

use crate::machine::CommandView;
use crate::provider::{RecordQuery, RecordQueryView, UpdateRequest, UpdateRequestView};
use crate::reconciler::Command;
use crate::resolver::{LookupRequest, LookupRequestView};
use vstd::prelude::*;
use vstd::string::*;

verus! {

/// The name under which the process reports its traces.
pub const SERVICE_NAME: &'static str = "cf-dyn-dns";

/// A named value attached to a span.
#[derive(Debug, PartialEq, Eq)]
pub struct Attribute {
    pub key: String,
    pub value: String,
}

/// `Attribute` over plain text.
pub struct AttributeView {
    pub key: Seq<char>,
    pub value: Seq<char>,
}

impl View for Attribute {
    type V = AttributeView;

    open spec fn view(&self) -> AttributeView {
        AttributeView { key: self.key@, value: self.value@ }
    }
}

/// The attributes that a vector holds, in order.
pub open spec fn attributes_of(attributes: Seq<Attribute>) -> Seq<AttributeView> {
    attributes.map_values(|a: Attribute| a@)
}

/// A span: the tracer it belongs to, its name, and its attributes.
#[derive(Debug, PartialEq, Eq)]
pub struct Span {
    pub tracer: String,
    pub name: String,
    pub attributes: Vec<Attribute>,
}

/// `Span` over plain text.
pub struct SpanView {
    pub tracer: Seq<char>,
    pub name: Seq<char>,
    pub attributes: Seq<AttributeView>,
}

impl View for Span {
    type V = SpanView;

    open spec fn view(&self) -> SpanView {
        SpanView {
            tracer: self.tracer@,
            name: self.name@,
            attributes: attributes_of(self.attributes@),
        }
    }
}

/// The spans that a vector holds, in order.
pub open spec fn spans_of(spans: Seq<Span>) -> Seq<SpanView> {
    spans.map_values(|s: Span| s@)
}

/// The span that holds a whole cycle.
pub open spec fn cycle_span() -> SpanView {
    SpanView { tracer: "dns"@, name: "Dns logic..."@, attributes: Seq::empty() }
}

/// The span of one DNS question: it tells the host and the resolver.
pub open spec fn lookup_span(request: LookupRequestView) -> SpanView {
    SpanView {
        tracer: "dns_lookup"@,
        name: "Getting current dns address..."@,
        attributes: seq![
            AttributeView { key: "dns.hostname"@, value: request.hostname },
            AttributeView { key: "dns.resolver"@, value: request.resolver.text() },
        ],
    }
}

/// The span of the work with the session: the look at its lifetime, and
/// the login.
pub open spec fn session_span() -> SpanView {
    SpanView {
        tracer: "create_vault_client"@,
        name: "Creating vault client..."@,
        attributes: Seq::empty(),
    }
}

/// The span of the reading of the credential.
pub open spec fn credential_span() -> SpanView {
    SpanView {
        tracer: "create_cf_api_client"@,
        name: "Create CF API Client..."@,
        attributes: Seq::empty(),
    }
}

/// The span of the look-up of the record: it tells the record and the zone.
pub open spec fn record_span(query: RecordQueryView) -> SpanView {
    SpanView {
        tracer: "get_current_record"@,
        name: "Looking up current record..."@,
        attributes: seq![
            AttributeView { key: "dns.record"@, value: query.name },
            AttributeView { key: "dns.zone"@, value: query.zone_id },
        ],
    }
}

/// The span of the update: it tells the new address and the record's name.
pub open spec fn update_span(request: UpdateRequestView) -> SpanView {
    SpanView {
        tracer: "update_record"@,
        name: "Updating record..."@,
        attributes: seq![
            AttributeView { key: "dns.address"@, value: request.content.text() },
            AttributeView { key: "dns.name"@, value: request.name },
        ],
    }
}

/// The spans of a command, one for each piece of outside work it asks for,
/// in the order of the work. To sleep and to halt are not traced.
pub open spec fn command_spans(command: CommandView) -> Seq<SpanView> {
    match command {
        CommandView::Lookup { current, published } => seq![
            lookup_span(current),
            lookup_span(published),
        ],
        CommandView::QueryTokenTtl => seq![session_span()],
        CommandView::Login { .. } => seq![session_span()],
        CommandView::ReadSecret { .. } => seq![credential_span()],
        CommandView::ResolveRecord(query) => seq![record_span(query)],
        CommandView::UpdateRecord(request) => seq![update_span(request)],
        CommandView::Sleep { .. } => Seq::empty(),
        CommandView::Halt(_) => Seq::empty(),
    }
}

fn plain(tracer: &str, name: &str) -> (span: Span)
    ensures
        span@ == (SpanView { tracer: tracer@, name: name@, attributes: Seq::empty() }),
{
    let span = Span {
        tracer: String::from_str(tracer),
        name: String::from_str(name),
        attributes: Vec::new(),
    };
    assert(attributes_of(span.attributes@) =~= Seq::<AttributeView>::empty());
    span
}

fn with_two(tracer: &str, name: &str, first: Attribute, second: Attribute) -> (span: Span)
    ensures
        span@ == (SpanView {
            tracer: tracer@,
            name: name@,
            attributes: seq![first@, second@],
        }),
{
    let mut attributes: Vec<Attribute> = Vec::new();
    attributes.push(first);
    attributes.push(second);
    assert(attributes_of(attributes@) =~= seq![first@, second@]);
    Span { tracer: String::from_str(tracer), name: String::from_str(name), attributes }
}

fn attribute(key: &str, value: String) -> (a: Attribute)
    ensures
        a@ == (AttributeView { key: key@, value: value@ }),
{
    Attribute { key: String::from_str(key), value }
}

fn one(span: Span) -> (spans: Vec<Span>)
    ensures
        spans_of(spans@) == seq![span@],
{
    let mut spans: Vec<Span> = Vec::new();
    spans.push(span);
    assert(spans_of(spans@) =~= seq![span@]);
    spans
}

impl Span {
    /// The span that holds a whole cycle.
    pub fn cycle() -> (span: Span)
        ensures
            span@ == cycle_span(),
    {
        plain("dns", "Dns logic...")
    }

    /// The span of one DNS question.
    pub fn lookup(request: &LookupRequest) -> (span: Span)
        ensures
            span@ == lookup_span(request@),
    {
        with_two(
            "dns_lookup",
            "Getting current dns address...",
            attribute("dns.hostname", request.hostname.clone()),
            attribute("dns.resolver", request.resolver.to_text()),
        )
    }

    /// The span of the look-up of the record.
    pub fn record(query: &RecordQuery) -> (span: Span)
        ensures
            span@ == record_span(query@),
    {
        with_two(
            "get_current_record",
            "Looking up current record...",
            attribute("dns.record", query.name.clone()),
            attribute("dns.zone", query.zone_id.clone()),
        )
    }

    /// The span of the update.
    pub fn update(request: &UpdateRequest) -> (span: Span)
        ensures
            span@ == update_span(request@),
    {
        with_two(
            "update_record",
            "Updating record...",
            attribute("dns.address", request.content.to_text()),
            attribute("dns.name", request.name.clone()),
        )
    }
}

impl Command {
    /// The spans under which the command's outside work is traced.
    pub fn spans(&self) -> (spans: Vec<Span>)
        ensures
            spans_of(spans@) == command_spans(self@),
    {
        match self {
            Command::Lookup { current, published } => {
                let first = Span::lookup(current);
                let second = Span::lookup(published);
                let mut spans: Vec<Span> = Vec::new();
                spans.push(first);
                spans.push(second);
                assert(spans_of(spans@) =~= seq![first@, second@]);
                spans
            },
            Command::QueryTokenTtl => one(
                plain("create_vault_client", "Creating vault client..."),
            ),
            Command::Login { .. } => one(plain("create_vault_client", "Creating vault client...")),
            Command::ReadSecret { .. } => one(
                plain("create_cf_api_client", "Create CF API Client..."),
            ),
            Command::ResolveRecord(query) => one(Span::record(query)),
            Command::UpdateRecord(request) => one(Span::update(request)),
            Command::Sleep { .. } => {
                let spans: Vec<Span> = Vec::new();
                assert(spans_of(spans@) =~= Seq::<SpanView>::empty());
                spans
            },
            Command::Halt(_) => {
                let spans: Vec<Span> = Vec::new();
                assert(spans_of(spans@) =~= Seq::<SpanView>::empty());
                spans
            },
        }
    }
}

} // verus!
