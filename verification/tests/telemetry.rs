use dns_record_update::address::Ipv4Address;
use dns_record_update::provider::{LookupError, FatalError, RecordIdentity, RecordQuery, UpdateRequest};
use dns_record_update::reconciler::Command;
use dns_record_update::resolver::LookupRequest;
use dns_record_update::telemetry::{Span, SERVICE_NAME};

fn pairs(span: &Span) -> Vec<(String, String)> {
    span.attributes.iter().map(|a| (a.key.clone(), a.value.clone())).collect()
}

fn pair(key: &str, value: &str) -> (String, String) {
    (key.to_string(), value.to_string())
}

#[test]
fn the_cycle_span() {
    let span = Span::cycle();
    assert_eq!(span.tracer, "dns");
    assert_eq!(span.name, "Dns logic...");
    assert!(span.attributes.is_empty());
    assert_eq!(SERVICE_NAME, "cf-dyn-dns");
}

#[test]
fn lookup_spans_tell_host_and_resolver() {
    let command = Command::Lookup {
        current: LookupRequest::echo(),
        published: LookupRequest::published("home.example.com"),
    };
    let spans = command.spans();
    assert_eq!(spans.len(), 2);
    assert_eq!(spans[0].tracer, "dns_lookup");
    assert_eq!(spans[0].name, "Getting current dns address...");
    assert_eq!(
        pairs(&spans[0]),
        vec![pair("dns.hostname", "myip.opendns.com"), pair("dns.resolver", "208.67.222.222")]
    );
    assert_eq!(
        pairs(&spans[1]),
        vec![pair("dns.hostname", "home.example.com"), pair("dns.resolver", "1.0.0.1")]
    );
}

#[test]
fn session_spans() {
    for command in [
        Command::QueryTokenTtl,
        Command::Login { mount: "m".to_string(), role: "r".to_string() },
    ] {
        let spans = command.spans();
        assert_eq!(spans.len(), 1);
        assert_eq!(spans[0].tracer, "create_vault_client");
        assert_eq!(spans[0].name, "Creating vault client...");
        assert!(spans[0].attributes.is_empty());
    }
}

#[test]
fn credential_span() {
    let command = Command::ReadSecret {
        mount: "m".to_string(),
        path: "p".to_string(),
        field: "f".to_string(),
    };
    let spans = command.spans();
    assert_eq!(spans.len(), 1);
    assert_eq!(spans[0].tracer, "create_cf_api_client");
    assert_eq!(spans[0].name, "Create CF API Client...");
}

#[test]
fn record_span_tells_record_and_zone() {
    let command = Command::ResolveRecord(RecordQuery {
        zone_id: "zone-id-1".to_string(),
        name: "home.example.com".to_string(),
    });
    let spans = command.spans();
    assert_eq!(spans.len(), 1);
    assert_eq!(spans[0].tracer, "get_current_record");
    assert_eq!(spans[0].name, "Looking up current record...");
    assert_eq!(
        pairs(&spans[0]),
        vec![pair("dns.record", "home.example.com"), pair("dns.zone", "zone-id-1")]
    );
}

#[test]
fn update_span_tells_address_and_name() {
    let command = Command::UpdateRecord(UpdateRequest::new(
        RecordIdentity { zone_id: "zone-id-1".to_string(), record_id: "rec-1".to_string() },
        "home.example.com".to_string(),
        Ipv4Address::new(5, 6, 7, 8),
    ));
    let spans = command.spans();
    assert_eq!(spans.len(), 1);
    assert_eq!(spans[0].tracer, "update_record");
    assert_eq!(spans[0].name, "Updating record...");
    assert_eq!(
        pairs(&spans[0]),
        vec![pair("dns.address", "5.6.7.8"), pair("dns.name", "home.example.com")]
    );
}

#[test]
fn sleeping_and_halting_are_not_traced() {
    assert!(Command::Sleep { seconds: 120 }.spans().is_empty());
    let fatal = FatalError { cause: LookupError::NotFound, record: "r".to_string() };
    assert!(Command::Halt(fatal).spans().is_empty());
}
