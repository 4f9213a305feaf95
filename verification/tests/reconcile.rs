use dns_record_update::address::Ipv4Address;
use dns_record_update::errors::{
    ApiError, ApiErrorDetail, AuthError, ResolutionError, SecretReadError, StoreFailure,
};
use dns_record_update::logging::{LogEntry, LogLevel};
use dns_record_update::machine::{Phase, Stage, INTERVAL_SECONDS};
use dns_record_update::provider::LookupError;
use dns_record_update::reconciler::{Command, Event, Reconciler, Step};
use dns_record_update::Config;

fn arguments() -> Vec<String> {
    ["prog", "zone-id-1", "example.com", "home.example.com"].iter().map(|s| s.to_string()).collect()
}

fn texts(entries: &[LogEntry]) -> Vec<String> {
    entries.iter().map(|e| e.message.clone()).collect()
}

fn levels(entries: &[LogEntry]) -> Vec<LogLevel> {
    entries.iter().map(|e| e.level).collect()
}

fn found(a: u8, b: u8, c: u8, d: u8) -> Result<Vec<Ipv4Address>, ResolutionError> {
    Ok(vec![Ipv4Address::new(a, b, c, d)])
}

fn lookups(current: (u8, u8, u8, u8), published: (u8, u8, u8, u8)) -> Event {
    Event::Lookups {
        current: found(current.0, current.1, current.2, current.3),
        published: found(published.0, published.1, published.2, published.3),
    }
}

fn network(detail: &str) -> StoreFailure {
    StoreFailure::Network(detail.to_string())
}

fn forbidden() -> ApiError {
    ApiError::Status {
        status: 403,
        reason: "Forbidden".to_string(),
        errors: vec![ApiErrorDetail {
            code: 9109,
            message: "Invalid access token".to_string(),
            other: vec![],
        }],
        other: vec![],
    }
}

fn sleep() -> Option<Command> {
    Some(Command::Sleep { seconds: 120 })
}

fn is_sleep(step: &Step) -> bool {
    step.command == sleep()
}

/// Feeds the events in order and hands back the machine and every step.
fn feed<'a>(mut machine: Reconciler<'a>, events: Vec<Event>) -> (Reconciler<'a>, Vec<Step>) {
    let mut steps = Vec::new();
    for event in events {
        let (next, step) = machine.step(event);
        machine = next;
        steps.push(step);
    }
    (machine, steps)
}

fn updates(steps: &[Step]) -> usize {
    steps.iter().filter(|s| matches!(s.command, Some(Command::UpdateRecord(_)))).count()
}

fn logins(steps: &[Step]) -> usize {
    steps.iter().filter(|s| matches!(s.command, Some(Command::Login { .. }))).count()
}

fn provider_calls(steps: &[Step]) -> usize {
    steps
        .iter()
        .filter(|s| {
            matches!(s.command, Some(Command::UpdateRecord(_)) | Some(Command::ResolveRecord(_)))
        })
        .count()
}

/// A machine that has been through one whole update and sleeps with a
/// session and a credential.
fn with_session<'a>(config: Config<'a>) -> Reconciler<'a> {
    let (machine, steps) = feed(
        Reconciler::new(config),
        vec![
            Event::Wake,
            lookups((5, 6, 7, 8), (1, 2, 3, 4)),
            Event::LoggedIn(Ok("s.token".to_string())),
            Event::Secret(Ok("\"cf-token\"".to_string())),
            Event::RecordMatches(Ok(vec!["rec-1".to_string()])),
            Event::Updated(Ok(())),
        ],
    );
    assert!(is_sleep(steps.last().unwrap()));
    machine
}

#[test]
fn a_new_machine_is_idle_without_a_session() {
    let args = arguments();
    let machine = Reconciler::new(Config::new(&args).unwrap());
    assert_eq!(machine.phase(), Phase::Idle);
    assert_eq!(machine.session_token(), None);
    assert_eq!(machine.credential(), None);
    assert_eq!(machine.config().record(), "home.example.com");
}

#[test]
fn waking_asks_both_questions() {
    let args = arguments();
    let (machine, step) = Reconciler::new(Config::new(&args).unwrap()).step(Event::Wake);
    assert_eq!(machine.phase(), Phase::Resolving);
    assert!(step.logs.is_empty());
    match step.command {
        Some(Command::Lookup { current, published }) => {
            assert_eq!(current.resolver, Ipv4Address::new(208, 67, 222, 222));
            assert_eq!(current.port, 53);
            assert_eq!(current.hostname, "myip.opendns.com");
            assert_eq!(published.resolver, Ipv4Address::new(1, 0, 0, 1));
            assert_eq!(published.port, 53);
            assert_eq!(published.hostname, "home.example.com");
        }
        other => panic!("unexpected command {:?}", other),
    }
}

#[test]
fn equal_addresses_are_up_to_date_and_call_nothing() {
    let args = arguments();
    let (machine, steps) = feed(
        Reconciler::new(Config::new(&args).unwrap()),
        vec![Event::Wake, lookups((1, 2, 3, 4), (1, 2, 3, 4))],
    );
    assert_eq!(machine.phase(), Phase::Idle);
    assert_eq!(steps[1].command, sleep());
    assert_eq!(
        texts(&steps[1].logs),
        vec![
            "A record: 1.2.3.4",
            "A record: 1.2.3.4",
            "DNS record for home.example.com (1.2.3.4) is up to date",
        ]
    );
    assert_eq!(levels(&steps[1].logs), vec![LogLevel::Debug, LogLevel::Debug, LogLevel::Info]);
    assert_eq!(updates(&steps), 0);
    assert_eq!(provider_calls(&steps), 0);
    assert_eq!(logins(&steps), 0);
    assert_eq!(machine.session_token(), None);
}

#[test]
fn differing_addresses_update_once_with_the_current_address() {
    let args = arguments();
    let (machine, steps) = feed(
        Reconciler::new(Config::new(&args).unwrap()),
        vec![
            Event::Wake,
            lookups((5, 6, 7, 8), (1, 2, 3, 4)),
            Event::LoggedIn(Ok("s.token".to_string())),
            Event::Secret(Ok("\"cf-token\"".to_string())),
            Event::RecordMatches(Ok(vec!["rec-1".to_string()])),
            Event::Updated(Ok(())),
        ],
    );
    assert_eq!(
        texts(&steps[1].logs),
        vec![
            "A record: 5.6.7.8",
            "A record: 1.2.3.4",
            "DNS record for home.example.com (1.2.3.4 ==> 5.6.7.8) will be updated",
        ]
    );
    assert_eq!(
        steps[1].command,
        Some(Command::Login {
            mount: "ocp/cf-dyn-dns-k8s".to_string(),
            role: "cf-dyn-dns-secret-reader".to_string(),
        })
    );
    assert_eq!(
        steps[2].command,
        Some(Command::ReadSecret {
            mount: "ocp/cf-dyn-dns".to_string(),
            path: "cf-api".to_string(),
            field: "key".to_string(),
        })
    );
    match &steps[3].command {
        Some(Command::ResolveRecord(query)) => {
            assert_eq!(query.zone_id, "zone-id-1");
            assert_eq!(query.name, "home.example.com");
        }
        other => panic!("unexpected command {:?}", other),
    }
    match &steps[4].command {
        Some(Command::UpdateRecord(request)) => {
            assert_eq!(request.content, Ipv4Address::new(5, 6, 7, 8));
            assert_eq!(request.ttl, 60);
            assert_eq!(request.proxied, None);
            assert_eq!(request.name, "home.example.com");
            assert_eq!(request.identity.zone_id, "zone-id-1");
            assert_eq!(request.identity.record_id, "rec-1");
        }
        other => panic!("unexpected command {:?}", other),
    }
    assert_eq!(steps[5].command, sleep());
    assert!(steps[5].logs.is_empty());
    assert_eq!(updates(&steps), 1);
    assert_eq!(logins(&steps), 1);
    assert_eq!(machine.phase(), Phase::Idle);
    assert_eq!(machine.session_token(), Some("s.token"));
    assert_eq!(machine.credential(), Some("cf-token"));
}

#[test]
fn the_phases_of_an_update() {
    let args = arguments();
    let current = Ipv4Address::new(5, 6, 7, 8);
    let machine = Reconciler::new(Config::new(&args).unwrap());
    let (machine, _) = machine.step(Event::Wake);
    let (machine, _) = machine.step(lookups((5, 6, 7, 8), (1, 2, 3, 4)));
    assert_eq!(machine.phase(), Phase::Updating { stage: Stage::LoggingIn, current });
    let (machine, _) = machine.step(Event::LoggedIn(Ok("s.token".to_string())));
    assert_eq!(machine.phase(), Phase::Updating { stage: Stage::ReadingSecret, current });
    assert_eq!(machine.credential(), None);
    let (machine, _) = machine.step(Event::Secret(Ok("cf-token".to_string())));
    assert_eq!(machine.phase(), Phase::Updating { stage: Stage::ResolvingRecord, current });
    assert_eq!(machine.credential(), Some("cf-token"));
    let (machine, _) = machine.step(Event::RecordMatches(Ok(vec!["rec-1".to_string()])));
    assert_eq!(machine.phase(), Phase::Updating { stage: Stage::Patching, current });
    let (machine, _) = machine.step(Event::Updated(Ok(())));
    assert_eq!(machine.phase(), Phase::Idle);
}

#[test]
fn a_failed_current_lookup_ends_the_cycle() {
    let args = arguments();
    let (machine, steps) = feed(
        Reconciler::new(Config::new(&args).unwrap()),
        vec![
            Event::Wake,
            Event::Lookups { current: Err(ResolutionError::TimedOut), published: found(1, 2, 3, 4) },
        ],
    );
    assert_eq!(steps[1].command, sleep());
    assert_eq!(
        texts(&steps[1].logs),
        vec!["DNS lookup for myip.opendns.com failed: query timed out", "A record: 1.2.3.4"]
    );
    assert_eq!(levels(&steps[1].logs), vec![LogLevel::Warn, LogLevel::Debug]);
    assert_eq!(machine.phase(), Phase::Idle);
    assert_eq!(provider_calls(&steps), 0);
}

#[test]
fn a_failed_published_lookup_ends_the_cycle() {
    let args = arguments();
    let (machine, steps) = feed(
        Reconciler::new(Config::new(&args).unwrap()),
        vec![
            Event::Wake,
            Event::Lookups {
                current: found(5, 6, 7, 8),
                published: Err(ResolutionError::Unreachable("io error".to_string())),
            },
        ],
    );
    assert_eq!(steps[1].command, sleep());
    assert_eq!(
        texts(&steps[1].logs),
        vec![
            "A record: 5.6.7.8",
            "DNS lookup for home.example.com failed: resolver unreachable: io error",
        ]
    );
    assert_eq!(machine.phase(), Phase::Idle);
    assert_eq!(provider_calls(&steps), 0);
    assert_eq!(logins(&steps), 0);
}

#[test]
fn an_answer_without_records_is_a_failed_lookup() {
    let args = arguments();
    let (_, steps) = feed(
        Reconciler::new(Config::new(&args).unwrap()),
        vec![Event::Wake, Event::Lookups { current: found(5, 6, 7, 8), published: Ok(vec![]) }],
    );
    assert_eq!(steps[1].command, sleep());
    assert_eq!(
        texts(&steps[1].logs),
        vec![
            "A record: 5.6.7.8",
            "DNS lookup for home.example.com failed: response holds no records",
        ]
    );
}

#[test]
fn both_lookups_failing_log_both() {
    let args = arguments();
    let (_, steps) = feed(
        Reconciler::new(Config::new(&args).unwrap()),
        vec![
            Event::Wake,
            Event::Lookups {
                current: Err(ResolutionError::TimedOut),
                published: Err(ResolutionError::Malformed("bad".to_string())),
            },
        ],
    );
    assert_eq!(steps[1].command, sleep());
    assert_eq!(levels(&steps[1].logs), vec![LogLevel::Warn, LogLevel::Warn]);
}

#[test]
fn only_the_first_record_of_an_answer_counts() {
    let args = arguments();
    let (_, steps) = feed(
        Reconciler::new(Config::new(&args).unwrap()),
        vec![
            Event::Wake,
            Event::Lookups {
                current: Ok(vec![Ipv4Address::new(1, 2, 3, 4), Ipv4Address::new(9, 9, 9, 9)]),
                published: Ok(vec![Ipv4Address::new(1, 2, 3, 4), Ipv4Address::new(8, 8, 8, 8)]),
            },
        ],
    );
    assert_eq!(steps[1].command, sleep());
    assert_eq!(updates(&steps), 0);
}

#[test]
fn a_failed_login_ends_the_cycle_and_the_next_cycle_logs_in_again() {
    let args = arguments();
    let (machine, steps) = feed(
        Reconciler::new(Config::new(&args).unwrap()),
        vec![
            Event::Wake,
            lookups((5, 6, 7, 8), (1, 2, 3, 4)),
            Event::LoggedIn(Err(AuthError { failure: network("connection refused") })),
        ],
    );
    assert_eq!(steps[2].command, sleep());
    assert_eq!(texts(&steps[2].logs), vec!["Login failed: network failure: connection refused"]);
    assert_eq!(levels(&steps[2].logs), vec![LogLevel::Warn]);
    assert_eq!(provider_calls(&steps), 0);
    assert_eq!(machine.phase(), Phase::Idle);
    assert_eq!(machine.session_token(), None);

    let (machine, again) = feed(machine, vec![Event::Wake, lookups((5, 6, 7, 8), (1, 2, 3, 4))]);
    assert!(matches!(again[1].command, Some(Command::Login { .. })));
    assert_eq!(
        machine.phase(),
        Phase::Updating { stage: Stage::LoggingIn, current: Ipv4Address::new(5, 6, 7, 8) }
    );
}

#[test]
fn a_fresh_session_is_not_renewed() {
    let args = arguments();
    let machine = with_session(Config::new(&args).unwrap());
    let (machine, steps) = feed(
        machine,
        vec![
            Event::Wake,
            lookups((9, 9, 9, 9), (5, 6, 7, 8)),
            Event::TokenTtl(Ok(120)),
            Event::RecordMatches(Ok(vec!["rec-1".to_string()])),
            Event::Updated(Ok(())),
        ],
    );
    assert_eq!(steps[1].command, Some(Command::QueryTokenTtl));
    assert!(matches!(steps[2].command, Some(Command::ResolveRecord(_))));
    match &steps[3].command {
        Some(Command::UpdateRecord(request)) => {
            assert_eq!(request.content, Ipv4Address::new(9, 9, 9, 9));
            assert_eq!(request.ttl, 60);
        }
        other => panic!("unexpected command {:?}", other),
    }
    assert_eq!(logins(&steps), 0);
    assert_eq!(updates(&steps), 1);
    assert_eq!(machine.session_token(), Some("s.token"));
    assert_eq!(machine.credential(), Some("cf-token"));
}

#[test]
fn a_stale_session_is_renewed() {
    let args = arguments();
    let machine = with_session(Config::new(&args).unwrap());
    let (machine, steps) = feed(
        machine,
        vec![Event::Wake, lookups((9, 9, 9, 9), (5, 6, 7, 8)), Event::TokenTtl(Ok(119))],
    );
    assert_eq!(steps[1].command, Some(Command::QueryTokenTtl));
    assert!(matches!(steps[2].command, Some(Command::Login { .. })));
    assert_eq!(machine.session_token(), None);
    assert_eq!(machine.credential(), None);
    let (machine, more) = feed(
        machine,
        vec![
            Event::LoggedIn(Ok("s.second".to_string())),
            Event::Secret(Ok("cf-second".to_string())),
        ],
    );
    assert!(matches!(more[0].command, Some(Command::ReadSecret { .. })));
    assert!(matches!(more[1].command, Some(Command::ResolveRecord(_))));
    assert_eq!(machine.session_token(), Some("s.second"));
    assert_eq!(machine.credential(), Some("cf-second"));
}

#[test]
fn a_session_whose_lifetime_cannot_be_had_is_dropped() {
    let args = arguments();
    let machine = with_session(Config::new(&args).unwrap());
    let (machine, steps) = feed(
        machine,
        vec![
            Event::Wake,
            lookups((9, 9, 9, 9), (5, 6, 7, 8)),
            Event::TokenTtl(Err(AuthError {
                failure: StoreFailure::Rejected {
                    status: 403,
                    detail: "permission denied".to_string(),
                },
            })),
        ],
    );
    assert_eq!(steps[2].command, sleep());
    assert_eq!(
        texts(&steps[2].logs),
        vec!["Session lookup failed: status 403: permission denied"]
    );
    assert_eq!(logins(&steps), 0);
    assert_eq!(provider_calls(&steps), 0);
    assert_eq!(machine.session_token(), None);
    assert_eq!(machine.phase(), Phase::Idle);
}

#[test]
fn a_failed_secret_read_ends_the_cycle_and_keeps_the_session() {
    let args = arguments();
    let (machine, steps) = feed(
        Reconciler::new(Config::new(&args).unwrap()),
        vec![
            Event::Wake,
            lookups((5, 6, 7, 8), (1, 2, 3, 4)),
            Event::LoggedIn(Ok("s.token".to_string())),
            Event::Secret(Err(SecretReadError {
                failure: StoreFailure::Malformed("no field".to_string()),
            })),
        ],
    );
    assert_eq!(steps[3].command, sleep());
    assert_eq!(
        texts(&steps[3].logs),
        vec!["Reading the credential failed: malformed response: no field"]
    );
    assert_eq!(provider_calls(&steps), 0);
    assert_eq!(machine.session_token(), Some("s.token"));
    assert_eq!(machine.credential(), None);

    let (_, again) = feed(
        machine,
        vec![Event::Wake, lookups((5, 6, 7, 8), (1, 2, 3, 4)), Event::TokenTtl(Ok(3600))],
    );
    assert!(matches!(again[2].command, Some(Command::ReadSecret { .. })));
}

#[test]
fn a_missing_record_halts() {
    let args = arguments();
    let (machine, steps) = feed(
        Reconciler::new(Config::new(&args).unwrap()),
        vec![
            Event::Wake,
            lookups((5, 6, 7, 8), (1, 2, 3, 4)),
            Event::LoggedIn(Ok("s.token".to_string())),
            Event::Secret(Ok("cf-token".to_string())),
            Event::RecordMatches(Ok(vec![])),
        ],
    );
    match &steps[4].command {
        Some(Command::Halt(fatal)) => {
            assert_eq!(fatal.cause, LookupError::NotFound);
            assert_eq!(fatal.record, "home.example.com");
            assert_eq!(fatal.message(), "Unable to lookup address for: home.example.com");
        }
        other => panic!("unexpected command {:?}", other),
    }
    assert_eq!(texts(&steps[4].logs), vec!["Unable to lookup address for: home.example.com"]);
    assert_eq!(levels(&steps[4].logs), vec![LogLevel::Error]);
    assert_eq!(machine.phase(), Phase::Halted);
    assert_eq!(updates(&steps), 0);
}

#[test]
fn an_ambiguous_record_halts_and_never_picks_the_first() {
    let args = arguments();
    let (machine, steps) = feed(
        Reconciler::new(Config::new(&args).unwrap()),
        vec![
            Event::Wake,
            lookups((5, 6, 7, 8), (1, 2, 3, 4)),
            Event::LoggedIn(Ok("s.token".to_string())),
            Event::Secret(Ok("cf-token".to_string())),
            Event::RecordMatches(Ok(vec!["rec-1".to_string(), "rec-2".to_string()])),
        ],
    );
    match &steps[4].command {
        Some(Command::Halt(fatal)) => assert_eq!(fatal.cause, LookupError::Ambiguous),
        other => panic!("unexpected command {:?}", other),
    }
    assert_eq!(machine.phase(), Phase::Halted);
    assert_eq!(updates(&steps), 0);
}

#[test]
fn a_halted_machine_does_nothing_more() {
    let args = arguments();
    let (machine, _) = feed(
        Reconciler::new(Config::new(&args).unwrap()),
        vec![
            Event::Wake,
            lookups((5, 6, 7, 8), (1, 2, 3, 4)),
            Event::LoggedIn(Ok("s.token".to_string())),
            Event::Secret(Ok("cf-token".to_string())),
            Event::RecordMatches(Ok(vec![])),
        ],
    );
    let (machine, steps) = feed(
        machine,
        vec![Event::Wake, lookups((5, 6, 7, 8), (1, 2, 3, 4)), Event::Updated(Ok(()))],
    );
    assert!(steps.iter().all(|s| s.command.is_none() && s.logs.is_empty()));
    assert_eq!(machine.phase(), Phase::Halted);
}

#[test]
fn a_failed_record_lookup_is_logged_and_ends_the_cycle() {
    let args = arguments();
    let (machine, steps) = feed(
        Reconciler::new(Config::new(&args).unwrap()),
        vec![
            Event::Wake,
            lookups((5, 6, 7, 8), (1, 2, 3, 4)),
            Event::LoggedIn(Ok("s.token".to_string())),
            Event::Secret(Ok("cf-token".to_string())),
            Event::RecordMatches(Err(ApiError::Transport("timed out".to_string()))),
        ],
    );
    assert_eq!(steps[4].command, sleep());
    assert_eq!(texts(&steps[4].logs), vec!["Error: timed out"]);
    assert_eq!(updates(&steps), 0);
    assert_eq!(machine.phase(), Phase::Idle);
}

#[test]
fn a_forbidden_update_is_logged_and_the_loop_goes_on() {
    let args = arguments();
    let (machine, steps) = feed(
        Reconciler::new(Config::new(&args).unwrap()),
        vec![
            Event::Wake,
            lookups((5, 6, 7, 8), (1, 2, 3, 4)),
            Event::LoggedIn(Ok("s.token".to_string())),
            Event::Secret(Ok("cf-token".to_string())),
            Event::RecordMatches(Ok(vec!["rec-1".to_string()])),
            Event::Updated(Err(forbidden())),
        ],
    );
    assert_eq!(steps[5].command, sleep());
    assert_eq!(
        texts(&steps[5].logs),
        vec!["HTTP 403 Forbidden:", "Error 9109: Invalid access token"]
    );
    assert_eq!(levels(&steps[5].logs), vec![LogLevel::Warn, LogLevel::Warn]);
    assert_eq!(machine.phase(), Phase::Idle);
    assert_eq!(updates(&steps), 1);

    let (machine, next) = machine.step(Event::Wake);
    assert!(matches!(next.command, Some(Command::Lookup { .. })));
    assert_eq!(machine.phase(), Phase::Resolving);
}

#[test]
fn an_event_that_is_not_awaited_changes_nothing() {
    let args = arguments();
    let machine = Reconciler::new(Config::new(&args).unwrap());
    let (machine, step) = machine.step(Event::Updated(Ok(())));
    assert_eq!(step.command, None);
    assert!(step.logs.is_empty());
    assert_eq!(machine.phase(), Phase::Idle);

    let (machine, _) = machine.step(Event::Wake);
    let (machine, step) = machine.step(Event::Wake);
    assert_eq!(step.command, None);
    assert_eq!(machine.phase(), Phase::Resolving);

    let (machine, _) = machine.step(lookups((5, 6, 7, 8), (1, 2, 3, 4)));
    let before = machine.phase();
    let (machine, step) = machine.step(Event::TokenTtl(Ok(5)));
    assert_eq!(step.command, None);
    assert_eq!(machine.phase(), before);
    let (machine, step) = machine.step(Event::RecordMatches(Ok(vec!["rec-1".to_string()])));
    assert_eq!(step.command, None);
    assert_eq!(machine.phase(), before);
}

#[test]
fn the_interval_is_120_seconds() {
    assert_eq!(INTERVAL_SECONDS, 120);
}

#[test]
fn the_credential_loses_its_quotes() {
    let args = arguments();
    let (machine, _) = feed(
        Reconciler::new(Config::new(&args).unwrap()),
        vec![
            Event::Wake,
            lookups((5, 6, 7, 8), (1, 2, 3, 4)),
            Event::LoggedIn(Ok("s.token".to_string())),
            Event::Secret(Ok("\"\"quoted\"".to_string())),
        ],
    );
    assert_eq!(machine.credential(), Some("quoted"));
}

#[test]
fn many_cycles_make_one_update_each() {
    let args = arguments();
    let mut machine = with_session(Config::new(&args).unwrap());
    for round in 0..5u8 {
        let (next, steps) = feed(
            machine,
            vec![
                Event::Wake,
                lookups((10, 0, 0, round), (10, 0, 1, round)),
                Event::TokenTtl(Ok(3600)),
                Event::RecordMatches(Ok(vec!["rec-1".to_string()])),
                Event::Updated(Ok(())),
            ],
        );
        assert_eq!(updates(&steps), 1);
        assert_eq!(logins(&steps), 0);
        machine = next;
        assert_eq!(machine.phase(), Phase::Idle);
    }
}
