//! The reconciliation loop that runs: the state machine over the values
//! that a driver holds.

use crate::address::Ipv4Address;
use crate::config::Config;
use crate::errors::{
    warnings, ApiError, AuthError, ResolutionError, SecretReadError, StoreFailure,
};
use crate::logging::{lines_of, LogEntry, LogLevel, LogLine};
use crate::machine::{
    address_line, answer_line, fatal_line, login, login_failure_line, lookup_failure_line,
    read_secret, secret_failure_line, sleep, ttl_failure_line, up_to_date_line, update_line,
    CommandView, EventView, Phase, Stage, State, StepView, INTERVAL_SECONDS,
};
use crate::provider::{
    single_match, texts_of, FatalError, RecordIdentity, RecordQuery, UpdateRequest,
};
use crate::resolver::{
    answer_view, resolution_view, Answer, LookupRequest, Resolution, LOOKUP_HOSTNAME,
};
use crate::secrets::{
    bearer_token, needs_login, session_view, Session, AUTH_MOUNT, AUTH_ROLE, SECRET_FIELD,
    SECRET_MOUNT, SECRET_PATH,
};
use vstd::prelude::*;
use vstd::string::*;

verus! {

/// What happened: the answer to the command that was out.
#[derive(Debug, PartialEq, Eq)]
pub enum Event {
    /// The process started, or the sleep between two cycles is over.
    Wake,
    /// Both DNS questions were answered.
    Lookups { current: Answer, published: Answer },
    /// The session's remaining lifetime, in seconds.
    TokenTtl(Result<u64, AuthError>),
    /// The session token that a login gave.
    LoggedIn(Result<String, AuthError>),
    /// The field of the secret that holds the credential.
    Secret(Result<String, SecretReadError>),
    /// The identifiers of the records that have the tracked name.
    RecordMatches(Result<Vec<String>, ApiError>),
    /// The provider's answer to the update.
    Updated(Result<(), ApiError>),
}

impl View for Event {
    type V = EventView;

    open spec fn view(&self) -> EventView {
        match self {
            Event::Wake => EventView::Wake,
            Event::Lookups { current, published } => EventView::Lookups {
                current: answer_view(*current),
                published: answer_view(*published),
            },
            Event::TokenTtl(ttl) => EventView::TokenTtl(
                match ttl {
                    Ok(seconds) => Ok(*seconds),
                    Err(e) => Err(e@),
                },
            ),
            Event::LoggedIn(token) => EventView::LoggedIn(
                match token {
                    Ok(token) => Ok(token@),
                    Err(e) => Err(e@),
                },
            ),
            Event::Secret(field) => EventView::Secret(
                match field {
                    Ok(field) => Ok(field@),
                    Err(e) => Err(e@),
                },
            ),
            Event::RecordMatches(matches) => EventView::RecordMatches(
                match matches {
                    Ok(ids) => Ok(texts_of(ids@)),
                    Err(e) => Err(e@),
                },
            ),
            Event::Updated(outcome) => EventView::Updated(
                match outcome {
                    Ok(_) => Ok(()),
                    Err(e) => Err(e@),
                },
            ),
        }
    }
}

/// What to do next.
#[derive(Debug, PartialEq, Eq)]
pub enum Command {
    /// Ask both DNS questions, and wait for both answers.
    Lookup { current: LookupRequest, published: LookupRequest },
    /// Ask the secrets service how long the session has to live.
    QueryTokenTtl,
    /// Log in to the secrets service with the identity token.
    Login { mount: String, role: String },
    /// Read the provider's credential.
    ReadSecret { mount: String, path: String, field: String },
    /// Look up the identifier of the tracked record.
    ResolveRecord(RecordQuery),
    /// Update the record.
    UpdateRecord(UpdateRequest),
    /// Sleep, then wake the machine.
    Sleep { seconds: u64 },
    /// End the process.
    Halt(FatalError),
}

impl View for Command {
    type V = CommandView;

    open spec fn view(&self) -> CommandView {
        match self {
            Command::Lookup { current, published } => CommandView::Lookup {
                current: current@,
                published: published@,
            },
            Command::QueryTokenTtl => CommandView::QueryTokenTtl,
            Command::Login { mount, role } => CommandView::Login { mount: mount@, role: role@ },
            Command::ReadSecret { mount, path, field } => CommandView::ReadSecret {
                mount: mount@,
                path: path@,
                field: field@,
            },
            Command::ResolveRecord(query) => CommandView::ResolveRecord(query@),
            Command::UpdateRecord(request) => CommandView::UpdateRecord(request@),
            Command::Sleep { seconds } => CommandView::Sleep { seconds: *seconds },
            Command::Halt(fatal) => CommandView::Halt(fatal@),
        }
    }
}

/// The view of a command that may be absent.
pub open spec fn command_view(command: Option<Command>) -> Option<CommandView> {
    match command {
        Some(c) => Some(c@),
        None => None,
    }
}

/// What a step gives: the lines to log, in order, and the command to
/// perform. No command means that the event was not awaited.
#[derive(Debug, PartialEq, Eq)]
pub struct Step {
    pub logs: Vec<LogEntry>,
    pub command: Option<Command>,
}

impl View for Step {
    type V = StepView;

    open spec fn view(&self) -> StepView {
        StepView { logs: lines_of(self.logs@), command: command_view(self.command) }
    }
}

/// The loop's state: the configuration, the session with the secrets
/// service, and the phase. It is the only thing that lasts from one cycle
/// to the next.
#[derive(Debug)]
pub struct Reconciler<'a> {
    config: Config<'a>,
    session: Option<Session>,
    phase: Phase,
}

impl<'a> View for Reconciler<'a> {
    type V = State;

    closed spec fn view(&self) -> State {
        State { config: self.config@, session: session_view(self.session), phase: self.phase }
    }
}

fn entry(level: LogLevel, message: String) -> (e: LogEntry)
    ensures
        e@ == (LogLine { level, text: message@ }),
{
    LogEntry { level, message }
}

fn address_entry(address: Ipv4Address) -> (e: LogEntry)
    ensures
        e@ == address_line(address),
{
    entry(LogLevel::Debug, String::from_str("A record: ").concat(address.to_text().as_str()))
}

fn lookup_failure_entry(hostname: &str, error: &ResolutionError) -> (e: LogEntry)
    ensures
        e@ == lookup_failure_line(hostname@, error@),
{
    let mut text = String::from_str("DNS lookup for ");
    text.append(hostname);
    text.append(" failed: ");
    text.append(error.message().as_str());
    entry(LogLevel::Warn, text)
}

fn answer_entry(hostname: &str, outcome: &Resolution) -> (e: LogEntry)
    ensures
        e@ == answer_line(
            hostname@,
            match resolution_view(*outcome) {
                Ok(found) => Ok(found.address),
                Err(fault) => Err(fault),
            },
        ),
{
    match outcome {
        Ok(found) => address_entry(found.address),
        Err(error) => lookup_failure_entry(hostname, error),
    }
}

fn up_to_date_entry(record: &str, published: Ipv4Address) -> (e: LogEntry)
    ensures
        e@ == up_to_date_line(record@, published),
{
    let mut text = String::from_str("DNS record for ");
    text.append(record);
    text.append(" (");
    text.append(published.to_text().as_str());
    text.append(") is up to date");
    entry(LogLevel::Info, text)
}

fn update_entry(record: &str, published: Ipv4Address, current: Ipv4Address) -> (e: LogEntry)
    ensures
        e@ == update_line(record@, published, current),
{
    let mut text = String::from_str("DNS record for ");
    text.append(record);
    text.append(" (");
    text.append(published.to_text().as_str());
    text.append(" ==> ");
    text.append(current.to_text().as_str());
    text.append(") will be updated");
    entry(LogLevel::Info, text)
}

fn store_failure_entry(prefix: &str, failure: &StoreFailure) -> (e: LogEntry)
    ensures
        e@ == (LogLine { level: LogLevel::Warn, text: prefix@ + failure@.text() }),
{
    entry(LogLevel::Warn, String::from_str(prefix).concat(failure.message().as_str()))
}

fn ttl_failure_entry(error: &AuthError) -> (e: LogEntry)
    ensures
        e@ == ttl_failure_line(error@),
{
    store_failure_entry("Session lookup failed: ", &error.failure)
}

fn login_failure_entry(error: &AuthError) -> (e: LogEntry)
    ensures
        e@ == login_failure_line(error@),
{
    store_failure_entry("Login failed: ", &error.failure)
}

fn secret_failure_entry(error: &SecretReadError) -> (e: LogEntry)
    ensures
        e@ == secret_failure_line(error@),
{
    store_failure_entry("Reading the credential failed: ", &error.failure)
}

fn fatal_entry(fatal: &FatalError) -> (e: LogEntry)
    ensures
        e@ == fatal_line(fatal@),
{
    entry(LogLevel::Error, fatal.message())
}

fn one(e: LogEntry) -> (logs: Vec<LogEntry>)
    ensures
        lines_of(logs@) == seq![e@],
{
    let mut logs: Vec<LogEntry> = Vec::new();
    logs.push(e);
    assert(lines_of(logs@) =~= seq![e@]);
    logs
}

fn none() -> (logs: Vec<LogEntry>)
    ensures
        lines_of(logs@) == Seq::<LogLine>::empty(),
{
    let logs: Vec<LogEntry> = Vec::new();
    assert(lines_of(logs@) =~= Seq::<LogLine>::empty());
    logs
}

fn sleep_command() -> (c: Command)
    ensures
        c@ == sleep(),
{
    Command::Sleep { seconds: INTERVAL_SECONDS }
}

fn login_command() -> (c: Command)
    ensures
        c@ == login(),
{
    Command::Login { mount: String::from_str(AUTH_MOUNT), role: String::from_str(AUTH_ROLE) }
}

fn read_secret_command() -> (c: Command)
    ensures
        c@ == read_secret(),
{
    Command::ReadSecret {
        mount: String::from_str(SECRET_MOUNT),
        path: String::from_str(SECRET_PATH),
        field: String::from_str(SECRET_FIELD),
    }
}

impl<'a> Reconciler<'a> {
    /// What an update under way needs is there: this holds of every
    /// reconciler.
    #[verifier::type_invariant]
    closed spec fn inv(&self) -> bool {
        self@.wf()
    }

    /// A reconciler for `config`: idle, without a session.
    pub fn new(config: Config<'a>) -> (r: Reconciler<'a>)
        ensures
            r@ == State::initial(config@),
            r@.wf(),
    {
        Reconciler { config, session: None, phase: Phase::Idle }
    }

    /// Where the loop stands.
    pub fn phase(&self) -> (phase: Phase)
        ensures
            phase == self@.phase,
    {
        self.phase
    }

    /// The configuration.
    pub fn config(&self) -> (config: Config<'a>)
        ensures
            config@ == self@.config,
    {
        self.config
    }

    /// The token of the session with the secrets service, where there is
    /// one.
    pub fn session_token(&self) -> (token: Option<&str>)
        ensures
            match self@.session {
                Some(session) => (token matches Some(t) && t@ == session.token),
                None => token is None,
            },
    {
        match &self.session {
            Some(session) => Some(session.token.as_str()),
            None => None,
        }
    }

    /// The provider's credential, where one is held.
    pub fn credential(&self) -> (credential: Option<&str>)
        ensures
            match self@.session {
                Some(session) => match session.credential {
                    Some(value) => (credential matches Some(c) && c@ == value),
                    None => credential is None,
                },
                None => credential is None,
            },
            self@.phase matches Phase::Updating { stage, .. } && (stage == Stage::ResolvingRecord
                || stage == Stage::Patching) ==> credential is Some,
    {
        proof {
            use_type_invariant(self);
        }
        match &self.session {
            Some(session) => match &session.credential {
                Some(value) => Some(value.as_str()),
                None => None,
            },
            None => None,
        }
    }

    fn resolve_record_command(config: &Config<'a>) -> (c: Command)
        ensures
            c@ == CommandView::ResolveRecord(
                crate::provider::RecordQueryView {
                    zone_id: config@.zone_id,
                    name: config@.record,
                },
            ),
    {
        Command::ResolveRecord(
            RecordQuery {
                zone_id: String::from_str(config.zone_id()),
                name: String::from_str(config.record()),
            },
        )
    }

    fn rest(config: Config<'a>, session: Option<Session>, logs: Vec<LogEntry>) -> (res: (
        Reconciler<'a>,
        Step,
    ))
        ensures
            res.0@ == (State {
                config: config@,
                session: session_view(session),
                phase: Phase::Idle,
            }),
            res.1@ == (StepView { logs: lines_of(logs@), command: Some(sleep()) }),
    {
        (
            Reconciler { config, session, phase: Phase::Idle },
            Step { logs, command: Some(sleep_command()) },
        )
    }

    fn on_lookups(
        config: Config<'a>,
        session: Option<Session>,
        current: Answer,
        published: Answer,
    ) -> (res: (Reconciler<'a>, Step))
        ensures
            (res.0@, res.1@) == (State {
                config: config@,
                session: session_view(session),
                phase: Phase::Resolving,
            }).after_lookups(answer_view(current), answer_view(published)),
    {
        let ours = LookupRequest::echo().resolve(current);
        let theirs = LookupRequest::published(config.record()).resolve(published);
        let mut logs: Vec<LogEntry> = Vec::new();
        let first = answer_entry(LOOKUP_HOSTNAME, &ours);
        let second = answer_entry(config.record(), &theirs);
        let ghost found = seq![first@, second@];
        logs.push(first);
        logs.push(second);
        assert(lines_of(logs@) =~= found);
        match (ours, theirs) {
            (Ok(ours), Ok(theirs)) => {
                let ours = ours.address;
                let theirs = theirs.address;
                if ours == theirs {
                    let line = up_to_date_entry(config.record(), theirs);
                    logs.push(line);
                    assert(lines_of(logs@) =~= found.push(line@));
                    Self::rest(config, session, logs)
                } else {
                    let line = update_entry(config.record(), theirs, ours);
                    logs.push(line);
                    assert(lines_of(logs@) =~= found.push(line@));
                    match session {
                        None => (
                            Reconciler {
                                config,
                                session: None,
                                phase: Phase::Updating { stage: Stage::LoggingIn, current: ours },
                            },
                            Step { logs, command: Some(login_command()) },
                        ),
                        Some(session) => (
                            Reconciler {
                                config,
                                session: Some(session),
                                phase: Phase::Updating {
                                    stage: Stage::CheckingSession,
                                    current: ours,
                                },
                            },
                            Step { logs, command: Some(Command::QueryTokenTtl) },
                        ),
                    }
                }
            },
            _ => Self::rest(config, session, logs),
        }
    }

    fn on_token_ttl(
        config: Config<'a>,
        session: Session,
        current: Ipv4Address,
        ttl: Result<u64, AuthError>,
    ) -> (res: (Reconciler<'a>, Step))
        ensures
            (res.0@, res.1@) == (State {
                config: config@,
                session: Some(session@),
                phase: Phase::Updating { stage: Stage::CheckingSession, current },
            }).after_token_ttl(
                current,
                match ttl {
                    Ok(seconds) => Ok(seconds),
                    Err(e) => Err(e@),
                },
            ),
    {
        match ttl {
            Err(error) => {
                let logs = one(ttl_failure_entry(&error));
                Self::rest(config, None, logs)
            },
            Ok(seconds) => {
                if needs_login(Some(seconds)) {
                    (
                        Reconciler {
                            config,
                            session: None,
                            phase: Phase::Updating { stage: Stage::LoggingIn, current },
                        },
                        Step { logs: none(), command: Some(login_command()) },
                    )
                } else if session.credential.is_some() {
                    let command = Self::resolve_record_command(&config);
                    (
                        Reconciler {
                            config,
                            session: Some(session),
                            phase: Phase::Updating { stage: Stage::ResolvingRecord, current },
                        },
                        Step { logs: none(), command: Some(command) },
                    )
                } else {
                    (
                        Reconciler {
                            config,
                            session: Some(session),
                            phase: Phase::Updating { stage: Stage::ReadingSecret, current },
                        },
                        Step { logs: none(), command: Some(read_secret_command()) },
                    )
                }
            },
        }
    }

    fn on_login(config: Config<'a>, current: Ipv4Address, token: Result<String, AuthError>) -> (res:
        (Reconciler<'a>, Step))
        ensures
            (res.0@, res.1@) == (State {
                config: config@,
                session: None,
                phase: Phase::Updating { stage: Stage::LoggingIn, current },
            }).after_login(
                current,
                match token {
                    Ok(token) => Ok(token@),
                    Err(e) => Err(e@),
                },
            ),
    {
        match token {
            Err(error) => {
                let logs = one(login_failure_entry(&error));
                Self::rest(config, None, logs)
            },
            Ok(token) => (
                Reconciler {
                    config,
                    session: Some(Session { token, credential: None }),
                    phase: Phase::Updating { stage: Stage::ReadingSecret, current },
                },
                Step { logs: none(), command: Some(read_secret_command()) },
            ),
        }
    }

    fn on_secret(
        config: Config<'a>,
        session: Session,
        current: Ipv4Address,
        field: Result<String, SecretReadError>,
    ) -> (res: (Reconciler<'a>, Step))
        ensures
            (res.0@, res.1@) == (State {
                config: config@,
                session: Some(session@),
                phase: Phase::Updating { stage: Stage::ReadingSecret, current },
            }).after_secret(
                current,
                match field {
                    Ok(field) => Ok(field@),
                    Err(e) => Err(e@),
                },
            ),
    {
        match field {
            Err(error) => {
                let logs = one(secret_failure_entry(&error));
                Self::rest(config, Some(session), logs)
            },
            Ok(field) => {
                let command = Self::resolve_record_command(&config);
                let credential = bearer_token(field.as_str());
                (
                    Reconciler {
                        config,
                        session: Some(
                            Session { token: session.token, credential: Some(credential) },
                        ),
                        phase: Phase::Updating { stage: Stage::ResolvingRecord, current },
                    },
                    Step { logs: none(), command: Some(command) },
                )
            },
        }
    }

    fn on_matches(
        config: Config<'a>,
        session: Session,
        current: Ipv4Address,
        matches: Result<Vec<String>, ApiError>,
    ) -> (res: (Reconciler<'a>, Step))
        requires
            session@.credential is Some,
        ensures
            (res.0@, res.1@) == (State {
                config: config@,
                session: Some(session@),
                phase: Phase::Updating { stage: Stage::ResolvingRecord, current },
            }).after_matches(
                current,
                match matches {
                    Ok(ids) => Ok(texts_of(ids@)),
                    Err(e) => Err(e@),
                },
            ),
    {
        match matches {
            Err(error) => {
                let logs = error.log_lines();
                Self::rest(config, Some(session), logs)
            },
            Ok(ids) => match single_match(ids) {
                Ok(record_id) => {
                    let request = UpdateRequest::new(
                        RecordIdentity { zone_id: String::from_str(config.zone_id()), record_id },
                        String::from_str(config.record()),
                        current,
                    );
                    (
                        Reconciler {
                            config,
                            session: Some(session),
                            phase: Phase::Updating { stage: Stage::Patching, current },
                        },
                        Step { logs: none(), command: Some(Command::UpdateRecord(request)) },
                    )
                },
                Err(cause) => {
                    let fatal = FatalError { cause, record: String::from_str(config.record()) };
                    let logs = one(fatal_entry(&fatal));
                    (
                        Reconciler { config, session: Some(session), phase: Phase::Halted },
                        Step { logs, command: Some(Command::Halt(fatal)) },
                    )
                },
            },
        }
    }

    fn on_update(config: Config<'a>, session: Session, outcome: Result<(), ApiError>) -> (res: (
        Reconciler<'a>,
        Step,
    ))
        ensures
            res.0@ == (State { config: config@, session: Some(session@), phase: Phase::Idle }),
            res.1@ == (StepView {
                logs: match outcome {
                    Ok(_) => Seq::empty(),
                    Err(e) => warnings(e@.lines()),
                },
                command: Some(sleep()),
            }),
    {
        match outcome {
            Ok(_) => Self::rest(config, Some(session), none()),
            Err(error) => {
                let logs = error.log_lines();
                Self::rest(config, Some(session), logs)
            },
        }
    }

    /// Takes `event` and says what to log and what to do next. An event
    /// that does not answer the command that is out changes nothing and
    /// gives no command.
    pub fn step(self, event: Event) -> (res: (Reconciler<'a>, Step))
        ensures
            res.0@ == self@.next(event@).0,
            res.1@ == self@.next(event@).1,
            self@.wf(),
            res.0@.wf(),
    {
        proof {
            use_type_invariant(&self);
        }
        let Reconciler { config, session, phase } = self;
        match phase {
            Phase::Idle => match event {
                Event::Wake => (
                    Reconciler { config, session, phase: Phase::Resolving },
                    Step {
                        logs: none(),
                        command: Some(
                            Command::Lookup {
                                current: LookupRequest::echo(),
                                published: LookupRequest::published(config.record()),
                            },
                        ),
                    },
                ),
                _ => (
                    Reconciler { config, session, phase },
                    Step { logs: none(), command: None },
                ),
            },
            Phase::Resolving => match event {
                Event::Lookups { current, published } => Self::on_lookups(
                    config,
                    session,
                    current,
                    published,
                ),
                _ => (
                    Reconciler { config, session, phase },
                    Step { logs: none(), command: None },
                ),
            },
            Phase::Updating { stage, current } => match (stage, event, session) {
                (Stage::CheckingSession, Event::TokenTtl(ttl), Some(session)) => {
                    Self::on_token_ttl(config, session, current, ttl)
                },
                (Stage::LoggingIn, Event::LoggedIn(token), None) => Self::on_login(
                    config,
                    current,
                    token,
                ),
                (Stage::ReadingSecret, Event::Secret(field), Some(session)) => Self::on_secret(
                    config,
                    session,
                    current,
                    field,
                ),
                (Stage::ResolvingRecord, Event::RecordMatches(matches), Some(session)) => {
                    Self::on_matches(config, session, current, matches)
                },
                (Stage::Patching, Event::Updated(outcome), Some(session)) => Self::on_update(
                    config,
                    session,
                    outcome,
                ),
                (_, _, session) => (
                    Reconciler { config, session, phase },
                    Step { logs: none(), command: None },
                ),
            },
            Phase::Halted => (
                Reconciler { config, session, phase },
                Step { logs: none(), command: None },
            ),
        }
    }
}

} // verus!
