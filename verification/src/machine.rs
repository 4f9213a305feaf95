//! The reconciliation loop as a state machine.
//!
//! The machine does no outside work. It is handed what happened (an
//! `Event`) and says what to log and what to do next (a `Step`). Whoever
//! drives it performs the command and hands back the event that answers it.
//!
//! One cycle: `Idle`, woken, asks both DNS questions (`Resolving`). Equal
//! addresses end the cycle. Differing addresses start the update
//! (`Updating`): the session with the secrets service is renewed where it is
//! due, the credential is read where none is held, the record's identifier
//! is looked up, and the record is updated. Every path ends in a sleep of
//! `INTERVAL_SECONDS` and `Idle` again, but for a record that is missing or
//! ambiguous, which halts the machine for good.

use crate::address::Ipv4Address;
use crate::config::ConfigView;
use crate::errors::{warnings, ApiFault, ResolutionFault, StoreFault};
use crate::logging::{LogLevel, LogLine};
use crate::provider::{
    the_match, update_of, FatalErrorView, RecordQueryView, UpdateRequestView,
};
use crate::resolver::{
    echo_question, record_question, resolved, AnswerView, LookupRequestView, LOOKUP_HOSTNAME,
};
use crate::secrets::{
    login_due, SessionView, AUTH_MOUNT, AUTH_ROLE, SECRET_FIELD, SECRET_MOUNT, SECRET_PATH,
};
use crate::text::trimmed;
use vstd::prelude::*;

verus! {

/// The seconds slept between two cycles.
pub const INTERVAL_SECONDS: u64 = 120;

/// How far an update has come.
#[derive(Clone, Copy, Debug, PartialEq, Eq, Structural)]
pub enum Stage {
    /// The session's remaining lifetime is being asked.
    CheckingSession,
    /// A login is under way.
    LoggingIn,
    /// The credential is being read.
    ReadingSecret,
    /// The record's identifier is being looked up.
    ResolvingRecord,
    /// The update itself is under way.
    Patching,
}

/// Where the loop stands.
#[derive(Clone, Copy, Debug, PartialEq, Eq, Structural)]
pub enum Phase {
    /// Between two cycles.
    Idle,
    /// Both DNS questions are out.
    Resolving,
    /// The addresses differed: `current` is being published.
    Updating { stage: Stage, current: Ipv4Address },
    /// A fatal condition was met: nothing is done any more.
    Halted,
}

/// What happened, over plain values.
pub enum EventView {
    /// The process started, or the sleep between two cycles is over.
    Wake,
    /// Both DNS questions were answered.
    Lookups { current: AnswerView, published: AnswerView },
    /// The session's remaining lifetime, in seconds.
    TokenTtl(Result<u64, StoreFault>),
    /// The session token that a login gave.
    LoggedIn(Result<Seq<char>, StoreFault>),
    /// The field of the secret that holds the credential.
    Secret(Result<Seq<char>, StoreFault>),
    /// The identifiers of the records that have the tracked name.
    RecordMatches(Result<Seq<Seq<char>>, ApiFault>),
    /// The provider's answer to the update.
    Updated(Result<(), ApiFault>),
}

/// What to do next, over plain values.
pub enum CommandView {
    /// Ask both DNS questions, and wait for both answers.
    Lookup { current: LookupRequestView, published: LookupRequestView },
    /// Ask the secrets service how long the session has to live.
    QueryTokenTtl,
    /// Log in to the secrets service with the identity token.
    Login { mount: Seq<char>, role: Seq<char> },
    /// Read the provider's credential.
    ReadSecret { mount: Seq<char>, path: Seq<char>, field: Seq<char> },
    /// Look up the identifier of the tracked record.
    ResolveRecord(RecordQueryView),
    /// Update the record.
    UpdateRecord(UpdateRequestView),
    /// Sleep, then wake the machine.
    Sleep { seconds: u64 },
    /// End the process.
    Halt(FatalErrorView),
}

impl CommandView {
    /// Whether the command changes anything at the provider.
    pub open spec fn mutates_provider(self) -> bool {
        self is UpdateRecord
    }

    /// Whether the command calls the provider's API.
    pub open spec fn calls_provider(self) -> bool {
        self is ResolveRecord || self is UpdateRecord
    }

    /// Whether the command calls the secrets service.
    pub open spec fn calls_secrets(self) -> bool {
        self is QueryTokenTtl || self is Login || self is ReadSecret
    }

    /// Whether the command ends a cycle.
    pub open spec fn ends_cycle(self) -> bool {
        self is Sleep || self is Halt
    }
}

/// What a step gives: the lines to log, in order, and the command to
/// perform. No command means that the event was not awaited.
pub struct StepView {
    pub logs: Seq<LogLine>,
    pub command: Option<CommandView>,
}

/// The loop's state, over plain values.
pub struct State {
    pub config: ConfigView,
    pub session: Option<SessionView>,
    pub phase: Phase,
}

/// The line that tells of an address found.
pub open spec fn address_line(address: Ipv4Address) -> LogLine {
    LogLine { level: LogLevel::Debug, text: "A record: "@ + address.text() }
}

/// The line that tells that the record needs no change.
pub open spec fn up_to_date_line(record: Seq<char>, published: Ipv4Address) -> LogLine {
    LogLine {
        level: LogLevel::Info,
        text: "DNS record for "@ + record + " ("@ + published.text() + ") is up to date"@,
    }
}

/// The line that tells that the record is about to change.
pub open spec fn update_line(
    record: Seq<char>,
    published: Ipv4Address,
    current: Ipv4Address,
) -> LogLine {
    LogLine {
        level: LogLevel::Info,
        text: "DNS record for "@ + record + " ("@ + published.text() + " ==> "@ + current.text()
            + ") will be updated"@,
    }
}

/// The line that tells of a DNS question that failed.
pub open spec fn lookup_failure_line(hostname: Seq<char>, fault: ResolutionFault) -> LogLine {
    LogLine {
        level: LogLevel::Warn,
        text: "DNS lookup for "@ + hostname + " failed: "@ + fault.text(),
    }
}

/// The line that tells that the session's lifetime could not be had.
pub open spec fn ttl_failure_line(fault: StoreFault) -> LogLine {
    LogLine { level: LogLevel::Warn, text: "Session lookup failed: "@ + fault.text() }
}

/// The line that tells of a failed login.
pub open spec fn login_failure_line(fault: StoreFault) -> LogLine {
    LogLine { level: LogLevel::Warn, text: "Login failed: "@ + fault.text() }
}

/// The line that tells that the credential could not be read.
pub open spec fn secret_failure_line(fault: StoreFault) -> LogLine {
    LogLine { level: LogLevel::Warn, text: "Reading the credential failed: "@ + fault.text() }
}

/// The line that tells why the process ends.
pub open spec fn fatal_line(fatal: FatalErrorView) -> LogLine {
    LogLine { level: LogLevel::Error, text: fatal.text() }
}

/// The line logged for one answer: the address found, or the failure.
pub open spec fn answer_line(
    hostname: Seq<char>,
    answer: Result<Ipv4Address, ResolutionFault>,
) -> LogLine {
    match answer {
        Ok(address) => address_line(address),
        Err(fault) => lookup_failure_line(hostname, fault),
    }
}

/// The sleep that ends a cycle.
pub open spec fn sleep() -> CommandView {
    CommandView::Sleep { seconds: INTERVAL_SECONDS }
}

/// The login that opens a session.
pub open spec fn login() -> CommandView {
    CommandView::Login { mount: AUTH_MOUNT@, role: AUTH_ROLE@ }
}

/// The reading of the provider's credential.
pub open spec fn read_secret() -> CommandView {
    CommandView::ReadSecret { mount: SECRET_MOUNT@, path: SECRET_PATH@, field: SECRET_FIELD@ }
}

impl State {
    /// The state a fresh machine is in: idle, without a session.
    pub open spec fn initial(config: ConfigView) -> State {
        State { config, session: None, phase: Phase::Idle }
    }

    /// What an update under way needs is there: a session unless a login is
    /// under way, and a credential once the provider is called.
    pub open spec fn wf(self) -> bool {
        match self.phase {
            Phase::Updating { stage, .. } => match stage {
                Stage::LoggingIn => self.session is None,
                Stage::CheckingSession | Stage::ReadingSecret => self.session is Some,
                Stage::ResolvingRecord | Stage::Patching => self.session is Some
                    && self.session->Some_0.credential is Some,
            },
            _ => true,
        }
    }

    /// Whether `event` answers the command that is out.
    pub open spec fn awaits(self, event: EventView) -> bool {
        match self.phase {
            Phase::Idle => event is Wake,
            Phase::Resolving => event is Lookups,
            Phase::Updating { stage, .. } => match stage {
                Stage::CheckingSession => event is TokenTtl,
                Stage::LoggingIn => event is LoggedIn,
                Stage::ReadingSecret => event is Secret,
                Stage::ResolvingRecord => event is RecordMatches,
                Stage::Patching => event is Updated,
            },
            Phase::Halted => false,
        }
    }

    /// The same state in another phase.
    pub open spec fn at(self, phase: Phase) -> State {
        State { phase, ..self }
    }

    /// The cycle ends here: log `logs`, sleep, and be idle.
    pub open spec fn rest(self, logs: Seq<LogLine>) -> (State, StepView) {
        (self.at(Phase::Idle), StepView { logs, command: Some(sleep()) })
    }

    /// The event was not awaited: nothing changes, nothing is done.
    pub open spec fn ignore(self) -> (State, StepView) {
        (self, StepView { logs: Seq::empty(), command: None })
    }

    /// The look-up of the tracked record's identifier.
    pub open spec fn resolve_record(self) -> CommandView {
        CommandView::ResolveRecord(
            RecordQueryView { zone_id: self.config.zone_id, name: self.config.record },
        )
    }

    /// A cycle begins: both DNS questions are asked.
    pub open spec fn after_wake(self) -> (State, StepView) {
        (
            self.at(Phase::Resolving),
            StepView {
                logs: Seq::empty(),
                command: Some(
                    CommandView::Lookup {
                        current: echo_question(),
                        published: record_question(self.config.record),
                    },
                ),
            },
        )
    }

    /// The update of the record to `current` begins, after `logs`: with a
    /// login where there is no session, else with a look at the session's
    /// remaining lifetime.
    pub open spec fn begin_update(self, current: Ipv4Address, logs: Seq<LogLine>) -> (
        State,
        StepView,
    ) {
        match self.session {
            None => (
                self.at(Phase::Updating { stage: Stage::LoggingIn, current }),
                StepView { logs, command: Some(login()) },
            ),
            Some(_) => (
                self.at(Phase::Updating { stage: Stage::CheckingSession, current }),
                StepView { logs, command: Some(CommandView::QueryTokenTtl) },
            ),
        }
    }

    /// Both questions are answered. Equal addresses end the cycle, and so
    /// does a failed question; differing addresses begin the update.
    pub open spec fn after_lookups(self, current: AnswerView, published: AnswerView) -> (
        State,
        StepView,
    ) {
        let found = seq![
            answer_line(LOOKUP_HOSTNAME@, resolved(current)),
            answer_line(self.config.record, resolved(published)),
        ];
        match (resolved(current), resolved(published)) {
            (Ok(ours), Ok(theirs)) => if ours == theirs {
                self.rest(found.push(up_to_date_line(self.config.record, theirs)))
            } else {
                self.begin_update(ours, found.push(update_line(self.config.record, theirs, ours)))
            },
            _ => self.rest(found),
        }
    }

    /// The session's remaining lifetime is known, or could not be had. A
    /// stale session is dropped and a login begins; a session whose
    /// lifetime could not be had is dropped and the cycle ends; a fresh one
    /// is kept, and with it the credential it holds.
    pub open spec fn after_token_ttl(self, current: Ipv4Address, ttl: Result<u64, StoreFault>) -> (
        State,
        StepView,
    ) {
        match ttl {
            Err(fault) => State { session: None, ..self }.rest(seq![ttl_failure_line(fault)]),
            Ok(seconds) => if self.session is None || login_due(Some(seconds)) {
                (
                    State {
                        session: None,
                        phase: Phase::Updating { stage: Stage::LoggingIn, current },
                        ..self
                    },
                    StepView { logs: Seq::empty(), command: Some(login()) },
                )
            } else if self.session->Some_0.credential is Some {
                (
                    self.at(Phase::Updating { stage: Stage::ResolvingRecord, current }),
                    StepView { logs: Seq::empty(), command: Some(self.resolve_record()) },
                )
            } else {
                (
                    self.at(Phase::Updating { stage: Stage::ReadingSecret, current }),
                    StepView { logs: Seq::empty(), command: Some(read_secret()) },
                )
            },
        }
    }

    /// The login is over. A new session holds no credential yet: it is
    /// read next. A failed login leaves no session and ends the cycle.
    pub open spec fn after_login(self, current: Ipv4Address, token: Result<Seq<char>, StoreFault>)
        -> (State, StepView) {
        match token {
            Err(fault) => State { session: None, ..self }.rest(seq![login_failure_line(fault)]),
            Ok(token) => (
                State {
                    session: Some(SessionView { token, credential: None }),
                    phase: Phase::Updating { stage: Stage::ReadingSecret, current },
                    ..self
                },
                StepView { logs: Seq::empty(), command: Some(read_secret()) },
            ),
        }
    }

    /// The session that holds the bearer value of `field` as its credential.
    pub open spec fn with_credential(self, field: Seq<char>) -> Option<SessionView> {
        match self.session {
            Some(session) => Some(SessionView { credential: Some(trimmed(field)), ..session }),
            None => None,
        }
    }

    /// The secret is read. Its bearer value is held with the session, and
    /// the record's identifier is looked up. A failed reading ends the
    /// cycle and keeps the session.
    pub open spec fn after_secret(self, current: Ipv4Address, field: Result<Seq<char>, StoreFault>)
        -> (State, StepView) {
        match field {
            Err(fault) => self.rest(seq![secret_failure_line(fault)]),
            Ok(field) => (
                State {
                    session: self.with_credential(field),
                    phase: Phase::Updating { stage: Stage::ResolvingRecord, current },
                    ..self
                },
                StepView { logs: Seq::empty(), command: Some(self.resolve_record()) },
            ),
        }
    }

    /// The look-up of the record is over. Exactly one match is updated to
    /// `current`; none, or several, halt the machine; a failed call ends
    /// the cycle.
    pub open spec fn after_matches(
        self,
        current: Ipv4Address,
        matches: Result<Seq<Seq<char>>, ApiFault>,
    ) -> (State, StepView) {
        match matches {
            Err(fault) => self.rest(warnings(fault.lines())),
            Ok(ids) => match the_match(ids) {
                Ok(id) => (
                    self.at(Phase::Updating { stage: Stage::Patching, current }),
                    StepView {
                        logs: Seq::empty(),
                        command: Some(
                            CommandView::UpdateRecord(
                                update_of(self.config.zone_id, id, self.config.record, current),
                            ),
                        ),
                    },
                ),
                Err(cause) => {
                    let fatal = FatalErrorView { cause, record: self.config.record };
                    (
                        self.at(Phase::Halted),
                        StepView {
                            logs: seq![fatal_line(fatal)],
                            command: Some(CommandView::Halt(fatal)),
                        },
                    )
                },
            },
        }
    }

    /// The update is over, and with it the cycle. A failure is logged.
    pub open spec fn after_update(self, outcome: Result<(), ApiFault>) -> (State, StepView) {
        match outcome {
            Ok(_) => self.rest(Seq::empty()),
            Err(fault) => self.rest(warnings(fault.lines())),
        }
    }

    /// The state after `event`, and what is to be logged and done.
    pub open spec fn next(self, event: EventView) -> (State, StepView) {
        match self.phase {
            Phase::Idle => match event {
                EventView::Wake => self.after_wake(),
                _ => self.ignore(),
            },
            Phase::Resolving => match event {
                EventView::Lookups { current, published } => self.after_lookups(
                    current,
                    published,
                ),
                _ => self.ignore(),
            },
            Phase::Updating { stage, current } => match (stage, event) {
                (Stage::CheckingSession, EventView::TokenTtl(ttl)) => self.after_token_ttl(
                    current,
                    ttl,
                ),
                (Stage::LoggingIn, EventView::LoggedIn(token)) => self.after_login(current, token),
                (Stage::ReadingSecret, EventView::Secret(field)) => self.after_secret(
                    current,
                    field,
                ),
                (Stage::ResolvingRecord, EventView::RecordMatches(matches)) => self.after_matches(
                    current,
                    matches,
                ),
                (Stage::Patching, EventView::Updated(outcome)) => self.after_update(outcome),
                _ => self.ignore(),
            },
            Phase::Halted => self.ignore(),
        }
    }
}

} // verus!
