//! What holds of the loop, whatever happens outside it.
//!
//! The laws speak of cycles. A cycle is under way from the moment the
//! machine is woken until it gives the command to sleep, or to halt.

use crate::address::Ipv4Address;
use crate::config::ConfigView;
use crate::errors::{warnings, ApiFault, ResolutionFault, StoreFault};
use crate::machine::{
    login, login_failure_line, sleep, CommandView, EventView, Phase, Stage, State,
};
use crate::provider::{the_match, update_of, UpdateRequestView, RECORD_TTL};
use crate::resolver::resolved;
use vstd::prelude::*;

verus! {

/// The commands given in the cycle under way in `state` as `events` come
/// in, oldest first: all of them up to the one that ends the cycle.
pub open spec fn cycle(state: State, events: Seq<EventView>) -> Seq<CommandView>
    decreases events.len(),
{
    if events.len() == 0 {
        Seq::empty()
    } else {
        let (after, step) = state.next(events[0]);
        match step.command {
            Some(command) => if command.ends_cycle() {
                seq![command]
            } else {
                seq![command] + cycle(after, events.drop_first())
            },
            None => cycle(after, events.drop_first()),
        }
    }
}

/// Whether `events` are the answers of one whole cycle and nothing else:
/// each answers the command that is out when it comes, and the last one
/// brings the command that ends the cycle.
pub open spec fn answers(state: State, events: Seq<EventView>) -> bool
    decreases events.len(),
{
    if events.len() == 0 {
        false
    } else {
        let (after, step) = state.next(events[0]);
        &&& state.awaits(events[0])
        &&& match step.command {
            Some(command) => if command.ends_cycle() {
                events.len() == 1
            } else {
                answers(after, events.drop_first())
            },
            None => false,
        }
    }
}

/// The updates among some commands, in order.
pub open spec fn updates(commands: Seq<CommandView>) -> Seq<UpdateRequestView>
    decreases commands.len(),
{
    if commands.len() == 0 {
        Seq::empty()
    } else {
        match commands[0] {
            CommandView::UpdateRecord(request) => seq![request] + updates(commands.drop_first()),
            _ => updates(commands.drop_first()),
        }
    }
}

/// How many of some commands are logins.
pub open spec fn logins(commands: Seq<CommandView>) -> nat
    decreases commands.len(),
{
    if commands.len() == 0 {
        0
    } else if commands[0] is Login {
        1 + logins(commands.drop_first())
    } else {
        logins(commands.drop_first())
    }
}

/// Whether `request` gives the record tracked by `config` the address
/// `address`, with the fixed TTL and proxying untouched.
pub open spec fn publishes(request: UpdateRequestView, config: ConfigView, address: Ipv4Address)
    -> bool {
    &&& request.content == address
    &&& request.ttl == RECORD_TTL
    &&& request.proxied is None
    &&& request.name == config.record
    &&& request.identity.zone_id == config.zone_id
}

/// Whether `event` tells of a failure that keeps the update from being
/// made: of the secrets service, of the look-up of the record, or a record
/// that is missing or ambiguous.
pub open spec fn blocks_update(event: EventView) -> bool {
    match event {
        EventView::TokenTtl(ttl) => ttl is Err,
        EventView::LoggedIn(token) => token is Err,
        EventView::Secret(field) => field is Err,
        EventView::RecordMatches(matches) => match matches {
            Ok(ids) => the_match(ids) is Err,
            Err(_) => true,
        },
        _ => false,
    }
}

/// Whether `event` answers both DNS questions with the addresses `ours`
/// and `theirs`.
pub open spec fn finds(event: EventView, ours: Ipv4Address, theirs: Ipv4Address) -> bool {
    event matches EventView::Lookups { current, published } && resolved(current) == Ok::<
        Ipv4Address,
        ResolutionFault,
    >(ours) && resolved(published) == Ok::<Ipv4Address, ResolutionFault>(theirs)
}

/// Whether `event` tells that one of the DNS questions failed.
pub open spec fn resolution_failed(event: EventView) -> bool {
    event matches EventView::Lookups { current, published } && (resolved(current) is Err
        || resolved(published) is Err)
}

proof fn lemma_updates_cons(command: CommandView, rest: Seq<CommandView>)
    ensures
        updates(seq![command] + rest) == match command {
            CommandView::UpdateRecord(request) => seq![request] + updates(rest),
            _ => updates(rest),
        },
        updates(seq![command]) == match command {
            CommandView::UpdateRecord(request) => seq![request],
            _ => Seq::<UpdateRequestView>::empty(),
        },
{
    let all = seq![command] + rest;
    assert(all[0] == command);
    assert(all.drop_first() =~= rest);
    let single = seq![command];
    assert(single[0] == command);
    assert(single.drop_first() =~= Seq::<CommandView>::empty());
    assert(updates(Seq::<CommandView>::empty()) =~= Seq::<UpdateRequestView>::empty());
    assert(updates(single) =~= match command {
        CommandView::UpdateRecord(request) => seq![request],
        _ => Seq::<UpdateRequestView>::empty(),
    });
}

proof fn lemma_logins_cons(command: CommandView, rest: Seq<CommandView>)
    ensures
        logins(seq![command] + rest) == (if command is Login {
            1 + logins(rest)
        } else {
            logins(rest)
        }),
        logins(seq![command]) == (if command is Login {
            1nat
        } else {
            0nat
        }),
{
    let all = seq![command] + rest;
    assert(all[0] == command);
    assert(all.drop_first() =~= rest);
    let single = seq![command];
    assert(single[0] == command);
    assert(single.drop_first() =~= Seq::<CommandView>::empty());
    assert(logins(Seq::<CommandView>::empty()) == 0);
}

/// A step keeps the configuration, and keeps what an update under way
/// needs.
pub proof fn law_step_keeps_well_formed(state: State, event: EventView)
    requires
        state.wf(),
    ensures
        state.next(event).0.wf(),
        state.next(event).0.config == state.config,
{
}

/// An event that is not awaited changes nothing and gives no command, and
/// an awaited one always gives a command.
pub proof fn law_awaited_events_are_answered(state: State, event: EventView)
    requires
        state.wf(),
    ensures
        !state.awaits(event) ==> state.next(event) == state.ignore(),
        state.awaits(event) ==> state.next(event).1.command is Some,
{
}

/// Cycles do not overlap: the DNS questions are asked when an idle machine
/// is woken, and at no other time.
pub proof fn law_cycle_begins_only_when_idle(state: State, event: EventView)
    ensures
        (state.next(event).1.command matches Some(command) && command is Lookup) <==> (state.phase
            == Phase::Idle && event is Wake),
{
}

/// The provider is called only while a credential is held.
pub proof fn law_provider_calls_hold_credential(state: State, event: EventView)
    requires
        state.wf(),
        state.next(event).1.command matches Some(command) && command.calls_provider(),
    ensures
        state.next(event).0.session matches Some(session) && session.credential is Some,
{
}

/// The machine halts for one reason only: the look-up of the tracked record
/// gave no match, or more than one. No failure of a call halts it.
pub proof fn law_only_a_bad_match_halts(state: State, event: EventView)
    requires
        state.phase != Phase::Halted,
    ensures
        state.next(event).0.phase == Phase::Halted <==> (state.phase matches Phase::Updating {
            stage: Stage::ResolvingRecord,
            ..
        } && event matches EventView::RecordMatches(Ok(ids)) && ids.len() != 1),
        state.next(event).0.phase == Phase::Halted <==> (state.next(event).1.command matches Some(
            command,
        ) && command is Halt),
{
}

/// Where the look-up of the tracked record gives exactly one match, that
/// match is what is updated; it is never picked among several.
pub proof fn law_the_one_match_is_updated(
    state: State,
    current: Ipv4Address,
    ids: Seq<Seq<char>>,
)
    requires
        state.phase == (Phase::Updating { stage: Stage::ResolvingRecord, current }),
    ensures
        ids.len() == 1 ==> state.next(EventView::RecordMatches(Ok(ids))).1.command == Some(
            CommandView::UpdateRecord(
                update_of(state.config.zone_id, ids[0], state.config.record, current),
            ),
        ),
        ids.len() != 1 ==> (state.next(EventView::RecordMatches(Ok(ids))).1.command matches Some(
            command,
        ) && command is Halt),
{
}

/// A failed login ends the cycle without a call of the provider and leaves
/// no session, so that the next update begins with a login.
pub proof fn law_failed_login_leaves_no_session(
    state: State,
    fault: StoreFault,
    address: Ipv4Address,
)
    requires
        state.phase matches Phase::Updating { stage: Stage::LoggingIn, .. },
    ensures
        state.next(EventView::LoggedIn(Err(fault))).1.command == Some(sleep()),
        state.next(EventView::LoggedIn(Err(fault))).1.logs == seq![login_failure_line(fault)],
        state.next(EventView::LoggedIn(Err(fault))).0.phase == Phase::Idle,
        state.next(EventView::LoggedIn(Err(fault))).0.session is None,
        state.next(EventView::LoggedIn(Err(fault))).0.begin_update(address, Seq::empty()).1.command
            == Some(login()),
{
}

/// An update that the provider rejects is logged, and the loop goes on: the
/// cycle ends with the sleep, as after an update that was accepted.
pub proof fn law_rejected_update_is_logged(state: State, fault: ApiFault)
    requires
        state.phase matches Phase::Updating { stage: Stage::Patching, .. },
    ensures
        state.next(EventView::Updated(Err(fault))).1.command == Some(sleep()),
        state.next(EventView::Updated(Err(fault))).1.logs == warnings(fault.lines()),
        state.next(EventView::Updated(Err(fault))).0 == state.at(Phase::Idle),
        state.next(EventView::Updated(Err(fault))).0 == state.next(EventView::Updated(Ok(()))).0,
{
}

/// Once halted, the machine does nothing more.
pub proof fn law_halt_is_final(state: State, events: Seq<EventView>)
    requires
        state.phase == Phase::Halted,
    ensures
        cycle(state, events) == Seq::<CommandView>::empty(),
    decreases events.len(),
{
    if events.len() > 0 {
        law_halt_is_final(state, events.drop_first());
    }
}

/// Where both questions give the same address, the cycle is over at once:
/// the only command is the sleep. Neither the provider nor the secrets
/// service is called, and the session stays as it was.
pub proof fn law_equal_addresses_change_nothing(
    state: State,
    events: Seq<EventView>,
    address: Ipv4Address,
)
    requires
        state.phase == Phase::Resolving,
        events.len() > 0,
        finds(events[0], address, address),
    ensures
        cycle(state, events) == seq![sleep()],
        updates(cycle(state, events)).len() == 0,
        forall|i: int|
            0 <= i < cycle(state, events).len() ==> !(#[trigger] cycle(state, events)[i])
                .mutates_provider() && !cycle(state, events)[i].calls_provider() && !cycle(
                state,
                events,
            )[i].calls_secrets(),
        state.next(events[0]).0 == state.at(Phase::Idle),
{
    lemma_updates_cons(sleep(), Seq::empty());
}

/// Where one of the questions fails, the cycle is over at once: the only
/// command is the sleep, and the provider is not called.
pub proof fn law_failed_resolution_ends_cycle(state: State, events: Seq<EventView>)
    requires
        state.phase == Phase::Resolving,
        events.len() > 0,
        resolution_failed(events[0]),
    ensures
        cycle(state, events) == seq![sleep()],
        updates(cycle(state, events)).len() == 0,
        forall|i: int|
            0 <= i < cycle(state, events).len() ==> !(#[trigger] cycle(state, events)[i])
                .mutates_provider() && !cycle(state, events)[i].calls_provider() && !cycle(
                state,
                events,
            )[i].calls_secrets(),
        state.next(events[0]).0 == state.at(Phase::Idle),
{
    lemma_updates_cons(sleep(), Seq::empty());
}

proof fn lemma_update_under_way(state: State, events: Seq<EventView>)
    requires
        state.wf(),
        state.phase is Updating,
    ensures
        updates(cycle(state, events)).len() <= 1,
        state.phase->stage == Stage::Patching ==> updates(cycle(state, events)).len() == 0,
        forall|j: int|
            0 <= j < updates(cycle(state, events)).len() ==> publishes(
                #[trigger] updates(cycle(state, events))[j],
                state.config,
                state.phase->current,
            ),
    decreases events.len(),
{
    if events.len() == 0 {
    } else {
        let (after, step) = state.next(events[0]);
        let rest = events.drop_first();
        match step.command {
            Some(command) => {
                if command.ends_cycle() {
                    lemma_updates_cons(command, Seq::empty());
                } else {
                    lemma_update_under_way(after, rest);
                    lemma_updates_cons(command, cycle(after, rest));
                }
            },
            None => {
                lemma_update_under_way(after, rest);
            },
        }
    }
}

/// Where the questions give different addresses, the cycle makes at most
/// one update, whatever happens, and an update that is made gives the
/// tracked record the address found for the caller, with a TTL of 60
/// seconds and proxying untouched.
pub proof fn law_differing_addresses_update_at_most_once(
    state: State,
    events: Seq<EventView>,
    ours: Ipv4Address,
    theirs: Ipv4Address,
)
    requires
        state.wf(),
        state.phase == Phase::Resolving,
        events.len() > 0,
        finds(events[0], ours, theirs),
        ours != theirs,
    ensures
        updates(cycle(state, events)).len() <= 1,
        forall|j: int|
            0 <= j < updates(cycle(state, events)).len() ==> publishes(
                #[trigger] updates(cycle(state, events))[j],
                state.config,
                ours,
            ),
{
    let (after, step) = state.next(events[0]);
    let rest = events.drop_first();
    lemma_update_under_way(after, rest);
    lemma_updates_cons(step.command->Some_0, cycle(after, rest));
}

/// Whether `request` addresses the record that `event` found, where `event`
/// is the answer of a look-up of the record.
pub open spec fn addresses_match_of(request: UpdateRequestView, event: EventView) -> bool {
    event matches EventView::RecordMatches(Ok(ids)) ==> ids.len() == 1
        && request.identity.record_id == ids[0]
}

proof fn lemma_update_made(state: State, events: Seq<EventView>)
    requires
        state.wf(),
        state.phase is Updating,
        answers(state, events),
    ensures
        updates(cycle(state, events)).len() == (if state.phase->stage != Stage::Patching
            && forall|i: int| 0 <= i < events.len() ==> !blocks_update(#[trigger] events[i]) {
            1nat
        } else {
            0nat
        }),
        updates(cycle(state, events)).len() == 1 ==> forall|i: int|
            0 <= i < events.len() ==> addresses_match_of(
                updates(cycle(state, events))[0],
                #[trigger] events[i],
            ),
    decreases events.len(),
{
    let (after, step) = state.next(events[0]);
    let rest = events.drop_first();
    let command = step.command->Some_0;
    if command.ends_cycle() {
        lemma_updates_cons(command, Seq::empty());
        if state.phase->stage != Stage::Patching {
            assert(blocks_update(events[0]));
        }
    } else {
        lemma_update_made(after, rest);
        lemma_updates_cons(command, cycle(after, rest));
        assert(!blocks_update(events[0]));
        assert(answers(after, rest));
        if after.phase->stage == Stage::Patching {
            assert(rest.len() == 1);
            assert forall|i: int| 0 <= i < events.len() implies addresses_match_of(
                updates(cycle(state, events))[0],
                #[trigger] events[i],
            ) by {
                if i > 0 {
                    assert(events[i] == rest[i - 1]);
                }
            }
        } else {
            if updates(cycle(state, events)).len() == 1 {
                assert forall|i: int| 0 <= i < events.len() implies addresses_match_of(
                    updates(cycle(state, events))[0],
                    #[trigger] events[i],
                ) by {
                    if i > 0 {
                        assert(events[i] == rest[i - 1]);
                    }
                }
            }
        }
        if forall|i: int| 0 <= i < events.len() ==> !blocks_update(#[trigger] events[i]) {
            assert forall|i: int| 0 <= i < rest.len() implies !blocks_update(
                #[trigger] rest[i],
            ) by {
                assert(!blocks_update(events[i + 1]));
            }
        }
        if forall|i: int| 0 <= i < rest.len() ==> !blocks_update(#[trigger] rest[i]) {
            assert forall|i: int| 0 <= i < events.len() implies !blocks_update(
                #[trigger] events[i],
            ) by {
                if i > 0 {
                    assert(!blocks_update(rest[i - 1]));
                }
            }
        }
    }
}

/// Where the questions give different addresses and every answer of the
/// cycle comes in, exactly one update is made if no call on the way to it
/// fails and exactly one record has the tracked name; else none is made.
/// The update that is made addresses the one record that was found.
pub proof fn law_differing_addresses_update_once(
    state: State,
    events: Seq<EventView>,
    ours: Ipv4Address,
    theirs: Ipv4Address,
)
    requires
        state.wf(),
        state.phase == Phase::Resolving,
        answers(state, events),
        finds(events[0], ours, theirs),
        ours != theirs,
    ensures
        (forall|i: int| 0 <= i < events.len() ==> !blocks_update(#[trigger] events[i])) ==> updates(
            cycle(state, events),
        ).len() == 1 && publishes(updates(cycle(state, events))[0], state.config, ours),
        (forall|i: int| 0 <= i < events.len() ==> !blocks_update(#[trigger] events[i]))
            ==> forall|i: int|
            0 <= i < events.len() ==> addresses_match_of(
                updates(cycle(state, events))[0],
                #[trigger] events[i],
            ),
        (exists|i: int| 0 <= i < events.len() && blocks_update(#[trigger] events[i])) ==> updates(
            cycle(state, events),
        ).len() == 0,
{
    let (after, step) = state.next(events[0]);
    let rest = events.drop_first();
    lemma_update_made(after, rest);
    lemma_update_under_way(after, rest);
    lemma_updates_cons(step.command->Some_0, cycle(after, rest));
    assert(!blocks_update(events[0]));
    if forall|i: int| 0 <= i < events.len() ==> !blocks_update(#[trigger] events[i]) {
        assert forall|i: int| 0 <= i < rest.len() implies !blocks_update(#[trigger] rest[i]) by {
            assert(!blocks_update(events[i + 1]));
        }
        assert forall|i: int| 0 <= i < events.len() implies addresses_match_of(
            updates(cycle(state, events))[0],
            #[trigger] events[i],
        ) by {
            if i > 0 {
                assert(events[i] == rest[i - 1]);
            }
        }
    }
    if exists|i: int| 0 <= i < events.len() && blocks_update(#[trigger] events[i]) {
        let i = choose|i: int| 0 <= i < events.len() && blocks_update(#[trigger] events[i]);
        assert(blocks_update(rest[i - 1]));
    }
}

proof fn lemma_update_follows_look_up(state: State, events: Seq<EventView>)
    requires
        state.wf(),
    ensures
        forall|j: int|
            0 <= j < cycle(state, events).len() && (#[trigger] cycle(state, events)[j])
                is UpdateRecord ==> if j == 0 {
                state.phase matches Phase::Updating { stage: Stage::ResolvingRecord, .. }
            } else {
                cycle(state, events)[j - 1] is ResolveRecord
            },
    decreases events.len(),
{
    if events.len() > 0 {
        let (after, step) = state.next(events[0]);
        let rest = events.drop_first();
        lemma_update_follows_look_up(after, rest);
        match step.command {
            Some(command) => {
                if !command.ends_cycle() {
                    let all = cycle(state, events);
                    let tail = cycle(after, rest);
                    assert(all == seq![command] + tail);
                    assert forall|j: int|
                        0 <= j < all.len() && (#[trigger] all[j]) is UpdateRecord implies if j
                        == 0 {
                        state.phase matches Phase::Updating { stage: Stage::ResolvingRecord, .. }
                    } else {
                        all[j - 1] is ResolveRecord
                    } by {
                        if j > 0 {
                            assert(all[j] == tail[j - 1]);
                            if j > 1 {
                                assert(all[j - 1] == tail[j - 2]);
                            }
                        }
                    }
                }
            },
            None => {},
        }
    }
}

/// The record's identifier is looked up anew for every update: in a cycle,
/// the command before an update is the look-up of the record. Nothing that
/// a look-up found is kept for a later cycle.
pub proof fn law_identity_is_looked_up_for_each_update(state: State, events: Seq<EventView>)
    requires
        state.wf(),
        state.phase == Phase::Idle || state.phase == Phase::Resolving,
    ensures
        forall|j: int|
            0 <= j < cycle(state, events).len() && (#[trigger] cycle(state, events)[j])
                is UpdateRecord ==> j > 0 && cycle(state, events)[j - 1] is ResolveRecord,
{
    lemma_update_follows_look_up(state, events);
}

proof fn lemma_logins_after_check(state: State, events: Seq<EventView>)
    requires
        state.wf(),
        state.phase matches Phase::Updating { stage, .. } && stage != Stage::CheckingSession,
        answers(state, events),
    ensures
        logins(cycle(state, events)) == 0,
    decreases events.len(),
{
    let (after, step) = state.next(events[0]);
    let rest = events.drop_first();
    let command = step.command->Some_0;
    if command.ends_cycle() {
        lemma_logins_cons(command, Seq::empty());
    } else {
        lemma_logins_after_check(after, rest);
        lemma_logins_cons(command, cycle(after, rest));
    }
}

/// Where the questions give different addresses and every answer of the
/// cycle comes in, a login is made if and only if there is no session, or
/// the session has fewer than 120 seconds to live; and then it is made
/// once. A session with 120 seconds or more is used as it is.
pub proof fn law_login_if_and_only_if_due(
    state: State,
    events: Seq<EventView>,
    ours: Ipv4Address,
    theirs: Ipv4Address,
)
    requires
        state.wf(),
        state.phase == Phase::Resolving,
        answers(state, events),
        finds(events[0], ours, theirs),
        ours != theirs,
    ensures
        events.len() >= 2,
        state.session is None ==> logins(cycle(state, events)) == 1,
        state.session is Some ==> events[1] is TokenTtl,
        state.session is Some ==> logins(cycle(state, events)) == (if events[1]
            matches EventView::TokenTtl(Ok(seconds)) && seconds < 120 {
            1nat
        } else {
            0nat
        }),
{
    let (after, step) = state.next(events[0]);
    let rest = events.drop_first();
    let first = step.command->Some_0;
    assert(answers(after, rest));
    assert(rest.len() > 0);
    assert(rest[0] == events[1]);
    if state.session is None {
        lemma_logins_after_check(after, rest);
        lemma_logins_cons(first, cycle(after, rest));
    } else {
        let (then, second) = after.next(rest[0]);
        let tail = rest.drop_first();
        let command = second.command->Some_0;
        lemma_logins_cons(first, cycle(after, rest));
        if command.ends_cycle() {
            lemma_logins_cons(command, Seq::empty());
        } else {
            lemma_logins_after_check(then, tail);
            lemma_logins_cons(command, cycle(then, tail));
        }
    }
}

} // verus!
