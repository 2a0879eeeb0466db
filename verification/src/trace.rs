//! Runs of a creation: what holds of every sequence of events, in whatever
//! order they come.

use vstd::prelude::*;
use crate::boxes::built;
use crate::create::{
    begun,
    refusal,
    stepped,
    CreateActionView,
    CreateEventView,
    CreationView,
    ParamsView,
};
use crate::error::{CreateErrorView, KeyResolutionFailureView, RegistrationFailureView};
use crate::handle::EncryptionBoxHandle;
use crate::material::{
    is_full_key,
    is_nonce,
    is_secret,
    lemma_normalized_is_full,
    normalized,
};
use crate::text::{is_blank, lemma_trimmed, occurs_in, trimmed};

verus! {

/// The state of a creation that began in `start`, after the first `n` of
/// `events`.
pub open spec fn state_after(start: CreationView, events: Seq<CreateEventView>, n: nat) -> CreationView
    decreases n,
{
    if n == 0 {
        start
    } else {
        stepped(state_after(start, events, (n - 1) as nat), events[n - 1]).0
    }
}

/// The action that answers the event at position `i` of `events`, in a
/// creation that began in `start`.
pub open spec fn action_at(start: CreationView, events: Seq<CreateEventView>, i: int) -> CreateActionView {
    stepped(state_after(start, events, i as nat), events[i]).1
}

/// The creation has ended or was given up with no registration open.
pub open spec fn is_closed(state: CreationView) -> bool {
    state is Done || state == (CreationView::Abandoned { registering: false })
}

/// The creation was given up.
pub open spec fn is_abandoned(state: CreationView) -> bool {
    state is Abandoned
}

/// A wrapper is delivered in one case only: the creation waits for the
/// engine, and the engine confirms the registration under a handle that
/// names a box. The wrapper then holds that handle. A refused registration
/// never leads to a wrapper.
pub proof fn lemma_delivery_needs_confirmation(state: CreationView, event: CreateEventView)
    ensures
        stepped(state, event).1 is Deliver <==> (state is Registering && event is Registered
            && event->Registered_0.names_box()),
        stepped(state, event).1 is Deliver ==> stepped(state, event).1
            == CreateActionView::Deliver(event->Registered_0) && stepped(state, event).0 is Done,
        event is RegistrationRefused ==> !(stepped(state, event).1 is Deliver),
        (state is Registering && event is RegistrationRefused) ==> stepped(state, event) == (
            CreationView::Done,
            CreateActionView::Fail(
                CreateErrorView::Registration(
                    RegistrationFailureView::Refused(event->RegistrationRefused_0),
                ),
            ),
        ),
{
}

/// A box goes to the engine in one case only: the loader has resolved the
/// operator's entry to a secret key, and the nonce fits the cipher. The box
/// is then built over the key in its full width, with the nonce and the
/// other party's key as the caller gave them.
pub proof fn lemma_registration_needs_key(state: CreationView, event: CreateEventView)
    ensures
        stepped(state, event).1 is Register <==> (state is ResolvingKey && event is KeyLoaded
            && is_secret(event->KeyLoaded_0) && is_nonce(
            state->ResolvingKey_params.box_type,
            state->ResolvingKey_params.nonce,
        )),
        stepped(state, event).1 is Register ==> {
            let params = state->ResolvingKey_params;
            let b = stepped(state, event).1->Register_0;
            &&& b == built(
                params.box_type,
                normalized(event->KeyLoaded_0),
                params.nonce,
                params.their_pubkey,
            )
            &&& is_full_key(b.secret_key())
            &&& is_nonce(b.box_type(), b.nonce())
            &&& stepped(state, event).0 is Registering
        },
{
    if stepped(state, event).1 is Register {
        lemma_normalized_is_full(event->KeyLoaded_0);
    }
}

/// The creation comes to wait for the engine only by sending a box to it, and
/// to wait for the loader only by sending the operator's entry to it.
pub proof fn lemma_waiting_follows_action(state: CreationView, event: CreateEventView)
    ensures
        stepped(state, event).0 is Registering ==> (state is Registering || stepped(
            state,
            event,
        ).1 is Register),
        stepped(state, event).0 is ResolvingKey ==> (state is ResolvingKey || (
        state is AwaitingSecret && event is SecretEntered && !is_blank(event->SecretEntered_0)
            && stepped(state, event).1 == CreateActionView::LoadKeypair(
            event->SecretEntered_0,
        ))),
{
}

/// Once a creation is closed nothing happens any more: every event leaves
/// it as it is and asks for nothing.
pub proof fn lemma_closed_stays_closed(state: CreationView, event: CreateEventView)
    requires
        is_closed(state),
    ensures
        stepped(state, event) == (state, CreateActionView::Nothing),
{
}

/// Once a creation is given up it stays so, and no wrapper is delivered.
pub proof fn lemma_abandoned_stays_abandoned(state: CreationView, event: CreateEventView)
    requires
        is_abandoned(state),
    ensures
        is_abandoned(stepped(state, event).0),
        !(stepped(state, event).1 is Deliver),
        !(stepped(state, event).1 is Register),
        !(stepped(state, event).1 is Fail),
{
}

/// A handle that the engine confirms is never lost: while the caller waits
/// the wrapper that holds it is delivered, and once the caller has gone its
/// deregistration is asked for.
pub proof fn lemma_confirmed_handle_is_owned(state: CreationView, handle: EncryptionBoxHandle)
    requires
        handle.names_box(),
        state is Registering || state == (CreationView::Abandoned { registering: true }),
    ensures
        state is Registering ==> stepped(state, CreateEventView::Registered(handle)).1
            == CreateActionView::Deliver(handle),
        state is Abandoned ==> stepped(state, CreateEventView::Registered(handle)).1
            == CreateActionView::Deregister(handle),
        is_closed(stepped(state, CreateEventView::Registered(handle)).0),
{
}

/// To give a creation up asks for nothing, and leaves a registration open
/// exactly where the box was with the engine.
pub proof fn lemma_cancel(state: CreationView)
    ensures
        stepped(state, CreateEventView::Cancelled).1 is Nothing,
        stepped(state, CreateEventView::Cancelled).0 == (CreationView::Abandoned {
            registering: true,
        }) <==> (state is Registering || state == (CreationView::Abandoned { registering: true })),
        !(state is Done) ==> is_abandoned(stepped(state, CreateEventView::Cancelled).0),
{
}

/// The loader's words reach the caller only where they do not hold what the
/// operator entered. The entry that reached the loader is not blank, so
/// there is something to withhold.
pub proof fn lemma_refusal_withholds_entry(entry: Seq<char>, words: Seq<char>)
    ensures
        refusal(entry, words) is Rejected ==> refusal(entry, words)
            == KeyResolutionFailureView::Rejected(words) && !occurs_in(words, trimmed(entry))
            && !occurs_in(words, entry),
        !(refusal(entry, words) is Rejected) ==> refusal(entry, words)
            == KeyResolutionFailureView::Undisclosed,
        !is_blank(entry) ==> trimmed(entry).len() > 0,
{
    lemma_trimmed(entry);
    if occurs_in(words, entry) {
        let at = choose|at: int| crate::text::occurs_at(words, entry, at);
        let inner = choose|inner: int| crate::text::occurs_at(entry, trimmed(entry), inner);
        assert(crate::text::occurs_at(words, trimmed(entry), at + inner)) by {
            assert forall|k: int| 0 <= k < trimmed(entry).len() implies words[at + inner + k]
                == #[trigger] trimmed(entry)[k] by {
                assert(entry[inner + k] == trimmed(entry)[k]);
                assert(words[at + (inner + k)] == entry[inner + k]);
            }
        }
    }
}

/// Once a creation is closed, no event of a run asks for anything.
pub proof fn lemma_closed_run(start: CreationView, events: Seq<CreateEventView>, n: nat)
    requires
        is_closed(start),
        n <= events.len(),
    ensures
        state_after(start, events, n) == start,
        forall|i: int| 0 <= i < n ==> action_at(start, events, i) is Nothing,
    decreases n,
{
    if n > 0 {
        lemma_closed_run(start, events, (n - 1) as nat);
        lemma_closed_stays_closed(start, events[n - 1]);
        assert forall|i: int| 0 <= i < n implies action_at(start, events, i) is Nothing by {
            if i == n - 1 {
                assert(state_after(start, events, i as nat) == start);
            }
        }
    }
}

/// A blank entry ends the creation before anything is asked of the engine:
/// the first action is the failure to resolve the key, and whatever events
/// follow, no box is ever sent to be registered, no wrapper is delivered and
/// no handle is deregistered.
pub proof fn lemma_blank_entry_reaches_no_engine(
    params: ParamsView,
    line: Seq<char>,
    events: Seq<CreateEventView>,
)
    requires
        !params.lacks_counterparty(),
        is_blank(line),
        events.len() > 0,
        events[0] == CreateEventView::SecretEntered(line),
    ensures
        begun(params) == (CreationView::AwaitingSecret(params), CreateActionView::Prompt),
        action_at(begun(params).0, events, 0) == CreateActionView::Fail(
            CreateErrorView::KeyResolution(KeyResolutionFailureView::EmptySecret),
        ),
        forall|i: int|
            0 <= i < events.len() ==> {
                let action = #[trigger] action_at(begun(params).0, events, i);
                !(action is Register) && !(action is Deliver) && !(action is Deregister)
            },
{
    let start = begun(params).0;
    assert(state_after(start, events, 0) == start);
    assert(state_after(start, events, 1) == stepped(start, events[0]).0);
    let rest = events.subrange(1, events.len() as int);
    assert forall|i: int| 0 <= i < events.len() implies {
        let action = #[trigger] action_at(start, events, i);
        !(action is Register) && !(action is Deliver) && !(action is Deregister)
    } by {
        if i > 0 {
            lemma_suffix_run(start, events, 1, (i - 1) as nat);
            lemma_closed_run(CreationView::Done, rest, (i - 1) as nat);
            lemma_closed_stays_closed(CreationView::Done, rest[i - 1]);
        }
    }
}

/// A run may be cut in two: the state after `k + n` events is the state that
/// the last `n` of them lead to from the state after the first `k`.
pub proof fn lemma_suffix_run(start: CreationView, events: Seq<CreateEventView>, k: nat, n: nat)
    requires
        k + n <= events.len(),
    ensures
        state_after(start, events, k + n) == state_after(
            state_after(start, events, k),
            events.subrange(k as int, events.len() as int),
            n,
        ),
    decreases n,
{
    if n > 0 {
        lemma_suffix_run(start, events, k, (n - 1) as nat);
        assert(events.subrange(k as int, events.len() as int)[n - 1] == events[k + n - 1]);
    }
}

/// Where the cipher between two parties is asked for without the other
/// party's key, the creation fails at once: the operator is not asked, and
/// no event of a run asks for anything.
pub proof fn lemma_missing_counterparty_reaches_nobody(
    params: ParamsView,
    events: Seq<CreateEventView>,
)
    requires
        params.lacks_counterparty(),
    ensures
        begun(params) == (
            CreationView::Done,
            CreateActionView::Fail(CreateErrorView::MissingCounterpartyKey),
        ),
        forall|i: int|
            0 <= i < events.len() ==> #[trigger] action_at(begun(params).0, events, i) is Nothing,
{
    lemma_closed_run(CreationView::Done, events, events.len());
}

/// In every run, a wrapper is delivered only in answer to a confirmation of
/// the engine, and holds the handle that the engine confirmed; and at most
/// one wrapper is delivered.
pub proof fn lemma_run_delivers_once(start: CreationView, events: Seq<CreateEventView>, i: int, j: int)
    requires
        0 <= i < events.len(),
        0 <= j < events.len(),
        action_at(start, events, i) is Deliver,
    ensures
        events[i] is Registered,
        action_at(start, events, i) == CreateActionView::Deliver(events[i]->Registered_0),
        events[i]->Registered_0.names_box(),
        action_at(start, events, j) is Deliver ==> i == j,
{
    lemma_delivery_needs_confirmation(state_after(start, events, i as nat), events[i]);
    if action_at(start, events, j) is Deliver && i != j {
        lemma_delivery_needs_confirmation(state_after(start, events, j as nat), events[j]);
        let (lo, hi) = if i < j {
            (i, j)
        } else {
            (j, i)
        };
        assert(state_after(start, events, (lo + 1) as nat) is Done);
        lemma_suffix_run(start, events, (lo + 1) as nat, (hi - lo - 1) as nat);
        lemma_closed_run(
            CreationView::Done,
            events.subrange(lo + 1, events.len() as int),
            (hi - lo - 1) as nat,
        );
        assert(state_after(start, events, hi as nat) is Done);
    }
}

/// A creation that waits for the loader has sent it the operator's entry
/// before: the entry was not blank, and it is the one that the state holds.
pub proof fn lemma_resolving_follows_entry(start: CreationView, events: Seq<CreateEventView>, n: nat)
    requires
        n <= events.len(),
        !(start is ResolvingKey),
        state_after(start, events, n) is ResolvingKey,
    ensures
        exists|j: int|
            0 <= j < n && events[j] is SecretEntered && !is_blank(events[j]->SecretEntered_0)
                && #[trigger] action_at(start, events, j) == CreateActionView::LoadKeypair(
                events[j]->SecretEntered_0,
            ) && state_after(start, events, n)->ResolvingKey_entry == events[j]->SecretEntered_0,
    decreases n,
{
    let before = state_after(start, events, (n - 1) as nat);
    lemma_waiting_follows_action(before, events[n - 1]);
    if before is ResolvingKey {
        lemma_resolving_follows_entry(start, events, (n - 1) as nat);
        let j = choose|j: int|
            0 <= j < n - 1 && events[j] is SecretEntered && !is_blank(events[j]->SecretEntered_0)
                && #[trigger] action_at(start, events, j) == CreateActionView::LoadKeypair(
                events[j]->SecretEntered_0,
            ) && before->ResolvingKey_entry == events[j]->SecretEntered_0;
        assert(action_at(start, events, j) == CreateActionView::LoadKeypair(
            events[j]->SecretEntered_0,
        ));
    } else {
        assert(action_at(start, events, n - 1) == CreateActionView::LoadKeypair(
            events[n - 1]->SecretEntered_0,
        ));
    }
}

/// A creation that waits for the engine has sent it a box before.
pub proof fn lemma_registering_follows_register(
    start: CreationView,
    events: Seq<CreateEventView>,
    n: nat,
)
    requires
        n <= events.len(),
        !(start is Registering),
        state_after(start, events, n) is Registering,
    ensures
        exists|j: int| 0 <= j < n && #[trigger] action_at(start, events, j) is Register,
    decreases n,
{
    let before = state_after(start, events, (n - 1) as nat);
    lemma_waiting_follows_action(before, events[n - 1]);
    if before is Registering {
        lemma_registering_follows_register(start, events, (n - 1) as nat);
        let j = choose|j: int| 0 <= j < n - 1 && #[trigger] action_at(start, events, j) is Register;
        assert(action_at(start, events, j) is Register);
    } else {
        assert(action_at(start, events, n - 1) is Register);
    }
}

/// The order of a creation. In every run from its beginning, a box goes to
/// the engine only after the operator's entry went to the loader and the
/// loader resolved it: the prompt is over before the registration begins.
/// And a wrapper is delivered only after a box went to the engine.
pub proof fn lemma_run_in_order(params: ParamsView, events: Seq<CreateEventView>, i: int)
    requires
        0 <= i < events.len(),
    ensures
        action_at(begun(params).0, events, i) is Register ==> events[i] is KeyLoaded && exists|
            j: int,
        |
            0 <= j < i && events[j] is SecretEntered && #[trigger] action_at(
                begun(params).0,
                events,
                j,
            ) == CreateActionView::LoadKeypair(events[j]->SecretEntered_0),
        action_at(begun(params).0, events, i) is Deliver ==> events[i] is Registered && exists|
            j: int,
        | 0 <= j < i && #[trigger] action_at(begun(params).0, events, j) is Register,
{
    let start = begun(params).0;
    let state = state_after(start, events, i as nat);
    if action_at(start, events, i) is Register {
        lemma_registration_needs_key(state, events[i]);
        lemma_resolving_follows_entry(start, events, i as nat);
    }
    if action_at(start, events, i) is Deliver {
        lemma_delivery_needs_confirmation(state, events[i]);
        lemma_registering_follows_register(start, events, i as nat);
    }
}

} // verus!
