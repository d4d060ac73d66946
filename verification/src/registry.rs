//! The hotkey registry: the session's single global shortcut, as a state
//! machine over the stored description, the live platform binding, and the
//! stale bindings left behind by failed unregistrations.

use vstd::prelude::*;
use global_hotkey::hotkey::HotKey;
use crate::shortcut::{parse_shortcut, same_shortcut, shortcut_parses};

verus! {

/// Why a registration attempt was refused.
#[derive(Debug, PartialEq, Eq, Structural, Clone, Copy)]
pub enum RegisterError {
    /// The description string does not parse as a hotkey.
    Parse,
    /// The platform refused to bind the hotkey, e.g. because another
    /// process already claims the combination.
    Conflict,
}

impl RegisterError {
    /// A short description of the failure, for surfacing to the caller.
    pub fn message(&self) -> (r: String)
        ensures
            self is Parse ==> r@ == "failed to parse shortcut"@,
            self is Conflict ==> r@ == "failed to register shortcut"@,
    {
        match self {
            RegisterError::Parse => String::from_str("failed to parse shortcut"),
            RegisterError::Conflict => String::from_str("failed to register shortcut"),
        }
    }
}

/// Where a registration operation stands.
#[derive(Debug, PartialEq, Eq, Structural, Clone, Copy)]
pub enum Phase {
    /// No operation underway.
    Idle,
    /// Awaiting the outcome of unregistering the previous binding.
    Unregistering,
    /// Awaiting the outcome of binding the new hotkey.
    Binding,
}

/// The registry's observable state: what the session cell stores, which
/// description the live handle binds, how many stale bindings were left
/// behind, and the phase of the operation underway.
#[verifier::ext_equal]
pub struct RegistryView {
    pub stored: Option<Seq<char>>,
    pub active: Option<Seq<char>>,
    pub orphans: nat,
    pub phase: Phase,
}

/// One event of the registration protocol, as the registry observes it.
pub enum RegistryEvent {
    /// A new description was handed in and stored.
    Begin(Seq<char>),
    /// The attempt to unregister the previous binding finished; the payload
    /// says whether the platform actually removed it.
    Unregistered(bool),
    /// The attempt to bind the new hotkey finished; the payload says
    /// whether the platform accepted it.
    Bound(bool),
}

/// The registration protocol, one event at a time. An event out of phase
/// changes nothing.
pub open spec fn registry_step(v: RegistryView, e: RegistryEvent) -> RegistryView {
    match e {
        RegistryEvent::Begin(desc) => if v.phase is Idle {
            RegistryView { stored: Some(desc), phase: Phase::Unregistering, ..v }
        } else {
            v
        },
        RegistryEvent::Unregistered(removed) => if v.phase is Unregistering {
            RegistryView {
                active: None,
                orphans: if v.active is Some && !removed { v.orphans + 1 } else { v.orphans },
                phase: if v.stored is Some && shortcut_parses(v.stored->0) {
                    Phase::Binding
                } else {
                    Phase::Idle
                },
                ..v
            }
        } else {
            v
        },
        RegistryEvent::Bound(accepted) => if v.phase is Binding {
            RegistryView {
                active: if accepted { v.stored } else { None },
                phase: Phase::Idle,
                ..v
            }
        } else {
            v
        },
    }
}

/// The observable effect of one whole `register_shortcut` call, given the
/// platform's two answers.
pub open spec fn spec_register(
    v: RegistryView,
    desc: Seq<char>,
    removed: bool,
    accepted: bool,
) -> RegistryView {
    registry_step(
        registry_step(
            registry_step(v, RegistryEvent::Begin(desc)),
            RegistryEvent::Unregistered(removed),
        ),
        RegistryEvent::Bound(accepted),
    )
}

/// The session's hotkey registry. Besides the stored description (the
/// session cell), it models the platform's side: the token and description
/// of the live binding, and the count of stale bindings whose removal
/// failed.
pub struct Registry {
    stored: Option<String>,
    active: Option<String>,
    token: Option<HotKey>,
    orphans: usize,
    phase: Phase,
}

impl View for Registry {
    type V = RegistryView;

    closed spec fn view(&self) -> RegistryView {
        RegistryView {
            stored: self.stored.deep_view(),
            active: self.active.deep_view(),
            orphans: self.orphans as nat,
            phase: self.phase,
        }
    }
}

impl Registry {
    /// The hotkey token held by the live registration handle, if any.
    pub closed spec fn spec_token(self) -> Option<HotKey> {
        self.token
    }

    /// Well-formedness: a live handle exists exactly when a description is
    /// actively bound, an operation underway has the new description
    /// stored, and nothing is bound while a binding is awaited.
    pub open spec fn wf(self) -> bool {
        &&& (self@.active is Some) <==> (self.spec_token() is Some)
        &&& !(self@.phase is Idle) ==> self@.stored is Some
        &&& self@.phase is Binding ==> self@.active is None
    }

    /// A registry with nothing stored and nothing bound.
    pub fn new() -> (r: Registry)
        ensures
            r.wf(),
            r@ == (RegistryView { stored: None, active: None, orphans: 0, phase: Phase::Idle }),
            r.spec_token() is None,
    {
        Registry { stored: None, active: None, token: None, orphans: 0, phase: Phase::Idle }
    }

    /// First step of a registration: store the new description as the
    /// session's intent — before anything can still fail — and hand back
    /// the previous one so the caller can attempt to unregister it.
    pub fn begin_register(&mut self, desc: String) -> (prev: Option<String>)
        requires
            old(self).wf(),
            old(self)@.phase is Idle,
        ensures
            final(self).wf(),
            final(self)@ == registry_step(old(self)@, RegistryEvent::Begin(desc@)),
            prev.deep_view() == old(self)@.stored,
            final(self).spec_token() == old(self).spec_token(),
    {
        let prev = self.stored.take();
        self.stored = Some(desc);
        self.phase = Phase::Unregistering;
        prev
    }

    /// Second step: the caller attempted (or had no live binding to
    /// attempt) removal of the previous binding; `removed` says whether the
    /// platform is rid of it. Then the stored description is parsed: on
    /// success the returned token is the one to bind, on failure the
    /// operation is over and nothing is bound.
    pub fn note_unregister(&mut self, removed: bool) -> (r: Result<HotKey, RegisterError>)
        requires
            old(self).wf(),
            old(self)@.phase is Unregistering,
            old(self)@.orphans < usize::MAX,
        ensures
            final(self).wf(),
            final(self)@ == registry_step(old(self)@, RegistryEvent::Unregistered(removed)),
            (r is Ok) == shortcut_parses(old(self)@.stored->0),
            r is Err ==> r == Err::<HotKey, RegisterError>(RegisterError::Parse),
            final(self).spec_token() is None,
    {
        if self.active.is_some() && !removed {
            self.orphans = self.orphans + 1;
        }
        self.active = None;
        self.token = None;
        match parse_shortcut(self.stored.as_ref().unwrap()) {
            Some(token) => {
                self.phase = Phase::Binding;
                Ok(token)
            }
            None => {
                self.phase = Phase::Idle;
                Err(RegisterError::Parse)
            }
        }
    }

    /// Last step: the caller asked the platform to bind the parsed token;
    /// `accepted` says whether it took. On success the registry holds the
    /// new live handle and echoes the bound description.
    pub fn finish_register(&mut self, token: HotKey, accepted: bool) -> (r: Result<
        String,
        RegisterError,
    >)
        requires
            old(self).wf(),
            old(self)@.phase is Binding,
        ensures
            final(self).wf(),
            final(self)@ == registry_step(old(self)@, RegistryEvent::Bound(accepted)),
            accepted ==> (r matches Ok(d) && d@ == old(self)@.stored->0),
            accepted ==> final(self).spec_token() == Some(token),
            !accepted ==> r == Err::<String, RegisterError>(RegisterError::Conflict),
            !accepted ==> final(self).spec_token() is None,
    {
        self.phase = Phase::Idle;
        if accepted {
            let d = self.stored.as_ref().unwrap().clone();
            self.active = Some(d.clone());
            self.token = Some(token);
            Ok(d)
        } else {
            Err(RegisterError::Conflict)
        }
    }

    /// One whole `register_shortcut` operation against given platform
    /// outcomes: whether the previous binding was removed cleanly, and
    /// whether the platform accepted the new hotkey. Callers that
    /// interleave real platform calls between the steps use
    /// `begin_register`, `note_unregister` and `finish_register` directly;
    /// the two outcome parameters stand for those calls' results.
    pub fn register_shortcut(&mut self, desc: String, removed: bool, accepted: bool) -> (r: Result<
        String,
        RegisterError,
    >)
        requires
            old(self).wf(),
            old(self)@.phase is Idle,
            old(self)@.orphans < usize::MAX,
        ensures
            final(self).wf(),
            final(self)@ == spec_register(old(self)@, desc@, removed, accepted),
            (r is Ok) <==> (shortcut_parses(desc@) && accepted),
            r matches Ok(d) ==> d@ == desc@,
            (r == Err::<String, RegisterError>(RegisterError::Parse)) <==> !shortcut_parses(desc@),
            (r == Err::<String, RegisterError>(RegisterError::Conflict)) <==> (shortcut_parses(
                desc@,
            ) && !accepted),
            final(self)@.stored == Some(desc@),
            final(self)@.active == (if shortcut_parses(desc@) && accepted {
                Some(desc@)
            } else {
                None::<Seq<char>>
            }),
            final(self)@.phase is Idle,
            final(self)@.orphans == old(self)@.orphans + (if old(self)@.active is Some && !removed {
                1int
            } else {
                0int
            }),
    {
        let _ = self.begin_register(desc);
        match self.note_unregister(removed) {
            Ok(token) => self.finish_register(token, accepted),
            Err(e) => Err(e),
        }
    }

    /// Whether a fired token is the very token the live handle binds:
    /// events for stale or superseded registrations do not match.
    pub fn token_matches(&self, fired: &HotKey) -> (r: bool)
        ensures
            r == (self.spec_token() == Some(*fired)),
    {
        match &self.token {
            Some(t) => same_shortcut(t, fired),
            None => false,
        }
    }

    /// The description last handed to a registration, if any.
    pub fn stored_shortcut(&self) -> (r: Option<String>)
        ensures
            r.deep_view() == self@.stored,
    {
        match &self.stored {
            Some(s) => Some(s.clone()),
            None => None,
        }
    }

    /// The description of the live binding, if any.
    pub fn active_shortcut(&self) -> (r: Option<String>)
        ensures
            r.deep_view() == self@.active,
    {
        match &self.active {
            Some(s) => Some(s.clone()),
            None => None,
        }
    }

    /// How many stale bindings failed unregistrations left behind.
    pub fn orphan_count(&self) -> (r: usize)
        ensures
            r == self@.orphans,
    {
        self.orphans
    }

    /// Whether no registration operation is underway.
    pub fn is_idle(&self) -> (r: bool)
        ensures
            r == (self@.phase is Idle),
    {
        self.phase == Phase::Idle
    }
}

/// The state after a sequence of protocol events.
pub open spec fn registry_run(v: RegistryView, events: Seq<RegistryEvent>) -> RegistryView
    decreases events.len(),
{
    if events.len() == 0 {
        v
    } else {
        registry_run(registry_step(v, events[0]), events.drop_first())
    }
}

/// How many descriptions the platform holds bound: the live one, plus the
/// stale ones whose removal failed.
pub open spec fn bound_count(v: RegistryView) -> nat {
    v.orphans + (if v.active is Some {
        1nat
    } else {
        0nat
    })
}

/// Whether an event reports a failed unregistration — the one event that
/// can leave a stale binding behind.
pub open spec fn clean_event(e: RegistryEvent) -> bool {
    e matches RegistryEvent::Unregistered(removed) ==> removed
}

/// At most one active shortcut: as long as every unregistration the
/// platform was asked for succeeded, any sequence of protocol events —
/// registrations valid or invalid, accepted or refused, in any phase —
/// leaves at most one description bound at the platform.
pub proof fn lemma_at_most_one_active(v: RegistryView, events: Seq<RegistryEvent>)
    requires
        v.orphans == 0,
        forall|i: int| 0 <= i < events.len() ==> clean_event(#[trigger] events[i]),
    ensures
        registry_run(v, events).orphans == 0,
        bound_count(registry_run(v, events)) <= 1,
    decreases events.len(),
{
    if events.len() > 0 {
        let v1 = registry_step(v, events[0]);
        assert(v1.orphans == 0);
        assert(forall|i: int|
            0 <= i < events.drop_first().len() ==> clean_event(
                #[trigger] events.drop_first()[i],
            )) by {
            assert(forall|i: int|
                0 <= i < events.drop_first().len() ==> events.drop_first()[i] == events[i + 1]);
        }
        lemma_at_most_one_active(v1, events.drop_first());
    }
}

/// The state after a sequence of whole `register_shortcut` calls, each
/// given as the description and the platform's two answers.
pub open spec fn spec_register_all(
    v: RegistryView,
    calls: Seq<(Seq<char>, bool, bool)>,
) -> RegistryView
    decreases calls.len(),
{
    if calls.len() == 0 {
        v
    } else {
        spec_register_all(
            spec_register(v, calls[0].0, calls[0].1, calls[0].2),
            calls.drop_first(),
        )
    }
}

/// The last call wins: after any sequence of registrations, the stored
/// description is the last call's, and it is the active one exactly when
/// the last call's description was valid and the platform accepted it —
/// regardless of how many prior calls were issued, or of their outcomes.
pub proof fn lemma_last_call_wins(v: RegistryView, calls: Seq<(Seq<char>, bool, bool)>)
    requires
        v.phase is Idle,
        calls.len() >= 1,
    ensures
        ({
            let last = calls.last();
            let end = spec_register_all(v, calls);
            &&& end.phase is Idle
            &&& end.stored == Some(last.0)
            &&& end.active == (if shortcut_parses(last.0) && last.2 {
                Some(last.0)
            } else {
                None::<Seq<char>>
            })
        }),
    decreases calls.len(),
{
    reveal_with_fuel(spec_register_all, 2);
    if calls.len() > 1 {
        lemma_last_call_wins(spec_register(v, calls[0].0, calls[0].1, calls[0].2), calls.drop_first());
        assert(calls.drop_first().last() == calls.last());
    }
}

/// Idempotent re-registration: registering the same description twice in
/// succession — both times with the previous binding removed cleanly and
/// the new hotkey accepted — leaves exactly the observable state a single
/// call leaves.
pub proof fn lemma_register_idempotent(v: RegistryView, desc: Seq<char>)
    requires
        v.phase is Idle,
    ensures
        ({
            let once = spec_register(v, desc, true, true);
            spec_register(once, desc, true, true) == once
        }),
{
}

} // verus!
