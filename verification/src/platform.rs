//! The platform as the probe meets it, and what the probe finds on one that
//! keeps its word.
//!
//! Nothing here runs, and nothing here is claimed of any real platform. The
//! model says how a platform is taken to answer each action. Under it, the
//! probe always ends, and it passes wherever the holder is registered as it
//! should be and behaves as `RefundPurseHolder` does.

use vstd::prelude::*;
use crate::holder::RefundPurseHolder;
use crate::key::{ContractPointer, Key};
use crate::probe::{Action, Event, Stage};
use crate::purse::PurseId;
use crate::reference::{Address, Reference};
use crate::rights::{AccessRights, Right};

verus! {

/// A platform: the registry, the storage behind references, the one contract
/// that holds the refund purse, and the purses still to be made.
pub struct Platform {
    /// What each registered name resolves to.
    pub names: Map<Seq<char>, Key>,
    /// What the slot at each address stores.
    pub slots: Map<Address, Key>,
    /// Where the holder lives.
    pub contract: Address,
    /// The holder's state.
    pub holder: RefundPurseHolder,
    /// The purses that `CreatePurse` will hand out, in order.
    pub fresh: Seq<PurseId>,
}

/// An answer: the event, and the platform as the action left it.
pub struct Answer {
    pub platform: Platform,
    pub event: Event,
}

/// How far a run has come: the probe's stage, and the platform as the run
/// left it.
pub struct Reached {
    pub platform: Platform,
    pub stage: Stage,
}

impl Platform {
    /// How the platform answers an action, or `None` where it ends the call
    /// itself.
    ///
    /// A read needs a reference that permits reading and a slot that exists.
    /// A dispatch needs a pointer that permits reading, to the address where
    /// the holder lives.
    pub open spec fn answer(self, action: Action) -> Option<Answer> {
        match action {
            Action::Lookup(name) => Some(
                Answer {
                    platform: self,
                    event: Event::Found(
                        if self.names.contains_key(name@) {
                            Some(self.names[name@])
                        } else {
                            None
                        },
                    ),
                },
            ),
            Action::Read(reference) => if reference.spec_rights()@.contains(Right::Read)
                && self.slots.contains_key(reference.spec_address()) {
                Some(
                    Answer {
                        platform: self,
                        event: Event::Stored(self.slots[reference.spec_address()]),
                    },
                )
            } else {
                None
            },
            Action::CreatePurse => if self.fresh.len() > 0 {
                Some(
                    Answer {
                        platform: Platform { fresh: self.fresh.drop_first(), ..self },
                        event: Event::Created(self.fresh[0]),
                    },
                )
            } else {
                None
            },
            Action::Dispatch(request) => match request.target {
                ContractPointer::URef(target) => if target.spec_rights()@.contains(Right::Read)
                    && target.spec_address() == self.contract {
                    let (holder, reply) = self.holder.spec_serve(request.call);
                    Some(
                        Answer {
                            platform: Platform { holder, ..self },
                            event: Event::Replied(reply),
                        },
                    )
                } else {
                    None
                },
                ContractPointer::Hash(_) => None,
            },
            Action::Return => None,
            Action::Revert(_) => None,
        }
    }

    /// Where the probe stands when the platform has answered up to `limit`
    /// actions, or earlier where the call has ended.
    pub open spec fn run(self, stage: Stage, limit: nat) -> Reached
        decreases limit,
    {
        if limit == 0 {
            Reached { platform: self, stage }
        } else {
            match self.answer(stage.spec_action()) {
                None => Reached { platform: self, stage },
                Some(answer) => answer.platform.run(
                    stage.spec_advance(answer.event),
                    (limit - 1) as nat,
                ),
            }
        }
    }

    /// The holder is registered as it should be: the name leads to a readable
    /// outer reference, and the slot behind it stores a readable reference to
    /// the holder.
    pub open spec fn registered(self) -> bool {
        &&& self.names.contains_key(Stage::spec_holder_name()@)
        &&& self.names[Stage::spec_holder_name()@] matches Key::URef(outer)
        &&& outer.spec_rights()@.contains(Right::Read)
        &&& self.slots.contains_key(outer.spec_address())
        &&& self.slots[outer.spec_address()] matches Key::URef(inner)
        &&& inner.wf()
        &&& inner.spec_rights()@.contains(Right::Read)
        &&& inner.spec_address() == self.contract
    }

    /// One answered action takes the run one stage on.
    pub proof fn lemma_run_step(self, stage: Stage, limit: nat)
        requires
            limit > 0,
            self.answer(stage.spec_action()) is Some,
        ensures
            self.answer(stage.spec_action()) matches Some(answer) && self.run(stage, limit)
                == answer.platform.run(stage.spec_advance(answer.event), (limit - 1) as nat),
    {
    }

    /// A run that has ended stays where it is.
    pub proof fn lemma_run_ended(self, stage: Stage, limit: nat)
        requires
            stage.spec_is_final(),
        ensures
            self.run(stage, limit) == (Reached { platform: self, stage }),
    {
    }

    /// The probe ends: whatever the platform holds, after nine answers at
    /// most there is nothing more to ask, because the probe has passed or
    /// aborted, or because the platform has ended the call itself.
    pub proof fn lemma_probe_ends(self, limit: nat)
        requires
            limit >= 9,
        ensures
            ({
                let reached = self.run(Stage::spec_start(), limit);
                reached.platform.answer(reached.stage.spec_action()) is None
            }),
    {
        self.lemma_run_is_bounded(Stage::spec_start(), limit);
    }

    proof fn lemma_run_is_bounded(self, stage: Stage, limit: nat)
        requires
            limit + answers_before(stage) >= 9,
        ensures
            ({
                let reached = self.run(stage, limit);
                reached.platform.answer(reached.stage.spec_action()) is None
            }),
        decreases limit,
    {
        if limit > 0 {
            match self.answer(stage.spec_action()) {
                None => {},
                Some(answer) => {
                    let next = stage.spec_advance(answer.event);
                    assert(answers_before(next) > answers_before(stage));
                    answer.platform.lemma_run_is_bounded(next, (limit - 1) as nat);
                },
            }
        }
    }

    /// On a platform where the holder is registered, has no refund purse yet
    /// and two purses can be made, the probe passes: it needs nine answers,
    /// and more change nothing. It leaves the second purse as the refund
    /// purse.
    pub proof fn lemma_faithful_holder_passes(self, limit: nat)
        requires
            self.registered(),
            self.holder == RefundPurseHolder::spec_new(),
            self.fresh.len() >= 2,
            self.fresh[0].0.wf(),
            self.fresh[1].0.wf(),
            limit >= 9,
        ensures
            self.run(Stage::spec_start(), limit).stage == Stage::Passed,
            self.run(Stage::spec_start(), limit).platform.holder@ == Some(self.fresh[1]),
    {
        let first = self.fresh[0];
        let second = self.fresh[1];
        let inner = self.slots[self.names[Stage::spec_holder_name()@]->URef_0.spec_address()]->URef_0;
        let read_only = AccessRights::spec_only(Right::Read);
        AccessRights::lemma_constants();
        Reference::lemma_narrow(inner, read_only);
        let target = inner.spec_narrow(read_only);
        let pos = ContractPointer::URef(target);
        assert(target.spec_rights()@.contains(Right::Read));
        RefundPurseHolder::lemma_new();
        Reference::lemma_strip(first.0);
        Reference::lemma_strip(second.0);

        let s0 = Stage::spec_start();
        self.lemma_run_step(s0, limit);
        let s1 = s0.spec_advance(self.answer(s0.spec_action())->0.event);
        self.lemma_run_step(s1, (limit - 1) as nat);
        let s2 = Stage::MintingFirst { pos };
        assert(s1.spec_advance(self.answer(s1.spec_action())->0.event) == s2);
        self.lemma_run_step(s2, (limit - 2) as nat);
        let one_made = Platform { fresh: self.fresh.drop_first(), ..self };
        let s3 = Stage::MintingSecond { pos, first };
        one_made.lemma_run_step(s3, (limit - 3) as nat);
        let both_made = Platform { fresh: one_made.fresh.drop_first(), ..one_made };
        let s4 = Stage::ProbingUnset { pos, first, second };
        both_made.lemma_run_step(s4, (limit - 4) as nat);
        let s5 = Stage::SettingFirst { pos, first, second };
        assert(s4.spec_advance(both_made.answer(s4.spec_action())->0.event) == s5);
        both_made.lemma_run_step(s5, (limit - 5) as nat);
        let first_set = Platform { holder: both_made.holder.spec_set_refund_purse(first), ..both_made };
        RefundPurseHolder::lemma_set(both_made.holder, first);
        let s6 = Stage::ProbingFirst { pos, first, second };
        first_set.lemma_run_step(s6, (limit - 6) as nat);
        let s7 = Stage::SettingSecond { pos, second };
        assert(s6.spec_advance(first_set.answer(s6.spec_action())->0.event) == s7);
        first_set.lemma_run_step(s7, (limit - 7) as nat);
        let second_set = Platform { holder: first_set.holder.spec_set_refund_purse(second), ..first_set };
        RefundPurseHolder::lemma_set(first_set.holder, second);
        let s8 = Stage::ProbingSecond { pos, second };
        second_set.lemma_run_step(s8, (limit - 8) as nat);
        assert(s8.spec_advance(second_set.answer(s8.spec_action())->0.event) == Stage::Passed);
        second_set.lemma_run_ended(Stage::Passed, (limit - 9) as nat);
    }
}

/// The number of answers that the probe has had when it is at `stage`, or
/// nine where it has ended.
spec fn answers_before(stage: Stage) -> nat {
    match stage {
        Stage::Resolving => 0,
        Stage::Dereferencing { .. } => 1,
        Stage::MintingFirst { .. } => 2,
        Stage::MintingSecond { .. } => 3,
        Stage::ProbingUnset { .. } => 4,
        Stage::SettingFirst { .. } => 5,
        Stage::ProbingFirst { .. } => 6,
        Stage::SettingSecond { .. } => 7,
        Stage::ProbingSecond { .. } => 8,
        Stage::Passed => 9,
        Stage::Aborted { .. } => 9,
    }
}

} // verus!
