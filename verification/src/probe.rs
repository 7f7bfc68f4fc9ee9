//! A probe of the contract that holds the refund purse.
//!
//! The probe finds the contract under its registered name, makes two purses,
//! and then asks, sets and asks again, holding every answer against what the
//! holder owes. Each way in which the holder can fail has an abort of its
//! own.
//!
//! The probe itself touches nothing. It is a machine: a stage names the one
//! action that the platform is to perform next, and the event with the
//! outcome of that action leads to the next stage.

use vstd::prelude::*;
use crate::dispatch::{spec_get_refund_purse, spec_set_refund_purse};
use crate::dispatch::{get_refund_purse, set_refund_purse, Reply, Request};
use crate::key::{ContractPointer, Key};
use crate::purse::PurseId;
use crate::reference::Reference;
use crate::resolve::{contract_pointer, outer_reference, ResolveError};
use crate::resolve::{spec_contract_pointer, spec_outer_reference};
use crate::rights::Right;

verus! {

/// Why the probe gave up.
#[derive(Clone, Copy, Debug, PartialEq, Eq, Structural)]
pub enum Abort {
    /// The holder was not found.
    Resolve(ResolveError),
    /// A refund purse was there before any was set.
    AlreadySet,
    /// No refund purse was there after the first was set.
    FirstMissing,
    /// After the first purse was set, another purse was there.
    FirstMismatch,
    /// After the first purse was set, the refund purse that the holder
    /// handed out granted a right.
    FirstExposed,
    /// No refund purse was there after the second was set.
    SecondMissing,
    /// After the second purse was set, another purse was there.
    SecondMismatch,
    /// After the second purse was set, the refund purse that the holder
    /// handed out granted a right.
    SecondExposed,
}

impl Abort {
    /// The number under which the abort is reported.
    pub open spec fn spec_code(&self) -> u32 {
        match *self {
            Abort::Resolve(error) => error.spec_code(),
            Abort::AlreadySet => 1,
            Abort::FirstMissing => 2,
            Abort::FirstMismatch => 3,
            Abort::FirstExposed => 4,
            Abort::SecondMissing => 5,
            Abort::SecondMismatch => 6,
            Abort::SecondExposed => 7,
        }
    }

    /// The number under which the abort is reported.
    #[verifier::when_used_as_spec(spec_code)]
    pub fn code(&self) -> (c: u32)
        ensures
            c == self.spec_code(),
    {
        match *self {
            Abort::Resolve(error) => error.code(),
            Abort::AlreadySet => 1,
            Abort::FirstMissing => 2,
            Abort::FirstMismatch => 3,
            Abort::FirstExposed => 4,
            Abort::SecondMissing => 5,
            Abort::SecondMismatch => 6,
            Abort::SecondExposed => 7,
        }
    }

    /// Every abort has a number of its own: the number tells which
    /// expectation failed.
    pub proof fn lemma_codes_distinct(a: Abort, b: Abort)
        ensures
            a.spec_code() == b.spec_code() <==> a == b,
    {
    }
}

/// Which of the two purses was set last.
#[derive(Clone, Copy, Debug, PartialEq, Eq, Structural)]
pub enum Round {
    First,
    Second,
}

impl Round {
    /// The abort for a holder that has no refund purse after this round's
    /// set.
    pub open spec fn spec_missing(&self) -> Abort {
        match *self {
            Round::First => Abort::FirstMissing,
            Round::Second => Abort::SecondMissing,
        }
    }

    /// The abort for a holder that has another refund purse after this
    /// round's set.
    pub open spec fn spec_mismatch(&self) -> Abort {
        match *self {
            Round::First => Abort::FirstMismatch,
            Round::Second => Abort::SecondMismatch,
        }
    }

    /// The abort for a holder that hands out a right after this round's set.
    pub open spec fn spec_exposed(&self) -> Abort {
        match *self {
            Round::First => Abort::FirstExposed,
            Round::Second => Abort::SecondExposed,
        }
    }

    /// The abort for a holder that has no refund purse after this round's
    /// set.
    #[verifier::when_used_as_spec(spec_missing)]
    pub fn missing(&self) -> (abort: Abort)
        ensures
            abort == self.spec_missing(),
    {
        match *self {
            Round::First => Abort::FirstMissing,
            Round::Second => Abort::SecondMissing,
        }
    }

    /// The abort for a holder that has another refund purse after this
    /// round's set.
    #[verifier::when_used_as_spec(spec_mismatch)]
    pub fn mismatch(&self) -> (abort: Abort)
        ensures
            abort == self.spec_mismatch(),
    {
        match *self {
            Round::First => Abort::FirstMismatch,
            Round::Second => Abort::SecondMismatch,
        }
    }

    /// The abort for a holder that hands out a right after this round's set.
    #[verifier::when_used_as_spec(spec_exposed)]
    pub fn exposed(&self) -> (abort: Abort)
        ensures
            abort == self.spec_exposed(),
    {
        match *self {
            Round::First => Abort::FirstExposed,
            Round::Second => Abort::SecondExposed,
        }
    }
}

/// Before any set, the holder owes the answer "none".
pub open spec fn spec_expect_unset(seen: Option<PurseId>) -> Result<(), Abort> {
    match seen {
        None => Ok(()),
        Some(_) => Err(Abort::AlreadySet),
    }
}

/// After `expected` was set, the holder owes a purse with the address of
/// `expected`; the reference it handed out is passed on.
pub open spec fn spec_expect_purse(round: Round, seen: Option<PurseId>, expected: PurseId)
    -> Result<Reference, Abort> {
    match seen {
        None => Err(round.spec_missing()),
        Some(purse) => if purse.0.spec_address() == expected.0.spec_address() {
            Ok(purse.0)
        } else {
            Err(round.spec_mismatch())
        },
    }
}

/// What the holder hands out may grant nothing, in either round.
pub open spec fn spec_expect_no_rights(round: Round, seen: Reference) -> Result<(), Abort> {
    if seen.spec_rights()@ == Set::<Right>::empty() {
        Ok(())
    } else {
        Err(round.spec_exposed())
    }
}

/// After `expected` was set, the holder owes the identity of `expected` and
/// nothing more: a purse with its address and without any right.
pub open spec fn spec_expect_identity(round: Round, seen: Option<PurseId>, expected: PurseId)
    -> Result<(), Abort> {
    match spec_expect_purse(round, seen, expected) {
        Err(abort) => Err(abort),
        Ok(handed_out) => spec_expect_no_rights(round, handed_out),
    }
}

/// Before any set, the holder owes the answer "none".
#[verifier::when_used_as_spec(spec_expect_unset)]
pub fn expect_unset(seen: Option<PurseId>) -> (r: Result<(), Abort>)
    ensures
        r == spec_expect_unset(seen),
{
    if seen.is_some() {
        Err(Abort::AlreadySet)
    } else {
        Ok(())
    }
}

/// After `expected` was set, the holder owes a purse with the address of
/// `expected`, whatever its rights; the reference it handed out is passed on.
#[verifier::when_used_as_spec(spec_expect_purse)]
pub fn expect_purse(round: Round, seen: Option<PurseId>, expected: PurseId) -> (r: Result<
    Reference,
    Abort,
>)
    ensures
        r == spec_expect_purse(round, seen, expected),
{
    match seen {
        None => Err(round.missing()),
        Some(purse) => {
            if purse.value().same_resource(&expected.value()) {
                Ok(purse.value())
            } else {
                Err(round.mismatch())
            }
        },
    }
}

/// What the holder hands out may grant nothing, in either round: no
/// reading, no writing, no adding.
#[verifier::when_used_as_spec(spec_expect_no_rights)]
pub fn expect_no_rights(round: Round, seen: Reference) -> (r: Result<(), Abort>)
    ensures
        r == spec_expect_no_rights(round, seen),
        r is Ok <==> !seen.spec_rights()@.contains(Right::Read) && !seen.spec_rights()@.contains(
            Right::Write,
        ) && !seen.spec_rights()@.contains(Right::Add),
{
    proof {
        let rights = seen.spec_rights()@;
        if !rights.contains(Right::Read) && !rights.contains(Right::Write) && !rights.contains(
            Right::Add,
        ) {
            assert forall|right: Right| !rights.contains(right) by {
                match right {
                    Right::Read => {},
                    Right::Write => {},
                    Right::Add => {},
                }
            }
            assert(rights =~= Set::<Right>::empty());
        }
    }
    if seen.is_addable() || seen.is_writeable() || seen.is_readable() {
        Err(round.exposed())
    } else {
        Ok(())
    }
}

/// After `expected` was set, the holder owes the identity of `expected` and
/// nothing more. A missing purse, another purse and a purse with a right
/// each have their own abort, in that order.
#[verifier::when_used_as_spec(spec_expect_identity)]
pub fn expect_identity(round: Round, seen: Option<PurseId>, expected: PurseId) -> (r: Result<
    (),
    Abort,
>)
    ensures
        r == spec_expect_identity(round, seen, expected),
        r is Ok <==> (seen matches Some(purse) && purse.0.spec_address()
            == expected.0.spec_address() && purse.0.spec_rights()@ == Set::<Right>::empty()),
{
    match expect_purse(round, seen, expected) {
        Err(abort) => Err(abort),
        Ok(handed_out) => expect_no_rights(round, handed_out),
    }
}

/// One thing that the platform is asked to do.
#[derive(Clone, Copy, Debug, PartialEq, Eq)]
pub enum Action {
    /// Look the name up in the registry.
    Lookup(&'static str),
    /// Read the slot behind the reference.
    Read(Reference),
    /// Make a new purse.
    CreatePurse,
    /// Call another contract.
    Dispatch(Request),
    /// End the call; everything held.
    Return,
    /// End the call and undo it, reporting the number.
    Revert(u32),
}

/// The outcome of one action.
#[derive(Clone, Copy, Debug, PartialEq, Eq)]
pub enum Event {
    /// What the registry holds under the name, if anything.
    Found(Option<Key>),
    /// What the slot stores.
    Stored(Key),
    /// The new purse.
    Created(PurseId),
    /// The answer of the contract that was called.
    Replied(Reply),
}

/// How far the probe has come.
#[derive(Clone, Copy, Debug, PartialEq, Eq)]
pub enum Stage {
    /// Looking the holder's name up.
    Resolving,
    /// Reading the slot behind the outer reference.
    Dereferencing { outer: Reference },
    /// Making the first purse.
    MintingFirst { pos: ContractPointer },
    /// Making the second purse.
    MintingSecond { pos: ContractPointer, first: PurseId },
    /// Asking for the refund purse before any was set.
    ProbingUnset { pos: ContractPointer, first: PurseId, second: PurseId },
    /// Setting the first purse.
    SettingFirst { pos: ContractPointer, first: PurseId, second: PurseId },
    /// Asking for the refund purse after the first was set.
    ProbingFirst { pos: ContractPointer, first: PurseId, second: PurseId },
    /// Setting the second purse.
    SettingSecond { pos: ContractPointer, second: PurseId },
    /// Asking for the refund purse after the second was set.
    ProbingSecond { pos: ContractPointer, second: PurseId },
    /// Every answer was as owed.
    Passed,
    /// An answer was not as owed.
    Aborted { abort: Abort },
}

impl Stage {
    /// The name under which the holder is registered.
    pub open spec fn spec_holder_name() -> &'static str {
        "pos"
    }

    /// Where the probe begins.
    pub open spec fn spec_start() -> Stage {
        Stage::Resolving
    }

    /// Whether the probe has ended, one way or the other.
    pub open spec fn spec_is_final(&self) -> bool {
        *self is Passed || *self is Aborted
    }

    /// What the platform is to do at this stage.
    pub open spec fn spec_action(&self) -> Action {
        match *self {
            Stage::Resolving => Action::Lookup(Self::spec_holder_name()),
            Stage::Dereferencing { outer } => Action::Read(outer),
            Stage::MintingFirst { .. } => Action::CreatePurse,
            Stage::MintingSecond { .. } => Action::CreatePurse,
            Stage::ProbingUnset { pos, .. } => Action::Dispatch(spec_get_refund_purse(&pos)),
            Stage::SettingFirst { pos, first, .. } => Action::Dispatch(
                spec_set_refund_purse(&pos, &first),
            ),
            Stage::ProbingFirst { pos, .. } => Action::Dispatch(spec_get_refund_purse(&pos)),
            Stage::SettingSecond { pos, second } => Action::Dispatch(
                spec_set_refund_purse(&pos, &second),
            ),
            Stage::ProbingSecond { pos, .. } => Action::Dispatch(spec_get_refund_purse(&pos)),
            Stage::Passed => Action::Return,
            Stage::Aborted { abort } => Action::Revert(abort.spec_code()),
        }
    }

    /// The stage that an event leads to. An event that is no outcome of this
    /// stage's action changes nothing.
    pub open spec fn spec_advance(&self, event: Event) -> Stage {
        match (*self, event) {
            (Stage::Resolving, Event::Found(found)) => match spec_outer_reference(found) {
                Ok(outer) => Stage::Dereferencing { outer },
                Err(error) => Stage::Aborted { abort: Abort::Resolve(error) },
            },
            (Stage::Dereferencing { .. }, Event::Stored(stored)) => match spec_contract_pointer(
                stored,
            ) {
                Ok(pos) => Stage::MintingFirst { pos },
                Err(error) => Stage::Aborted { abort: Abort::Resolve(error) },
            },
            (Stage::MintingFirst { pos }, Event::Created(first)) => Stage::MintingSecond {
                pos,
                first,
            },
            (Stage::MintingSecond { pos, first }, Event::Created(second)) => Stage::ProbingUnset {
                pos,
                first,
                second,
            },
            (
                Stage::ProbingUnset { pos, first, second },
                Event::Replied(Reply::Purse(seen)),
            ) => match spec_expect_unset(seen) {
                Ok(_) => Stage::SettingFirst { pos, first, second },
                Err(abort) => Stage::Aborted { abort },
            },
            (
                Stage::SettingFirst { pos, first, second },
                Event::Replied(Reply::Unit),
            ) => Stage::ProbingFirst { pos, first, second },
            (
                Stage::ProbingFirst { pos, first, second },
                Event::Replied(Reply::Purse(seen)),
            ) => match spec_expect_identity(Round::First, seen, first) {
                Ok(_) => Stage::SettingSecond { pos, second },
                Err(abort) => Stage::Aborted { abort },
            },
            (Stage::SettingSecond { pos, second }, Event::Replied(Reply::Unit)) => {
                Stage::ProbingSecond { pos, second }
            },
            (
                Stage::ProbingSecond { pos, second },
                Event::Replied(Reply::Purse(seen)),
            ) => match spec_expect_identity(Round::Second, seen, second) {
                Ok(_) => Stage::Passed,
                Err(abort) => Stage::Aborted { abort },
            },
            _ => *self,
        }
    }

    /// A right that the holder hands out ends the probe, after the first set
    /// and after the second alike, each with its own abort.
    pub proof fn lemma_a_right_handed_out_aborts(
        pos: ContractPointer,
        first: PurseId,
        second: PurseId,
        seen: PurseId,
        right: Right,
    )
        requires
            seen.0.spec_rights()@.contains(right),
        ensures
            seen.0.spec_address() == first.0.spec_address() ==> (Stage::ProbingFirst {
                pos,
                first,
                second,
            }).spec_advance(Event::Replied(Reply::Purse(Some(seen)))) == (Stage::Aborted {
                abort: Abort::FirstExposed,
            }),
            seen.0.spec_address() == second.0.spec_address() ==> (Stage::ProbingSecond {
                pos,
                second,
            }).spec_advance(Event::Replied(Reply::Purse(Some(seen)))) == (Stage::Aborted {
                abort: Abort::SecondExposed,
            }),
    {
    }

    /// The last answer lets the probe pass only if it is the identity of the
    /// second purse and nothing more: its address, and no right.
    pub proof fn lemma_passed_means_identity_only(
        pos: ContractPointer,
        second: PurseId,
        seen: Option<PurseId>,
    )
        ensures
            (Stage::ProbingSecond { pos, second }).spec_advance(
                Event::Replied(Reply::Purse(seen)),
            ) == Stage::Passed <==> (seen matches Some(purse) && purse.0.spec_address()
                == second.0.spec_address() && purse.0.spec_rights()@ == Set::<Right>::empty()),
    {
    }

    /// Where the probe begins.
    #[verifier::when_used_as_spec(spec_start)]
    pub fn start() -> (stage: Stage)
        ensures
            stage == Self::spec_start(),
    {
        Stage::Resolving
    }

    /// Whether the probe has ended, one way or the other.
    #[verifier::when_used_as_spec(spec_is_final)]
    pub fn is_final(&self) -> (b: bool)
        ensures
            b == self.spec_is_final(),
    {
        match *self {
            Stage::Passed => true,
            Stage::Aborted { .. } => true,
            _ => false,
        }
    }

    /// What the platform is to do at this stage.
    pub fn action(&self) -> (action: Action)
        ensures
            action == self.spec_action(),
    {
        match *self {
            Stage::Resolving => Action::Lookup("pos"),
            Stage::Dereferencing { outer } => Action::Read(outer),
            Stage::MintingFirst { .. } => Action::CreatePurse,
            Stage::MintingSecond { .. } => Action::CreatePurse,
            Stage::ProbingUnset { pos, .. } => Action::Dispatch(get_refund_purse(&pos)),
            Stage::SettingFirst { pos, first, .. } => Action::Dispatch(
                set_refund_purse(&pos, &first),
            ),
            Stage::ProbingFirst { pos, .. } => Action::Dispatch(get_refund_purse(&pos)),
            Stage::SettingSecond { pos, second } => Action::Dispatch(
                set_refund_purse(&pos, &second),
            ),
            Stage::ProbingSecond { pos, .. } => Action::Dispatch(get_refund_purse(&pos)),
            Stage::Passed => Action::Return,
            Stage::Aborted { abort } => Action::Revert(abort.code()),
        }
    }

    /// The stage that an event leads to. An event that is no outcome of this
    /// stage's action changes nothing.
    pub fn advance(self, event: Event) -> (next: Stage)
        ensures
            next == self.spec_advance(event),
    {
        match (self, event) {
            (Stage::Resolving, Event::Found(found)) => match outer_reference(found) {
                Ok(outer) => Stage::Dereferencing { outer },
                Err(error) => Stage::Aborted { abort: Abort::Resolve(error) },
            },
            (Stage::Dereferencing { .. }, Event::Stored(stored)) => match contract_pointer(
                stored,
            ) {
                Ok(pos) => Stage::MintingFirst { pos },
                Err(error) => Stage::Aborted { abort: Abort::Resolve(error) },
            },
            (Stage::MintingFirst { pos }, Event::Created(first)) => Stage::MintingSecond {
                pos,
                first,
            },
            (Stage::MintingSecond { pos, first }, Event::Created(second)) => Stage::ProbingUnset {
                pos,
                first,
                second,
            },
            (
                Stage::ProbingUnset { pos, first, second },
                Event::Replied(Reply::Purse(seen)),
            ) => match expect_unset(seen) {
                Ok(_) => Stage::SettingFirst { pos, first, second },
                Err(abort) => Stage::Aborted { abort },
            },
            (
                Stage::SettingFirst { pos, first, second },
                Event::Replied(Reply::Unit),
            ) => Stage::ProbingFirst { pos, first, second },
            (
                Stage::ProbingFirst { pos, first, second },
                Event::Replied(Reply::Purse(seen)),
            ) => match expect_identity(Round::First, seen, first) {
                Ok(_) => Stage::SettingSecond { pos, second },
                Err(abort) => Stage::Aborted { abort },
            },
            (Stage::SettingSecond { pos, second }, Event::Replied(Reply::Unit)) => {
                Stage::ProbingSecond { pos, second }
            },
            (
                Stage::ProbingSecond { pos, second },
                Event::Replied(Reply::Purse(seen)),
            ) => match expect_identity(Round::Second, seen, second) {
                Ok(_) => Stage::Passed,
                Err(abort) => Stage::Aborted { abort },
            },
            _ => self,
        }
    }
}

} // verus!
