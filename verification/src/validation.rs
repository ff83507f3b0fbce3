//! Validation state, commands and events.
//!
//! The validation layer accumulates, per object identity, the most
//! recently recorded failure. Failures accumulate across `ValidateObject`
//! commands — a later successful re-validation clears nothing — and only
//! an explicit drain (`TakeErrors`) clears them. A drain returns success
//! exactly if no failures were present when it was called, and clears all
//! recorded failures either way.

use crate::checks::{
    FaceHasNoBoundary, InteriorCycleHasInvalidWinding, MultipleReferencesToObject,
};
use crate::geometry::Geometry;
use crate::id_map::{insert_entry, IdMap};
use crate::layer::{evolve_all, Command, Event, Layer};
use crate::topology::{AnyObject, Cycle, Face, HalfEdge, Region};
use crate::validate::object_validate_rel;
use vstd::prelude::*;

verus! {

/// The validation configuration the host supplies; it is passed through
/// unchanged to every check invocation. The structural checks of this
/// crate read nothing from it: they depend only on the object graph and
/// the geometry lookup.
#[derive(Clone, Copy, Debug, PartialEq, Eq, Structural)]
pub struct ValidationConfig {}

impl Default for ValidationConfig {
    /// The one configuration there is.
    fn default() -> (r: ValidationConfig)
        ensures
            r == (ValidationConfig {  }),
    {
        ValidationConfig {  }
    }
}

/// A structural validation finding about one object.
#[derive(Debug)]
pub enum ValidationError {
    /// A cycle is referenced by more than one region.
    MultipleReferencesToCycle(MultipleReferencesToObject<Cycle, Region>),
    /// A half-edge is referenced by more than one cycle.
    MultipleReferencesToHalfEdge(MultipleReferencesToObject<HalfEdge, Cycle>),
    /// A region is referenced by more than one face.
    MultipleReferencesToRegion(MultipleReferencesToObject<Region, Face>),
    /// A face's boundary encloses nothing.
    FaceHasNoBoundary(FaceHasNoBoundary),
    /// An interior cycle of a face winds like the exterior.
    InteriorCycleHasInvalidWinding(InteriorCycleHasInvalidWinding),
}

impl Clone for ValidationError {
    /// A clone carries the same finding.
    fn clone(&self) -> (r: Self)
        ensures
            r == *self,
    {
        match self {
            ValidationError::MultipleReferencesToCycle(e) => {
                ValidationError::MultipleReferencesToCycle(e.clone())
            },
            ValidationError::MultipleReferencesToHalfEdge(e) => {
                ValidationError::MultipleReferencesToHalfEdge(e.clone())
            },
            ValidationError::MultipleReferencesToRegion(e) => {
                ValidationError::MultipleReferencesToRegion(e.clone())
            },
            ValidationError::FaceHasNoBoundary(e) => ValidationError::FaceHasNoBoundary(*e),
            ValidationError::InteriorCycleHasInvalidWinding(e) => {
                ValidationError::InteriorCycleHasInvalidWinding(e.clone())
            },
        }
    }
}

/// Every failure a drain found recorded, one per object, in recording
/// order.
#[derive(Debug)]
pub struct ValidationErrors(pub Vec<ValidationError>);

/// The validation layer's state, as specs see it: the recorded failures,
/// keyed by object identity, and the host's configuration.
pub struct ValidationState {
    /// The recorded failures: per object identity, the most recently
    /// recorded one.
    pub errors: Seq<(u64, ValidationError)>,
    /// The configuration every check invocation receives.
    pub config: ValidationConfig,
}

/// The validation layer's state: a mapping from object identity to the
/// most recently recorded failure for it, plus the host's configuration.
pub struct Validation {
    errors: IdMap<ValidationError>,
    config: ValidationConfig,
}

impl View for Validation {
    type V = ValidationState;

    closed spec fn view(&self) -> ValidationState {
        ValidationState { errors: self.errors@, config: self.config }
    }
}

impl Validation {
    /// Start with no recorded failures.
    pub fn new(config: ValidationConfig) -> (r: Validation)
        ensures
            r@ == (ValidationState { errors: Seq::empty(), config }),
    {
        Validation { errors: IdMap::new(), config }
    }

    /// The configuration the host supplied.
    pub fn config(&self) -> (r: &ValidationConfig)
        ensures
            *r == self@.config,
    {
        &self.config
    }
}

/// Validate an object: run all checks applicable to its kind and record
/// one failure event per finding. The command itself always succeeds —
/// findings are communicated as recorded state, not as a command-level
/// error.
pub struct ValidateObject<'r> {
    /// The object to validate.
    pub object: AnyObject,
    /// The geometry lookup, which validation queries by handle.
    pub geometry: &'r Geometry,
}

impl<'r> Command<Validation> for ValidateObject<'r> {
    type Result = ();

    type Event = ValidationFailed;

    /// One failure event per error the object's validation routine found,
    /// in order, each carrying this object; the result is always success.
    open spec fn decide_rel(
        &self,
        state: ValidationState,
        emitted: Seq<ValidationFailed>,
        result: (),
    ) -> bool {
        &&& object_validate_rel(
            &self.object,
            self.geometry,
            emitted.map_values(|e: ValidationFailed| e.err),
        )
        &&& forall|i: int| 0 <= i < emitted.len() ==> (#[trigger] emitted[i]).object == self.object
    }

    fn decide(self, state: &Validation, events: &mut Vec<ValidationFailed>) {
        let mut errors: Vec<ValidationError> = Vec::new();
        self.object.validate(state.config(), &mut errors, self.geometry);
        proof {
            assert(errors@.skip(0) =~= errors@);
        }
        let ghost found = errors@;
        let ghost prefix = events@;
        let n = errors.len();
        let mut i: usize = 0;
        while i < n
            invariant
                n == errors@.len(),
                errors@ == found,
                i <= n,
                events@.len() == prefix.len() + i,
                events@.take(prefix.len() as int) == prefix,
                forall|j: int|
                    0 <= j < i ==> (#[trigger] events@[prefix.len() + j]).object == self.object
                        && events@[prefix.len() + j].err == found[j],
            decreases n - i,
        {
            let event = ValidationFailed { object: self.object.clone(), err: errors[i].clone() };
            events.push(event);
            proof {
                assert(events@.take(prefix.len() as int) =~= prefix);
            }
            i = i + 1;
        }
        proof {
            let emitted = events@.skip(prefix.len() as int);
            assert(emitted.len() == found.len());
            assert forall|j: int|
                0 <= j < found.len() implies emitted.map_values(|e: ValidationFailed| e.err)[j]
                == found[j] by {
                assert(emitted[j] == events@[prefix.len() + j]);
            }
            assert(emitted.map_values(|e: ValidationFailed| e.err) =~= found);
            assert forall|i2: int| 0 <= i2 < emitted.len() implies (#[trigger] emitted[i2]).object
                == self.object by {
                assert(emitted[i2] == events@[prefix.len() + i2]);
            }
        }
    }
}

/// Take all errors stored in the validation layer.
///
/// Serves both as a command for and event produced by the validation
/// layer: deciding it snapshots and reports the recorded failures, and
/// applying it clears them.
#[derive(Clone, Copy, Debug, PartialEq, Eq, Structural)]
pub struct TakeErrors {}

impl Command<Validation> for TakeErrors {
    type Result = Result<(), ValidationErrors>;

    type Event = TakeErrors;

    /// Exactly one clearing event; success exactly if no failure was
    /// recorded, else every distinct recorded failure, in recording
    /// order.
    open spec fn decide_rel(
        &self,
        state: ValidationState,
        emitted: Seq<TakeErrors>,
        result: Result<(), ValidationErrors>,
    ) -> bool {
        &&& emitted == seq![TakeErrors {  }]
        &&& match result {
            Result::Ok(u) => state.errors.len() == 0,
            Result::Err(e) => state.errors.len() > 0 && e.0@ == state.errors.map_values(
                |p: (u64, ValidationError)| p.1,
            ),
        }
    }

    fn decide(self, state: &Validation, events: &mut Vec<TakeErrors>) -> (r: Result<
        (),
        ValidationErrors,
    >) {
        let mut snapshot: Vec<ValidationError> = Vec::new();
        let n = state.errors.len();
        let mut i: usize = 0;
        while i < n
            invariant
                n == state@.errors.len(),
                i <= n,
                snapshot@.len() == i,
                forall|j: int| 0 <= j < i ==> snapshot@[j] == state@.errors[j].1,
            decreases n - i,
        {
            let entry = state.errors.entry_at(i);
            snapshot.push(entry.1.clone());
            i = i + 1;
        }
        let ghost prefix = events@;
        events.push(TakeErrors {  });
        proof {
            assert(events@.take(prefix.len() as int) =~= prefix);
            assert(events@.skip(prefix.len() as int) =~= seq![TakeErrors {  }]);
            assert(snapshot@ =~= state@.errors.map_values(|p: (u64, ValidationError)| p.1));
        }
        if snapshot.len() == 0 {
            Result::Ok(())
        } else {
            Result::Err(ValidationErrors(snapshot))
        }
    }
}

impl Event<Validation> for TakeErrors {
    /// Applying a drain clears all recorded failures.
    open spec fn evolve_spec(&self, state: ValidationState) -> ValidationState {
        ValidationState { errors: Seq::empty(), config: state.config }
    }

    fn evolve(&self, state: &mut Validation) {
        state.errors.clear();
    }
}

/// Validation of an object failed: the failure to record for it.
pub struct ValidationFailed {
    /// The object for which validation failed.
    pub object: AnyObject,
    /// The validation error.
    pub err: ValidationError,
}

impl Event<Validation> for ValidationFailed {
    /// Applying a failure records it under the object's identity,
    /// replacing any earlier failure recorded for that same object.
    open spec fn evolve_spec(&self, state: ValidationState) -> ValidationState {
        ValidationState {
            errors: insert_entry(state.errors, self.object.id_spec(), self.err),
            config: state.config,
        }
    }

    fn evolve(&self, state: &mut Validation) {
        state.errors.insert(self.object.id(), self.err.clone());
    }
}

impl Layer<Validation> {
    /// Take all errors stored in the validation layer: return success if
    /// none was recorded, else every distinct recorded failure, and clear
    /// them either way.
    pub fn take_errors(&mut self) -> (r: Result<(), ValidationErrors>)
        ensures
            final(self)@.errors.len() == 0,
            final(self)@.config == old(self)@.config,
            match r {
                Result::Ok(u) => old(self)@.errors.len() == 0,
                Result::Err(e) => old(self)@.errors.len() > 0 && e.0@ == old(
                    self,
                )@.errors.map_values(|p: (u64, ValidationError)| p.1),
            },
    {
        let mut events: Vec<TakeErrors> = Vec::new();
        let r = self.process(TakeErrors {  }, &mut events);
        proof {
            assert(events@.skip(0) =~= events@);
            assert(events@ == seq![TakeErrors {  }]);
            assert(events@.drop_last() =~= Seq::<TakeErrors>::empty());
            assert(evolve_all::<Validation, TakeErrors>(old(self)@, events@) == (TakeErrors {
             }).evolve_spec(old(self)@));
        }
        r
    }
}

/// Drain idempotence: a drain always clears the recorded failures,
/// whatever it returned, so a second drain with no intervening validation
/// returns success.
pub proof fn lemma_drain_idempotent(
    state: ValidationState,
    first_emitted: Seq<TakeErrors>,
    first_result: Result<(), ValidationErrors>,
    second_emitted: Seq<TakeErrors>,
    second_result: Result<(), ValidationErrors>,
)
    requires
        (TakeErrors {  }).decide_rel(state, first_emitted, first_result),
        (TakeErrors {  }).decide_rel(
            evolve_all::<Validation, TakeErrors>(state, first_emitted),
            second_emitted,
            second_result,
        ),
    ensures
        evolve_all::<Validation, TakeErrors>(state, first_emitted).errors.len() == 0,
        second_result is Ok,
{
    assert(first_emitted == seq![TakeErrors {  }]);
    assert(first_emitted.drop_last() =~= Seq::<TakeErrors>::empty());
    assert(evolve_all::<Validation, TakeErrors>(state, first_emitted) == (TakeErrors {
     }).evolve_spec(state));
}

} // verus!
