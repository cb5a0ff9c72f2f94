//! The contract between the engine and the stages it runs.

use vstd::prelude::*;

verus! {

/// Why a run stopped before the end of the pipeline.
#[derive(Clone, Copy, Debug, PartialEq, Eq, Structural)]
pub enum StageError {
    /// No stage type is registered under the name of the descriptor at `index`.
    Unresolved { index: usize },
    /// The stage type registered for the descriptor at `index` could not be
    /// constructed from the descriptor's arguments.
    Malformed { index: usize },
    /// A stage gave up while it ran, with a code of its own choosing.
    Failed { code: u32 },
}

/// What a run leaves behind: the context as it stands, and the error that
/// stopped the run, if one did.
pub ghost struct Outcome<C> {
    pub context: C,
    pub error: Option<StageError>,
}

/// The error of a result, if it holds one.
pub open spec fn error_of(r: Result<(), StageError>) -> Option<StageError> {
    match r {
        Ok(_) => None,
        Err(e) => Some(e),
    }
}

/// A function from `A` to `B` of which nothing is known but that it is one:
/// equal arguments give equal results.
pub open spec fn unspecified<A, B>(a: A) -> B {
    (choose|f: spec_fn(A) -> B| #[trigger] is_function(f))(a)
}

/// Holds of every function.
pub open spec fn is_function<A, B>(f: spec_fn(A) -> B) -> bool {
    true
}

/// A unit of behaviour that works on a shared context of type `C`.
pub trait Stage<C> {
    /// What `run` makes of a context, with the stage as it stands. A stage
    /// type that states no model of its own leaves this open.
    open spec fn outcome(&self, c: C) -> Outcome<C> {
        unspecified((self, false, c))
    }

    /// What `run` will make of a context once `setup` has been called.
    open spec fn outcome_once_set_up(&self, c: C) -> Outcome<C> {
        unspecified((self, true, c))
    }

    /// Prepares the stage for its run. Called once, after construction.
    fn setup(&mut self)
        ensures
            forall|c: C| #[trigger] final(self).outcome(c) == old(self).outcome_once_set_up(c),
    ;

    /// Works on the context. A failure leaves the context as far as the stage
    /// got with it.
    fn run(&self, c: &mut C) -> (r: Result<(), StageError>)
        ensures
            self.outcome(*old(c)) == (Outcome { context: *final(c), error: error_of(r) }),
    ;
}

/// The name under which a stage type is registered when none is given.
pub trait StageName {
    /// The name as a sequence of characters. A type that states none leaves
    /// it open.
    open spec fn stage_name_spec() -> Seq<char> {
        unspecified(arbitrary::<&Self>())
    }

    fn stage_name() -> (name: &'static str)
        ensures
            name@ == Self::stage_name_spec(),
    ;
}

/// Construction of a stage from the argument value of its descriptor.
pub trait FromArgs<V>: Sized {
    /// The stage that the arguments describe, where they describe one. A
    /// stage type that states no model of its own leaves this open.
    open spec fn described(args: &V) -> Option<Self> {
        unspecified(args)
    }

    fn from_args(args: &V) -> (r: Option<Self>)
        ensures
            r == Self::described(args),
    ;
}

} // verus!
