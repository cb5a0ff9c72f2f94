//! Factories: what a registry binds to a name.

use vstd::prelude::*;
use crate::stage::FromArgs;
use crate::stage::Outcome;
use crate::stage::Stage;
use std::marker::PhantomData;

verus! {

/// Turns the argument value of a descriptor into a stage, or refuses it.
pub trait StageFactory<C, V> {
    /// Whether the factory makes a stage of the arguments.
    spec fn accepts(&self, args: &V) -> bool;

    /// What the stage made of the arguments, once set up, makes of a context.
    spec fn product_outcome(&self, args: &V, c: C) -> Outcome<C>;

    /// Makes a stage of the arguments.
    fn build(&self, args: &V) -> (r: Option<Box<dyn Stage<C>>>)
        ensures
            r.is_some() == self.accepts(args),
            match r {
                Some(stage) => forall|c: C| #[trigger]
                    stage.outcome_once_set_up(c) == self.product_outcome(args, c),
                None => true,
            },
    ;
}

/// A factory as a registry holds it: behind the `StageFactory` interface.
#[verifier::reject_recursive_types(C)]
#[verifier::reject_recursive_types(V)]
pub struct Factory<C, V> {
    pub inner: Box<dyn StageFactory<C, V>>,
}

/// Whether a factory behind the `StageFactory` interface behaves as `f` does.
pub open spec fn stands_for_factory<C, V, F: StageFactory<C, V>>(
    erased: Factory<C, V>,
    f: F,
) -> bool {
    &&& forall|args: &V| #[trigger] erased.inner.accepts(args) == f.accepts(args)
    &&& forall|args: &V, c: C| #[trigger]
        erased.inner.product_outcome(args, c) == f.product_outcome(args, c)
}

/// Whether a registered factory constructs stages of type `S`: it accepts the
/// arguments that describe an `S`, and what it makes of them runs as that `S`
/// does once set up.
pub open spec fn constructs<C, V, S: Stage<C> + FromArgs<V>>(
    factory: Factory<C, V>,
) -> bool {
    &&& forall|args: &V| #[trigger] factory.inner.accepts(args) == S::described(args).is_some()
    &&& forall|args: &V, c: C|
        S::described(args).is_some() ==> #[trigger] factory.inner.product_outcome(args, c)
            == S::described(args).unwrap().outcome_once_set_up(c)
}

/// Puts a freshly constructed stage, where there is one, behind the `Stage`
/// interface, with std's `Box::new` and the conversion of the box to a trait
/// object. Verus does not follow a call through a trait object to the type
/// behind it; the contract says that the boxed stage runs as the stage that
/// went in.
#[verifier::external_body]
fn erase_stage<C, S: Stage<C> + 'static>(made: Option<S>) -> (erased: Option<Box<dyn Stage<C>>>)
    ensures
        erased.is_some() == made.is_some(),
        match (erased, made) {
            (Some(e), Some(s)) => {
                &&& forall|c: C| #[trigger] e.outcome(c) == s.outcome(c)
                &&& forall|c: C| #[trigger] e.outcome_once_set_up(c) == s.outcome_once_set_up(c)
            },
            _ => true,
        },
{
    match made {
        Some(s) => Some(Box::new(s)),
        None => None,
    }
}

/// Puts a factory behind the `StageFactory` interface, with std's `Box::new`
/// and the conversion of the box to a trait object. The contract says that
/// the boxed factory accepts and makes what the factory that went in does.
#[verifier::external_body]
pub(crate) fn erase_factory<C, V, F: StageFactory<C, V> + 'static>(f: F) -> (erased: Factory<C, V>)
    ensures
        stands_for_factory(erased, f),
{
    Factory { inner: Box::new(f) }
}

/// The factory of one stage type: it constructs the stage from the arguments
/// and hands it out behind the `Stage` interface.
pub struct Constructor<S> {
    marker: PhantomData<S>,
}

impl<S> Constructor<S> {
    /// The factory for stages of type `S`.
    pub(crate) fn new() -> Self {
        Constructor { marker: PhantomData }
    }
}

impl<C, V, S: Stage<C> + FromArgs<V> + 'static> StageFactory<C, V> for Constructor<S> {
    open spec fn accepts(&self, args: &V) -> bool {
        S::described(args).is_some()
    }

    open spec fn product_outcome(&self, args: &V, c: C) -> Outcome<C> {
        S::described(args).unwrap().outcome_once_set_up(c)
    }

    fn build(&self, args: &V) -> (r: Option<Box<dyn Stage<C>>>) {
        erase_stage(S::from_args(args))
    }
}

/// A boxed `Constructor` of `S` constructs stages of type `S`.
pub proof fn lemma_constructor_constructs<C, V, S: Stage<C> + FromArgs<V> + 'static>(
    erased: Factory<C, V>,
    f: Constructor<S>,
)
    requires
        stands_for_factory(erased, f),
    ensures
        constructs::<C, V, S>(erased),
{
}

} // verus!
