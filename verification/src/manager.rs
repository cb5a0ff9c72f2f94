//! The pipeline manager: a declared pipeline, a registry of stage types, and
//! the run that brings the two together.

use vstd::prelude::*;
use vstd::hash_map::StringHashMap;
use crate::descriptor::StageFile;
use crate::registry::constructs;
use crate::registry::erase_factory;
use crate::registry::lemma_constructor_constructs;
use crate::registry::Constructor;
use crate::registry::Factory;
use crate::registry::StageFactory;
use crate::stage::error_of;
use crate::stage::FromArgs;
use crate::stage::Outcome;
use crate::stage::Stage;
use crate::stage::StageError;
use crate::stage::StageName;

verus! {

/// What the descriptor at one place of a pipeline makes of a context: the
/// name is looked up, the stage constructed and set up, and then run.
pub open spec fn step_outcome<C, V>(
    registry: Map<Seq<char>, Factory<C, V>>,
    name: Seq<char>,
    args: &V,
    index: int,
    c: C,
) -> Outcome<C> {
    if !registry.contains_key(name) {
        Outcome { context: c, error: Some(StageError::Unresolved { index: index as usize }) }
    } else {
        if !registry[name].inner.accepts(args) {
            Outcome { context: c, error: Some(StageError::Malformed { index: index as usize }) }
        } else {
            registry[name].inner.product_outcome(args, c)
        }
    }
}

/// Owns a declared pipeline and the registry that resolves its names.
#[verifier::reject_recursive_types(C)]
#[verifier::reject_recursive_types(V)]
pub struct StageManager<C, V> {
    pub file: StageFile<V>,
    pub deserialize_map: StringHashMap<Factory<C, V>>,
}

impl<C, V> StageManager<C, V> {
    /// The registry as a map from names to factories.
    pub open spec fn registry(&self) -> Map<Seq<char>, Factory<C, V>> {
        self.deserialize_map@
    }

    /// The number of declared stages.
    pub open spec fn stage_count(&self) -> int {
        self.file.stages@.len() as int
    }

    /// What the descriptor at `index` makes of a context.
    pub open spec fn step(&self, index: int, c: C) -> Outcome<C> {
        step_outcome(
            self.registry(),
            self.file.stages@[index].name@,
            &self.file.stages@[index].args,
            index,
            c,
        )
    }

    /// What the descriptors from `from` on make of a context: each works on
    /// what the one before it left, and the first error ends the run.
    pub open spec fn run_from(&self, from: int, c: C) -> Outcome<C>
        decreases self.stage_count() - from,
    {
        if from < 0 || from >= self.stage_count() {
            Outcome { context: c, error: None }
        } else {
            let first = self.step(from, c);
            if first.error.is_some() {
                first
            } else {
                self.run_from(from + 1, first.context)
            }
        }
    }

    /// What a run of the whole pipeline makes of a context.
    pub open spec fn pipeline_outcome(&self, c: C) -> Outcome<C> {
        self.run_from(0, c)
    }

    /// A manager for the declared pipeline, with nothing registered yet.
    pub fn from_file(stage_file: StageFile<V>) -> (m: Self)
        ensures
            m.file == stage_file,
            m.registry() == Map::<Seq<char>, Factory<C, V>>::empty(),
    {
        StageManager { file: stage_file, deserialize_map: StringHashMap::new() }
    }

    /// Runs the declared stages in order on the context.
    pub fn run_stages(&self, context: &mut C) -> (r: Result<(), StageError>)
        ensures
            self.pipeline_outcome(*old(context)) == (Outcome {
                context: *final(context),
                error: error_of(r),
            }),
    {
        let n: usize = self.file.stages.len();
        let mut i: usize = 0;
        while i < n
            invariant
                n == self.file.stages@.len(),
                i <= n,
                self.pipeline_outcome(*old(context)) == self.run_from(i as int, *context),
            decreases n - i,
        {
            let d = &self.file.stages[i];
            let factory = match self.deserialize_map.get(d.name.as_str()) {
                Some(f) => f,
                None => {
                    return Err(StageError::Unresolved { index: i });
                },
            };
            let mut stage = match factory.inner.build(&d.args) {
                Some(s) => s,
                None => {
                    return Err(StageError::Malformed { index: i });
                },
            };
            stage.setup();
            let r = stage.run(context);
            match r {
                Ok(_) => {},
                Err(e) => {
                    return Err(e);
                },
            }
            i = i + 1;
        }
        Ok(())
    }

    /// Registers the stage type `S` under `name`, in place of whatever was
    /// registered under that name before.
    pub fn register_named<S: Stage<C> + FromArgs<V> + 'static>(&mut self, name: &str) -> (m: &mut Self)
        ensures
            *final(self) == *final(m),
            m.file == old(self).file,
            m.registry() == old(self).registry().insert(name@, m.registry()[name@]),
            constructs::<C, V, S>(m.registry()[name@]),
    {
        let constructor: Constructor<S> = Constructor::new();
        let f = erase_factory(constructor);
        proof {
            lemma_constructor_constructs::<C, V, S>(f, constructor);
        }
        self.deserialize_map.insert(name.to_string(), f);
        self
    }

    /// Registers the stage type `S` under the name that it gives itself.
    pub fn register<S: Stage<C> + StageName + FromArgs<V> + 'static>(&mut self) -> (m: &mut Self)
        ensures
            *final(self) == *final(m),
            m.file == old(self).file,
            m.registry() == old(self).registry().insert(
                S::stage_name_spec(),
                m.registry()[S::stage_name_spec()],
            ),
            constructs::<C, V, S>(m.registry()[S::stage_name_spec()]),
    {
        self.register_named::<S>(S::stage_name())
    }
}

/// A manager is a stage: its run is the run of its pipeline, with its own
/// registry, and setting it up changes nothing.
impl<C, V> Stage<C> for StageManager<C, V> {
    open spec fn outcome(&self, c: C) -> Outcome<C> {
        self.pipeline_outcome(c)
    }

    open spec fn outcome_once_set_up(&self, c: C) -> Outcome<C> {
        self.pipeline_outcome(c)
    }

    fn setup(&mut self) {
    }

    fn run(&self, c: &mut C) -> (r: Result<(), StageError>) {
        self.run_stages(c)
    }
}

} // verus!
