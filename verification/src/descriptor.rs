//! The declared pipeline: an ordered list of stage descriptors.

use vstd::prelude::*;

verus! {

/// One entry of a declared pipeline: the name of a stage type and the
/// argument value from which the stage is constructed.
pub struct StageArgs<V> {
    pub name: String,
    pub args: V,
}

/// A declared pipeline, in the order in which its stages run.
pub struct StageFile<V> {
    pub stages: Vec<StageArgs<V>>,
}

impl<V> StageFile<V> {
    /// The names of the descriptors, in declared order.
    pub open spec fn names(&self) -> Seq<Seq<char>> {
        Seq::new(self.stages@.len(), |i: int| self.stages@[i].name@)
    }

    /// The argument values of the descriptors, in declared order.
    pub open spec fn args(&self) -> Seq<V> {
        Seq::new(self.stages@.len(), |i: int| self.stages@[i].args)
    }

    /// A pipeline without stages.
    pub fn new() -> (file: Self)
        ensures
            file.stages@ == Seq::<StageArgs<V>>::empty(),
            file.names() == Seq::<Seq<char>>::empty(),
    {
        let file = StageFile { stages: Vec::new() };
        assert(file.names() =~= Seq::<Seq<char>>::empty());
        file
    }

    /// Appends a descriptor to the end of the pipeline.
    pub fn push(&mut self, name: String, args: V)
        ensures
            final(self).names() == old(self).names().push(name@),
            final(self).args() == old(self).args().push(args),
    {
        self.stages.push(StageArgs { name, args });
        assert(self.names() =~= old(self).names().push(name@));
        assert(self.args() =~= old(self).args().push(args));
    }

    /// The number of descriptors.
    pub fn len(&self) -> (n: usize)
        ensures
            n == self.stages@.len(),
    {
        self.stages.len()
    }
}

} // verus!
