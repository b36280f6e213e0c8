//! The importers known to one store, each under a unique name.
//!
//! Reports live in their own log and are retained when an importer is
//! deleted: they record runs that happened.
use vstd::prelude::*;
use crate::config::ImporterConfiguration;
use crate::importer::{initial, Importer, Revisioned};

verus! {

/// Why a registry operation was refused.
#[derive(Clone, Copy, Debug, PartialEq, Eq, Structural)]
pub enum RegistryError {
    /// An importer of that name exists already.
    AlreadyExists,
    /// No importer of that name exists.
    NotFound,
}

/// Stored importers with their revisions.
pub struct Registry {
    pub records: Vec<Revisioned<Importer>>,
}

impl Registry {
    /// No two records share a name.
    pub open spec fn wf(self) -> bool {
        forall|i: int, j: int|
            0 <= i < j < self.records@.len() ==> (#[trigger] self.records@[i]).value.name@
                != (#[trigger] self.records@[j]).value.name@
    }

    /// Whether some record has the name `name`.
    pub open spec fn has(self, name: Seq<char>) -> bool {
        exists|i: int| 0 <= i < self.records@.len() && (#[trigger] self.records@[i]).value.name@ == name
    }

    /// An empty registry.
    pub fn new() -> (r: Registry)
        ensures
            r.wf(),
            r.records@.len() == 0,
    {
        Registry { records: Vec::new() }
    }

    /// The position of the importer named `name`, if there is one.
    pub fn find(&self, name: &String) -> (r: Option<usize>)
        ensures
            r is None <==> !self.has(name@),
            r is Some ==> r->0 < self.records@.len() && self.records@[r->0 as int].value.name@
                == name@,
    {
        let mut i: usize = 0;
        while i < self.records.len()
            invariant
                i <= self.records@.len(),
                forall|j: int| 0 <= j < i ==> (#[trigger] self.records@[j]).value.name@ != name@,
            decreases self.records@.len() - i,
        {
            if self.records[i].value.name == *name {
                return Some(i);
            }
            i += 1;
        }
        None
    }

    /// Creates the importer `name`, waiting since `now`, at revision zero;
    /// refused if the name is taken.
    pub fn create(&mut self, name: String, configuration: ImporterConfiguration, now: i128) -> (r: Result<(), RegistryError>)
        requires
            old(self).wf(),
        ensures
            final(self).wf(),
            r is Ok <==> !old(self).has(name@),
            r is Ok ==> final(self).records@ == old(self).records@.push(
                Revisioned { value: initial(name, configuration, now), revision: 0 },
            ),
            r is Err ==> r == Err::<(), RegistryError>(RegistryError::AlreadyExists)
                && *final(self) == *old(self),
    {
        if self.find(&name).is_some() {
            return Err(RegistryError::AlreadyExists);
        }
        let imp = Importer::new(name, configuration, now);
        self.records.push(Revisioned { value: imp, revision: 0 });
        assert(forall|i: int| 0 <= i < old(self).records@.len() ==> self.records@[i] == old(self).records@[i]);
        Ok(())
    }

    /// Deletes the importer `name` and hands back its last record; the
    /// others keep their order.
    pub fn delete(&mut self, name: &String) -> (r: Result<Revisioned<Importer>, RegistryError>)
        requires
            old(self).wf(),
        ensures
            final(self).wf(),
            r is Ok <==> old(self).has(name@),
            r is Ok ==> r->Ok_0.value.name@ == name@ && exists|i: int|
                0 <= i < old(self).records@.len() && old(self).records@[i] == r->Ok_0
                    && final(self).records@ == old(self).records@.remove(i),
            r is Err ==> r == Err::<Revisioned<Importer>, RegistryError>(RegistryError::NotFound)
                && *final(self) == *old(self),
            !final(self).has(name@),
    {
        match self.find(name) {
            None => Err(RegistryError::NotFound),
            Some(i) => {
                let ghost before = self.records@;
                let rec = self.records.remove(i);
                assert(forall|j: int| 0 <= j < self.records@.len() ==> #[trigger] self.records@[j]
                    == before[if j < i { j } else { j + 1 }]);
                assert(!self.has(name@)) by {
                    if self.has(name@) {
                        let j = choose|j: int| 0 <= j < self.records@.len() && (#[trigger] self.records@[j]).value.name@ == name@;
                        let k = if j < i { j } else { j + 1 };
                        assert(before[k].value.name@ == before[i as int].value.name@);
                    }
                }
                Ok(rec)
            },
        }
    }
}

} // verus!
