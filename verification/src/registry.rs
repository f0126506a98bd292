//! Caller-side bookkeeping of instances by name: a convenience layer a
//! host keeps beside its store, associating human-readable names with
//! instance handles and remembering which instance was created last.

use vstd::prelude::*;

use crate::store::Instance;

verus! {

/// An error raised when looking an instance up.
#[derive(Debug, PartialEq, Eq)]
pub enum LookupError {
    /// A specific name was requested but nothing is registered under
    /// it.
    InstanceNotRegistered {
        /// The name that was requested.
        name: String,
    },
    /// No instance has ever been recorded, so there is no "most recent"
    /// one to fall back on.
    NoInstancesYet,
}

/// One name bound to an instance handle.
#[derive(Debug)]
pub struct NamedInstance {
    /// The registered name.
    pub name: String,
    /// The instance it names.
    pub instance: Instance,
}

/// The newest instance registered under the given name; entries are
/// kept newest first, so the first match wins.
pub open spec fn spec_lookup_named(entries: Seq<NamedInstance>, name: Seq<char>) -> Option<
    Instance,
>
    decreases entries.len(),
{
    if entries.len() == 0 {
        None
    } else if entries.first().name@ == name {
        Some(entries.first().instance)
    } else {
        spec_lookup_named(entries.drop_first(), name)
    }
}

/// The registry of instances a host keeps: names bound to handles
/// (last write wins) and the most recently created instance, named or
/// not.
#[derive(Debug)]
pub struct InstanceRegistry {
    /// The name bindings, newest first; an earlier binding of the same
    /// name is shadowed by a later one.
    pub named: Vec<NamedInstance>,
    /// The most recently recorded instance, if any was ever recorded.
    pub last: Option<Instance>,
}

impl InstanceRegistry {
    /// Creates an empty registry.
    pub fn new() -> (r: InstanceRegistry)
        ensures
            r.named@ == Seq::<NamedInstance>::empty(),
            r.last is None,
    {
        InstanceRegistry { named: Vec::new(), last: None }
    }

    /// Records a created instance: it becomes the most recent one, and
    /// when a name is given the name now resolves to it, shadowing any
    /// earlier binding of the same name; every other name resolves as
    /// before.
    pub fn record(&mut self, name: Option<String>, instance: Instance)
        ensures
            final(self).last == Some(instance),
            name is None ==> final(self).named@ == old(self).named@,
            name matches Some(n) ==> {
                &&& spec_lookup_named(final(self).named@, n@) == Some(instance)
                &&& (forall|other: Seq<char>|
                    other != n@ ==> spec_lookup_named(final(self).named@, other)
                        == spec_lookup_named(old(self).named@, other))
            },
    {
        self.last = Some(instance);
        match name {
            None => {},
            Some(n) => {
                self.named.insert(0, NamedInstance { name: n, instance });
                proof {
                    assert(self.named@.first() == self.named@[0]);
                    assert(self.named@.drop_first() =~= old(self).named@);
                }
            },
        }
    }

    /// Looks the instance registered under `name` up; fails with an
    /// error carrying that name when nothing is registered under it.
    pub fn instance_by_name(&self, name: &String) -> (r: Result<Instance, LookupError>)
        ensures
            spec_lookup_named(self.named@, name@) matches Some(instance) ==> r == Ok::<
                Instance,
                LookupError,
            >(instance),
            spec_lookup_named(self.named@, name@) is None ==> {
                &&& r matches Err(e)
                &&& e matches LookupError::InstanceNotRegistered { name: en }
                &&& en@ == name@
            },
    {
        let n: usize = self.named.len();
        let mut i: usize = 0;
        proof {
            assert(self.named@.skip(0) =~= self.named@);
        }
        while i < n
            invariant
                n == self.named@.len(),
                i <= n,
                spec_lookup_named(self.named@, name@) == spec_lookup_named(
                    self.named@.skip(i as int),
                    name@,
                ),
            decreases n - i,
        {
            proof {
                assert(self.named@.skip(i as int).first() == self.named@[i as int]);
                assert(self.named@.skip(i as int).drop_first() =~= self.named@.skip(i + 1));
            }
            let entry = &self.named[i];
            if entry.name == *name {
                return Ok(entry.instance);
            }
            i += 1;
        }
        proof {
            assert(self.named@.skip(n as int) =~= Seq::<NamedInstance>::empty());
        }
        Err(LookupError::InstanceNotRegistered { name: name.clone() })
    }

    /// Looks up the instance named `name`, or, when no name is given,
    /// the most recently created instance. The two ways this fails are
    /// distinct: a name that is not registered reports that name,
    /// while an unnamed lookup before any instance was ever created
    /// reports that there are none yet.
    pub fn instance_by_name_or_last(&self, name: Option<&String>) -> (r: Result<
        Instance,
        LookupError,
    >)
        ensures
            name matches Some(n) ==> {
                &&& (spec_lookup_named(self.named@, n@) matches Some(instance) ==> r == Ok::<
                    Instance,
                    LookupError,
                >(instance))
                &&& (spec_lookup_named(self.named@, n@) is None ==> {
                    &&& r matches Err(e)
                    &&& e matches LookupError::InstanceNotRegistered { name: en }
                    &&& en@ == n@
                })
            },
            name is None ==> match self.last {
                Some(instance) => r == Ok::<Instance, LookupError>(instance),
                None => r == Err::<Instance, LookupError>(LookupError::NoInstancesYet),
            },
    {
        match name {
            Some(n) => self.instance_by_name(n),
            None => match self.last {
                Some(instance) => Ok(instance),
                None => Err(LookupError::NoInstancesYet),
            },
        }
    }
}

} // verus!
