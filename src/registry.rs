use vstd::prelude::*;
use vstd::string::*;

use crate::device::DeviceInstance;
use crate::error::ErrorKind;

verus! {

/// What registering `name` among `names`, with room for `limit` entries,
/// reports: a name in use is a conflict; a full table is out of resources.
pub open spec fn register_outcome(names: Seq<Seq<char>>, limit: nat, name: Seq<char>) -> Result<
    (),
    ErrorKind,
> {
    if names.contains(name) {
        Err(ErrorKind::RegistrationConflict)
    } else if names.len() >= limit {
        Err(ErrorKind::AllocationFailure)
    } else {
        Ok(())
    }
}

/// The registered names after registering `name`: one more where it
/// succeeds, the same where it fails.
pub open spec fn names_after_register(names: Seq<Seq<char>>, limit: nat, name: Seq<char>) -> Seq<
    Seq<char>,
> {
    if register_outcome(names, limit, name) is Ok {
        names.push(name)
    } else {
        names
    }
}

/// No name occurs twice.
pub open spec fn distinct_names(names: Seq<Seq<char>>) -> bool {
    forall|i: int, j: int| 0 <= i < j < names.len() ==> names[i] != names[j]
}

/// Whether `a` and `b` hold the same characters.
pub fn same_name(a: &str, b: &str) -> (r: bool)
    ensures
        r == (a@ == b@),
{
    let n = a.unicode_len();
    if n != b.unicode_len() {
        return false;
    }
    let mut i: usize = 0;
    while i < n
        invariant
            n == a@.len(),
            n == b@.len(),
            i <= n,
            forall|j: int| 0 <= j < i ==> a@[j] == b@[j],
        decreases n - i,
    {
        if a.get_char(i) != b.get_char(i) {
            return false;
        }
        i = i + 1;
    }
    assert(a@ =~= b@);
    true
}

/// The device entry point that clients open, held under its name for as
/// long as it stays registered.
pub struct Registration {
    name: String,
}

impl Registration {
    /// The name the entry point is registered under.
    pub closed spec fn name_spec(&self) -> Seq<char> {
        self.name@
    }

    /// The name the entry point is registered under.
    pub fn name(&self) -> (r: &str)
        ensures
            r@ == self.name_spec(),
    {
        self.name.as_str()
    }

    /// A new device instance, with a counter of its own that starts at 0.
    pub fn open(&self) -> (r: DeviceInstance) {
        DeviceInstance::open()
    }
}

/// The host's table of device names, with room for a fixed number of
/// entries.
pub struct Registry {
    names: Vec<String>,
    limit: usize,
}

impl Registry {
    /// The registered names, in the order they were registered.
    pub closed spec fn names(&self) -> Seq<Seq<char>> {
        self.names@.map_values(|s: String| s@)
    }

    /// How many names the table can hold at once.
    pub closed spec fn limit(&self) -> nat {
        self.limit as nat
    }

    /// Names are unique and the table is within its limit.
    pub open spec fn wf(&self) -> bool {
        distinct_names(self.names()) && self.names().len() <= self.limit()
    }

    /// An empty table with room for `limit` names.
    pub fn new(limit: usize) -> (r: Registry)
        ensures
            r.wf(),
            r.names() == Seq::<Seq<char>>::empty(),
            r.limit() == limit,
    {
        let r = Registry { names: Vec::new(), limit };
        assert(r.names() =~= Seq::<Seq<char>>::empty());
        r
    }

    /// How many names are registered.
    pub fn len(&self) -> (r: usize)
        ensures
            r == self.names().len(),
    {
        self.names.len()
    }

    /// Where `name` stands in the table, if it is registered.
    fn position(&self, name: &str) -> (r: Option<usize>)
        ensures
            r is None ==> !self.names().contains(name@),
            r is Some ==> r->Some_0 < self.names().len() && self.names()[r->Some_0 as int]
                == name@,
    {
        let mut i: usize = 0;
        while i < self.names.len()
            invariant
                i <= self.names@.len(),
                forall|j: int| 0 <= j < i ==> self.names()[j] != name@,
            decreases self.names@.len() - i,
        {
            if same_name(self.names[i].as_str(), name) {
                return Some(i);
            }
            i = i + 1;
        }
        proof {
            if self.names().contains(name@) {
                let k = choose|k: int| 0 <= k < self.names().len() && self.names()[k] == name@;
                assert(self.names()[k] == name@);
            }
        }
        None
    }

    /// Whether `name` is registered.
    pub fn is_registered(&self, name: &str) -> (r: bool)
        ensures
            r == self.names().contains(name@),
    {
        self.position(name).is_some()
    }

    /// Registers the device entry point under `name`.
    ///
    /// Fails with `RegistrationConflict` where the name is taken, else with
    /// `AllocationFailure` where the table is full; on failure the table is
    /// left as it was.
    pub fn register(&mut self, name: &str) -> (r: Result<Registration, ErrorKind>)
        requires
            old(self).wf(),
        ensures
            final(self).wf(),
            final(self).limit() == old(self).limit(),
            final(self).names() == names_after_register(old(self).names(), old(self).limit(), name@),
            match r {
                Ok(g) => g.name_spec() == name@ && register_outcome(
                    old(self).names(),
                    old(self).limit(),
                    name@,
                ) is Ok,
                Err(e) => register_outcome(old(self).names(), old(self).limit(), name@) == Err::<
                    (),
                    ErrorKind,
                >(e),
            },
    {
        if self.is_registered(name) {
            return Err(ErrorKind::RegistrationConflict);
        }
        if self.names.len() >= self.limit {
            return Err(ErrorKind::AllocationFailure);
        }
        self.names.push(String::from_str(name));
        assert(self.names() =~= old(self).names().push(name@));
        Ok(Registration { name: String::from_str(name) })
    }

    /// Removes the entry point that `registration` stands for; every other
    /// name stays registered.
    pub fn unregister(&mut self, registration: Registration)
        requires
            old(self).wf(),
        ensures
            final(self).wf(),
            final(self).limit() == old(self).limit(),
            !final(self).names().contains(registration.name_spec()),
            forall|s: Seq<char>|
                s != registration.name_spec() ==> (#[trigger] final(self).names().contains(s)
                    <==> old(self).names().contains(s)),
            final(self).names().len() + (if old(self).names().contains(registration.name_spec()) {
                1int
            } else {
                0int
            }) == old(self).names().len(),
    {
        match self.position(registration.name()) {
            None => {},
            Some(i) => {
                let ghost before = self.names();
                self.names.remove(i);
                assert(self.names() =~= before.remove(i as int));
                assert forall|s: Seq<char>|
                    s != registration.name_spec() implies (#[trigger] self.names().contains(s)
                    <==> before.contains(s)) by {
                    if before.contains(s) {
                        let k = choose|k: int| 0 <= k < before.len() && before[k] == s;
                        if k < i {
                            assert(self.names()[k] == s);
                        } else {
                            assert(self.names()[k - 1] == s);
                        }
                    }
                };
                assert(!self.names().contains(registration.name_spec())) by {
                    if self.names().contains(registration.name_spec()) {
                        let k = choose|k: int|
                            0 <= k < self.names().len() && self.names()[k]
                                == registration.name_spec();
                        if k < i {
                            assert(before[k] == before[i as int]);
                        } else {
                            assert(before[k + 1] == before[i as int]);
                        }
                    }
                };
            },
        }
    }
}

} // verus!
