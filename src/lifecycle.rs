use vstd::prelude::*;

use crate::error::ErrorKind;
use crate::registry::{names_after_register, register_outcome, Registration, Registry};

verus! {

/// The name the device node is registered under: the module's own.
pub const DEVICE_NAME: &'static str = "kcounter";

/// What a loaded module holds: the registration of its device node.
pub struct ModuleState {
    registration: Registration,
}

impl ModuleState {
    /// The name the module's device node is registered under.
    pub closed spec fn name_spec(&self) -> Seq<char> {
        self.registration.name_spec()
    }

    /// The module's device node.
    pub fn registration(&self) -> (r: &Registration)
        ensures
            r.name_spec() == self.name_spec(),
    {
        &self.registration
    }
}

/// Loads the module: registers the device node under `DEVICE_NAME`. Where
/// that fails the load fails with the same error and `registry` is left as
/// it was.
pub fn on_load(registry: &mut Registry) -> (r: Result<ModuleState, ErrorKind>)
    requires
        old(registry).wf(),
    ensures
        final(registry).wf(),
        final(registry).limit() == old(registry).limit(),
        final(registry).names() == names_after_register(
            old(registry).names(),
            old(registry).limit(),
            DEVICE_NAME@,
        ),
        match r {
            Ok(m) => m.name_spec() == DEVICE_NAME@ && register_outcome(
                old(registry).names(),
                old(registry).limit(),
                DEVICE_NAME@,
            ) is Ok,
            Err(e) => register_outcome(old(registry).names(), old(registry).limit(), DEVICE_NAME@)
                == Err::<(), ErrorKind>(e),
        },
{
    match registry.register(DEVICE_NAME) {
        Ok(registration) => Ok(ModuleState { registration }),
        Err(e) => Err(e),
    }
}

/// Unloads the module: removes its device node. It cannot fail.
pub fn on_unload(registry: &mut Registry, state: ModuleState)
    requires
        old(registry).wf(),
    ensures
        final(registry).wf(),
        final(registry).limit() == old(registry).limit(),
        !final(registry).names().contains(state.name_spec()),
        forall|s: Seq<char>|
            s != state.name_spec() ==> (#[trigger] final(registry).names().contains(s)
                <==> old(registry).names().contains(s)),
{
    registry.unregister(state.registration);
}

/// Registering a name that is already in use is a conflict, and leaves the
/// table, with the registration that holds the name, as it was.
pub proof fn lemma_conflict_keeps_registration(
    names: Seq<Seq<char>>,
    limit: nat,
    name: Seq<char>,
)
    requires
        names.contains(name),
    ensures
        register_outcome(names, limit, name) == Err::<(), ErrorKind>(
            ErrorKind::RegistrationConflict,
        ),
        names_after_register(names, limit, name) == names,
        names_after_register(names, limit, name).contains(name),
{
}

} // verus!
