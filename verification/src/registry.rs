//! Model of the host runtime's global registration table and of the
//! cross-boundary object lifecycle.
//!
//! The host's table is process-scoped and append-only: namespaces, type
//! descriptors and file bindings are installed during environment
//! initialization and never removed.  Instances of registered creatable
//! types are constructed and destroyed by the host through the callback
//! pair recorded in their descriptor; the table tracks each instance's
//! state so that the construction/destruction pairing is a proved
//! invariant rather than a convention.

use vstd::prelude::*;

use crate::name::no_nul;

verus! {

/// The structural facts the host needs in order to manage instances of one
/// native type generically: its fully qualified identifier, its exact
/// instance byte footprint, the stable identifier the host's type registry
/// assigned to it, and a handle to its process-lifetime meta-object
/// description.
pub struct TypeMetadata {
    pub full_name: Vec<u8>,
    pub object_size: u64,
    pub type_id: i32,
    pub meta_object: u64,
}

impl TypeMetadata {
    pub open spec fn wf(self) -> bool {
        no_nul(self.full_name@)
    }
}

/// The monomorphized construction callback of one native type.  Each
/// distinct native type yields its own statically distinct callback, so a
/// callback is identified by the type it constructs.
#[derive(Clone, Copy, Debug, PartialEq, Eq, Structural)]
pub struct Creator {
    pub type_id: i32,
}

/// The descriptor record handed to the host when a type is registered:
/// identity, layout, lifecycle callbacks and namespace coordinates, plus
/// the capability fields this layer never uses, which stay at their
/// neutral values.
pub struct TypeDescriptor {
    /// Schema-version tag of the record itself; always 0.
    pub structure_version: u32,
    pub type_id: i32,
    pub object_size: u64,
    /// Construction callback, or `None` for an uncreatable type.
    pub creator: Option<Creator>,
    /// Refusal reason for an uncreatable type; `None` for a creatable one.
    pub no_creation_reason: Option<Vec<u8>>,
    pub uri: Vec<u8>,
    pub version_major: u64,
    pub version_minor: u64,
    pub element_name: Vec<u8>,
    pub meta_object: u64,
    /// Casting hint, unused by this layer.
    pub parser_status_cast: i32,
    /// Casting hint, unused by this layer.
    pub value_source_cast: i32,
    /// Casting hint, unused by this layer.
    pub value_interceptor_cast: i32,
    /// Revision gate, unused by this layer.
    pub revision: u32,
}

impl TypeDescriptor {
    /// A type is either creatable or explicitly marked uncreatable: exactly
    /// one of the construction callback and the refusal reason is present.
    pub open spec fn wf(self) -> bool {
        &&& self.structure_version == 0
        &&& (self.creator is Some <==> self.no_creation_reason is None)
        &&& no_nul(self.uri@)
        &&& no_nul(self.element_name@)
        &&& self.parser_status_cast == -1
        &&& self.value_source_cast == -1
        &&& self.value_interceptor_cast == -1
        &&& self.revision == 0
    }
}

/// One versioned namespace known to the host.
pub struct ModuleBinding {
    pub uri: Vec<u8>,
    pub version_major: u64,
    pub version_minor: u64,
}

/// A markup-resource-backed component: the host resolves instances of
/// `element_name` by loading `url`, with no native lifecycle involved.
pub struct FileBinding {
    pub url: Vec<u8>,
    pub uri: Vec<u8>,
    pub version_major: u64,
    pub version_minor: u64,
    pub element_name: Vec<u8>,
}

#[derive(Clone, Copy, Debug, PartialEq, Eq, Structural)]
pub enum InstanceState {
    /// Constructed and owned by the host.
    Live,
    /// Torn down by the host; its destruction callback has run.
    Destroyed,
}

/// One host-owned instance of a registered creatable type.
#[derive(Clone, Copy, Debug, PartialEq, Eq, Structural)]
pub struct Instance {
    /// Stable identifier of the type whose callback constructed it.
    pub type_id: i32,
    pub state: InstanceState,
    /// How many times the host has invoked the destruction callback on it.
    pub destructor_runs: u64,
}

/// The destruction callback runs exactly once, when the host releases the
/// instance, and never before.
pub open spec fn instance_wf(ins: Instance) -> bool {
    match ins.state {
        InstanceState::Live => ins.destructor_runs == 0,
        InstanceState::Destroyed => ins.destructor_runs == 1,
    }
}

/// The host's global registration table together with the instances it
/// currently manages.
pub struct Registry {
    pub modules: Vec<ModuleBinding>,
    pub types: Vec<TypeDescriptor>,
    pub files: Vec<FileBinding>,
    pub instances: Vec<Instance>,
}

impl Registry {
    pub open spec fn wf(self) -> bool {
        &&& forall|i: int| 0 <= i < self.types@.len() ==> (#[trigger] self.types@[i]).wf()
        &&& forall|i: int|
            0 <= i < self.instances@.len() ==> instance_wf(#[trigger] self.instances@[i])
    }

    /// An empty table: the state of the host before any registration.
    pub fn new() -> (r: Registry)
        ensures
            r.wf(),
            r.modules@.len() == 0,
            r.types@.len() == 0,
            r.files@.len() == 0,
            r.instances@.len() == 0,
    {
        Registry { modules: Vec::new(), types: Vec::new(), files: Vec::new(), instances: Vec::new() }
    }

    /// Installs a versioned namespace.  Registration is append-only; the
    /// host alone is responsible for de-duplicating repeated namespaces.
    pub(crate) fn register_module(&mut self, binding: ModuleBinding)
        requires
            old(self).wf(),
        ensures
            final(self).wf(),
            final(self).modules@ == old(self).modules@.push(binding),
            final(self).types@ == old(self).types@,
            final(self).files@ == old(self).files@,
            final(self).instances@ == old(self).instances@,
    {
        self.modules.push(binding);
    }

    /// Installs a type descriptor into the global type table.
    pub(crate) fn register_type(&mut self, desc: TypeDescriptor)
        requires
            old(self).wf(),
            desc.wf(),
        ensures
            final(self).wf(),
            final(self).types@ == old(self).types@.push(desc),
            final(self).modules@ == old(self).modules@,
            final(self).files@ == old(self).files@,
            final(self).instances@ == old(self).instances@,
    {
        self.types.push(desc);
    }

    /// Installs a markup-resource component binding.
    pub(crate) fn register_file(&mut self, binding: FileBinding)
        requires
            old(self).wf(),
        ensures
            final(self).wf(),
            final(self).files@ == old(self).files@.push(binding),
            final(self).modules@ == old(self).modules@,
            final(self).types@ == old(self).types@,
            final(self).instances@ == old(self).instances@,
    {
        self.files.push(binding);
    }
}

/// One invocation of the construction callback of the type at
/// `type_index`, ending in a new host-adopted instance `id`.
pub open spec fn construct_step(pre: Registry, post: Registry, type_index: int, id: int) -> bool {
    &&& 0 <= type_index < pre.types@.len()
    &&& pre.types@[type_index].creator is Some
    &&& id == pre.instances@.len()
    &&& post.instances@ == pre.instances@.push(
        Instance {
            type_id: pre.types@[type_index].creator.unwrap().type_id,
            state: InstanceState::Live,
            destructor_runs: 0,
        },
    )
    &&& post.modules@ == pre.modules@
    &&& post.types@ == pre.types@
    &&& post.files@ == pre.files@
}

/// One release of instance `id` by the host: its destruction callback runs
/// and the instance reaches its terminal state.
pub open spec fn release_step(pre: Registry, post: Registry, id: int) -> bool {
    &&& 0 <= id < pre.instances@.len()
    &&& pre.instances@[id].state is Live
    &&& post.instances@ == pre.instances@.update(
        id,
        Instance {
            type_id: pre.instances@[id].type_id,
            state: InstanceState::Destroyed,
            destructor_runs: (pre.instances@[id].destructor_runs + 1) as u64,
        },
    )
    &&& post.modules@ == pre.modules@
    &&& post.types@ == pre.types@
    &&& post.files@ == pre.files@
}

impl Registry {
    /// The host invokes the construction callback of the type at
    /// `type_index` to populate a new instance.  `ctor_ok` reports whether
    /// the native default constructor completed; a native construction
    /// failure never crosses the boundary as an unwind, the host merely
    /// receives no instance.
    pub fn create_instance(&mut self, type_index: usize, ctor_ok: bool) -> (r: Option<usize>)
        requires
            old(self).wf(),
            type_index < old(self).types@.len(),
            old(self).types@[type_index as int].creator is Some,
        ensures
            final(self).wf(),
            ctor_ok ==> (r matches Some(id) && id == old(self).instances@.len()
                && construct_step(*old(self), *final(self), type_index as int, id as int)),
            !ctor_ok ==> (r is None && *final(self) == *old(self)),
    {
        if !ctor_ok {
            return None;
        }
        let creator = self.types[type_index].creator;
        match creator {
            Some(c) => {
                let id = self.instances.len();
                self.instances.push(
                    Instance { type_id: c.type_id, state: InstanceState::Live, destructor_runs: 0 },
                );
                Some(id)
            },
            None => None,
        }
    }

    /// The host releases a live instance: the destruction callback
    /// recorded at registration runs exactly once and the instance is
    /// torn down.
    pub fn release_instance(&mut self, id: usize)
        requires
            old(self).wf(),
            id < old(self).instances@.len(),
            old(self).instances@[id as int].state is Live,
        ensures
            final(self).wf(),
            release_step(*old(self), *final(self), id as int),
    {
        let ins = self.instances[id];
        self.instances[id] = Instance {
            type_id: ins.type_id,
            state: InstanceState::Destroyed,
            destructor_runs: ins.destructor_runs + 1,
        };
    }
}

/// Law: a construction/destruction pairing.  Invoking the construction
/// callback once yields exactly one later invocation of the destruction
/// callback when the host releases the instance; after that the instance
/// is terminal and can never be released again.
pub proof fn lemma_construct_release_pairing(
    r0: Registry,
    r1: Registry,
    r2: Registry,
    type_index: int,
    id: int,
)
    requires
        r0.wf(),
        construct_step(r0, r1, type_index, id),
        release_step(r1, r2, id),
    ensures
        r2.instances@[id].destructor_runs == 1,
        r2.instances@[id].state is Destroyed,
        forall|r3: Registry| !release_step(r2, r3, id),
{
    assert(r1.instances@[id].destructor_runs == 0);
    assert forall|r3: Registry| !release_step(r2, r3, id) by {
        assert(r2.instances@[id].state is Destroyed);
    }
}

} // verus!
