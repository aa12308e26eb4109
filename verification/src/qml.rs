//! The module registry: versioned namespaces and their registration
//! operations.
//!
//! A [`Module`] stands for one namespace (URI plus semantic version) that
//! has been registered with the host by the time its constructor returns.
//! Its operations install creatable types, markup-file components and
//! introspection-only types into the host's table, deriving an element
//! name whenever the caller supplies none.

use vstd::prelude::*;

use crate::name;
use crate::registry::Creator;
use crate::registry::FileBinding;
use crate::registry::ModuleBinding;
use crate::registry::Registry;
use crate::registry::TypeDescriptor;
use crate::registry::TypeMetadata;
use crate::version::Version;

verus! {

/// A namespace URI: an ASCII byte string with no embedded null byte.
pub open spec fn valid_uri(s: Seq<u8>) -> bool {
    forall|i: int| 0 <= i < s.len() ==> 0 < #[trigger] s[i] < 128
}

/// Decides at run time whether a byte string is a valid namespace URI,
/// for callers outside the proof boundary that must establish it before
/// constructing a [`Module`].
pub fn is_valid_uri(s: &[u8]) -> (r: bool)
    ensures
        r == valid_uri(s@),
{
    let mut i: usize = 0;
    while i < s.len()
        invariant
            0 <= i <= s@.len(),
            forall|k: int| 0 <= k < i ==> 0 < #[trigger] s@[k] < 128,
        decreases s@.len() - i,
    {
        if s[i] == 0 || s[i] >= 128 {
            return false;
        }
        i = i + 1;
    }
    true
}

/// The refusal reason recorded for every introspection-only type:
/// `access to enums & flags only`.
pub open spec fn spec_uncreatable_reason() -> Seq<u8> {
    seq![
        97u8, 99, 99, 101, 115, 115, 32, 116, 111, 32, 101, 110, 117, 109, 115, 32, 38, 32, 102,
        108, 97, 103, 115, 32, 111, 110, 108, 121,
    ]
}

/// Builds the fixed refusal reason, the byte string
/// `access to enums & flags only`.
fn uncreatable_reason() -> (r: Vec<u8>)
    ensures
        r@ == spec_uncreatable_reason(),
{
    let mut r: Vec<u8> = Vec::new();
    r.push(97);
    r.push(99);
    r.push(99);
    r.push(101);
    r.push(115);
    r.push(115);
    r.push(32);
    r.push(116);
    r.push(111);
    r.push(32);
    r.push(101);
    r.push(110);
    r.push(117);
    r.push(109);
    r.push(115);
    r.push(32);
    r.push(38);
    r.push(32);
    r.push(102);
    r.push(108);
    r.push(97);
    r.push(103);
    r.push(115);
    r.push(32);
    r.push(111);
    r.push(110);
    r.push(108);
    r.push(121);
    proof {
        assert(r@ =~= spec_uncreatable_reason());
    }
    r
}

/// Copies a byte string, so that one owned value can be recorded in a
/// descriptor while the module keeps its own.
fn copy_bytes(v: &Vec<u8>) -> (r: Vec<u8>)
    ensures
        r@ == v@,
{
    let mut r: Vec<u8> = Vec::new();
    let mut i: usize = 0;
    while i < v.len()
        invariant
            0 <= i <= v@.len(),
            r@ =~= v@.subrange(0, i as int),
        decreases v@.len() - i,
    {
        r.push(v[i]);
        i = i + 1;
    }
    proof {
        assert(r@ =~= v@);
    }
    r
}

/// The element name a registration resolves to: the explicit name when one
/// is supplied, otherwise the name derived from the fallback identifier.
pub open spec fn resolved_name(explicit: Option<Vec<u8>>, derived: Seq<u8>) -> Seq<u8> {
    match explicit {
        Some(n) => n@,
        None => derived,
    }
}

/// One versioned namespace registered with the host.  A `Module` value
/// always corresponds to a namespace that the host already knows: the
/// constructor registers it before returning.
pub struct Module {
    pub uri: Vec<u8>,
    pub version: Version,
}

/// The namespace registration a `Module` constructor performs: the
/// (uri, major, minor) binding is appended to the host's namespace table
/// and nothing else changes.
pub open spec fn module_registered(
    pre: Registry,
    post: Registry,
    uri: Seq<u8>,
    version: Version,
) -> bool {
    &&& post.modules@.len() == pre.modules@.len() + 1
    &&& forall|i: int| 0 <= i < pre.modules@.len() ==> post.modules@[i] == #[trigger] pre.modules@[i]
    &&& post.modules@.last().uri@ == uri
    &&& post.modules@.last().version_major == version.major
    &&& post.modules@.last().version_minor == version.minor
    &&& post.types@ == pre.types@
    &&& post.files@ == pre.files@
    &&& post.instances@ == pre.instances@
}

/// The descriptor installed for a creatable type: metadata as exported,
/// the module's namespace coordinates, the resolved element name, a
/// construction callback, and no refusal reason.
pub open spec fn creatable_descriptor(
    d: TypeDescriptor,
    m: Module,
    meta: TypeMetadata,
    elem: Seq<u8>,
) -> bool {
    &&& d.structure_version == 0
    &&& d.type_id == meta.type_id
    &&& d.object_size == meta.object_size
    &&& d.creator == Some(Creator { type_id: meta.type_id })
    &&& d.no_creation_reason is None
    &&& d.uri@ == m.uri@
    &&& d.version_major == m.version.major
    &&& d.version_minor == m.version.minor
    &&& d.element_name@ == elem
    &&& d.meta_object == meta.meta_object
    &&& d.parser_status_cast == -1
    &&& d.value_source_cast == -1
    &&& d.value_interceptor_cast == -1
    &&& d.revision == 0
}

/// The descriptor installed for an introspection-only type: as for a
/// creatable one, but with no construction callback and the fixed refusal
/// reason.
pub open spec fn uncreatable_descriptor(
    d: TypeDescriptor,
    m: Module,
    meta: TypeMetadata,
    elem: Seq<u8>,
) -> bool {
    &&& d.structure_version == 0
    &&& d.type_id == meta.type_id
    &&& d.object_size == meta.object_size
    &&& d.creator is None
    &&& d.no_creation_reason matches Some(reason) && reason@ == spec_uncreatable_reason()
    &&& d.uri@ == m.uri@
    &&& d.version_major == m.version.major
    &&& d.version_minor == m.version.minor
    &&& d.element_name@ == elem
    &&& d.meta_object == meta.meta_object
    &&& d.parser_status_cast == -1
    &&& d.value_source_cast == -1
    &&& d.value_interceptor_cast == -1
    &&& d.revision == 0
}

/// A type registration: exactly one descriptor is appended to the host's
/// type table and every other part of the table is untouched.
pub open spec fn type_table_extended(pre: Registry, post: Registry) -> bool {
    &&& post.types@.len() == pre.types@.len() + 1
    &&& forall|i: int| 0 <= i < pre.types@.len() ==> post.types@[i] == #[trigger] pre.types@[i]
    &&& post.modules@ == pre.modules@
    &&& post.files@ == pre.files@
    &&& post.instances@ == pre.instances@
}

/// A file-component registration: exactly one binding is appended to the
/// host's file table and every other part of the table is untouched.
pub open spec fn file_table_extended(pre: Registry, post: Registry) -> bool {
    &&& post.files@.len() == pre.files@.len() + 1
    &&& forall|i: int| 0 <= i < pre.files@.len() ==> post.files@[i] == #[trigger] pre.files@[i]
    &&& post.modules@ == pre.modules@
    &&& post.types@ == pre.types@
    &&& post.instances@ == pre.instances@
}

impl Module {
    pub open spec fn wf(self) -> bool {
        valid_uri(self.uri@)
    }

    /// Registers `uri` + `version` as a namespace with the host and returns
    /// the handle.  By the time this returns, the namespace is in the
    /// host's table: construction and registration are atomic from the
    /// caller's point of view.
    pub fn new(host: &mut Registry, uri: Vec<u8>, version: Version) -> (m: Module)
        requires
            old(host).wf(),
            valid_uri(uri@),
        ensures
            final(host).wf(),
            module_registered(*old(host), *final(host), uri@, version),
            m.uri@ == uri@,
            m.version == version,
            m.wf(),
    {
        let m = Module { uri, version };
        let binding = ModuleBinding {
            uri: copy_bytes(&m.uri),
            version_major: m.version.major,
            version_minor: m.version.minor,
        };
        host.register_module(binding);
        m
    }

    /// Registers `uri` as a namespace with the default version `1.0.0`.
    pub fn new_versionless(host: &mut Registry, uri: Vec<u8>) -> (m: Module)
        requires
            old(host).wf(),
            valid_uri(uri@),
        ensures
            final(host).wf(),
            module_registered(*old(host), *final(host), uri@, (Version { major: 1, minor: 0, patch: 0 })),
            m.uri@ == uri@,
            m.version == (Version { major: 1, minor: 0, patch: 0 }),
            m.wf(),
    {
        Module::new(host, uri, Version::new(1, 0, 0))
    }

    /// Registers a creatable type under this namespace.  The element name
    /// is `explicit_name` when supplied, otherwise the bare type name
    /// derived from the metadata's fully qualified identifier.  The
    /// installed descriptor carries the type's construction callback.
    pub fn component(
        &self,
        host: &mut Registry,
        meta: TypeMetadata,
        explicit_name: Option<Vec<u8>>,
    )
        requires
            old(host).wf(),
            self.wf(),
            explicit_name matches Some(n) ==> name::no_nul(n@),
            explicit_name is None ==> meta.wf(),
        ensures
            final(host).wf(),
            type_table_extended(*old(host), *final(host)),
            creatable_descriptor(
                final(host).types@.last(),
                *self,
                meta,
                resolved_name(explicit_name, name::spec_type_name(meta.full_name@)),
            ),
    {
        let element_name = match explicit_name {
            Some(n) => n,
            None => {
                let n = name::derive_type_name(meta.full_name.as_slice());
                proof {
                    lemma_subrange_no_nul(meta.full_name@, n@);
                }
                n
            },
        };
        let desc = TypeDescriptor {
            structure_version: 0,
            type_id: meta.type_id,
            object_size: meta.object_size,
            creator: Some(Creator { type_id: meta.type_id }),
            no_creation_reason: None,
            uri: copy_bytes(&self.uri),
            version_major: self.version.major,
            version_minor: self.version.minor,
            element_name,
            meta_object: meta.meta_object,
            parser_status_cast: -1,
            value_source_cast: -1,
            value_interceptor_cast: -1,
            revision: 0,
        };
        host.register_type(desc);
    }

    /// Registers a markup-resource-backed component under this namespace:
    /// the host will resolve the element name by loading `url`.  No native
    /// lifecycle adapter is involved.  The element name is `explicit_name`
    /// when supplied, otherwise the base file name of `url`.
    pub fn file(&self, host: &mut Registry, url: Vec<u8>, explicit_name: Option<Vec<u8>>)
        requires
            old(host).wf(),
            self.wf(),
            name::no_nul(url@),
            explicit_name matches Some(n) ==> name::no_nul(n@),
        ensures
            final(host).wf(),
            file_table_extended(*old(host), *final(host)),
            final(host).files@.last().url@ == url@,
            final(host).files@.last().uri@ == self.uri@,
            final(host).files@.last().version_major == self.version.major,
            final(host).files@.last().version_minor == self.version.minor,
            final(host).files@.last().element_name@ == resolved_name(
                explicit_name,
                name::spec_file_name(url@),
            ),
    {
        let element_name = match explicit_name {
            Some(n) => n,
            None => name::derive_file_name(url.as_slice()),
        };
        let binding = FileBinding {
            url,
            uri: copy_bytes(&self.uri),
            version_major: self.version.major,
            version_minor: self.version.minor,
            element_name,
        };
        host.register_file(binding);
    }

    /// Registers a type for introspection only.  The installed descriptor
    /// supplies no construction callback; instead it carries the fixed
    /// refusal reason with which the host must reject any instantiation
    /// attempt.
    pub fn uncreatable(
        &self,
        host: &mut Registry,
        meta: TypeMetadata,
        explicit_name: Option<Vec<u8>>,
    )
        requires
            old(host).wf(),
            self.wf(),
            explicit_name matches Some(n) ==> name::no_nul(n@),
            explicit_name is None ==> meta.wf(),
        ensures
            final(host).wf(),
            type_table_extended(*old(host), *final(host)),
            uncreatable_descriptor(
                final(host).types@.last(),
                *self,
                meta,
                resolved_name(explicit_name, name::spec_type_name(meta.full_name@)),
            ),
    {
        let element_name = match explicit_name {
            Some(n) => n,
            None => {
                let n = name::derive_type_name(meta.full_name.as_slice());
                proof {
                    lemma_subrange_no_nul(meta.full_name@, n@);
                }
                n
            },
        };
        let desc = TypeDescriptor {
            structure_version: 0,
            type_id: meta.type_id,
            object_size: meta.object_size,
            creator: None,
            no_creation_reason: Some(uncreatable_reason()),
            uri: copy_bytes(&self.uri),
            version_major: self.version.major,
            version_minor: self.version.minor,
            element_name,
            meta_object: meta.meta_object,
            parser_status_cast: -1,
            value_source_cast: -1,
            value_interceptor_cast: -1,
            revision: 0,
        };
        host.register_type(desc);
    }
}

/// The bare name derived from a null-free identifier is itself null-free,
/// being a suffix of it.
proof fn lemma_subrange_no_nul(full: Seq<u8>, part: Seq<u8>)
    requires
        name::no_nul(full),
        part == name::spec_type_name(full),
    ensures
        name::no_nul(part),
{
    name::lemma_bare_start_bounds(full, full.len() as int);
}

/// Law: registrations never overwrite one another.  Two type
/// registrations under the same module leave two independent entries in
/// the host's table, each under its own resolved name, with every earlier
/// entry untouched.
pub proof fn lemma_registrations_independent(
    r0: Registry,
    r1: Registry,
    r2: Registry,
    m: Module,
    meta_a: TypeMetadata,
    meta_b: TypeMetadata,
    name_a: Seq<u8>,
    name_b: Seq<u8>,
)
    requires
        type_table_extended(r0, r1),
        creatable_descriptor(r1.types@.last(), m, meta_a, name_a),
        type_table_extended(r1, r2),
        creatable_descriptor(r2.types@.last(), m, meta_b, name_b),
    ensures
        r2.types@.len() == r0.types@.len() + 2,
        r2.types@[r0.types@.len() as int].element_name@ == name_a,
        r2.types@[r0.types@.len() as int + 1].element_name@ == name_b,
        name_a != name_b ==> r2.types@[r0.types@.len() as int] != r2.types@[r0.types@.len() as int + 1],
{
    assert(r2.types@[r0.types@.len() as int] == r1.types@.last());
}

} // verus!
