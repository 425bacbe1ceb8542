use vstd::prelude::*;

use crate::db::models::DatabaseAccountVerifiedComponent;

verus! {

/// The UUID v5 namespace of the standard account components. It never changes, so that
/// every run gives each component the same id.
pub const COMPONENTS_NAMESPACE: [u8; 16] = [
    0x6bu8, 0xa7u8, 0xb8u8, 0x14u8, 0x9du8, 0xadu8, 0x11u8, 0xd1u8, 0x80u8, 0xb4u8, 0x00u8,
    0xc0u8, 0x4fu8, 0xd4u8, 0x30u8, 0xc8u8,
];

/// The bytes of the name-based (SHA-1, version 5) UUID of `name` in `namespace`.
pub uninterp spec fn uuid_v5(namespace: Seq<u8>, name: Seq<char>) -> Seq<u8>;

/// Calls `uuid::Uuid::new_v5` on the namespace and the UTF-8 bytes of `name`. Trusted: the
/// result is the 16 bytes of the UUID, a function of the two arguments alone, carrying the
/// version number 5 in the high half of byte 6 and the RFC 4122 variant (bits `10`) at the
/// top of byte 8, as the crate's builder sets them. The SHA-1 digest itself is not stated.
#[verifier::external_body]
fn new_uuid_v5(namespace: &[u8; 16], name: &str) -> (id: Vec<u8>)
    ensures
        id@ == uuid_v5(namespace@, name@),
        id@.len() == 16,
        id@[6] / 16 == 5,
        id@[8] / 64 == 2,
{
    uuid::Uuid::new_v5(&uuid::Uuid::from_bytes(*namespace), name.as_bytes()).as_bytes().to_vec()
}

/// What the seeding reads of a standard account component: its interface name and the
/// hex digests of its procedures.
#[derive(Debug, Clone)]
pub struct StandardComponentData {
    pub name: String,
    pub procedure_digests: Vec<String>,
}

/// `row` is the record seeded for `component`: its id derived from the name in the
/// components' namespace, no sources, timestamp zero, not custom.
pub open spec fn is_standard_component_row(
    row: DatabaseAccountVerifiedComponent,
    component: StandardComponentData,
) -> bool {
    &&& row.id@ == uuid_v5(COMPONENTS_NAMESPACE@, component.name@)
    &&& row.name@ == component.name@
    &&& row.procedure_digests@ == component.procedure_digests@
    &&& row.rust is None
    &&& row.masm is None
    &&& row.timestamp == 0
    &&& !row.is_custom
}

/// The record of a standard component under the given id: no sources, timestamp zero, not
/// custom.
pub fn standard_component_row(id: Vec<u8>, component: StandardComponentData) -> (row:
    DatabaseAccountVerifiedComponent)
    ensures
        row.id == id,
        row.name == component.name,
        row.procedure_digests == component.procedure_digests,
        row.rust is None,
        row.masm is None,
        row.timestamp == 0,
        !row.is_custom,
{
    DatabaseAccountVerifiedComponent {
        id,
        name: component.name,
        procedure_digests: component.procedure_digests,
        rust: None,
        masm: None,
        timestamp: 0,
        is_custom: false,
    }
}

/// The records of the standard account components, one per component, in order.
pub fn build_standard_components(components: Vec<StandardComponentData>) -> (rows: Vec<
    DatabaseAccountVerifiedComponent,
>)
    ensures
        rows.len() == components.len(),
        forall|i: int|
            0 <= i < rows.len() ==> is_standard_component_row(
                #[trigger] rows@[i],
                components@[i],
            ),
{
    let ghost all = components@;
    let mut rest = components;
    let mut rows: Vec<DatabaseAccountVerifiedComponent> = Vec::new();
    let n = rest.len();
    let mut i: usize = 0;
    while i < n
        invariant
            n == all.len(),
            i <= n,
            rest@ == all.skip(i as int),
            rows.len() == i,
            forall|k: int| 0 <= k < i ==> is_standard_component_row(#[trigger] rows@[k], all[k]),
        decreases n - i,
    {
        assert(rest@[0] == all[i as int]);
        let StandardComponentData { name, procedure_digests } = rest.remove(0);
        assert(rest@ == all.skip(i + 1));
        let id = new_uuid_v5(&COMPONENTS_NAMESPACE, name.as_str());
        rows.push(standard_component_row(id, StandardComponentData { name, procedure_digests }));
        i = i + 1;
    }
    rows
}

} // verus!
