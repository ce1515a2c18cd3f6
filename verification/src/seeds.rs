use vstd::bytes::{lemma_auto_spec_u64_to_from_le_bytes, spec_u64_to_le_bytes, u64_to_le_bytes};
use vstd::prelude::*;

verus! {

/// Namespace of the configuration record: the bytes of `registry_config`.
pub const REGISTRY_CONFIG_SEED: [u8; 15] = [
    114, 101, 103, 105, 115, 116, 114, 121, 95, 99, 111, 110, 102, 105, 103,
];

/// Namespace of the adapter records: the bytes of `adapter`.
pub const ADAPTER_SEED: [u8; 7] = [97, 100, 97, 112, 116, 101, 114];

/// The seeds from which the address of the configuration record is derived:
/// its namespace alone, since there is one such record.
pub open spec fn registry_config_seeds() -> Seq<Seq<u8>> {
    seq![REGISTRY_CONFIG_SEED@]
}

/// The seeds from which the address of the adapter `id` is derived: the
/// namespace of adapters, then the id in 8 bytes, lowest byte first.
pub open spec fn adapter_seeds(id: u64) -> Seq<Seq<u8>> {
    seq![ADAPTER_SEED@, spec_u64_to_le_bytes(id)]
}

/// The key of the adapter `id` within the namespace of adapters: the id in 8
/// bytes, lowest byte first.
pub fn adapter_key(id: u64) -> (key: Vec<u8>)
    ensures
        key@ == spec_u64_to_le_bytes(id),
        key@ == adapter_seeds(id)[1],
        key@.len() == 8,
{
    proof {
        lemma_auto_spec_u64_to_from_le_bytes();
    }
    u64_to_le_bytes(id)
}

/// Different adapters are stored under different seeds, and none under those
/// of the configuration record.
pub proof fn law_seeds_tell_records_apart(a: u64, b: u64)
    ensures
        a != b ==> adapter_seeds(a) != adapter_seeds(b),
        a != b ==> spec_u64_to_le_bytes(a) != spec_u64_to_le_bytes(b),
        adapter_seeds(a) != registry_config_seeds(),
{
    lemma_auto_spec_u64_to_from_le_bytes();
    assert(adapter_seeds(a)[1] == spec_u64_to_le_bytes(a));
    assert(adapter_seeds(b)[1] == spec_u64_to_le_bytes(b));
    assert(adapter_seeds(a).len() == 2);
    assert(registry_config_seeds().len() == 1);
}

} // verus!
