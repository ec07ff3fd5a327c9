//! The store's laws, stated and proved over the model its contracts speak
//! of: the mapping as a `Map<Seq<char>, Seq<char>>`, and the backing file's
//! text through `yaml_of` and `yaml_mapping_of`.

use vstd::prelude::*;

use crate::codec::yaml_mapping_of;

verus! {

/// Round trip: a mapping written to disk is read back unchanged. `write`
/// guarantees of the text it produces for a store holding `m` that the
/// text parses back to `m`; `read` (and `from_text`) guarantee of any
/// store that parsed text `s` that it holds exactly the mapping `s` parses
/// to. Together, a fresh store built from a written text holds the mapping
/// that was written.
pub proof fn lemma_write_read_round_trip(
    m: Map<Seq<char>, Seq<char>>,
    s: Seq<char>,
    m2: Map<Seq<char>, Seq<char>>,
)
    requires
        yaml_mapping_of(s) == Some(m),
        yaml_mapping_of(s) == Some(m2),
    ensures
        m2 == m,
{
}

/// Inserting a value and then looking its key up in the same store yields
/// that value: over the model, an insert makes the key present with
/// exactly the inserted value.
pub proof fn lemma_insert_then_get(m: Map<Seq<char>, Seq<char>>, k: Seq<char>, v: Seq<char>)
    ensures
        m.insert(k, v).contains_key(k),
        m.insert(k, v)[k] == v,
{
}

/// A cleared (or freshly bootstrapped) store answers every lookup with
/// absent: no key is present in the empty mapping. Clearing is idempotent
/// by `clear`'s own contract — it leaves the empty mapping whatever the
/// store held, so a second `clear` leaves it unchanged.
pub proof fn lemma_cleared_lookup_absent(k: Seq<char>)
    ensures
        !Map::<Seq<char>, Seq<char>>::empty().contains_key(k),
{
}

/// Write visibility: after `write_insert(k, v)`, any store independently
/// built from the persisted text — which parses to the writer's mapping,
/// `m.insert(k, v)` — observes `v` under `k`.
pub proof fn lemma_write_visibility(
    m: Map<Seq<char>, Seq<char>>,
    k: Seq<char>,
    v: Seq<char>,
    s: Seq<char>,
    m2: Map<Seq<char>, Seq<char>>,
)
    requires
        yaml_mapping_of(s) == Some(m.insert(k, v)),
        yaml_mapping_of(s) == Some(m2),
    ensures
        m2.contains_key(k),
        m2[k] == v,
{
    assert(m2 == m.insert(k, v));
}

} // verus!
