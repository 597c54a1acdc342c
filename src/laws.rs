use vstd::prelude::*;
use crate::preset::PresetView;
use crate::preset::HeaderView;
use crate::registry::{loaded, saved, saved_all, RegistryView};
use crate::relay::{effective_headers, effective_url, query_of};

verus! {

/// Loading the key of a preset just saved gives back that preset, equal in
/// every field.
pub proof fn lemma_round_trip(m: RegistryView, p: PresetView)
    ensures
        loaded(saved(m, p), p.key) == Some(p),
{
}

/// Of two presets saved under one key only the second can be loaded, and the
/// first leaves no trace.
pub proof fn lemma_overwrite(m: RegistryView, p1: PresetView, p2: PresetView)
    requires
        p1.key == p2.key,
    ensures
        loaded(saved(saved(m, p1), p2), p1.key) == Some(p2),
        saved(saved(m, p1), p2) == saved(m, p2),
{
    assert(saved(saved(m, p1), p2) =~= saved(m, p2));
}

/// Saving a preset leaves what every other key loads unchanged.
pub proof fn lemma_save_keeps_others(m: RegistryView, p: PresetView, key: Seq<char>)
    requires
        key != p.key,
    ensures
        loaded(saved(m, p), key) == loaded(m, key),
{
}

/// Starting from an empty registry, a key under which nothing was ever saved
/// loads as absent.
pub proof fn lemma_absence(ps: Seq<PresetView>, key: Seq<char>)
    requires
        forall|i: int| 0 <= i < ps.len() ==> #[trigger] ps[i].key != key,
    ensures
        loaded(saved_all(Map::empty(), ps), key) is None,
    decreases ps.len(),
{
    if ps.len() > 0 {
        let rest = ps.drop_last();
        assert forall|i: int| 0 <= i < rest.len() implies #[trigger] rest[i].key != key by {
            assert(rest[i] == ps[i]);
        }
        lemma_absence(rest, key);
        assert(ps.last() == ps[ps.len() - 1]);
    }
}

/// Saves under distinct keys do not interfere: in whatever order they were
/// made, each key loads exactly the preset saved under it.
pub proof fn lemma_distinct_saves(m: RegistryView, ps: Seq<PresetView>)
    requires
        forall|i: int, j: int| 0 <= i < j < ps.len() ==> #[trigger] ps[i].key != #[trigger] ps[j].key,
    ensures
        forall|i: int| 0 <= i < ps.len() ==> loaded(saved_all(m, ps), #[trigger] ps[i].key) == Some(ps[i]),
    decreases ps.len(),
{
    if ps.len() > 0 {
        let rest = ps.drop_last();
        let n = ps.len() - 1;
        assert forall|i: int, j: int| 0 <= i < j < rest.len() implies #[trigger] rest[i].key
            != #[trigger] rest[j].key by {
            assert(rest[i] == ps[i] && rest[j] == ps[j]);
        }
        lemma_distinct_saves(m, rest);
        assert forall|i: int| 0 <= i < ps.len() implies loaded(saved_all(m, ps), #[trigger] ps[i].key)
            == Some(ps[i]) by {
            if i < n {
                assert(rest[i] == ps[i]);
                assert(ps[i].key != ps[n].key);
                lemma_save_keeps_others(saved_all(m, rest), ps.last(), ps[i].key);
            }
        }
    }
}

/// A relayed call whose query string names no preset goes to its own target
/// and carries no headers of a preset.
pub proof fn lemma_pass_through(m: RegistryView, target: Seq<char>)
    requires
        !m.contains_key(query_of(target)),
    ensures
        effective_url(loaded(m, query_of(target)), target) == target,
        effective_headers(loaded(m, query_of(target))) == Seq::<HeaderView>::empty(),
{
}

/// A relayed call whose query string names a preset goes to the preset's URL
/// with the preset's headers, whatever its target says otherwise.
pub proof fn lemma_preset_directed(m: RegistryView, target: Seq<char>)
    requires
        m.contains_key(query_of(target)),
    ensures
        effective_url(loaded(m, query_of(target)), target) == m[query_of(target)].url,
        effective_headers(loaded(m, query_of(target))) == m[query_of(target)].headers,
{
}

} // verus!
