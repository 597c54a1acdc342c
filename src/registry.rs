use vstd::prelude::*;
use crate::preset::{Preset, PresetView};

verus! {

/// What a registry holds: the preset saved last under each key.
pub type RegistryView = Map<Seq<char>, PresetView>;

/// The registry after saving `p`: the entry under `p.key` is replaced whole.
pub open spec fn saved(m: RegistryView, p: PresetView) -> RegistryView {
    m.insert(p.key, p)
}

/// What looking up `key` finds.
pub open spec fn loaded(m: RegistryView, key: Seq<char>) -> Option<PresetView> {
    if m.contains_key(key) {
        Some(m[key])
    } else {
        None
    }
}

/// The registry after saving each of `ps`, first to last.
pub open spec fn saved_all(m: RegistryView, ps: Seq<PresetView>) -> RegistryView
    decreases ps.len(),
{
    if ps.len() == 0 {
        m
    } else {
        saved(saved_all(m, ps.drop_last()), ps.last())
    }
}

/// The value of an optional preset.
pub open spec fn view_of_option(o: Option<Preset>) -> Option<PresetView> {
    match o {
        Some(p) => Some(p@),
        None => None,
    }
}

/// Why loading a preset failed.
#[derive(Debug, PartialEq, Eq, Structural)]
pub enum LoadError {
    NotFound,
}

/// The status a caller receives for a key with no preset.
pub const NOT_FOUND_STATUS: u16 = 404;

impl LoadError {
    /// The status a caller receives for this error.
    pub fn status(&self) -> (r: u16)
        ensures
            r == NOT_FOUND_STATUS,
    {
        NOT_FOUND_STATUS
    }

    /// The description a caller receives for this error.
    pub fn message(&self) -> (r: String)
        ensures
            r@ == "Preset not found"@,
    {
        "Preset not found".to_owned()
    }
}

/// The store of presets, keyed by text; one entry per key.
pub struct Registry {
    entries: Vec<Preset>,
    model: Ghost<RegistryView>,
}

impl View for Registry {
    type V = RegistryView;

    closed spec fn view(&self) -> RegistryView {
        self.model@
    }
}

impl Registry {
    /// The entries have distinct keys and are exactly what the view holds.
    pub closed spec fn wf(&self) -> bool {
        &&& forall|i: int, j: int|
            0 <= i < j < self.entries@.len() ==> #[trigger] self.entries@[i].key@
                != #[trigger] self.entries@[j].key@
        &&& forall|i: int|
            0 <= i < self.entries@.len() ==> {
                &&& self.model@.contains_key(#[trigger] self.entries@[i].key@)
                &&& self.model@[self.entries@[i].key@] == self.entries@[i]@
            }
        &&& forall|k: Seq<char>|
            #[trigger] self.model@.contains_key(k) ==> exists|i: int|
                0 <= i < self.entries@.len() && #[trigger] self.entries@[i].key@ == k
    }

    /// An empty registry.
    pub fn new() -> (r: Registry)
        ensures
            r.wf(),
            r@ == Map::<Seq<char>, PresetView>::empty(),
    {
        Registry { entries: Vec::new(), model: Ghost(Map::empty()) }
    }

    /// The position of the entry under `key`, if there is one.
    fn find(&self, key: &str) -> (r: Option<usize>)
        requires
            self.wf(),
        ensures
            match r {
                Some(i) => i < self.entries@.len() && self.entries@[i as int].key@ == key@,
                None => !self@.contains_key(key@),
            },
    {
        let k: String = key.to_owned();
        let mut i: usize = 0;
        while i < self.entries.len()
            invariant
                self.wf(),
                k@ == key@,
                i <= self.entries@.len(),
                forall|j: int| 0 <= j < i ==> #[trigger] self.entries@[j].key@ != key@,
            decreases self.entries@.len() - i,
        {
            if self.entries[i].key == k {
                return Some(i);
            }
            i = i + 1;
        }
        None
    }

    /// Inserts `p`, or replaces whole the preset saved under the same key.
    pub fn save(&mut self, p: Preset)
        requires
            old(self).wf(),
        ensures
            final(self).wf(),
            final(self)@ == saved(old(self)@, p@),
    {
        let ghost k = p.key@;
        let ghost pv = p@;
        let ghost before = self.entries@;
        let idx: usize = match self.find(p.key.as_str()) {
            Some(i) => {
                self.entries.set(i, p);
                i
            },
            None => {
                self.entries.push(p);
                self.entries.len() - 1
            },
        };
        self.model = Ghost(self.model@.insert(k, pv));
        assert(self.entries@[idx as int].key@ == k);
        assert forall|i: int| 0 <= i < self.entries@.len() && i != idx implies #[trigger] self.entries@[i]
            == before[i] by {}
        assert(self.wf()) by {
            let n = self.entries@.len();
            assert forall|k2: Seq<char>| #[trigger] self.model@.contains_key(k2) implies exists|
                i: int,
            |
                0 <= i < n && #[trigger] self.entries@[i].key@ == k2 by {
                if k2 != k {
                    let j = choose|j: int|
                        0 <= j < before.len() && #[trigger] before[j].key@ == k2;
                    assert(self.entries@[j] == before[j]);
                    assert(self.entries@[j].key@ == k2);
                } else {
                    assert(self.entries@[idx as int].key@ == k2);
                }
            }
        }
    }

    /// The preset saved under `key`, as a copy of its own.
    pub fn load(&self, key: &str) -> (r: Result<Preset, LoadError>)
        requires
            self.wf(),
        ensures
            match r {
                Ok(p) => loaded(self@, key@) == Some(p@),
                Err(LoadError::NotFound) => loaded(self@, key@) is None,
            },
    {
        match self.lookup_for_relay(key) {
            Some(p) => Ok(p),
            None => Err(LoadError::NotFound),
        }
    }

    /// The preset saved under `key`, as a copy of its own, or `None` where
    /// there is none.
    pub fn lookup_for_relay(&self, key: &str) -> (r: Option<Preset>)
        requires
            self.wf(),
        ensures
            view_of_option(r) == loaded(self@, key@),
    {
        match self.find(key) {
            Some(i) => Some(self.entries[i].copied()),
            None => None,
        }
    }
}

} // verus!
