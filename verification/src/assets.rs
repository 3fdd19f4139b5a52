//! The assets that the client knows of, by id.
use crate::domain::Asset;
use crate::keyed::TextMap;
use vstd::prelude::*;

verus! {

/// The assets of a list keyed by id; a later asset with the same id
/// replaces an earlier one.
pub open spec fn assets_by_id(s: Seq<Asset>) -> Map<Seq<char>, Asset>
    decreases s.len(),
{
    if s.len() == 0 {
        Map::empty()
    } else {
        assets_by_id(s.drop_last()).insert(s.last().id@, s.last())
    }
}

/// The store `m` with the favorite mark of asset `id` flipped, when there is
/// such an asset.
pub open spec fn favorite_toggled(m: Map<Seq<char>, Asset>, id: Seq<char>) -> Map<Seq<char>, Asset> {
    if m.contains_key(id) {
        m.insert(id, Asset { favorite: !m[id].favorite, ..m[id] })
    } else {
        m
    }
}

/// Assets by id.
pub struct AssetStore {
    assets: TextMap<Asset>,
}

impl AssetStore {
    /// Well-formedness of the underlying map.
    pub closed spec fn wf(&self) -> bool {
        self.assets.wf()
    }

    /// The assets, by id.
    pub closed spec fn view(&self) -> Map<Seq<char>, Asset> {
        self.assets@
    }

    /// An empty store.
    pub fn new() -> (r: Self)
        ensures
            r.wf(),
            r@ == Map::<Seq<char>, Asset>::empty(),
    {
        AssetStore { assets: TextMap::new() }
    }

    /// A store holding `assets`, keyed by id; a later asset with the same id
    /// replaces an earlier one.
    pub fn from_assets(assets: Vec<Asset>) -> (r: Self)
        ensures
            r.wf(),
            r@ == assets_by_id(assets@),
    {
        let mut store = AssetStore::new();
        let n = assets.len();
        for i in 0..n
            invariant
                n == assets@.len(),
                store.wf(),
                store@ == assets_by_id(assets@.take(i as int)),
        {
            store.upsert(assets[i].duplicate());
            assert(assets@.take(i as int + 1).drop_last() == assets@.take(i as int));
        }
        assert(assets@.take(n as int) == assets@);
        store
    }

    /// Stores `asset` under its id, replacing any asset with that id.
    pub fn upsert(&mut self, asset: Asset)
        requires
            old(self).wf(),
        ensures
            final(self).wf(),
            final(self)@ == old(self)@.insert(asset.id@, asset),
    {
        let key = asset.id.clone();
        self.assets.insert(key, asset);
    }

    /// Flips the favorite mark of the asset with id `id` and hands it back.
    pub fn toggle_favorite(&mut self, id: &str) -> (r: Option<Asset>)
        requires
            old(self).wf(),
        ensures
            final(self).wf(),
            final(self)@ == favorite_toggled(old(self)@, id@),
            r == (if old(self)@.contains_key(id@) {
                Some(final(self)@[id@])
            } else {
                None
            }),
    {
        match self.assets.position(id) {
            Some(i) => {
                proof {
                    self.assets.lemma_entries();
                }
                let mut asset = self.assets.entry(i).1.duplicate();
                asset.favorite = !asset.favorite;
                let r = asset.duplicate();
                self.assets.set_value_at(i, asset);
                Some(r)
            },
            None => None,
        }
    }

    /// The asset with id `id`.
    pub fn find(&self, id: &str) -> (r: Option<Asset>)
        requires
            self.wf(),
        ensures
            r == (if self@.contains_key(id@) {
                Some(self@[id@])
            } else {
                None::<Asset>
            }),
    {
        match self.assets.get(id) {
            Some(a) => Some(a.duplicate()),
            None => None,
        }
    }

    /// Forgets the asset with id `id`.
    pub fn delete(&mut self, id: &str)
        requires
            old(self).wf(),
        ensures
            final(self).wf(),
            final(self)@ == old(self)@.remove(id@),
    {
        let _ = self.assets.remove(id);
    }

    /// Every asset, each once, in some order.
    pub fn list(&self) -> (r: Vec<Asset>)
        requires
            self.wf(),
        ensures
            r@.len() == self@.dom().len(),
            forall|i: int| 0 <= i < r@.len() ==> self@.values().contains(#[trigger] r@[i]),
            forall|k: Seq<char>|
                #[trigger] self@.contains_key(k) ==> exists|i: int|
                    0 <= i < r@.len() && r@[i] == self@[k],
    {
        proof {
            self.assets.lemma_entries();
        }
        let n = self.assets.len();
        let mut out: Vec<Asset> = Vec::new();
        for i in 0..n
            invariant
                n == self.assets.entry_seq().len(),
                out@.len() == i,
                forall|j: int| 0 <= j < i ==> #[trigger] out@[j] == self.assets.entry_seq()[j].1,
        {
            let e = self.assets.entry(i);
            out.push(e.1.duplicate());
        }
        proof {
            self.assets.lemma_entries();
            assert forall|i: int| 0 <= i < out@.len() implies self@.values().contains(
                #[trigger] out@[i],
            ) by {
                let k = self.assets.entry_seq()[i].0@;
                assert(self@.contains_key(k));
                assert(self@[k] == out@[i]);
            }
            assert forall|k: Seq<char>| #[trigger] self@.contains_key(k) implies exists|i: int|
                0 <= i < out@.len() && out@[i] == self@[k] by {
                let i = choose|i: int|
                    0 <= i < self.assets.entry_seq().len() && #[trigger] self.assets.entry_seq()[i].0@
                        == k;
                assert(out@[i] == self@[k]);
            }
        }
        out
    }
}

impl Default for AssetStore {
    /// An empty store.
    fn default() -> (r: Self)
        ensures
            r.wf(),
            r@ == Map::<Seq<char>, Asset>::empty(),
    {
        AssetStore::new()
    }
}

} // verus!
