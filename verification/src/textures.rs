//! The registry of GPU textures that the UI draws: each texture is known by
//! the integer of its Dear ImGui texture id. The GPU work (creating,
//! uploading, registering with the renderer, destroying) is the
//! application's; this module keeps the records and the size limit.
use std::collections::HashMap;
use vstd::prelude::*;
use vstd::std_specs::iter::IteratorSpec;

verus! {

/// `wgpu::Texture`, carried through opaquely.
#[verifier::external_type_specification]
#[verifier::external_body]
pub struct ExWgpuTexture(wgpu::Texture);

/// `wgpu::Device`, carried through opaquely.
#[verifier::external_type_specification]
#[verifier::external_body]
pub struct ExWgpuDevice(wgpu::Device);

/// `dear_imgui_wgpu::ExternalTextureId`, carried through opaquely.
#[verifier::external_type_specification]
#[verifier::external_body]
pub struct ExExternalTextureId(dear_imgui_wgpu::ExternalTextureId);

/// The `max_texture_dimension_2d` of `wgpu::Device::limits` of a device: the
/// largest width or height of a 2D texture on it. `limits` gives the limits
/// that were required when the device was created, so this is a function of
/// the device.
pub uninterp spec fn device_max_texture_dimension_2d(device: wgpu::Device) -> u32;

/// Reads `max_texture_dimension_2d` of `wgpu::Device::limits`.
#[verifier::external_body]
fn max_texture_dimension_2d(device: &wgpu::Device) -> (max: u32)
    ensures
        max == device_max_texture_dimension_2d(*device),
{
    device.limits().max_texture_dimension_2d
}

/// A map from texture ids to records, with the operations that the texture
/// registry needs.
pub struct TextureRegistry<T> {
    entries: HashMap<u64, T>,
}

impl<T> TextureRegistry<T> {
    /// The records by id.
    pub closed spec fn view(&self) -> Map<u64, T> {
        self.entries@
    }

    /// An empty registry.
    pub fn new() -> (registry: Self)
        ensures
            registry.view() == Map::<u64, T>::empty(),
    {
        TextureRegistry { entries: HashMap::new() }
    }

    /// Records `entry` under `id`, replacing any earlier record of that id.
    pub fn insert(&mut self, id: u64, entry: T)
        ensures
            final(self).view() == old(self).view().insert(id, entry),
    {
        broadcast use vstd::std_specs::hash::group_hash_axioms;

        self.entries.insert(id, entry);
    }

    /// The record of `id`, if there is one.
    pub fn get(&self, id: u64) -> (entry: Option<&T>)
        ensures
            match entry {
                Some(e) => self.view().contains_key(id) && *e == self.view()[id],
                None => !self.view().contains_key(id),
            },
    {
        broadcast use vstd::std_specs::hash::group_hash_axioms;

        self.entries.get(&id)
    }

    /// Takes the record of `id` out of the registry, if there is one.
    pub fn remove(&mut self, id: u64) -> (entry: Option<T>)
        ensures
            final(self).view() == old(self).view().remove(id),
            match entry {
                Some(e) => old(self).view().contains_key(id) && e == old(self).view()[id],
                None => !old(self).view().contains_key(id),
            },
    {
        broadcast use vstd::std_specs::hash::group_hash_axioms;

        self.entries.remove(&id)
    }

    /// The ids of all records, each once, in no particular order.
    pub fn ids(&self) -> (ids: Vec<u64>)
        ensures
            ids@.no_duplicates(),
            ids@.to_set() == self.view().dom(),
    {
        broadcast use vstd::std_specs::hash::group_hash_axioms;

        let ghost keys = vstd::std_specs::hash::spec_keys_iter(&self.entries).remaining();
        let mut ids: Vec<u64> = Vec::new();
        for id in it: self.entries.keys()
            invariant
                it.seq() == keys,
                ids@ == keys.take(it.index()).map_values(|r: &u64| *r),
        {
            ids.push(*id);
        }
        proof {
            assert(ids@.len() == keys.len());
            assert(ids@ =~= keys.unref());
        }
        ids
    }

    /// Takes every record out of the registry, in no particular order.
    pub fn take_all(&mut self) -> (entries: Vec<T>)
        ensures
            final(self).view() == Map::<u64, T>::empty(),
            exists|ids: Seq<u64>|
                {
                    &&& ids.no_duplicates()
                    &&& ids.to_set() == old(self).view().dom()
                    &&& entries@ == ids.map_values(|id: u64| old(self).view()[id])
                },
    {
        broadcast use vstd::std_specs::hash::group_hash_axioms;

        let ids = self.ids();
        let ghost before = self.view();
        let mut entries: Vec<T> = Vec::new();
        for i in 0..ids.len()
            invariant
                ids@.no_duplicates(),
                ids@.to_set() == before.dom(),
                self.view() == before.remove_keys(ids@.take(i as int).to_set()),
                entries@ == ids@.take(i as int).map_values(|id: u64| before[id]),
        {
            let id = ids[i];
            proof {
                assert(ids@.to_set().contains(id));
                assert(!ids@.take(i as int).contains(id)) by {
                    if ids@.take(i as int).contains(id) {
                        let j = choose|j: int| 0 <= j < i && ids@.take(i as int)[j] == id;
                        assert(ids@[j] == ids@[i as int]);
                    }
                }
                assert(self.view().contains_key(id));
            }
            let entry = self.entries.remove(&id);
            match entry {
                Some(entry) => entries.push(entry),
                None => {},
            }
            proof {
                assert(ids@.take(i + 1) == ids@.take(i as int).push(id));
                assert(ids@.take(i + 1) == ids@.take(i as int) + seq![id]);
                Seq::lemma_to_set_insert_commutes(ids@.take(i as int), id);
                assert(self.view() == before.remove_keys(ids@.take(i + 1).to_set()));
            }
        }
        proof {
            assert(ids@.take(ids@.len() as int) == ids@);
            assert(self.view() == Map::<u64, T>::empty());
        }
        entries
    }
}

/// A texture on the GPU, registered with the renderer.
pub struct TextureInfo {
    pub texture: wgpu::Texture,
    pub handle: dear_imgui_wgpu::ExternalTextureId,
    /// Whether the image was scaled down to fit the texture size limit.
    pub is_downscaled: bool,
}

/// The textures that live as long as the application: every registered
/// texture, by the integer of its Dear ImGui texture id, and the largest
/// texture size that the device accepts.
pub struct TexturesPersistent {
    textures_by_id: TextureRegistry<TextureInfo>,
    max_size: u32,
}

impl TexturesPersistent {
    /// The registered textures by id.
    pub closed spec fn view(&self) -> Map<u64, TextureInfo> {
        self.textures_by_id.view()
    }

    /// The largest width or height of a texture.
    pub closed spec fn spec_max_size(&self) -> u32 {
        self.max_size
    }

    /// No textures yet, and the size limit of `device`
    /// (see [`Self::with_max_size`]).
    pub fn new(device: &wgpu::Device) -> (textures: Self)
        ensures
            textures.view() == Map::<u64, TextureInfo>::empty(),
            textures.spec_max_size() == device_max_texture_dimension_2d(*device),
    {
        Self::with_max_size(max_texture_dimension_2d(device))
    }

    /// No textures yet, and `max_size` as the largest width or height of a
    /// texture.
    pub fn with_max_size(max_size: u32) -> (textures: Self)
        ensures
            textures.view() == Map::<u64, TextureInfo>::empty(),
            textures.spec_max_size() == max_size,
    {
        TexturesPersistent { textures_by_id: TextureRegistry::new(), max_size }
    }

    /// The largest width or height of a texture.
    pub fn max_size(&self) -> (max_size: u32)
        ensures
            max_size == self.spec_max_size(),
    {
        self.max_size
    }

    /// Records a texture under `id`.
    pub fn insert_texture(&mut self, id: u64, info: TextureInfo)
        ensures
            final(self).view() == old(self).view().insert(id, info),
            final(self).spec_max_size() == old(self).spec_max_size(),
    {
        self.textures_by_id.insert(id, info);
    }

    /// The texture of `id`, if there is one.
    pub fn get_texture_info(&self, id: u64) -> (info: Option<&TextureInfo>)
        ensures
            match info {
                Some(i) => self.view().contains_key(id) && *i == self.view()[id],
                None => !self.view().contains_key(id),
            },
    {
        self.textures_by_id.get(id)
    }

    /// Takes the texture of `id` out of the registry, if there is one, for
    /// the caller to unregister and destroy.
    pub fn remove_texture(&mut self, id: u64) -> (info: Option<TextureInfo>)
        ensures
            final(self).view() == old(self).view().remove(id),
            final(self).spec_max_size() == old(self).spec_max_size(),
            match info {
                Some(i) => old(self).view().contains_key(id) && i == old(self).view()[id],
                None => !old(self).view().contains_key(id),
            },
    {
        self.textures_by_id.remove(id)
    }

    /// Takes every texture out of the registry, for the caller to unregister
    /// and destroy.
    pub fn take_all_textures(&mut self) -> (infos: Vec<TextureInfo>)
        ensures
            final(self).view() == Map::<u64, TextureInfo>::empty(),
            final(self).spec_max_size() == old(self).spec_max_size(),
            exists|ids: Seq<u64>|
                {
                    &&& ids.no_duplicates()
                    &&& ids.to_set() == old(self).view().dom()
                    &&& infos@ == ids.map_values(|id: u64| old(self).view()[id])
                },
    {
        self.textures_by_id.take_all()
    }
}

/// A record reads back as it was written: after recording `entry` under
/// `id`, the registry holds `entry` under `id`, and every other id keeps its
/// record.
pub proof fn lemma_read_after_insert<T>(records: Map<u64, T>, id: u64, entry: T, other: u64)
    requires
        other != id,
    ensures
        records.insert(id, entry).contains_key(id),
        records.insert(id, entry)[id] == entry,
        records.insert(id, entry).contains_key(other) == records.contains_key(other),
        records.contains_key(other) ==> records.insert(id, entry)[other] == records[other],
{
}

/// After a removal the id has no record, and every other id keeps its
/// record; removing an id that has no record changes nothing.
pub proof fn lemma_read_after_remove<T>(records: Map<u64, T>, id: u64, other: u64)
    requires
        other != id,
    ensures
        !records.remove(id).contains_key(id),
        records.remove(id).contains_key(other) == records.contains_key(other),
        records.contains_key(other) ==> records.remove(id)[other] == records[other],
        !records.contains_key(id) ==> records.remove(id) == records,
{
    if !records.contains_key(id) {
        assert(records.remove(id) =~= records);
    }
}

/// Taking all records hands back one record per id: as many records as the
/// registry held.
pub proof fn lemma_take_all_counts<T>(records: Map<u64, T>, ids: Seq<u64>, entries: Seq<T>)
    requires
        records.dom().finite(),
        ids.no_duplicates(),
        ids.to_set() == records.dom(),
        entries == ids.map_values(|id: u64| records[id]),
    ensures
        entries.len() == records.len(),
        forall|i: int| 0 <= i < entries.len() ==> records.contains_key(ids[i]) && #[trigger] entries[i] == records[ids[i]],
{
    ids.unique_seq_to_set();
    assert forall|i: int| 0 <= i < entries.len() implies records.contains_key(ids[i]) && #[trigger] entries[i] == records[ids[i]] by {
        assert(ids.to_set().contains(ids[i]));
    }
}

/// A call that changes the texture registry: recording an entry under an
/// id, removing the entry of an id, or taking every entry out.
pub enum RegistryOp<T> {
    Insert(u64, T),
    Remove(u64),
    TakeAll,
}

/// The records after one call, as the `ensures` of the registry's
/// `insert`, `remove` and `take_all` state it.
pub open spec fn apply_op<T>(records: Map<u64, T>, op: RegistryOp<T>) -> Map<u64, T> {
    match op {
        RegistryOp::Insert(id, entry) => records.insert(id, entry),
        RegistryOp::Remove(id) => records.remove(id),
        RegistryOp::TakeAll => Map::empty(),
    }
}

/// The records after a sequence of calls, in order.
pub open spec fn apply_ops<T>(records: Map<u64, T>, ops: Seq<RegistryOp<T>>) -> Map<u64, T>
    decreases ops.len(),
{
    if ops.len() == 0 {
        records
    } else {
        apply_op(apply_ops(records, ops.drop_last()), ops.last())
    }
}

/// Whether a call can change the record of `id`.
pub open spec fn touches<T>(op: RegistryOp<T>, id: u64) -> bool {
    match op {
        RegistryOp::Insert(inserted, _) => inserted == id,
        RegistryOp::Remove(removed) => removed == id,
        RegistryOp::TakeAll => true,
    }
}

/// Whether call `i` of `ops` records an entry under `id` and no later call
/// removes it, replaces it or takes everything out.
pub open spec fn is_live_insert<T>(ops: Seq<RegistryOp<T>>, id: u64, i: int) -> bool {
    &&& 0 <= i < ops.len()
    &&& ops[i] matches RegistryOp::Insert(inserted, _) && inserted == id
    &&& forall|j: int| i < j < ops.len() ==> !touches(#[trigger] ops[j], id)
}

/// The registry reads back what was recorded and not yet destroyed: starting
/// empty (as `TexturesPersistent::new` does), after any sequence of calls an
/// id has a record exactly when some call recorded it and no later call
/// removed it or took everything out, and the record is the entry of that
/// call.
pub proof fn lemma_registry_reads_back<T>(ops: Seq<RegistryOp<T>>, id: u64)
    ensures
        apply_ops(Map::<u64, T>::empty(), ops).contains_key(id) <==> exists|i: int|
            is_live_insert(ops, id, i),
        forall|i: int|
            #[trigger] is_live_insert(ops, id, i) ==> (ops[i] matches RegistryOp::Insert(_, entry)
                && apply_ops(Map::<u64, T>::empty(), ops)[id] == entry),
    decreases ops.len(),
{
    if ops.len() > 0 {
        let pre = ops.drop_last();
        let n = ops.len() - 1;
        lemma_registry_reads_back(pre, id);
        assert forall|i: int| 0 <= i < n implies (is_live_insert(ops, id, i) <==> (is_live_insert(
            pre,
            id,
            i,
        ) && !touches(ops[n], id))) by {
            if is_live_insert(ops, id, i) {
                assert forall|j: int| i < j < pre.len() implies !touches(#[trigger] pre[j], id) by {
                    assert(pre[j] == ops[j]);
                }
                assert(!touches(ops[n], id));
            }
            if is_live_insert(pre, id, i) && !touches(ops[n], id) {
                assert forall|j: int| i < j < ops.len() implies !touches(#[trigger] ops[j], id) by {
                    if j < n {
                        assert(pre[j] == ops[j]);
                    }
                }
            }
        }
        if touches(ops[n], id) {
            assert forall|i: int| 0 <= i < n implies !is_live_insert(ops, id, i) by {}
            match ops[n] {
                RegistryOp::Insert(_, entry) => {
                    assert(is_live_insert(ops, id, n));
                },
                _ => {
                    assert(!apply_ops(Map::<u64, T>::empty(), ops).contains_key(id));
                    assert(!exists|i: int| is_live_insert(ops, id, i));
                },
            }
        } else {
            assert(!is_live_insert(ops, id, n));
            assert(apply_ops(Map::<u64, T>::empty(), ops).contains_key(id) == apply_ops(
                Map::<u64, T>::empty(),
                pre,
            ).contains_key(id));
            if exists|i: int| is_live_insert(pre, id, i) {
                let i = choose|i: int| is_live_insert(pre, id, i);
                assert(is_live_insert(ops, id, i));
            }
            if exists|i: int| is_live_insert(ops, id, i) {
                let i = choose|i: int| is_live_insert(ops, id, i);
                assert(is_live_insert(pre, id, i));
            }
            assert forall|i: int| #[trigger] is_live_insert(ops, id, i) implies (ops[i] matches RegistryOp::Insert(
                _,
                entry,
            ) && apply_ops(Map::<u64, T>::empty(), ops)[id] == entry) by {
                assert(is_live_insert(pre, id, i));
                assert(pre[i] == ops[i]);
            }
        }
    }
}

} // verus!
