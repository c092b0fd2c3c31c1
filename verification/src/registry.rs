//! Device Registry: a mapping from virtual-device ids to the information
//! recorded for each backend-enumerated output device.
//!
//! Ids are assigned monotonically, starting at a host-provided low
//! watermark. Entries are created during probing, read during connect and
//! call, and never mutated afterwards.

use vstd::prelude::*;

verus! {

/// One backend-reported output configuration range, as handed in by the
/// probing side. `buffer` is `None` where the backend reports an unknown
/// buffer-size policy for this range.
#[derive(Clone, Copy, Debug)]
pub struct RawConfig {
    pub sample_format: u8,
    pub min_sample_rate: u32,
    pub max_sample_rate: u32,
    /// `Some((min_frames, max_frames))` for a ranged buffer-size report.
    pub buffer: Option<(u32, u32)>,
    pub channels: u16,
}

/// What the registry records for one device: its human-readable name (raw
/// bytes) and the configuration ranges the backend reported for it.
pub struct DeviceInfo {
    pub name: Vec<u8>,
    pub raw_configs: Vec<RawConfig>,
}

/// The Device Registry. The id of the entry at index `i` is `lo + i`, so
/// ids are strictly increasing from the low watermark by construction.
pub struct Registry {
    lo: u64,
    devices: Vec<DeviceInfo>,
}

impl Registry {
    /// The host-provided low watermark ids start at.
    pub closed spec fn spec_lo(&self) -> u64 {
        self.lo
    }

    /// The registered devices, in order of registration.
    pub closed spec fn spec_devices(&self) -> Seq<DeviceInfo> {
        self.devices@
    }

    /// All assigned ids fit in `u64`.
    pub open spec fn well_formed(&self) -> bool {
        self.spec_lo() + self.spec_devices().len() <= u64::MAX
    }

    /// The id under which the entry at index `i` is registered.
    pub open spec fn id_of(&self, i: int) -> int {
        self.spec_lo() + i
    }

    /// Whether `id` names a registered device.
    pub open spec fn contains_id(&self, id: u64) -> bool {
        self.spec_lo() <= id < self.spec_lo() + self.spec_devices().len()
    }

    /// The entry registered under `id`.
    pub open spec fn spec_lookup(&self, id: u64) -> DeviceInfo
        recommends
            self.contains_id(id),
    {
        self.spec_devices()[id - self.spec_lo()]
    }

    /// An empty registry whose ids will start at `lo`.
    pub fn new(lo: u64) -> (r: Registry)
        ensures
            r.spec_lo() == lo,
            r.spec_devices() =~= Seq::<DeviceInfo>::empty(),
            r.well_formed(),
    {
        Registry { lo, devices: Vec::new() }
    }

    /// The low watermark ids are assigned from.
    pub fn lo_watermark(&self) -> (lo: u64)
        ensures
            lo == self.spec_lo(),
    {
        self.lo
    }

    /// How many devices are registered.
    pub fn len(&self) -> (n: usize)
        ensures
            n == self.spec_devices().len(),
    {
        self.devices.len()
    }

    /// Registers one device under the next free id and returns that id.
    pub fn register(&mut self, d: DeviceInfo) -> (id: u64)
        requires
            old(self).spec_lo() + old(self).spec_devices().len() < u64::MAX,
        ensures
            id == old(self).spec_lo() + old(self).spec_devices().len(),
            final(self).spec_lo() == old(self).spec_lo(),
            final(self).spec_devices() == old(self).spec_devices().push(d),
            final(self).well_formed(),
            final(self).contains_id(id),
    {
        let id = self.lo + self.devices.len() as u64;
        self.devices.push(d);
        id
    }

    /// Looks up a registered device; `None` exactly when `id` was never
    /// assigned.
    pub fn lookup(&self, id: u64) -> (r: Option<&DeviceInfo>)
        requires
            self.well_formed(),
        ensures
            match r {
                Some(d) => self.contains_id(id) && *d == self.spec_lookup(id),
                None => !self.contains_id(id),
            },
    {
        if id >= self.lo && id - self.lo < self.devices.len() as u64 {
            Some(&self.devices[(id - self.lo) as usize])
        } else {
            None
        }
    }
}

/// Ids are assigned strictly increasing, starting at the low watermark:
/// the entry at index `i` carries id `lo + i`, so distinct entries carry
/// distinct ids and later entries carry larger ids.
pub proof fn lemma_registry_ids_strictly_increasing(r: &Registry, i: int, j: int)
    requires
        0 <= i < j < r.spec_devices().len(),
    ensures
        r.id_of(i) < r.id_of(j),
        r.id_of(0) == r.spec_lo(),
{
}

} // verus!
