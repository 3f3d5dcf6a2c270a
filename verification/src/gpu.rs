//! GPU subsystem manager: device enumeration, device selection, and
//! performance-metric sampling.

use vstd::prelude::*;

verus! {

/// Immutable snapshot of one discoverable GPU device. Produced by
/// enumeration, never mutated; a device has no identity beyond its
/// `adapter_index` within one enumeration call.
#[derive(Debug, Clone, PartialEq, Eq)]
pub struct GpuInfo {
    pub name: String,
    pub vendor: String,
    pub device_id: u32,
    pub adapter_index: u64,
}

/// Mathematical model of a `GpuInfo`: the same fields with strings as
/// character sequences.
#[verifier::ext_equal]
pub struct GpuInfoView {
    pub name: Seq<char>,
    pub vendor: Seq<char>,
    pub device_id: u32,
    pub adapter_index: u64,
}

impl View for GpuInfo {
    type V = GpuInfoView;

    open spec fn view(&self) -> GpuInfoView {
        GpuInfoView {
            name: self.name@,
            vendor: self.vendor@,
            device_id: self.device_id,
            adapter_index: self.adapter_index,
        }
    }
}

/// The models of a sequence of devices.
pub open spec fn views_of_devices(s: Seq<GpuInfo>) -> Seq<GpuInfoView> {
    s.map_values(|g: GpuInfo| g@)
}

/// The device list this backend reports: a fixed placeholder enumeration,
/// independent of any manager state.
pub open spec fn spec_device_list() -> Seq<GpuInfoView> {
    seq![
        GpuInfoView {
            name: "NVIDIA GeForce RTX 3080"@,
            vendor: "NVIDIA"@,
            device_id: 1234,
            adapter_index: 0,
        },
        GpuInfoView {
            name: "AMD Radeon RX 6800 XT"@,
            vendor: "AMD"@,
            device_id: 5678,
            adapter_index: 1,
        },
    ]
}

/// A point-in-time performance sample, regenerated on every query.
/// Utilization is a fraction of the whole, carried in thousandths so the
/// model stays in integers.
#[derive(Debug, Clone, Copy, PartialEq, Eq)]
pub struct PerformanceMetrics {
    /// GPU utilization in thousandths: `0` is idle, `1000` is fully busy.
    pub gpu_utilization_permille: u32,
    pub memory_usage_mb: u64,
}

impl PerformanceMetrics {
    /// A utilization is a fraction: it never exceeds the whole.
    pub open spec fn wf(self) -> bool {
        self.gpu_utilization_permille <= 1000
    }
}

/// The sample this backend's placeholder probe reports: 75% utilization,
/// 8192 MiB in use.
pub open spec fn spec_metrics_sample() -> PerformanceMetrics {
    PerformanceMetrics { gpu_utilization_permille: 750, memory_usage_mb: 8192 }
}

/// Owns the selected-device state. Queries take `&self` and cannot disturb
/// it; selection takes `&mut self` and is the only mutation.
pub struct GpuManager {
    selected_device_index: Option<u64>,
}

impl View for GpuManager {
    type V = Option<u64>;

    /// The model of a GPU manager is just its selection: `None` until a
    /// device is selected, then `Some` of the last selected index.
    closed spec fn view(&self) -> Option<u64> {
        self.selected_device_index
    }
}

/// What selecting a device does to the manager model: the new index
/// replaces whatever was selected before.
pub open spec fn spec_select(pre: Option<u64>, adapter_index: u64) -> Option<u64> {
    Some(adapter_index)
}

impl GpuManager {
    /// Constructs a manager with no device selected. The placeholder
    /// enumeration backend cannot fail.
    pub fn new() -> (s: GpuManager)
        ensures
            s@ is None,
    {
        GpuManager { selected_device_index: None }
    }

    /// Returns the ordered list of devices visible to the system. Read-only:
    /// it neither reads nor changes the selection, and the list is the same
    /// on every call.
    pub fn get_gpu_info(&self) -> (r: Vec<GpuInfo>)
        ensures
            views_of_devices(r@) == spec_device_list(),
    {
        let mut devices: Vec<GpuInfo> = Vec::new();
        devices.push(GpuInfo {
            name: "NVIDIA GeForce RTX 3080".to_owned(),
            vendor: "NVIDIA".to_owned(),
            device_id: 1234,
            adapter_index: 0,
        });
        devices.push(GpuInfo {
            name: "AMD Radeon RX 6800 XT".to_owned(),
            vendor: "AMD".to_owned(),
            device_id: 5678,
            adapter_index: 1,
        });
        proof {
            assert(views_of_devices(devices@) =~~= spec_device_list());
        }
        devices
    }

    /// Records `adapter_index` as selected, unconditionally: there is no
    /// bounds check against the enumeration, and any earlier selection is
    /// overwritten.
    pub fn select_gpu_device(&mut self, adapter_index: u64)
        ensures
            final(self)@ == spec_select(old(self)@, adapter_index),
    {
        self.selected_device_index = Some(adapter_index);
    }

    /// Returns a fresh performance sample. Read-only with respect to the
    /// manager; the placeholder probe reports the same sample whatever is
    /// selected, including when nothing is.
    pub fn get_performance_metrics(&self) -> (r: PerformanceMetrics)
        ensures
            r == spec_metrics_sample(),
            r.wf(),
    {
        PerformanceMetrics { gpu_utilization_permille: 750, memory_usage_mb: 8192 }
    }

    /// The currently selected adapter index, if any.
    pub fn selected_device_index(&self) -> (r: Option<u64>)
        ensures
            r == self@,
    {
        self.selected_device_index
    }
}

/// Selection keeps no history: selecting `j` after selecting `i` leaves the
/// manager exactly as selecting `j` alone would. Last write wins.
pub proof fn lemma_select_last_write_wins(pre: Option<u64>, i: u64, j: u64)
    ensures
        spec_select(spec_select(pre, i), j) == spec_select(pre, j),
{
}

/// Device enumeration is stateless: any two manager states, whatever their
/// selections, list exactly the same devices, so repeated queries with no
/// intervening mutation all return one identical list.
pub proof fn lemma_list_devices_identical(results: Seq<Seq<GpuInfoView>>)
    requires
        forall|k: int| 0 <= k < results.len() ==> results[k] == spec_device_list(),
    ensures
        forall|k1: int, k2: int|
            0 <= k1 < results.len() && 0 <= k2 < results.len() ==> results[k1] == results[k2],
{
}

} // verus!
