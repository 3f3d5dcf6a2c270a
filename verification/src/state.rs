//! The shared application state: one GPU manager and one plugin manager,
//! each behind its own reader/writer lock, so many readers or one writer
//! run per manager, and the two managers never block each other.

use vstd::prelude::*;
use vstd::rwlock::RwLock;
use crate::gpu::{GpuManager, spec_device_list, spec_metrics_sample, views_of_devices};
use crate::params::Params;
use crate::plugins::{PluginManager, spec_plugin_catalog, views_of_plugins};
use crate::router::{Command, parse_command, spec_parse_command};
use crate::text::concat_str;

verus! {

/// Aggregates the two managers for the lifetime of the process: created
/// once at startup and shared by reference across every transport. Each
/// manager has its own lock; a GPU write never blocks a plugin read and
/// vice versa.
pub struct AppState {
    pub gpu_manager: RwLock<GpuManager, spec_fn(GpuManager) -> bool>,
    pub plugin_manager: RwLock<PluginManager, spec_fn(PluginManager) -> bool>,
}

impl AppState {
    /// Both locks accept every manager value: the managers carry no
    /// internal invariant, so any handler may store back what it built.
    pub open spec fn wf(self) -> bool {
        (forall|g: GpuManager| self.gpu_manager.inv(g)) && (forall|p: PluginManager|
            self.plugin_manager.inv(p))
    }

    /// Constructs the state: a GPU manager with nothing selected, then a
    /// plugin manager with nothing loaded, each behind a fresh lock.
    pub fn new() -> (s: AppState)
        ensures
            s.wf(),
    {
        let gpu_manager = RwLock::new(GpuManager::new(), Ghost(|g: GpuManager| true));
        let plugin_manager = RwLock::new(PluginManager::new(), Ghost(|p: PluginManager| true));
        AppState { gpu_manager, plugin_manager }
    }

    /// Dispatches one command against the shared state, taking only the
    /// lock the table assigns it: a read lock for queries, the writer lock
    /// for mutations, and no lock at all for an unknown command.
    ///
    /// Queries and the unknown-command error are pinned exactly here; what
    /// a mutation does to the manager behind the lock is stated on the
    /// manager operation itself, which runs while the writer lock is held.
    pub fn handle_command(&self, command: &str, params: &Params) -> (r: crate::router::Response)
        requires
            self.wf(),
        ensures
            spec_parse_command(command@) is GetGpuInfo ==> {
                &&& r matches crate::router::Response::Gpus { gpus }
                &&& views_of_devices(gpus@) == spec_device_list()
            },
            spec_parse_command(command@) is SelectGpuDevice ==> r is Success,
            spec_parse_command(command@) is GetAvailablePlugins ==> {
                &&& r matches crate::router::Response::Plugins { plugins }
                &&& views_of_plugins(plugins@) == spec_plugin_catalog()
            },
            spec_parse_command(command@) is LoadPlugin ==> r is Success,
            spec_parse_command(command@) is GetPerformanceMetrics ==> {
                &&& r matches crate::router::Response::Metrics { metrics }
                &&& metrics == spec_metrics_sample()
            },
            spec_parse_command(command@) is Unknown ==> {
                &&& r matches crate::router::Response::Error { message }
                &&& message@ == "Unknown command: "@ + command@
            },
    {
        match parse_command(command) {
            Command::GetGpuInfo => {
                let read_handle = self.gpu_manager.acquire_read();
                let gpus = read_handle.borrow().get_gpu_info();
                read_handle.release_read();
                crate::router::Response::Gpus { gpus }
            },
            Command::SelectGpuDevice => {
                let adapter_index = params.get_u64_or("adapter_index", 0);
                let (mut gpu, write_handle) = self.gpu_manager.acquire_write();
                gpu.select_gpu_device(adapter_index);
                write_handle.release_write(gpu);
                crate::router::Response::Success
            },
            Command::GetAvailablePlugins => {
                let read_handle = self.plugin_manager.acquire_read();
                let plugins = read_handle.borrow().get_available_plugins();
                read_handle.release_read();
                crate::router::Response::Plugins { plugins }
            },
            Command::LoadPlugin => {
                let plugin_name = params.get_str_or("plugin_name", "");
                let (mut plugins, write_handle) = self.plugin_manager.acquire_write();
                plugins.load_plugin(plugin_name.as_str());
                write_handle.release_write(plugins);
                crate::router::Response::Success
            },
            Command::GetPerformanceMetrics => {
                let read_handle = self.gpu_manager.acquire_read();
                let metrics = read_handle.borrow().get_performance_metrics();
                read_handle.release_read();
                crate::router::Response::Metrics { metrics }
            },
            Command::Unknown => crate::router::Response::Error {
                message: concat_str("Unknown command: ", command),
            },
        }
    }

    /// A snapshot of the loaded plugin names: the list as it stood at the
    /// instant the read lock was granted. Concurrent writers may run
    /// before or after, never during, the copy.
    pub fn loaded_plugins_snapshot(&self) -> Vec<String> {
        let read_handle = self.plugin_manager.acquire_read();
        let names = read_handle.borrow().loaded_plugins().clone();
        read_handle.release_read();
        names
    }

    /// A snapshot of the selected adapter index, as it stood at the
    /// instant the read lock was granted.
    pub fn selected_device_snapshot(&self) -> Option<u64> {
        let read_handle = self.gpu_manager.acquire_read();
        let selected = read_handle.borrow().selected_device_index();
        read_handle.release_read();
        selected
    }
}

} // verus!
