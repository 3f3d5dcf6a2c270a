//! The command router: resolves a command name to exactly one of a fixed
//! set of operations against the managers, and returns a typed response —
//! never both a result and an error, never neither.

use vstd::prelude::*;
use crate::gpu::{
    GpuInfo, GpuManager, PerformanceMetrics, spec_device_list, spec_metrics_sample, spec_select,
    views_of_devices,
};
use crate::params::{Params, spec_str_or, spec_u64_or};
use crate::plugins::{PluginInfo, PluginManager, spec_load, spec_plugin_catalog, views_of_plugins};
use crate::text::{concat_str, str_eq};

verus! {

/// The closed set of operations the router dispatches to. Every command
/// name resolves to exactly one variant; names outside the table resolve
/// to `Unknown`.
#[derive(Debug, Clone, Copy, PartialEq, Eq, Structural)]
pub enum Command {
    GetGpuInfo,
    SelectGpuDevice,
    GetAvailablePlugins,
    LoadPlugin,
    GetPerformanceMetrics,
    Unknown,
}

/// Which command a name resolves to. Total: every name yields exactly one
/// variant.
pub open spec fn spec_parse_command(name: Seq<char>) -> Command {
    if name == "get_gpu_info"@ {
        Command::GetGpuInfo
    } else if name == "select_gpu_device"@ {
        Command::SelectGpuDevice
    } else if name == "get_available_plugins"@ {
        Command::GetAvailablePlugins
    } else if name == "load_plugin"@ {
        Command::LoadPlugin
    } else if name == "get_performance_metrics"@ {
        Command::GetPerformanceMetrics
    } else {
        Command::Unknown
    }
}

/// Whether a name stands in the dispatch table.
pub open spec fn spec_recognized(name: Seq<char>) -> bool {
    name == "get_gpu_info"@ || name == "select_gpu_device"@ || name == "get_available_plugins"@
        || name == "load_plugin"@ || name == "get_performance_metrics"@
}

/// Resolves a command name against the dispatch table.
pub fn parse_command(name: &str) -> (c: Command)
    ensures
        c == spec_parse_command(name@),
{
    if str_eq(name, "get_gpu_info") {
        Command::GetGpuInfo
    } else if str_eq(name, "select_gpu_device") {
        Command::SelectGpuDevice
    } else if str_eq(name, "get_available_plugins") {
        Command::GetAvailablePlugins
    } else if str_eq(name, "load_plugin") {
        Command::LoadPlugin
    } else if str_eq(name, "get_performance_metrics") {
        Command::GetPerformanceMetrics
    } else {
        Command::Unknown
    }
}

/// The typed response of one dispatch: one of the defined success shapes,
/// or the unknown-command error. The transport serializes it into its own
/// envelope.
#[derive(Debug, Clone, PartialEq, Eq)]
pub enum Response {
    /// Success payload of `get_gpu_info`.
    Gpus { gpus: Vec<GpuInfo> },
    /// Success payload of `select_gpu_device` and `load_plugin`.
    Success,
    /// Success payload of `get_available_plugins`.
    Plugins { plugins: Vec<PluginInfo> },
    /// Success payload of `get_performance_metrics`: the sample itself,
    /// not wrapped.
    Metrics { metrics: PerformanceMetrics },
    /// The unknown-command report, carrying the full message.
    Error { message: String },
}

/// The adapter index the selection command reads: the `adapter_index`
/// parameter, or zero when it is absent or not a non-negative integer.
pub open spec fn spec_adapter_index_of(params: Seq<crate::params::ParamEntryView>) -> u64 {
    spec_u64_or(params, "adapter_index"@, 0)
}

/// The plugin name the load command reads: the `plugin_name` parameter,
/// or the empty string when it is absent or not a string.
pub open spec fn spec_plugin_name_of(params: Seq<crate::params::ParamEntryView>) -> Seq<char> {
    spec_str_or(params, "plugin_name"@, ""@)
}

/// Executes one command against the two managers and returns its response.
///
/// The contract is total over command names: each recognized name yields
/// its success shape and touches only the manager the table assigns it;
/// every other name yields exactly the unknown-command error and touches
/// nothing. Mutation commands succeed unconditionally: selection records
/// the index unchecked, loading appends the name unchecked.
pub fn dispatch(gpu: &mut GpuManager, plugins: &mut PluginManager, command: &str, params: &Params) -> (r:
    Response)
    ensures
        spec_parse_command(command@) is GetGpuInfo ==> {
            &&& r matches Response::Gpus { gpus } && views_of_devices(gpus@) == spec_device_list()
            &&& final(gpu)@ == old(gpu)@
            &&& final(plugins)@ == old(plugins)@
        },
        spec_parse_command(command@) is SelectGpuDevice ==> {
            &&& r is Success
            &&& final(gpu)@ == spec_select(old(gpu)@, spec_adapter_index_of(params@))
            &&& final(plugins)@ == old(plugins)@
        },
        spec_parse_command(command@) is GetAvailablePlugins ==> {
            &&& r matches Response::Plugins { plugins: catalog } && views_of_plugins(catalog@)
                == spec_plugin_catalog()
            &&& final(gpu)@ == old(gpu)@
            &&& final(plugins)@ == old(plugins)@
        },
        spec_parse_command(command@) is LoadPlugin ==> {
            &&& r is Success
            &&& final(plugins)@ == spec_load(old(plugins)@, spec_plugin_name_of(params@))
            &&& final(gpu)@ == old(gpu)@
        },
        spec_parse_command(command@) is GetPerformanceMetrics ==> {
            &&& r matches Response::Metrics { metrics } && metrics == spec_metrics_sample()
            &&& final(gpu)@ == old(gpu)@
            &&& final(plugins)@ == old(plugins)@
        },
        spec_parse_command(command@) is Unknown ==> {
            &&& r matches Response::Error { message } && message@ == "Unknown command: "@
                + command@
            &&& final(gpu)@ == old(gpu)@
            &&& final(plugins)@ == old(plugins)@
        },
{
    match parse_command(command) {
        Command::GetGpuInfo => Response::Gpus { gpus: gpu.get_gpu_info() },
        Command::SelectGpuDevice => {
            let adapter_index = params.get_u64_or("adapter_index", 0);
            gpu.select_gpu_device(adapter_index);
            Response::Success
        },
        Command::GetAvailablePlugins => Response::Plugins {
            plugins: plugins.get_available_plugins(),
        },
        Command::LoadPlugin => {
            let plugin_name = params.get_str_or("plugin_name", "");
            plugins.load_plugin(plugin_name.as_str());
            Response::Success
        },
        Command::GetPerformanceMetrics => Response::Metrics {
            metrics: gpu.get_performance_metrics(),
        },
        Command::Unknown => Response::Error { message: concat_str("Unknown command: ", command) },
    }
}

/// The dispatch table is total and unambiguous: every command name
/// resolves to exactly one `Command`, it is `Unknown` exactly for the
/// names outside the table, and so every request gets exactly one of the
/// defined success shapes or the unknown-command error — never no
/// response, never two.
pub proof fn lemma_dispatch_total(name: Seq<char>)
    ensures
        spec_parse_command(name) is Unknown <==> !spec_recognized(name),
{
}

/// The body of the liveness probe: constant, whatever the application
/// state is.
pub fn health_body() -> (r: &'static str)
    ensures
        r@ == "OK"@,
{
    "OK"
}

} // verus!
