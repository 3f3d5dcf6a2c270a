use command_router::params::{ParamValue, Params};
use command_router::router::Response;
use command_router::state::AppState;

#[test]
fn app_state_starts_empty() {
    let state = AppState::new();
    assert_eq!(state.selected_device_snapshot(), None);
    assert!(state.loaded_plugins_snapshot().is_empty());
}

#[test]
fn handle_get_available_plugins_returns_catalog() {
    let state = AppState::new();
    let response = state.handle_command("get_available_plugins", &Params::new());
    match response {
        Response::Plugins { plugins } => {
            assert_eq!(plugins.len(), 2);
            assert_eq!(plugins[0].name, "ImageProcessor");
            assert_eq!(plugins[1].name, "AudioEnhancer");
        }
        other => panic!("expected the catalog, got {:?}", other),
    }
}

#[test]
fn handle_load_plugin_then_query_shows_it() {
    let state = AppState::new();
    let mut params = Params::new();
    params.push("plugin_name".to_string(), ParamValue::Str("Foo".to_string()));
    let response = state.handle_command("load_plugin", &params);
    assert_eq!(response, Response::Success);
    assert!(state.loaded_plugins_snapshot().contains(&"Foo".to_string()));
    // the catalog is tracked separately and does not change
    match state.handle_command("get_available_plugins", &Params::new()) {
        Response::Plugins { plugins } => assert_eq!(plugins.len(), 2),
        other => panic!("expected the catalog, got {:?}", other),
    }
}

#[test]
fn handle_select_then_metrics_succeeds() {
    let state = AppState::new();
    let mut params = Params::new();
    params.push("adapter_index".to_string(), ParamValue::Uint(1));
    let response = state.handle_command("select_gpu_device", &params);
    assert_eq!(response, Response::Success);
    assert_eq!(state.selected_device_snapshot(), Some(1));
    match state.handle_command("get_performance_metrics", &Params::new()) {
        Response::Metrics { metrics } => {
            assert_eq!(metrics.gpu_utilization_permille, 750);
            assert_eq!(metrics.memory_usage_mb, 8192);
        }
        other => panic!("expected metrics, got {:?}", other),
    }
}

#[test]
fn handle_unknown_command_reports_exact_message() {
    let state = AppState::new();
    let response = state.handle_command("nonexistent", &Params::new());
    match response {
        Response::Error { message } => assert_eq!(message, "Unknown command: nonexistent"),
        other => panic!("expected the unknown-command error, got {:?}", other),
    }
}

#[test]
fn handle_get_gpu_info_returns_devices() {
    let state = AppState::new();
    match state.handle_command("get_gpu_info", &Params::new()) {
        Response::Gpus { gpus } => {
            assert_eq!(gpus.len(), 2);
            assert_eq!(gpus[0].adapter_index, 0);
            assert_eq!(gpus[1].adapter_index, 1);
        }
        other => panic!("expected a device list, got {:?}", other),
    }
}

#[test]
fn managers_are_independent() {
    let state = AppState::new();
    let mut params = Params::new();
    params.push("adapter_index".to_string(), ParamValue::Uint(1));
    state.handle_command("select_gpu_device", &params);
    let mut params = Params::new();
    params.push("plugin_name".to_string(), ParamValue::Str("Foo".to_string()));
    state.handle_command("load_plugin", &params);
    assert_eq!(state.selected_device_snapshot(), Some(1));
    assert_eq!(state.loaded_plugins_snapshot(), vec!["Foo".to_string()]);
}
