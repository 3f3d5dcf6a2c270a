use command_router::gpu::{GpuInfo, GpuManager, PerformanceMetrics};

#[test]
fn new_manager_has_no_selection() {
    let manager = GpuManager::new();
    assert_eq!(manager.selected_device_index(), None);
}

#[test]
fn select_device_records_index() {
    let mut manager = GpuManager::new();
    manager.select_gpu_device(1);
    assert_eq!(manager.selected_device_index(), Some(1));
}

#[test]
fn select_device_last_write_wins() {
    let mut manager = GpuManager::new();
    manager.select_gpu_device(1);
    manager.select_gpu_device(0);
    assert_eq!(manager.selected_device_index(), Some(0));
    manager.select_gpu_device(7);
    assert_eq!(manager.selected_device_index(), Some(7));
}

#[test]
fn select_device_needs_no_bounds_check() {
    let mut manager = GpuManager::new();
    manager.select_gpu_device(u64::MAX);
    assert_eq!(manager.selected_device_index(), Some(u64::MAX));
}

#[test]
fn list_devices_exact_enumeration() {
    let manager = GpuManager::new();
    let devices = manager.get_gpu_info();
    assert_eq!(
        devices,
        vec![
            GpuInfo {
                name: "NVIDIA GeForce RTX 3080".to_string(),
                vendor: "NVIDIA".to_string(),
                device_id: 1234,
                adapter_index: 0,
            },
            GpuInfo {
                name: "AMD Radeon RX 6800 XT".to_string(),
                vendor: "AMD".to_string(),
                device_id: 5678,
                adapter_index: 1,
            },
        ]
    );
}

#[test]
fn list_devices_idempotent_and_side_effect_free() {
    let mut manager = GpuManager::new();
    manager.select_gpu_device(1);
    let first = manager.get_gpu_info();
    let second = manager.get_gpu_info();
    let third = manager.get_gpu_info();
    assert_eq!(first, second);
    assert_eq!(second, third);
    assert_eq!(manager.selected_device_index(), Some(1));
}

#[test]
fn performance_metrics_exact_sample() {
    let manager = GpuManager::new();
    let metrics = manager.get_performance_metrics();
    assert_eq!(
        metrics,
        PerformanceMetrics { gpu_utilization_permille: 750, memory_usage_mb: 8192 }
    );
    assert!(metrics.gpu_utilization_permille <= 1000);
}

#[test]
fn performance_metrics_work_without_selection() {
    let manager = GpuManager::new();
    assert_eq!(manager.selected_device_index(), None);
    let metrics = manager.get_performance_metrics();
    assert_eq!(metrics.memory_usage_mb, 8192);
}
