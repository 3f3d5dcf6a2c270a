use command_router::plugins::{PluginInfo, PluginManager};

fn expected_catalog() -> Vec<PluginInfo> {
    vec![
        PluginInfo {
            name: "ImageProcessor".to_string(),
            version: "1.0.0".to_string(),
            description: "Processes images with various filters.".to_string(),
        },
        PluginInfo {
            name: "AudioEnhancer".to_string(),
            version: "0.9.0".to_string(),
            description: "Enhances audio quality.".to_string(),
        },
    ]
}

#[test]
fn new_manager_has_nothing_loaded() {
    let manager = PluginManager::new();
    assert!(manager.loaded_plugins().is_empty());
}

#[test]
fn catalog_exact_entries() {
    let manager = PluginManager::new();
    assert_eq!(manager.get_available_plugins(), expected_catalog());
}

#[test]
fn load_appends_in_order() {
    let mut manager = PluginManager::new();
    manager.load_plugin("first");
    manager.load_plugin("second");
    manager.load_plugin("third");
    assert_eq!(
        manager.loaded_plugins(),
        &vec!["first".to_string(), "second".to_string(), "third".to_string()]
    );
}

#[test]
fn load_keeps_duplicates() {
    let mut manager = PluginManager::new();
    manager.load_plugin("same");
    manager.load_plugin("same");
    assert_eq!(manager.loaded_plugins().len(), 2);
    assert_eq!(manager.loaded_plugins(), &vec!["same".to_string(), "same".to_string()]);
}

#[test]
fn load_needs_no_catalog_check() {
    let mut manager = PluginManager::new();
    manager.load_plugin("NotInTheCatalog");
    assert_eq!(manager.loaded_plugins(), &vec!["NotInTheCatalog".to_string()]);
}

#[test]
fn interleaved_loads_and_queries_keep_the_list() {
    let mut manager = PluginManager::new();
    let names = ["a", "b", "a", "c", "b"];
    for name in names {
        manager.load_plugin(name);
        // a query between every two loads changes nothing
        assert_eq!(manager.get_available_plugins(), expected_catalog());
    }
    let loaded: Vec<String> = names.iter().map(|n| n.to_string()).collect();
    assert_eq!(manager.loaded_plugins(), &loaded);
    assert_eq!(manager.loaded_plugins().len(), names.len());
}

#[test]
fn loaded_list_is_separate_from_catalog() {
    let mut manager = PluginManager::new();
    manager.load_plugin("Foo");
    assert!(manager.loaded_plugins().contains(&"Foo".to_string()));
    // the catalog does not gain the loaded name
    assert_eq!(manager.get_available_plugins(), expected_catalog());
}
