use godot_bindings::registry::{ClassPlugin, PluginComponent, PluginRegistry, RegistryError, RegistryState};

fn plugin(name: &str, component: PluginComponent) -> ClassPlugin {
    ClassPlugin { class_name: name.to_string(), component }
}

#[test]
fn registry_load_protocol() {
    let mut reg = PluginRegistry::new();
    assert_eq!(reg.state(), RegistryState::Registering);
    assert_eq!(reg.register(plugin("Player", PluginComponent::ClassDef)), Ok(()));
    assert_eq!(reg.register(plugin("Player", PluginComponent::UserVirtuals)), Ok(()));
    assert_eq!(reg.register(plugin("Mob", PluginComponent::ClassDef)), Ok(()));
    assert_eq!(reg.unload(), Err(RegistryError::WrongState));
    let loaded = reg.load().unwrap();
    assert_eq!(
        loaded,
        vec![
            ("Player".to_string(), PluginComponent::ClassDef),
            ("Player".to_string(), PluginComponent::UserVirtuals),
            ("Mob".to_string(), PluginComponent::ClassDef),
        ]
    );
    assert_eq!(reg.state(), RegistryState::Active);
    assert_eq!(reg.load(), Err(RegistryError::WrongState));
    assert_eq!(reg.register(plugin("Late", PluginComponent::ClassDef)), Err(RegistryError::WrongState));
    assert_eq!(reg.unload(), Ok(()));
    assert_eq!(reg.state(), RegistryState::Unloaded);
    assert_eq!(reg.unload(), Err(RegistryError::WrongState));
}

#[test]
fn duplicate_class_registration_is_refused() {
    let mut reg = PluginRegistry::new();
    assert_eq!(reg.register(plugin("Player", PluginComponent::ClassDef)), Ok(()));
    assert_eq!(reg.register(plugin("Player", PluginComponent::ClassDef)), Err(RegistryError::DuplicateClass));
    assert_eq!(reg.load().unwrap().len(), 1);
}
