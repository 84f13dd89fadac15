use wgslsmith::harness::types::{parse_config_id, parse_usize, Adapter, BackendType, Config, ConfigId, Implementation};
use wgslsmith::harness::{default_configs, query_configs};

fn adapter(name: &str, device_id: usize, backend: BackendType) -> Adapter {
    Adapter { name: name.to_owned(), device_id, backend }
}

#[test]
fn config_ids_are_read() {
    let id = parse_config_id("dawn:vk:12").unwrap();
    assert_eq!(id, ConfigId { implementation: Implementation::Dawn, backend: BackendType::Vulkan, device_id: 12 });
    let id = parse_config_id("wgpu:mtl:+0").unwrap();
    assert_eq!(id.backend, BackendType::Metal);
    assert_eq!(id.device_id, 0);
}

#[test]
fn config_id_errors() {
    assert_eq!(parse_config_id("dawn").err(), Some("missing backend segment"));
    assert_eq!(parse_config_id("dawn:vk").err(), Some("missing device id segment"));
    assert_eq!(parse_config_id("dawn:vk:0:1").err(), Some("unexpected tokens"));
    assert_eq!(parse_config_id("gl:vk:0").err(), Some("invalid implementation"));
    assert_eq!(parse_config_id("dawn:gl:0").err(), Some("invalid backend"));
    assert_eq!(parse_config_id("dawn:vk:x").err(), Some("invalid device id"));
    assert_eq!(parse_config_id("dawn:vk:").err(), Some("invalid device id"));
    assert_eq!(parse_config_id("dawn:vk:-1").err(), Some("invalid device id"));
}

#[test]
fn config_id_strings_read_back() {
    for id in [
        ConfigId { implementation: Implementation::Wgpu, backend: BackendType::Dx12, device_id: 0 },
        ConfigId { implementation: Implementation::Dawn, backend: BackendType::Metal, device_id: 4097 },
        ConfigId { implementation: Implementation::Wgpu, backend: BackendType::Vulkan, device_id: usize::MAX },
    ] {
        let s = id.to_id_string();
        assert_eq!(parse_config_id(&s), Ok(id));
    }
    let id = ConfigId { implementation: Implementation::Dawn, backend: BackendType::Vulkan, device_id: 305 };
    assert_eq!(id.to_id_string(), "dawn:vk:305");
}

#[test]
fn device_ids_are_decimal() {
    assert_eq!(parse_usize("0042"), Some(42));
    assert_eq!(parse_usize("+7"), Some(7));
    assert_eq!(parse_usize("+"), None);
    assert_eq!(parse_usize(""), None);
    assert_eq!(parse_usize("1 "), None);
    assert_eq!(parse_usize("99999999999999999999999999"), None);
}

#[test]
fn configs_of_both_implementations() {
    let configs = query_configs(
        vec![adapter("a", 1, BackendType::Vulkan)],
        vec![adapter("b", 2, BackendType::Dx12), adapter("c", 3, BackendType::Vulkan)],
    );
    assert_eq!(configs.len(), 3);
    assert_eq!(configs[0].id.implementation, Implementation::Wgpu);
    assert_eq!(configs[0].adapter_name, "a");
    assert_eq!(configs[1].id, ConfigId { implementation: Implementation::Dawn, backend: BackendType::Dx12, device_id: 2 });
    assert_eq!(configs[2].adapter_name, "c");
}

#[test]
fn defaults_take_the_first_of_each_target() {
    let configs = vec![
        Config::new(Implementation::Wgpu, adapter("w1", 1, BackendType::Vulkan)),
        Config::new(Implementation::Dawn, adapter("d1", 2, BackendType::Vulkan)),
        Config::new(Implementation::Dawn, adapter("d2", 3, BackendType::Vulkan)),
        Config::new(Implementation::Dawn, adapter("d3", 4, BackendType::Dx12)),
    ];
    let defaults = default_configs(&configs);
    assert_eq!(
        defaults,
        vec![
            ConfigId { implementation: Implementation::Dawn, backend: BackendType::Dx12, device_id: 4 },
            ConfigId { implementation: Implementation::Dawn, backend: BackendType::Vulkan, device_id: 2 },
            ConfigId { implementation: Implementation::Wgpu, backend: BackendType::Vulkan, device_id: 1 },
        ]
    );
    assert!(default_configs(&vec![]).is_empty());
}
