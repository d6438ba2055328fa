use blockmatrix::config::{
    config_get, config_set, config_set_reply, ConnectionMode, HypermeshConfig, ServicesConfig,
};
use blockmatrix::json::{get_dotpath, set_dotpath, JsonValue};
use blockmatrix::protocol::INVALID_PARAMS;

fn s(v: &str) -> JsonValue {
    JsonValue::Str(v.to_string())
}

fn obj(entries: Vec<(&str, JsonValue)>) -> JsonValue {
    JsonValue::Object(entries.into_iter().map(|(k, v)| (k.to_string(), v)).collect())
}

fn num(n: i64) -> JsonValue {
    if n >= 0 {
        JsonValue::UInt(n as u64)
    } else {
        JsonValue::NegInt(n)
    }
}

/// The JSON form of a configuration, field by field.
fn config_json(c: &HypermeshConfig) -> JsonValue {
    obj(vec![
        (
            "node",
            obj(vec![
                ("coord_x", num(c.node.coord_x)),
                ("coord_y", num(c.node.coord_y)),
                ("coord_z", num(c.node.coord_z)),
                ("data_dir", s(&c.node.data_dir)),
            ]),
        ),
        (
            "network",
            obj(vec![
                ("stoq_port", JsonValue::UInt(c.network.stoq_port as u64)),
                (
                    "bootstrap_nodes",
                    JsonValue::Array(c.network.bootstrap_nodes.iter().map(|b| s(b)).collect()),
                ),
                ("privacy", s(&c.network.privacy)),
                ("reflector", JsonValue::Bool(c.network.reflector)),
            ]),
        ),
        ("logging", obj(vec![("level", s(&c.logging.level))])),
        (
            "services",
            obj(vec![("mode", s(&c.services.mode)), ("gateway_url", s(&c.services.gateway_url))]),
        ),
    ])
}

#[test]
fn test_defaults() {
    let config = HypermeshConfig::default();
    assert_eq!(config.node.coord_x, 0);
    assert_eq!(config.node.data_dir, "~/.blockmatrix");
    assert_eq!(config.network.stoq_port, 9292);
    assert_eq!(config.network.privacy, "public");
    assert!(!config.network.reflector);
    assert_eq!(config.logging.level, "info");
    assert_eq!(config.services.mode, "auto");
    assert_eq!(config.services.gateway_url, "stoq://trust.hypermesh.online");
    assert_eq!(config.services.connection_mode(), ConnectionMode::Auto);
}

#[test]
fn test_connection_mode_parsing() {
    assert_eq!(ConnectionMode::from_str("ffi"), ConnectionMode::Ffi);
    assert_eq!(ConnectionMode::from_str("FFI"), ConnectionMode::Ffi);
    assert_eq!(ConnectionMode::from_str("ipc"), ConnectionMode::Ipc);
    assert_eq!(ConnectionMode::from_str("IPC"), ConnectionMode::Ipc);
    assert_eq!(ConnectionMode::from_str("stoq"), ConnectionMode::Stoq);
    assert_eq!(ConnectionMode::from_str("STOQ"), ConnectionMode::Stoq);
    assert_eq!(ConnectionMode::from_str("http"), ConnectionMode::Stoq);
    assert_eq!(ConnectionMode::from_str("auto"), ConnectionMode::Auto);
    assert_eq!(ConnectionMode::from_str("unknown"), ConnectionMode::Auto);
    assert_eq!(ConnectionMode::from_str(""), ConnectionMode::Auto);
}

#[test]
fn test_services_config_connection_mode() {
    let mut svc = ServicesConfig::default();
    assert_eq!(svc.connection_mode(), ConnectionMode::Auto);

    svc.mode = "ffi".to_string();
    assert_eq!(svc.connection_mode(), ConnectionMode::Ffi);

    svc.mode = "ipc".to_string();
    assert_eq!(svc.connection_mode(), ConnectionMode::Ipc);

    svc.mode = "stoq".to_string();
    assert_eq!(svc.connection_mode(), ConnectionMode::Stoq);
}

#[test]
fn test_dotpath_navigation() {
    let config = HypermeshConfig::default();
    let value = config_json(&config);

    assert_eq!(get_dotpath(&value, "network.stoq_port"), Some(&JsonValue::UInt(9292)));
    assert_eq!(get_dotpath(&value, "node.data_dir"), Some(&s("~/.blockmatrix")));
    assert!(get_dotpath(&value, "nonexistent.key").is_none());
}

#[test]
fn test_set_dotpath() {
    let mut value = obj(vec![("node", obj(vec![("coord_x", num(0))]))]);
    set_dotpath(&mut value, "node.coord_x", num(99)).expect("test: set dotpath");
    assert_eq!(get_dotpath(&value, "node.coord_x"), Some(&num(99)));
}

#[test]
fn set_dotpath_keeps_other_paths() {
    let mut value = obj(vec![
        ("node", obj(vec![("coord_x", num(0)), ("coord_y", num(5))])),
        ("other", num(1)),
    ]);
    set_dotpath(&mut value, "node.coord_x", num(99)).unwrap();
    assert_eq!(get_dotpath(&value, "node.coord_y"), Some(&num(5)));
    assert_eq!(get_dotpath(&value, "other"), Some(&num(1)));
    set_dotpath(&mut value, "fresh.a.b", num(7)).unwrap();
    assert_eq!(get_dotpath(&value, "node.coord_x"), Some(&num(99)));
    assert_eq!(get_dotpath(&value, "fresh.a.b"), Some(&num(7)));
}

#[test]
fn test_dotpath_services() {
    let value = config_json(&HypermeshConfig::default());
    assert_eq!(get_dotpath(&value, "services.mode"), Some(&s("auto")));
    assert_eq!(
        get_dotpath(&value, "services.gateway_url"),
        Some(&s("stoq://trust.hypermesh.online"))
    );
}

#[test]
fn test_set_dotpath_services() {
    let mut value = config_json(&HypermeshConfig::default());
    set_dotpath(&mut value, "services.mode", s("ipc")).expect("test: set services.mode");
    assert_eq!(get_dotpath(&value, "services.mode"), Some(&s("ipc")));
    set_dotpath(&mut value, "services.gateway_url", s("stoq://remote:9292"))
        .expect("test: set services.gateway_url");
    assert_eq!(get_dotpath(&value, "services.gateway_url"), Some(&s("stoq://remote:9292")));
}

#[test]
fn set_dotpath_creates_missing_objects() {
    let mut value = obj(vec![]);
    set_dotpath(&mut value, "a.b.c", JsonValue::Bool(true)).expect("created");
    assert_eq!(get_dotpath(&value, "a.b.c"), Some(&JsonValue::Bool(true)));
    assert!(matches!(get_dotpath(&value, "a.b"), Some(JsonValue::Object(_))));
}

#[test]
fn set_dotpath_errors_leave_value_unchanged() {
    let mut value = obj(vec![("a", obj(vec![("b", num(5))]))]);
    let before = value.clone();
    let e = set_dotpath(&mut value, "a.b.c", num(1)).unwrap_err();
    assert_eq!(e, "parent of 'c' is not an object");
    assert_eq!(value, before);
    let e = set_dotpath(&mut value, "a.b.c.d", num(1)).unwrap_err();
    assert_eq!(e, "'c' is not an object");
    assert_eq!(value, before);
    let mut scalar = num(3);
    let e = set_dotpath(&mut scalar, "x", num(1)).unwrap_err();
    assert_eq!(e, "parent of 'x' is not an object");
}

#[test]
fn config_get_and_set_handlers() {
    let mut value = config_json(&HypermeshConfig::default());
    let got = config_get(&value, &obj(vec![("key", s("network.stoq_port"))])).expect("found");
    assert_eq!(got, JsonValue::UInt(9292));

    let e = config_get(&value, &obj(vec![])).unwrap_err();
    assert_eq!(e.code, INVALID_PARAMS);
    assert_eq!(e.message, "missing 'key' parameter");

    let e = config_get(&value, &obj(vec![("key", s("nope.x"))])).unwrap_err();
    assert_eq!(e.message, "key not found: nope.x");

    let e = config_set(&mut value, &obj(vec![("key", s("logging.level"))])).unwrap_err();
    assert_eq!(e.message, "missing 'value' parameter");

    let (k, v) = config_set(&mut value, &obj(vec![("key", s("logging.level")), ("value", s("debug"))]))
        .expect("set");
    assert_eq!(k, "logging.level");
    assert_eq!(v, s("debug"));
    let back = config_get(&value, &obj(vec![("key", s("logging.level"))])).expect("read back");
    assert_eq!(back, s("debug"));

    let e = config_set(&mut value, &obj(vec![("key", s("network.stoq_port.x")), ("value", num(1))]))
        .unwrap_err();
    assert_eq!(e.code, INVALID_PARAMS);
    assert_eq!(e.message, "parent of 'x' is not an object");

    let reply = config_set_reply("logging.level", s("debug"));
    assert_eq!(
        reply,
        obj(vec![("key", s("logging.level")), ("value", s("debug")), ("saved", JsonValue::Bool(true))])
    );
}
