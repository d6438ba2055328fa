//! Node configuration: the settings tree, its defaults, connection modes,
//! and the `config.*` methods' logic over the configuration's JSON form.
//!
//! Reading and writing the TOML file is left to the caller.

use vstd::prelude::*;
use crate::json::{
    get_dotpath, get_dotpath_spec, json_get, json_get_str, law_set_then_get_dotpath,
    make_object, obj_get, set_dotpath, set_dotpath_spec, JsonModel, JsonValue,
};
use crate::protocol::{is_error, RpcError, INVALID_PARAMS};
use crate::text::{concat2, to_lowercase, unicode_lowercase};

verus! {

/// Default data directory.
pub fn default_data_dir() -> (r: String)
    ensures
        r@ == "~/.blockmatrix"@,
{
    String::from_str("~/.blockmatrix")
}

/// Default STOQ port.
pub fn default_stoq_port() -> (r: u16)
    ensures
        r == 9292,
{
    9292
}

/// Default privacy mode.
pub fn default_privacy() -> (r: String)
    ensures
        r@ == "public"@,
{
    String::from_str("public")
}

/// Default log level.
pub fn default_log_level() -> (r: String)
    ensures
        r@ == "info"@,
{
    String::from_str("info")
}

/// Default connection mode.
pub fn default_mode() -> (r: String)
    ensures
        r@ == "auto"@,
{
    String::from_str("auto")
}

/// Default gateway entry point.
pub fn default_gateway_url() -> (r: String)
    ensures
        r@ == "stoq://trust.hypermesh.online"@,
{
    String::from_str("stoq://trust.hypermesh.online")
}

/// Connection mode for service communication.
#[derive(PartialEq, Eq, Structural, Clone, Copy, Debug)]
pub enum ConnectionMode {
    /// Try FFI, then IPC, then STOQ.
    Auto,
    /// Direct library linking.
    Ffi,
    /// Unix socket JSON-RPC to the daemon.
    Ipc,
    /// STOQ protocol API.
    Stoq,
}

/// The mode named by an already lower-cased string; `"http"` is the legacy
/// name of STOQ and anything unknown is `Auto`.
pub open spec fn mode_from_lower(s: Seq<char>) -> ConnectionMode {
    if s == "ffi"@ {
        ConnectionMode::Ffi
    } else if s == "ipc"@ {
        ConnectionMode::Ipc
    } else if s == "stoq"@ || s == "http"@ {
        ConnectionMode::Stoq
    } else {
        ConnectionMode::Auto
    }
}

impl ConnectionMode {
    /// The mode named by an already lower-cased string.
    pub fn from_lowercase(s: &str) -> (r: ConnectionMode)
        ensures
            r == mode_from_lower(s@),
    {
        if crate::text::str_eq(s, "ffi") {
            ConnectionMode::Ffi
        } else if crate::text::str_eq(s, "ipc") {
            ConnectionMode::Ipc
        } else if crate::text::str_eq(s, "stoq") || crate::text::str_eq(s, "http") {
            ConnectionMode::Stoq
        } else {
            ConnectionMode::Auto
        }
    }

    /// Parse a connection mode case-insensitively; unknown values are `Auto`.
    pub fn from_str(s: &str) -> (r: ConnectionMode)
        ensures
            r == mode_from_lower(unicode_lowercase(s@)),
    {
        let lower = to_lowercase(s);
        ConnectionMode::from_lowercase(lower.as_str())
    }
}

/// Service endpoint and connection configuration.
pub struct ServicesConfig {
    /// `auto` | `ffi` | `ipc` | `stoq`.
    pub mode: String,
    /// Gateway entry point.
    pub gateway_url: String,
}

impl Default for ServicesConfig {
    fn default() -> (r: ServicesConfig)
        ensures
            r.mode@ == "auto"@,
            r.gateway_url@ == "stoq://trust.hypermesh.online"@,
    {
        ServicesConfig { mode: default_mode(), gateway_url: default_gateway_url() }
    }
}

impl ServicesConfig {
    /// The `mode` field as a [`ConnectionMode`].
    pub fn connection_mode(&self) -> (r: ConnectionMode)
        ensures
            r == mode_from_lower(unicode_lowercase(self.mode@)),
    {
        ConnectionMode::from_str(self.mode.as_str())
    }
}

/// Node identity and data directory settings.
pub struct NodeConfig {
    pub coord_x: i64,
    pub coord_y: i64,
    pub coord_z: i64,
    pub data_dir: String,
}

/// Network and STOQ transport settings.
pub struct NetworkConfig {
    pub stoq_port: u16,
    pub bootstrap_nodes: Vec<String>,
    pub privacy: String,
    pub reflector: bool,
}

/// Logging settings.
pub struct LoggingConfig {
    pub level: String,
}

/// Top-level configuration.
pub struct HypermeshConfig {
    pub node: NodeConfig,
    pub network: NetworkConfig,
    pub logging: LoggingConfig,
    pub services: ServicesConfig,
}

impl Default for NodeConfig {
    fn default() -> (r: NodeConfig)
        ensures
            r.coord_x == 0 && r.coord_y == 0 && r.coord_z == 0,
            r.data_dir@ == "~/.blockmatrix"@,
    {
        NodeConfig { coord_x: 0, coord_y: 0, coord_z: 0, data_dir: default_data_dir() }
    }
}

impl Default for NetworkConfig {
    fn default() -> (r: NetworkConfig)
        ensures
            r.stoq_port == 9292,
            r.bootstrap_nodes@.len() == 0,
            r.privacy@ == "public"@,
            !r.reflector,
    {
        NetworkConfig {
            stoq_port: default_stoq_port(),
            bootstrap_nodes: Vec::new(),
            privacy: default_privacy(),
            reflector: false,
        }
    }
}

impl Default for LoggingConfig {
    fn default() -> (r: LoggingConfig)
        ensures
            r.level@ == "info"@,
    {
        LoggingConfig { level: default_log_level() }
    }
}

/// Whether `c` holds every default setting.
pub open spec fn is_default_config(c: HypermeshConfig) -> bool {
    &&& c.node.coord_x == 0 && c.node.coord_y == 0 && c.node.coord_z == 0
    &&& c.node.data_dir@ == "~/.blockmatrix"@
    &&& c.network.stoq_port == 9292
    &&& c.network.bootstrap_nodes@.len() == 0
    &&& c.network.privacy@ == "public"@
    &&& !c.network.reflector
    &&& c.logging.level@ == "info"@
    &&& c.services.mode@ == "auto"@
    &&& c.services.gateway_url@ == "stoq://trust.hypermesh.online"@
}

impl Default for HypermeshConfig {
    fn default() -> (r: HypermeshConfig)
        ensures
            is_default_config(r),
    {
        HypermeshConfig {
            node: NodeConfig::default(),
            network: NetworkConfig::default(),
            logging: LoggingConfig::default(),
            services: ServicesConfig::default(),
        }
    }
}

impl HypermeshConfig {
    /// Where the configuration file lives: `<home>/.hypermesh/config.toml`,
    /// with `.` standing in for a missing home directory.
    pub fn default_path(home_dir: Option<&str>) -> (r: String)
        ensures
            r@ == crate::protocol::path_join_spec(
                crate::protocol::path_join_spec(
                    match home_dir {
                        Some(h) => h@,
                        None => "."@,
                    },
                    ".hypermesh"@,
                ),
                "config.toml"@,
            ),
    {
        let home = match home_dir {
            Some(h) => h,
            None => ".",
        };
        let dir = crate::protocol::path_join(home, ".hypermesh");
        crate::protocol::path_join(dir.as_str(), "config.toml")
    }
}

/// Outcome of `config.get` on the configuration's JSON form.
pub open spec fn config_get_spec(config: JsonModel, params: JsonModel) -> Result<JsonModel, Seq<char>> {
    match json_get_str(params, "key"@) {
        None => Err("missing 'key' parameter"@),
        Some(key) => match get_dotpath_spec(config, key) {
            Some(v) => Ok(v),
            None => Err("key not found: "@ + key),
        },
    }
}

/// `config.get`: the value at the dot path `params.key` of the configuration.
pub fn config_get(config: &JsonValue, params: &JsonValue) -> (r: Result<JsonValue, RpcError>)
    ensures
        match config_get_spec(config@, params@) {
            Ok(v) => r matches Ok(x) && x@ == v,
            Err(msg) => r matches Err(e) && is_error(e, INVALID_PARAMS, msg),
        },
{
    let key = match params.get_str("key") {
        Some(k) => k,
        None => {
            proof {
                reveal_strlit("missing 'key' parameter");
            }
            return Err(RpcError::new(INVALID_PARAMS, String::from_str("missing 'key' parameter")));
        },
    };
    match get_dotpath(config, key) {
        Some(v) => Ok(v.duplicate()),
        None => {
            proof {
                reveal_strlit("key not found: ");
            }
            Err(RpcError::new(INVALID_PARAMS, concat2("key not found: ", key)))
        },
    }
}

/// Outcome of `config.set`: the key, the value, and the updated configuration.
pub open spec fn config_set_spec(config: JsonModel, params: JsonModel) -> Result<
    (Seq<char>, JsonModel, JsonModel),
    Seq<char>,
> {
    match json_get_str(params, "key"@) {
        None => Err("missing 'key' parameter"@),
        Some(key) => match json_get(params, "value"@) {
            None => Err("missing 'value' parameter"@),
            Some(v) => match set_dotpath_spec(config, key, v) {
                Ok(updated) => Ok((key, v, updated)),
                Err(e) => Err(e),
            },
        },
    }
}

/// `config.set`: set `params.value` at the dot path `params.key` of the
/// configuration's JSON form. On success returns the key and the value; on
/// error the configuration is unchanged.
pub fn config_set(config: &mut JsonValue, params: &JsonValue) -> (r: Result<(String, JsonValue), RpcError>)
    ensures
        match config_set_spec(old(config)@, params@) {
            Ok((key, v, updated)) => r matches Ok((k, x)) && k@ == key && x@ == v && final(config)@ == updated,
            Err(msg) => r matches Err(e) && is_error(e, INVALID_PARAMS, msg) && final(config)@ == old(config)@,
        },
{
    let key = match params.get_str("key") {
        Some(k) => k,
        None => {
            proof {
                reveal_strlit("missing 'key' parameter");
            }
            return Err(RpcError::new(INVALID_PARAMS, String::from_str("missing 'key' parameter")));
        },
    };
    let new_value = match params.get("value") {
        Some(v) => v,
        None => {
            proof {
                reveal_strlit("missing 'value' parameter");
            }
            return Err(
                RpcError::new(INVALID_PARAMS, String::from_str("missing 'value' parameter")),
            );
        },
    };
    match set_dotpath(config, key, new_value.duplicate()) {
        Ok(()) => Ok((String::from_str(key), new_value.duplicate())),
        Err(e) => Err(RpcError::new(INVALID_PARAMS, e)),
    }
}

/// The reply to a successful `config.set`: `{"key", "value", "saved": true}`.
pub fn config_set_reply(key: &str, value: JsonValue) -> (r: JsonValue)
    ensures
        r@ == JsonModel::Object(
            seq![
                ("key"@, JsonModel::Str(key@)),
                ("value"@, value@),
                ("saved"@, JsonModel::Bool(true)),
            ],
        ),
{
    let mut entries: Vec<(String, JsonValue)> = Vec::new();
    entries.push((String::from_str("key"), JsonValue::from_str_slice(key)));
    entries.push((String::from_str("value"), value));
    entries.push((String::from_str("saved"), JsonValue::Bool(true)));
    proof {
        crate::json::lemma_entry_models_of_len(entries@);
    }
    let r = make_object(entries);
    assert(crate::json::entry_models_of(entries@) =~= seq![
        ("key"@, JsonModel::Str(key@)),
        ("value"@, value@),
        ("saved"@, JsonModel::Bool(true)),
    ]);
    r
}

/// A `config.get` params object for `key`.
pub open spec fn key_params(key: Seq<char>) -> JsonModel {
    JsonModel::Object(seq![("key"@, JsonModel::Str(key))])
}

/// After a successful `config.set`, `config.get` of the same key returns the
/// value that was set.
pub proof fn law_config_set_then_get(config: JsonModel, params: JsonModel)
    requires
        config_set_spec(config, params) is Ok,
    ensures
        ({
            let (key, v, updated) = config_set_spec(config, params)->Ok_0;
            config_get_spec(updated, key_params(key)) == Ok::<JsonModel, Seq<char>>(v)
        }),
{
    let (key, v, updated) = config_set_spec(config, params)->Ok_0;
    law_set_then_get_dotpath(config, key, v);
    assert(obj_get(seq![("key"@, JsonModel::Str(key))], "key"@) == Some(JsonModel::Str(key)));
}

} // verus!
