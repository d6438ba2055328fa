use blockmatrix::http::{http_status_for_error, route, HttpRequest};
use blockmatrix::json::JsonValue;

fn get(path: &str) -> HttpRequest {
    HttpRequest { method: "GET".into(), path: path.into(), body: JsonValue::Null }
}

fn post(path: &str, body: JsonValue) -> HttpRequest {
    HttpRequest { method: "POST".into(), path: path.into(), body }
}

fn obj(entries: Vec<(&str, JsonValue)>) -> JsonValue {
    JsonValue::Object(entries.into_iter().map(|(k, v)| (k.to_string(), v)).collect())
}

fn member<'a>(v: &'a JsonValue, key: &str) -> Option<&'a JsonValue> {
    v.get(key)
}

#[test]
fn test_route_status() {
    let (method, _params) = route(&get("/api/v1/status")).expect("test: route matched");
    assert_eq!(method, "status");
}

#[test]
fn test_route_blockchain_height() {
    let (method, _) = route(&get("/api/v1/blockchain/height")).expect("test: route matched");
    assert_eq!(method, "blockchain.height");
}

#[test]
fn test_route_blockchain_block_index() {
    let (method, params) = route(&get("/api/v1/blockchain/block/42")).expect("test: route matched");
    assert_eq!(method, "blockchain.block");
    assert_eq!(member(&params, "index"), Some(&JsonValue::UInt(42)));
}

#[test]
fn test_route_blockchain_block_invalid_index() {
    assert!(route(&get("/api/v1/blockchain/block/abc")).is_none());
}

#[test]
fn test_route_dns_list() {
    let (method, _) = route(&get("/api/v1/dns/list")).expect("test: route matched");
    assert_eq!(method, "dns.list");
}

#[test]
fn test_route_dns_resolve() {
    let (method, params) =
        route(&get("/api/v1/dns/resolve/trust.hypermesh.online")).expect("test: route matched");
    assert_eq!(method, "dns.resolve");
    assert_eq!(member(&params, "name"), Some(&JsonValue::Str("trust.hypermesh.online".into())));
}

#[test]
fn test_route_dns_register_post() {
    let body = obj(vec![
        ("name", JsonValue::Str("test.local".into())),
        ("address", JsonValue::Str("::1".into())),
    ]);
    let (method, params) = route(&post("/api/v1/dns/register", body)).expect("test: route matched");
    assert_eq!(method, "dns.register");
    assert_eq!(member(&params, "name"), Some(&JsonValue::Str("test.local".into())));
}

#[test]
fn test_route_network_peers() {
    let (method, _) = route(&get("/api/v1/network/peers")).expect("test: route matched");
    assert_eq!(method, "network.peers");
}

#[test]
fn test_route_topology_info() {
    let (method, _) = route(&get("/api/v1/topology/info")).expect("test: route matched");
    assert_eq!(method, "topology.info");
}

#[test]
fn test_route_asset_list() {
    let (method, _) = route(&get("/api/v1/asset/list")).expect("test: route matched");
    assert_eq!(method, "asset.list");
}

#[test]
fn test_route_dashboard_list() {
    let (method, _) = route(&get("/api/v1/dashboard/list")).expect("test: route matched");
    assert_eq!(method, "dashboard.list");
}

#[test]
fn test_route_config_show() {
    let (method, _) = route(&get("/api/v1/config/show")).expect("test: route matched");
    assert_eq!(method, "config.show");
}

#[test]
fn test_route_config_get_key() {
    let (method, params) = route(&get("/api/v1/config/get/network.port")).expect("test: route matched");
    assert_eq!(method, "config.get");
    assert_eq!(member(&params, "key"), Some(&JsonValue::Str("network.port".into())));
}

#[test]
fn test_route_domain_list() {
    let (method, _) = route(&get("/api/v1/domain/list")).expect("test: route matched");
    assert_eq!(method, "domain.list");
}

#[test]
fn test_route_domain_register_post() {
    let body = obj(vec![("name", JsonValue::Str("mynet".into()))]);
    let (method, params) = route(&post("/api/v1/domain/register", body)).expect("test: route matched");
    assert_eq!(method, "domain.register");
    assert_eq!(member(&params, "name"), Some(&JsonValue::Str("mynet".into())));
}

#[test]
fn test_route_domain_join_post() {
    let body = obj(vec![("token", JsonValue::Str("abc123".into()))]);
    let (method, params) = route(&post("/api/v1/domain/join", body)).expect("test: route matched");
    assert_eq!(method, "domain.join");
    assert_eq!(member(&params, "token"), Some(&JsonValue::Str("abc123".into())));
}

#[test]
fn test_route_unknown_path() {
    assert!(route(&get("/api/v1/nonexistent")).is_none());
}

#[test]
fn test_route_no_api_prefix() {
    assert!(route(&get("/status")).is_none());
}

#[test]
fn test_route_wrong_method() {
    assert!(route(&post("/api/v1/status", JsonValue::Null)).is_none());
}

#[test]
fn test_route_with_query_string() {
    let (method, _) = route(&get("/api/v1/status?verbose=true")).expect("test: route matched");
    assert_eq!(method, "status");
}

#[test]
fn test_route_ping() {
    let (method, _) = route(&get("/api/v1/ping")).expect("test: route matched");
    assert_eq!(method, "ping");
}

#[test]
fn test_route_topology_neighbors() {
    let (method, _) = route(&get("/api/v1/topology/neighbors")).expect("test: route matched");
    assert_eq!(method, "topology.neighbors");
}

#[test]
fn test_route_blockchain_validate() {
    let (method, _) = route(&get("/api/v1/blockchain/validate")).expect("test: route matched");
    assert_eq!(method, "blockchain.validate");
}

#[test]
fn route_ignores_extra_slashes_and_body_of_get() {
    let (method, params) = route(&get("//api//v1/dashboard/info/")).expect("matched");
    assert_eq!(method, "dashboard.info");
    assert_eq!(params, JsonValue::Object(vec![]));
    assert!(route(&get("/api/v2/status")).is_none());
    assert!(route(&HttpRequest { method: "PUT".into(), path: "/api/v1/status".into(), body: JsonValue::Null }).is_none());
}

#[test]
fn http_status_mapping() {
    assert_eq!(http_status_for_error(-32601), (404, "Not Found"));
    assert_eq!(http_status_for_error(-32602), (400, "Bad Request"));
    assert_eq!(http_status_for_error(-32603), (500, "Internal Server Error"));
    assert_eq!(http_status_for_error(-32004), (500, "Internal Server Error"));
}
