//! Matrix topology requests: `topology.info` and `topology.path`, and the
//! coordinate parameters of the routing requests.

use vstd::prelude::*;
use crate::json::{
    JsonModel, JsonValue, int_model, int_value, json_get_i64, models_of, new_entries, new_items,
    push_entry, push_item,
};
use crate::protocol::{RpcError, INVALID_PARAMS, is_error};
use crate::text::{concat2, concat3};

verus! {

/// A matrix coordinate as JSON.
pub open spec fn coordinate_model(c: (i64, i64, i64)) -> JsonModel {
    JsonModel::Object(
        seq![("x"@, int_model(c.0)), ("y"@, int_model(c.1)), ("z"@, int_model(c.2))],
    )
}

/// A matrix coordinate as JSON.
pub fn coordinate_value(c: (i64, i64, i64)) -> (r: JsonValue)
    ensures
        r@ == coordinate_model(c),
{
    let mut entries = new_entries();
    push_entry(&mut entries, "x", int_value(c.0));
    push_entry(&mut entries, "y", int_value(c.1));
    push_entry(&mut entries, "z", int_value(c.2));
    assert(crate::json::entry_models_of(entries@) =~= seq![
        ("x"@, int_model(c.0)),
        ("y"@, int_model(c.1)),
        ("z"@, int_model(c.2)),
    ]);
    JsonValue::Object(entries)
}

/// Reply to `topology.info`: this node and its matrix position.
pub fn topology_info_reply(node_id: &str, c: (i64, i64, i64)) -> (r: JsonValue)
    ensures
        r@ == JsonModel::Object(
            seq![("node_id"@, JsonModel::Str(node_id@)), ("coordinate"@, coordinate_model(c))],
        ),
{
    let mut entries = new_entries();
    push_entry(&mut entries, "node_id", JsonValue::from_str_slice(node_id));
    push_entry(&mut entries, "coordinate", coordinate_value(c));
    assert(crate::json::entry_models_of(entries@) =~= seq![
        ("node_id"@, JsonModel::Str(node_id@)),
        ("coordinate"@, coordinate_model(c)),
    ]);
    JsonValue::Object(entries)
}

/// The three integers `<prefix>_x`, `<prefix>_y` and `<prefix>_z`, each
/// required, checked in that order.
pub open spec fn coordinate_params_spec(params: JsonModel, prefix: Seq<char>) -> Result<
    (i64, i64, i64),
    Seq<char>,
> {
    match json_get_i64(params, prefix + "_x"@) {
        None => Err("missing '"@ + prefix + "_x'"@),
        Some(x) => match json_get_i64(params, prefix + "_y"@) {
            None => Err("missing '"@ + prefix + "_y'"@),
            Some(y) => match json_get_i64(params, prefix + "_z"@) {
                None => Err("missing '"@ + prefix + "_z'"@),
                Some(z) => Ok((x, y, z)),
            },
        },
    }
}

/// Read the coordinate named by `prefix` (see `coordinate_params_spec`).
pub fn coordinate_params(params: &JsonValue, prefix: &str) -> (r: Result<(i64, i64, i64), RpcError>)
    ensures
        match coordinate_params_spec(params@, prefix@) {
            Ok(c) => r == Ok::<(i64, i64, i64), RpcError>(c),
            Err(msg) => r matches Err(e) && is_error(e, INVALID_PARAMS, msg),
        },
{
    proof {
        reveal_strlit("_x");
        reveal_strlit("_y");
        reveal_strlit("_z");
        reveal_strlit("missing '");
        reveal_strlit("_x'");
        reveal_strlit("_y'");
        reveal_strlit("_z'");
    }
    let kx = concat2(prefix, "_x");
    let x = match params.get_i64(kx.as_str()) {
        Some(v) => v,
        None => {
            return Err(RpcError::new(INVALID_PARAMS, concat3("missing '", prefix, "_x'")));
        },
    };
    let ky = concat2(prefix, "_y");
    let y = match params.get_i64(ky.as_str()) {
        Some(v) => v,
        None => {
            return Err(RpcError::new(INVALID_PARAMS, concat3("missing '", prefix, "_y'")));
        },
    };
    let kz = concat2(prefix, "_z");
    let z = match params.get_i64(kz.as_str()) {
        Some(v) => v,
        None => {
            return Err(RpcError::new(INVALID_PARAMS, concat3("missing '", prefix, "_z'")));
        },
    };
    Ok((x, y, z))
}

/// Error for a coordinate outside the matrix.
pub fn invalid_coordinate(detail: &str) -> (r: RpcError)
    ensures
        is_error(r, INVALID_PARAMS, "invalid coordinate: "@ + detail@),
{
    proof {
        reveal_strlit("invalid coordinate: ");
    }
    RpcError::new(INVALID_PARAMS, concat2("invalid coordinate: ", detail))
}

/// Reply to `topology.path`: both ends, the number of hops and the hops
/// in order.
pub fn path_reply(from: (i64, i64, i64), to: (i64, i64, i64), hops: &Vec<(i64, i64, i64)>) -> (r:
    JsonValue)
    ensures
        r@ == JsonModel::Object(
            seq![
                ("from"@, coordinate_model(from)),
                ("to"@, coordinate_model(to)),
                ("hops"@, JsonModel::UInt(hops@.len() as u64)),
                (
                    "path"@,
                    JsonModel::Array(hops@.map_values(|c: (i64, i64, i64)| coordinate_model(c))),
                ),
            ],
        ),
{
    let mut items = new_items();
    let mut i: usize = 0;
    while i < hops.len()
        invariant
            i <= hops@.len(),
            models_of(items@) == hops@.take(i as int).map_values(
                |c: (i64, i64, i64)| coordinate_model(c),
            ),
        decreases hops@.len() - i,
    {
        let ghost before = models_of(items@);
        push_item(&mut items, coordinate_value(hops[i]));
        assert(hops@.take(i + 1) =~= hops@.take(i as int).push(hops@[i as int]));
        assert(hops@.take(i + 1).map_values(|c: (i64, i64, i64)| coordinate_model(c)) =~= before.push(
            coordinate_model(hops@[i as int]),
        ));
        i = i + 1;
    }
    assert(hops@.take(hops@.len() as int) =~= hops@);
    let mut entries = new_entries();
    push_entry(&mut entries, "from", coordinate_value(from));
    push_entry(&mut entries, "to", coordinate_value(to));
    push_entry(&mut entries, "hops", JsonValue::UInt(hops.len() as u64));
    push_entry(&mut entries, "path", JsonValue::Array(items));
    assert(crate::json::entry_models_of(entries@) =~= seq![
        ("from"@, coordinate_model(from)),
        ("to"@, coordinate_model(to)),
        ("hops"@, JsonModel::UInt(hops@.len() as u64)),
        ("path"@, JsonModel::Array(hops@.map_values(|c: (i64, i64, i64)| coordinate_model(c)))),
    ]);
    JsonValue::Object(entries)
}

} // verus!
