//! Codecs for the collection-configuration shapes: the strict index
//! parameter blocks, the untagged embedding-function descriptor, and
//! the enclosing configuration object, together with the round-trip
//! laws that hold of them.

use vstd::prelude::*;
use crate::codec::{
    fits_i32, i32_of_json, opt_i32_ok, opt_i32_val, opt_num_ok, opt_num_val, opt_space_ok,
    opt_space_val, opt_u32_ok, opt_u32_val, field_vacant, req_str_ok, req_str_val,
    space_text, JsonObj, opt_i32_field, opt_num_field, opt_space_field, opt_u32_field,
    req_str_field,
};
use crate::error::KhromaError;
use crate::json::{
    depth_le, empty_obj, json_as_object, json_clone, json_is_null, json_int,
    json_number_from_text, json_object, json_of_text, json_of_value, json_parse, json_print,
    json_string, json_uint, lemma_depth_le_widen, map_get, map_insert, map_keys, map_new,
    num_of_text, Json,
};
use crate::models::{
    CollectionConfiguration, EmbeddingFunctionConfiguration, EmbeddingFunctionNewConfiguration,
    HnswConfiguration, HnswSpace, SpannConfiguration, UpdateCollectionConfiguration,
    UpdateHnswConfiguration,
};
use crate::text::str_eq;
use vstd::string::StringExecFns;

verus! {

/// The JSON value a numeral text denotes; `Null` when it is not one.
pub open spec fn num_json(t: Seq<char>) -> Json {
    match num_of_text(t) {
        Some(j) => j,
        None => Json::Null,
    }
}

/// The JSON value an integer denotes.
pub open spec fn int_json(i: int) -> Json {
    if i >= 0 {
        Json::UInt(i as u64)
    } else {
        Json::Neg(i as i64)
    }
}

/// The wire text of an index space, as an executable value.
pub(crate) fn space_str(sp: HnswSpace) -> (r: &'static str)
    ensures
        r@ == space_text(sp),
{
    match sp {
        HnswSpace::L2 => "l2",
        HnswSpace::Cosine => "cosine",
        HnswSpace::Ip => "ip",
    }
}

// --- HNSW ---------------------------------------------------------------

pub open spec fn hnsw_keys() -> Set<Seq<char>> {
    set![
        "ef_construction"@,
        "ef_search"@,
        "max_neighbors"@,
        "resize_factor"@,
        "space"@,
        "sync_threshold"@,
    ]
}

pub open spec fn hnsw_decodable(j: Json) -> bool {
    &&& j is Obj
    &&& (j->Obj_0).dom().subset_of(hnsw_keys())
    &&& opt_u32_ok(j->Obj_0, "ef_construction"@)
    &&& opt_u32_ok(j->Obj_0, "ef_search"@)
    &&& opt_u32_ok(j->Obj_0, "max_neighbors"@)
    &&& opt_num_ok(j->Obj_0, "resize_factor"@)
    &&& opt_space_ok(j->Obj_0, "space"@)
    &&& opt_u32_ok(j->Obj_0, "sync_threshold"@)
}

/// How a decoded block relates to the object it was read from.
pub open spec fn hnsw_matches(h: HnswConfiguration, m: Map<Seq<char>, Json>) -> bool {
    &&& h.ef_construction == opt_u32_val(m, "ef_construction"@)
    &&& h.ef_search == opt_u32_val(m, "ef_search"@)
    &&& h.max_neighbors == opt_u32_val(m, "max_neighbors"@)
    &&& h.resize_factor.deep_view() == opt_num_val(m, "resize_factor"@)
    &&& h.space == opt_space_val(m, "space"@)
    &&& h.sync_threshold == opt_u32_val(m, "sync_threshold"@)
}

/// Checks that every key of the object is one of the six the strict
/// schema admits.
fn hnsw_keys_ok(m: &JsonObj) -> (r: bool)
    ensures
        r == crate::json::obj_of_map(*m).dom().subset_of(hnsw_keys()),
{
    let keys = map_keys(m);
    let mut i: usize = 0;
    while i < keys.len()
        invariant
            i <= keys.len(),
            forall|j: int|
                0 <= j < keys@.len() ==> crate::json::obj_of_map(*m).dom().contains(
                    #[trigger] keys@[j]@,
                ),
            forall|k: Seq<char>|
                crate::json::obj_of_map(*m).dom().contains(k) ==> exists|j: int|
                    0 <= j < keys@.len() && #[trigger] keys@[j]@ == k,
            forall|j: int| 0 <= j < i ==> hnsw_keys().contains(#[trigger] keys@[j]@),
        decreases keys.len() - i,
    {
        let k = keys[i].as_str();
        let known = str_eq(k, "ef_construction") || str_eq(k, "ef_search") || str_eq(
            k,
            "max_neighbors",
        ) || str_eq(k, "resize_factor") || str_eq(k, "space") || str_eq(k, "sync_threshold");
        if !known {
            proof {
                assert(crate::json::obj_of_map(*m).dom().contains(keys@[i as int]@));
                assert(!hnsw_keys().contains(keys@[i as int]@));
            }
            return false;
        }
        i += 1;
    }
    proof {
        assert forall|k: Seq<char>|
            crate::json::obj_of_map(*m).dom().contains(k) implies hnsw_keys().contains(k) by {
            let j = choose|j: int| 0 <= j < keys@.len() && keys@[j]@ == k;
            assert(hnsw_keys().contains(keys@[j]@));
        }
    }
    true
}

pub fn decode_hnsw(v: &serde_json::Value) -> (r: Result<HnswConfiguration, ()>)
    ensures
        r is Ok <==> hnsw_decodable(json_of_value(*v)),
        r matches Ok(h) ==> hnsw_matches(h, json_of_value(*v)->Obj_0) && h.wf(),
{
    match json_as_object(v) {
        Some(m) => {
            if !hnsw_keys_ok(m) {
                return Err(());
            }
            let ef_construction = opt_u32_field(m, "ef_construction")?;
            let ef_search = opt_u32_field(m, "ef_search")?;
            let max_neighbors = opt_u32_field(m, "max_neighbors")?;
            let resize_factor = opt_num_field(m, "resize_factor")?;
            let space = opt_space_field(m, "space")?;
            let sync_threshold = opt_u32_field(m, "sync_threshold")?;
            Ok(
                HnswConfiguration {
                    ef_construction,
                    ef_search,
                    max_neighbors,
                    resize_factor,
                    space,
                    sync_threshold,
                },
            )
        },
        None => Err(()),
    }
}

pub open spec fn hnsw_encodable(h: HnswConfiguration) -> bool {
    match h.resize_factor {
        Some(t) => num_of_text(t@) is Some,
        None => true,
    }
}

/// The object an HNSW block serializes to: one entry for each field
/// that is set.
pub open spec fn hnsw_obj(h: HnswConfiguration) -> Map<Seq<char>, Json> {
    let m0 = empty_obj();
    let m1 = match h.ef_construction {
        Some(n) => m0.insert("ef_construction"@, Json::UInt(n as u64)),
        None => m0,
    };
    let m2 = match h.ef_search {
        Some(n) => m1.insert("ef_search"@, Json::UInt(n as u64)),
        None => m1,
    };
    let m3 = match h.max_neighbors {
        Some(n) => m2.insert("max_neighbors"@, Json::UInt(n as u64)),
        None => m2,
    };
    let m4 = match h.resize_factor {
        Some(t) => m3.insert("resize_factor"@, num_json(t@)),
        None => m3,
    };
    let m5 = match h.space {
        Some(sp) => m4.insert("space"@, Json::Str(space_text(sp))),
        None => m4,
    };
    match h.sync_threshold {
        Some(n) => m5.insert("sync_threshold"@, Json::UInt(n as u64)),
        None => m5,
    }
}

pub fn encode_hnsw(h: &HnswConfiguration) -> (r: Result<serde_json::Value, ()>)
    ensures
        r is Ok <==> hnsw_encodable(*h),
        r matches Ok(v) ==> json_of_value(v) == Json::Obj(hnsw_obj(*h)),
{
    let mut m = map_new();
    match &h.ef_construction {
        Some(n) => map_insert(&mut m, "ef_construction", json_uint(*n as u64)),
        None => (),
    }
    match &h.ef_search {
        Some(n) => map_insert(&mut m, "ef_search", json_uint(*n as u64)),
        None => (),
    }
    match &h.max_neighbors {
        Some(n) => map_insert(&mut m, "max_neighbors", json_uint(*n as u64)),
        None => (),
    }
    match &h.resize_factor {
        Some(t) => match json_number_from_text(t.as_str()) {
            Some(v) => map_insert(&mut m, "resize_factor", v),
            None => {
                return Err(());
            },
        },
        None => (),
    }
    match &h.space {
        Some(sp) => map_insert(&mut m, "space", json_string(space_str(*sp))),
        None => (),
    }
    match &h.sync_threshold {
        Some(n) => map_insert(&mut m, "sync_threshold", json_uint(*n as u64)),
        None => (),
    }
    Ok(json_object(m))
}

// --- SPANN --------------------------------------------------------------

pub open spec fn spann_keys() -> Set<Seq<char>> {
    set![
        "ef_construction"@,
        "ef_search"@,
        "max_neighbors"@,
        "merge_threshold"@,
        "reassign_neighbor_count"@,
        "search_nprobe"@,
        "space"@,
        "split_threshold"@,
        "write_nprobe"@,
    ]
}

pub open spec fn spann_decodable(j: Json) -> bool {
    &&& j is Obj
    &&& (j->Obj_0).dom().subset_of(spann_keys())
    &&& opt_u32_ok(j->Obj_0, "ef_construction"@)
    &&& opt_u32_ok(j->Obj_0, "ef_search"@)
    &&& opt_u32_ok(j->Obj_0, "max_neighbors"@)
    &&& opt_i32_ok(j->Obj_0, "merge_threshold"@)
    &&& opt_i32_ok(j->Obj_0, "reassign_neighbor_count"@)
    &&& opt_i32_ok(j->Obj_0, "search_nprobe"@)
    &&& opt_space_ok(j->Obj_0, "space"@)
    &&& opt_i32_ok(j->Obj_0, "split_threshold"@)
    &&& opt_i32_ok(j->Obj_0, "write_nprobe"@)
}

pub open spec fn spann_matches(s: SpannConfiguration, m: Map<Seq<char>, Json>) -> bool {
    &&& s.ef_construction == opt_u32_val(m, "ef_construction"@)
    &&& s.ef_search == opt_u32_val(m, "ef_search"@)
    &&& s.max_neighbors == opt_u32_val(m, "max_neighbors"@)
    &&& s.merge_threshold == opt_i32_val(m, "merge_threshold"@)
    &&& s.reassign_neighbor_count == opt_i32_val(m, "reassign_neighbor_count"@)
    &&& s.search_nprobe == opt_i32_val(m, "search_nprobe"@)
    &&& s.space == opt_space_val(m, "space"@)
    &&& s.split_threshold == opt_i32_val(m, "split_threshold"@)
    &&& s.write_nprobe == opt_i32_val(m, "write_nprobe"@)
}

fn spann_keys_ok(m: &JsonObj) -> (r: bool)
    ensures
        r == crate::json::obj_of_map(*m).dom().subset_of(spann_keys()),
{
    let keys = map_keys(m);
    let mut i: usize = 0;
    while i < keys.len()
        invariant
            i <= keys.len(),
            forall|j: int|
                0 <= j < keys@.len() ==> crate::json::obj_of_map(*m).dom().contains(
                    #[trigger] keys@[j]@,
                ),
            forall|k: Seq<char>|
                crate::json::obj_of_map(*m).dom().contains(k) ==> exists|j: int|
                    0 <= j < keys@.len() && #[trigger] keys@[j]@ == k,
            forall|j: int| 0 <= j < i ==> spann_keys().contains(#[trigger] keys@[j]@),
        decreases keys.len() - i,
    {
        let k = keys[i].as_str();
        let known = str_eq(k, "ef_construction") || str_eq(k, "ef_search") || str_eq(
            k,
            "max_neighbors",
        ) || str_eq(k, "merge_threshold") || str_eq(k, "reassign_neighbor_count") || str_eq(
            k,
            "search_nprobe",
        ) || str_eq(k, "space") || str_eq(k, "split_threshold") || str_eq(k, "write_nprobe");
        if !known {
            proof {
                assert(crate::json::obj_of_map(*m).dom().contains(keys@[i as int]@));
                assert(!spann_keys().contains(keys@[i as int]@));
            }
            return false;
        }
        i += 1;
    }
    proof {
        assert forall|k: Seq<char>|
            crate::json::obj_of_map(*m).dom().contains(k) implies spann_keys().contains(k) by {
            let j = choose|j: int| 0 <= j < keys@.len() && keys@[j]@ == k;
            assert(spann_keys().contains(keys@[j]@));
        }
    }
    true
}

pub fn decode_spann(v: &serde_json::Value) -> (r: Result<SpannConfiguration, ()>)
    ensures
        r is Ok <==> spann_decodable(json_of_value(*v)),
        r matches Ok(s) ==> spann_matches(s, json_of_value(*v)->Obj_0),
{
    match json_as_object(v) {
        Some(m) => {
            if !spann_keys_ok(m) {
                return Err(());
            }
            let ef_construction = opt_u32_field(m, "ef_construction")?;
            let ef_search = opt_u32_field(m, "ef_search")?;
            let max_neighbors = opt_u32_field(m, "max_neighbors")?;
            let merge_threshold = opt_i32_field(m, "merge_threshold")?;
            let reassign_neighbor_count = opt_i32_field(m, "reassign_neighbor_count")?;
            let search_nprobe = opt_i32_field(m, "search_nprobe")?;
            let space = opt_space_field(m, "space")?;
            let split_threshold = opt_i32_field(m, "split_threshold")?;
            let write_nprobe = opt_i32_field(m, "write_nprobe")?;
            Ok(
                SpannConfiguration {
                    ef_construction,
                    ef_search,
                    max_neighbors,
                    merge_threshold,
                    reassign_neighbor_count,
                    search_nprobe,
                    space,
                    split_threshold,
                    write_nprobe,
                },
            )
        },
        None => Err(()),
    }
}

/// The object a SPANN block serializes to.
pub open spec fn spann_obj(s: SpannConfiguration) -> Map<Seq<char>, Json> {
    let m0 = empty_obj();
    let m1 = match s.ef_construction {
        Some(n) => m0.insert("ef_construction"@, Json::UInt(n as u64)),
        None => m0,
    };
    let m2 = match s.ef_search {
        Some(n) => m1.insert("ef_search"@, Json::UInt(n as u64)),
        None => m1,
    };
    let m3 = match s.max_neighbors {
        Some(n) => m2.insert("max_neighbors"@, Json::UInt(n as u64)),
        None => m2,
    };
    let m4 = match s.merge_threshold {
        Some(n) => m3.insert("merge_threshold"@, int_json(n as int)),
        None => m3,
    };
    let m5 = match s.reassign_neighbor_count {
        Some(n) => m4.insert("reassign_neighbor_count"@, int_json(n as int)),
        None => m4,
    };
    let m6 = match s.search_nprobe {
        Some(n) => m5.insert("search_nprobe"@, int_json(n as int)),
        None => m5,
    };
    let m7 = match s.space {
        Some(sp) => m6.insert("space"@, Json::Str(space_text(sp))),
        None => m6,
    };
    let m8 = match s.split_threshold {
        Some(n) => m7.insert("split_threshold"@, int_json(n as int)),
        None => m7,
    };
    match s.write_nprobe {
        Some(n) => m8.insert("write_nprobe"@, int_json(n as int)),
        None => m8,
    }
}

pub fn encode_spann(s: &SpannConfiguration) -> (r: serde_json::Value)
    ensures
        json_of_value(r) == Json::Obj(spann_obj(*s)),
{
    let mut m = map_new();
    match &s.ef_construction {
        Some(n) => map_insert(&mut m, "ef_construction", json_uint(*n as u64)),
        None => (),
    }
    match &s.ef_search {
        Some(n) => map_insert(&mut m, "ef_search", json_uint(*n as u64)),
        None => (),
    }
    match &s.max_neighbors {
        Some(n) => map_insert(&mut m, "max_neighbors", json_uint(*n as u64)),
        None => (),
    }
    match &s.merge_threshold {
        Some(n) => map_insert(&mut m, "merge_threshold", json_int(*n as i64)),
        None => (),
    }
    match &s.reassign_neighbor_count {
        Some(n) => map_insert(&mut m, "reassign_neighbor_count", json_int(*n as i64)),
        None => (),
    }
    match &s.search_nprobe {
        Some(n) => map_insert(&mut m, "search_nprobe", json_int(*n as i64)),
        None => (),
    }
    match &s.space {
        Some(sp) => map_insert(&mut m, "space", json_string(space_str(*sp))),
        None => (),
    }
    match &s.split_threshold {
        Some(n) => map_insert(&mut m, "split_threshold", json_int(*n as i64)),
        None => (),
    }
    match &s.write_nprobe {
        Some(n) => map_insert(&mut m, "write_nprobe", json_int(*n as i64)),
        None => (),
    }
    json_object(m)
}

// --- embedding function ---------------------------------------------------

/// The object an embedding-function descriptor serializes to. The wire
/// tag key is `type`; a known descriptor's fields are flattened beside
/// it.
pub open spec fn ef_obj(e: EmbeddingFunctionConfiguration) -> Map<Seq<char>, Json> {
    match e {
        EmbeddingFunctionConfiguration::Legacy { kind } => empty_obj().insert(
            "type"@,
            Json::Str(kind@),
        ),
        EmbeddingFunctionConfiguration::Known { kind, config } => empty_obj().insert(
            "type"@,
            Json::Str(kind@),
        ).insert("name"@, Json::Str(config.name@)).insert(
            "config"@,
            json_of_value(config.config),
        ),
    }
}

pub fn encode_embedding_function(e: &EmbeddingFunctionConfiguration) -> (r: serde_json::Value)
    ensures
        json_of_value(r) == Json::Obj(ef_obj(*e)),
{
    let mut m = map_new();
    match e {
        EmbeddingFunctionConfiguration::Legacy { kind } => {
            map_insert(&mut m, "type", json_string(kind.as_str()));
        },
        EmbeddingFunctionConfiguration::Known { kind, config } => {
            map_insert(&mut m, "type", json_string(kind.as_str()));
            map_insert(&mut m, "name", json_string(config.name.as_str()));
            map_insert(&mut m, "config", json_clone(&config.config));
        },
    }
    json_object(m)
}

/// The untagged wire format is read by structural probing, legacy shape
/// first: any object with a string under `type` reads back as `Legacy`,
/// so the probing order is load-bearing.
pub open spec fn ef_decodable(j: Json) -> bool {
    j is Obj && req_str_ok(j->Obj_0, "type"@)
}

pub open spec fn ef_matches(e: EmbeddingFunctionConfiguration, j: Json) -> bool {
    e matches EmbeddingFunctionConfiguration::Legacy { kind } && kind@ == req_str_val(
        j->Obj_0,
        "type"@,
    )
}

pub fn decode_embedding_function(v: &serde_json::Value) -> (r: Result<
    EmbeddingFunctionConfiguration,
    (),
>)
    ensures
        r is Ok <==> ef_decodable(json_of_value(*v)),
        r matches Ok(e) ==> ef_matches(e, json_of_value(*v)),
{
    match json_as_object(v) {
        Some(m) => {
            let kind = req_str_field(m, "type")?;
            Ok(EmbeddingFunctionConfiguration::Legacy { kind })
        },
        None => Err(()),
    }
}

// --- collection configuration ---------------------------------------------

pub open spec fn config_encodable(c: CollectionConfiguration) -> bool {
    match c.hnsw {
        Some(h) => hnsw_encodable(h),
        None => true,
    }
}

/// The object a collection configuration serializes to: one entry per
/// field that is set.
pub open spec fn config_obj(c: CollectionConfiguration) -> Map<Seq<char>, Json> {
    let m0 = empty_obj();
    let m1 = match c.embedding_function {
        Some(e) => m0.insert("embedding_function"@, Json::Obj(ef_obj(e))),
        None => m0,
    };
    let m2 = match c.hnsw {
        Some(h) => m1.insert("hnsw"@, Json::Obj(hnsw_obj(h))),
        None => m1,
    };
    match c.spann {
        Some(s) => m2.insert("spann"@, Json::Obj(spann_obj(s))),
        None => m2,
    }
}

pub fn encode_collection_configuration_value(c: &CollectionConfiguration) -> (r: Result<
    serde_json::Value,
    (),
>)
    ensures
        r is Ok <==> config_encodable(*c),
        r matches Ok(v) ==> json_of_value(v) == Json::Obj(config_obj(*c)),
{
    let mut m = map_new();
    match &c.embedding_function {
        Some(e) => map_insert(&mut m, "embedding_function", encode_embedding_function(e)),
        None => (),
    }
    match &c.hnsw {
        Some(h) => match encode_hnsw(h) {
            Ok(v) => map_insert(&mut m, "hnsw", v),
            Err(_) => {
                return Err(());
            },
        },
        None => (),
    }
    match &c.spann {
        Some(s) => map_insert(&mut m, "spann", encode_spann(s)),
        None => (),
    }
    Ok(json_object(m))
}

/// The enclosing configuration object is lenient: unknown fields are
/// ignored; each known field, when present and non-null, must have its
/// own shape.
pub open spec fn config_decodable(j: Json) -> bool {
    &&& j is Obj
    &&& (field_vacant(j->Obj_0, "embedding_function"@) || ef_decodable(
        (j->Obj_0)[("embedding_function"@)],
    ))
    &&& (field_vacant(j->Obj_0, "hnsw"@) || hnsw_decodable((j->Obj_0)[("hnsw"@)]))
    &&& (field_vacant(j->Obj_0, "spann"@) || spann_decodable((j->Obj_0)[("spann"@)]))
}

pub open spec fn config_matches(c: CollectionConfiguration, j: Json) -> bool {
    &&& (match c.embedding_function {
        Some(e) => !field_vacant(j->Obj_0, "embedding_function"@) && ef_matches(
            e,
            (j->Obj_0)[("embedding_function"@)],
        ),
        None => field_vacant(j->Obj_0, "embedding_function"@),
    })
    &&& (match c.hnsw {
        Some(h) => !field_vacant(j->Obj_0, "hnsw"@) && hnsw_matches(
            h,
            (j->Obj_0)[("hnsw"@)]->Obj_0,
        ),
        None => field_vacant(j->Obj_0, "hnsw"@),
    })
    &&& (match c.spann {
        Some(s) => !field_vacant(j->Obj_0, "spann"@) && spann_matches(
            s,
            (j->Obj_0)[("spann"@)]->Obj_0,
        ),
        None => field_vacant(j->Obj_0, "spann"@),
    })
}

pub fn decode_collection_configuration_value(v: &serde_json::Value) -> (r: Result<
    CollectionConfiguration,
    (),
>)
    ensures
        r is Ok <==> config_decodable(json_of_value(*v)),
        r matches Ok(c) ==> config_matches(c, json_of_value(*v)) && c.wf(),
{
    match json_as_object(v) {
        Some(m) => {
            let embedding_function = match map_get(m, "embedding_function") {
                Some(fv) => {
                    if json_is_null(fv) {
                        None
                    } else {
                        Some(decode_embedding_function(fv)?)
                    }
                },
                None => None,
            };
            let hnsw = match map_get(m, "hnsw") {
                Some(fv) => {
                    if json_is_null(fv) {
                        None
                    } else {
                        Some(decode_hnsw(fv)?)
                    }
                },
                None => None,
            };
            let spann = match map_get(m, "spann") {
                Some(fv) => {
                    if json_is_null(fv) {
                        None
                    } else {
                        Some(decode_spann(fv)?)
                    }
                },
                None => None,
            };
            Ok(CollectionConfiguration { embedding_function, hnsw, spann })
        },
        None => Err(()),
    }
}

/// Serializes a configuration as a JSON document. Fails exactly when a
/// stored resize-factor numeral is not a JSON number.
pub fn encode_collection_configuration(c: &CollectionConfiguration) -> (r: Result<
    String,
    KhromaError,
>)
    ensures
        r is Ok <==> config_encodable(*c),
        r matches Ok(s) ==> (depth_le(Json::Obj(config_obj(*c)), 127) ==> json_of_text(s@)
            == Some(Json::Obj(config_obj(*c)))),
        r matches Err(e) ==> e is Decode,
{
    match encode_collection_configuration_value(c) {
        Ok(v) => Ok(json_print(&v)),
        Err(_) => Err(
            KhromaError::Decode(
                String::from_str("resize_factor is not a JSON number"),
            ),
        ),
    }
}

/// Reads a configuration back from a JSON document.
pub fn decode_collection_configuration(s: &str) -> (r: Result<CollectionConfiguration, KhromaError>)
    ensures
        r is Ok <==> (json_of_text(s@) matches Some(j) && config_decodable(j)),
        r matches Ok(c) ==> config_matches(c, json_of_text(s@)->Some_0) && c.wf(),
        r matches Err(e) ==> e is Decode,
{
    match json_parse(s) {
        Ok(v) => match decode_collection_configuration_value(&v) {
            Ok(c) => Ok(c),
            Err(_) => Err(
                KhromaError::Decode(
                    String::from_str(
                        "the document is not a collection configuration",
                    ),
                ),
            ),
        },
        Err(detail) => Err(KhromaError::Decode(detail)),
    }
}

// --- update configuration (requests only; never decoded here) --------------

pub open spec fn update_hnsw_encodable(h: UpdateHnswConfiguration) -> bool {
    match h.resize_factor {
        Some(t) => num_of_text(t@) is Some,
        None => true,
    }
}

/// The object an updatable HNSW block serializes to.
pub open spec fn update_hnsw_obj(h: UpdateHnswConfiguration) -> Map<Seq<char>, Json> {
    let m0 = empty_obj();
    let m1 = match h.batch_size {
        Some(n) => m0.insert("batch_size"@, Json::UInt(n as u64)),
        None => m0,
    };
    let m2 = match h.ef_search {
        Some(n) => m1.insert("ef_search"@, Json::UInt(n as u64)),
        None => m1,
    };
    let m3 = match h.max_neighbors {
        Some(n) => m2.insert("max_neighbors"@, Json::UInt(n as u64)),
        None => m2,
    };
    let m4 = match h.num_threads {
        Some(n) => m3.insert("num_threads"@, Json::UInt(n as u64)),
        None => m3,
    };
    let m5 = match h.resize_factor {
        Some(t) => m4.insert("resize_factor"@, num_json(t@)),
        None => m4,
    };
    match h.sync_threshold {
        Some(n) => m5.insert("sync_threshold"@, Json::UInt(n as u64)),
        None => m5,
    }
}

pub fn encode_update_hnsw(h: &UpdateHnswConfiguration) -> (r: Result<serde_json::Value, ()>)
    ensures
        r is Ok <==> update_hnsw_encodable(*h),
        r matches Ok(v) ==> json_of_value(v) == Json::Obj(update_hnsw_obj(*h)),
{
    let mut m = map_new();
    match &h.batch_size {
        Some(n) => map_insert(&mut m, "batch_size", json_uint(*n as u64)),
        None => (),
    }
    match &h.ef_search {
        Some(n) => map_insert(&mut m, "ef_search", json_uint(*n as u64)),
        None => (),
    }
    match &h.max_neighbors {
        Some(n) => map_insert(&mut m, "max_neighbors", json_uint(*n as u64)),
        None => (),
    }
    match &h.num_threads {
        Some(n) => map_insert(&mut m, "num_threads", json_uint(*n as u64)),
        None => (),
    }
    match &h.resize_factor {
        Some(t) => match json_number_from_text(t.as_str()) {
            Some(v) => map_insert(&mut m, "resize_factor", v),
            None => {
                return Err(());
            },
        },
        None => (),
    }
    match &h.sync_threshold {
        Some(n) => map_insert(&mut m, "sync_threshold", json_uint(*n as u64)),
        None => (),
    }
    Ok(json_object(m))
}

pub open spec fn update_config_encodable(c: UpdateCollectionConfiguration) -> bool {
    match c.hnsw {
        Some(h) => update_hnsw_encodable(h),
        None => true,
    }
}

/// The object an update-configuration serializes to.
pub open spec fn update_config_obj(c: UpdateCollectionConfiguration) -> Map<Seq<char>, Json> {
    let m0 = empty_obj();
    let m1 = match c.embedding_function {
        Some(e) => m0.insert("embedding_function"@, Json::Obj(ef_obj(e))),
        None => m0,
    };
    let m2 = match c.hnsw {
        Some(h) => m1.insert("hnsw"@, Json::Obj(update_hnsw_obj(h))),
        None => m1,
    };
    match c.spann {
        Some(s) => m2.insert("spann"@, Json::Obj(spann_obj(s))),
        None => m2,
    }
}

pub fn encode_update_collection_configuration(c: &UpdateCollectionConfiguration) -> (r: Result<
    serde_json::Value,
    (),
>)
    ensures
        r is Ok <==> update_config_encodable(*c),
        r matches Ok(v) ==> json_of_value(v) == Json::Obj(update_config_obj(*c)),
{
    let mut m = map_new();
    match &c.embedding_function {
        Some(e) => map_insert(&mut m, "embedding_function", encode_embedding_function(e)),
        None => (),
    }
    match &c.hnsw {
        Some(h) => match encode_update_hnsw(h) {
            Ok(v) => map_insert(&mut m, "hnsw", v),
            Err(_) => {
                return Err(());
            },
        },
        None => (),
    }
    match &c.spann {
        Some(s) => map_insert(&mut m, "spann", encode_spann(s)),
        None => (),
    }
    Ok(json_object(m))
}

// --- equivalence up to text -------------------------------------------------

/// Field-for-field equality of HNSW blocks, comparing the numeral text
/// by content.
pub open spec fn hnsw_equiv(a: HnswConfiguration, b: HnswConfiguration) -> bool {
    &&& a.ef_construction == b.ef_construction
    &&& a.ef_search == b.ef_search
    &&& a.max_neighbors == b.max_neighbors
    &&& a.resize_factor.deep_view() == b.resize_factor.deep_view()
    &&& a.space == b.space
    &&& a.sync_threshold == b.sync_threshold
}

/// Field-for-field equality of embedding-function descriptors.
pub open spec fn ef_equiv(
    a: EmbeddingFunctionConfiguration,
    b: EmbeddingFunctionConfiguration,
) -> bool {
    match (a, b) {
        (
            EmbeddingFunctionConfiguration::Legacy { kind: k1 },
            EmbeddingFunctionConfiguration::Legacy { kind: k2 },
        ) => k1@ == k2@,
        (
            EmbeddingFunctionConfiguration::Known { kind: k1, config: c1 },
            EmbeddingFunctionConfiguration::Known { kind: k2, config: c2 },
        ) => k1@ == k2@ && c1.name@ == c2.name@ && json_of_value(c1.config) == json_of_value(
            c2.config,
        ),
        _ => false,
    }
}

/// Field-for-field equality of collection configurations, comparing
/// texts by content.
pub open spec fn config_equiv(a: CollectionConfiguration, b: CollectionConfiguration) -> bool {
    &&& (match (a.embedding_function, b.embedding_function) {
        (Some(x), Some(y)) => ef_equiv(x, y),
        (None, None) => true,
        _ => false,
    })
    &&& (match (a.hnsw, b.hnsw) {
        (Some(x), Some(y)) => hnsw_equiv(x, y),
        (None, None) => true,
        _ => false,
    })
    &&& a.spann == b.spann
}

// --- nesting depth ----------------------------------------------------------

/// An HNSW block's object holds scalars only.
pub proof fn lemma_hnsw_obj_shallow(h: HnswConfiguration)
    ensures
        depth_le(Json::Obj(hnsw_obj(h)), 1),
{
    assert forall|k: Seq<char>| hnsw_obj(h).dom().contains(k) implies depth_le(
        #[trigger] hnsw_obj(h)[k],
        0,
    ) by {}
}

/// A SPANN block's object holds scalars only.
pub proof fn lemma_spann_obj_shallow(s: SpannConfiguration)
    ensures
        depth_le(Json::Obj(spann_obj(s)), 1),
{
    assert forall|k: Seq<char>| spann_obj(s).dom().contains(k) implies depth_le(
        #[trigger] spann_obj(s)[k],
        0,
    ) by {}
}

/// A configuration without a known embedding descriptor nests at most
/// two container levels below its own object: the index blocks hold
/// scalars, and a legacy descriptor holds one string.
pub proof fn lemma_config_obj_shallow(c: CollectionConfiguration)
    requires
        ef_round_trippable(c),
    ensures
        depth_le(Json::Obj(config_obj(c)), 3),
{
    assert forall|k: Seq<char>| config_obj(c).dom().contains(k) implies depth_le(
        #[trigger] config_obj(c)[k],
        2,
    ) by {
        match c.embedding_function {
            Some(e) => {
                assert forall|k2: Seq<char>| ef_obj(e).dom().contains(k2) implies depth_le(
                    #[trigger] ef_obj(e)[k2],
                    1,
                ) by {}
            },
            None => (),
        }
        match c.hnsw {
            Some(h) => {
                lemma_hnsw_obj_shallow(h);
                lemma_depth_le_widen(Json::Obj(hnsw_obj(h)), 1, 2);
            },
            None => (),
        }
        match c.spann {
            Some(sp) => {
                lemma_spann_obj_shallow(sp);
                lemma_depth_le_widen(Json::Obj(spann_obj(sp)), 1, 2);
            },
            None => (),
        }
    }
}

// --- round-trip laws --------------------------------------------------------

/// Serializing an HNSW block and reading it back restores every field,
/// for any well-formed block.
pub proof fn lemma_hnsw_round_trip(h: HnswConfiguration)
    requires
        h.wf(),
    ensures
        hnsw_encodable(h),
        hnsw_decodable(Json::Obj(hnsw_obj(h))),
        hnsw_matches(h, hnsw_obj(h)),
{
    reveal_strlit("ef_construction");
    reveal_strlit("ef_search");
    reveal_strlit("max_neighbors");
    reveal_strlit("resize_factor");
    reveal_strlit("space");
    reveal_strlit("sync_threshold");
    reveal_strlit("l2");
    reveal_strlit("cosine");
    reveal_strlit("ip");
    assert("ef_construction"@.len() == 15);
    assert("ef_search"@.len() == 9);
    assert("max_neighbors"@.len() == 13);
    assert("resize_factor"@.len() == 13);
    assert("space"@.len() == 5);
    assert("sync_threshold"@.len() == 14);
    assert("max_neighbors"@[0] == 'm');
    assert("resize_factor"@[0] == 'r');
    assert("l2"@.len() == 2);
    assert("cosine"@.len() == 6);
    assert("ip"@.len() == 2);
    assert("l2"@[0] == 'l');
    assert("ip"@[0] == 'i');
    assert("ef_construction"@ != "ef_search"@);
    assert("ef_construction"@ != "max_neighbors"@);
    assert("ef_construction"@ != "resize_factor"@);
    assert("ef_construction"@ != "space"@);
    assert("ef_construction"@ != "sync_threshold"@);
    assert("ef_search"@ != "max_neighbors"@);
    assert("ef_search"@ != "resize_factor"@);
    assert("ef_search"@ != "space"@);
    assert("ef_search"@ != "sync_threshold"@);
    assert("max_neighbors"@ != "resize_factor"@);
    assert("max_neighbors"@ != "space"@);
    assert("max_neighbors"@ != "sync_threshold"@);
    assert("resize_factor"@ != "space"@);
    assert("resize_factor"@ != "sync_threshold"@);
    assert("space"@ != "sync_threshold"@);
    let m = hnsw_obj(h);
    assert(m.dom().subset_of(hnsw_keys()));
    assert(opt_u32_ok(m, "ef_construction"@) && h.ef_construction == opt_u32_val(
        m,
        "ef_construction"@,
    ));
    assert(opt_u32_ok(m, "ef_search"@) && h.ef_search == opt_u32_val(m, "ef_search"@));
    assert(opt_u32_ok(m, "max_neighbors"@) && h.max_neighbors == opt_u32_val(
        m,
        "max_neighbors"@,
    ));
    assert(opt_num_ok(m, "resize_factor"@) && h.resize_factor.deep_view() == opt_num_val(
        m,
        "resize_factor"@,
    ));
    assert(opt_space_ok(m, "space"@) && h.space == opt_space_val(m, "space"@));
    assert(opt_u32_ok(m, "sync_threshold"@) && h.sync_threshold == opt_u32_val(
        m,
        "sync_threshold"@,
    ));
}

/// Serializing a SPANN block and reading it back restores every field.
pub proof fn lemma_spann_round_trip(s: SpannConfiguration)
    ensures
        spann_decodable(Json::Obj(spann_obj(s))),
        spann_matches(s, spann_obj(s)),
{
    reveal_strlit("ef_construction");
    reveal_strlit("ef_search");
    reveal_strlit("max_neighbors");
    reveal_strlit("merge_threshold");
    reveal_strlit("reassign_neighbor_count");
    reveal_strlit("search_nprobe");
    reveal_strlit("space");
    reveal_strlit("split_threshold");
    reveal_strlit("write_nprobe");
    reveal_strlit("l2");
    reveal_strlit("cosine");
    reveal_strlit("ip");
    assert("ef_construction"@.len() == 15);
    assert("ef_search"@.len() == 9);
    assert("max_neighbors"@.len() == 13);
    assert("merge_threshold"@.len() == 15);
    assert("reassign_neighbor_count"@.len() == 23);
    assert("search_nprobe"@.len() == 13);
    assert("space"@.len() == 5);
    assert("split_threshold"@.len() == 15);
    assert("write_nprobe"@.len() == 12);
    assert("ef_construction"@[0] == 'e');
    assert("merge_threshold"@[0] == 'm');
    assert("split_threshold"@[0] == 's');
    assert("max_neighbors"@[0] == 'm');
    assert("search_nprobe"@[0] == 's');
    assert("l2"@.len() == 2);
    assert("cosine"@.len() == 6);
    assert("ip"@.len() == 2);
    assert("l2"@[0] == 'l');
    assert("ip"@[0] == 'i');
    let m = spann_obj(s);
    assert(m.dom().subset_of(spann_keys()));
    assert(opt_u32_ok(m, "ef_construction"@) && s.ef_construction == opt_u32_val(
        m,
        "ef_construction"@,
    ));
    assert(opt_u32_ok(m, "ef_search"@) && s.ef_search == opt_u32_val(m, "ef_search"@));
    assert(opt_u32_ok(m, "max_neighbors"@) && s.max_neighbors == opt_u32_val(
        m,
        "max_neighbors"@,
    ));
    assert(opt_i32_ok(m, "merge_threshold"@) && s.merge_threshold == opt_i32_val(
        m,
        "merge_threshold"@,
    ));
    assert(opt_i32_ok(m, "reassign_neighbor_count"@) && s.reassign_neighbor_count == opt_i32_val(
        m,
        "reassign_neighbor_count"@,
    ));
    assert(opt_i32_ok(m, "search_nprobe"@) && s.search_nprobe == opt_i32_val(
        m,
        "search_nprobe"@,
    ));
    assert(opt_space_ok(m, "space"@) && s.space == opt_space_val(m, "space"@));
    assert(opt_i32_ok(m, "split_threshold"@) && s.split_threshold == opt_i32_val(
        m,
        "split_threshold"@,
    ));
    assert(opt_i32_ok(m, "write_nprobe"@) && s.write_nprobe == opt_i32_val(m, "write_nprobe"@));
}

/// True when the embedding-function descriptor survives the untagged
/// probing: the legacy shape is probed first, so only `Legacy` does.
pub open spec fn ef_round_trippable(c: CollectionConfiguration) -> bool {
    match c.embedding_function {
        Some(e) => e is Legacy,
        None => true,
    }
}

/// Two configurations read from the same document agree field for
/// field, comparing texts by content: together with the round-trip law
/// below, whatever a decoder reconstructs from a configuration's own
/// serialization is field-for-field equal to it.
pub proof fn lemma_config_decode_agrees(
    a: CollectionConfiguration,
    b: CollectionConfiguration,
    j: Json,
)
    requires
        config_matches(a, j),
        config_matches(b, j),
    ensures
        config_equiv(a, b),
{
}

/// Serializing a collection configuration and decoding the document back
/// restores the configuration: every index field is equal, and the
/// embedding-function descriptor is equal whenever it is `Legacy` (a
/// `Known` descriptor reads back as `Legacy`, since the untagged wire
/// format probes the legacy shape first).
pub proof fn lemma_collection_configuration_round_trip(c: CollectionConfiguration)
    requires
        c.wf(),
        ef_round_trippable(c),
    ensures
        config_encodable(c),
        config_decodable(Json::Obj(config_obj(c))),
        config_matches(c, Json::Obj(config_obj(c))),
        depth_le(Json::Obj(config_obj(c)), 127),
{
    lemma_config_obj_shallow(c);
    lemma_depth_le_widen(Json::Obj(config_obj(c)), 3, 127);
    reveal_strlit("embedding_function");
    reveal_strlit("hnsw");
    reveal_strlit("spann");
    reveal_strlit("type");
    assert("embedding_function"@.len() == 18);
    assert("hnsw"@.len() == 4);
    assert("spann"@.len() == 5);
    match c.hnsw {
        Some(h) => lemma_hnsw_round_trip(h),
        None => (),
    }
    match c.spann {
        Some(s) => lemma_spann_round_trip(s),
        None => (),
    }
    let m = config_obj(c);
    match c.embedding_function {
        Some(e) => {
            assert(!field_vacant(m, "embedding_function"@));
            assert(ef_decodable(m[("embedding_function"@)]));
            assert(ef_matches(e, m[("embedding_function"@)]));
        },
        None => {
            assert(field_vacant(m, "embedding_function"@));
        },
    }
    match c.hnsw {
        Some(h) => {
            assert(!field_vacant(m, "hnsw"@));
            assert(hnsw_decodable(m[("hnsw"@)]));
            assert(hnsw_matches(h, m[("hnsw"@)]->Obj_0));
        },
        None => {
            assert(field_vacant(m, "hnsw"@));
        },
    }
    match c.spann {
        Some(s) => {
            assert(!field_vacant(m, "spann"@));
            assert(spann_decodable(m[("spann"@)]));
            assert(spann_matches(s, m[("spann"@)]->Obj_0));
        },
        None => {
            assert(field_vacant(m, "spann"@));
        },
    }
}

} // verus!
