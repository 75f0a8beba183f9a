//! Process configuration validated from environment values: required values
//! must be present and non-blank, secrets at least 32 bytes long, the zoom
//! ceiling a non-negative integer. Reading the environment is the caller's part.

use vstd::prelude::*;
use vstd::utf8::encode_utf8;
use crate::error::AppError;
use crate::text::{trim, trimmed, parse_u32, parse_u32_spec, push_str};

verus! {

/// Minimum length (bytes) of security-sensitive secrets.
pub const MIN_SECRET_LEN: usize = 32;

/// Default object-storage bucket for cached imagery tiles.
pub const DEFAULT_TILES_BUCKET: &'static str = "geos-tiles";

/// Default maximum imagery zoom level (~38 m/px at z12 for Sentinel-2).
pub const DEFAULT_TILES_MAX_ZOOM: u32 = 12;

/// Default upstream imagery template (EOX Sentinel-2 cloudless, `{z}/{y}/{x}`).
pub const DEFAULT_IMAGERY_UPSTREAM_URL: &'static str =
    "https://tiles.maps.eox.at/wmts/1.0.0/s2cloudless-2024_3857/default/GoogleMapsCompatible/{z}/{y}/{x}.jpg";

/// Default socket address of the HTTP API.
pub const DEFAULT_BIND_ADDR: &'static str = "0.0.0.0:8080";

/// The raw values of the variables configuration reads (`None` = unset).
pub struct EnvValues {
    /// `DATABASE_URL`
    pub database_url: Option<String>,
    /// `MEILI_URL`
    pub meili_url: Option<String>,
    /// `MEILI_MASTER_KEY`
    pub meili_master_key: Option<String>,
    /// `STORAGE_URL`
    pub storage_url: Option<String>,
    /// `JWT_SECRET`
    pub jwt_secret: Option<String>,
    /// `NOS_JWT_SECRET`
    pub nos_jwt_secret: Option<String>,
    /// `TILES_BUCKET`
    pub tiles_bucket: Option<String>,
    /// `IMAGERY_UPSTREAM_URL`
    pub imagery_upstream_url: Option<String>,
    /// `TILES_MAX_ZOOM`
    pub tiles_max_zoom: Option<String>,
    /// `GEOS_BIND_ADDR`
    pub bind_addr: Option<String>,
}

/// Validated runtime configuration shared by the API and workers.
pub struct Config {
    /// PostgreSQL connection string.
    pub database_url: String,
    /// Base URL of the Meilisearch instance.
    pub meili_url: String,
    /// Meilisearch master key.
    pub meili_master_key: String,
    /// Base URL of the object-storage service.
    pub storage_url: String,
    /// JWT signing secret for Geos auth (at least 32 bytes).
    pub jwt_secret: String,
    /// JWT signing secret for storage service tokens (at least 32 bytes).
    pub nos_jwt_secret: String,
    /// Object-storage bucket holding cached imagery tiles.
    pub tiles_bucket: String,
    /// Upstream imagery URL template with `{z}`/`{x}`/`{y}` placeholders.
    pub imagery_upstream_url: String,
    /// Maximum imagery zoom level served by the tile proxy.
    pub tiles_max_zoom: u32,
    /// Socket address for the HTTP API.
    pub bind_addr: String,
}

/// The view of an optional string.
pub open spec fn opt_string(v: Option<String>) -> Option<Seq<char>> {
    match v {
        Some(s) => Some(s@),
        None => None,
    }
}

/// A value that is set and not blank.
pub open spec fn present(v: Option<Seq<char>>) -> bool {
    v is Some && trimmed(v->0).len() > 0
}

/// A set, non-blank value of at least `MIN_SECRET_LEN` UTF-8 bytes.
pub open spec fn strong_secret(v: Option<Seq<char>>) -> bool {
    present(v) && encode_utf8(v->0).len() >= 32
}

/// An optional value: trimmed when set and not blank, else the default.
pub open spec fn optional_value(v: Option<Seq<char>>, default: Seq<char>) -> Seq<char> {
    if present(v) { trimmed(v->0) } else { default }
}

/// An optional zoom level: parsed from the trimmed value when set and not
/// blank, else the default; `None` when the value is not a `u32`.
pub open spec fn zoom_value(v: Option<Seq<char>>, default: u32) -> Option<u32> {
    if present(v) { parse_u32_spec(trimmed(v->0)) } else { Some(default) }
}

/// Message for a missing required variable.
pub open spec fn missing_message(name: Seq<char>) -> Seq<char> {
    "missing required environment variable: "@ + name
}

/// Message for a secret that is too short.
pub open spec fn short_secret_message(name: Seq<char>) -> Seq<char> {
    name + " must be at least 32 characters"@
}

/// Message for a zoom level that is not a non-negative integer.
pub open spec fn bad_zoom_message(name: Seq<char>) -> Seq<char> {
    name + " must be a non-negative integer"@
}

/// Whether `e` is a configuration error with message `m`.
pub open spec fn config_error(e: AppError, m: Seq<char>) -> bool {
    e matches AppError::Config(x) && x@ == m
}

fn concat2(a: &str, b: &str) -> (s: String)
    ensures s@ == a@ + b@,
{
    let mut s = String::new();
    push_str(&mut s, a);
    push_str(&mut s, b);
    assert(s@ =~= a@ + b@);
    s
}

/// A required, non-blank value (returned untrimmed).
pub fn require_var(name: &str, value: &Option<String>) -> (r: Result<String, AppError>)
    ensures
        r is Ok <==> present(opt_string(*value)),
        r matches Ok(s) ==> s@ == value->0@,
        r matches Err(e) ==> config_error(e, missing_message(name@)),
{
    match value {
        Some(v) => {
            if !trim(v.as_str()).is_empty() {
                return Ok(v.clone());
            }
        },
        None => {},
    }
    Err(AppError::Config(concat2("missing required environment variable: ", name)))
}

/// A required value that must also be at least `MIN_SECRET_LEN` bytes long.
pub fn require_secret(name: &str, value: &Option<String>) -> (r: Result<String, AppError>)
    ensures
        r is Ok <==> strong_secret(opt_string(*value)),
        r matches Ok(s) ==> s@ == value->0@,
        r matches Err(e) ==> config_error(e, if present(opt_string(*value)) {
            short_secret_message(name@)
        } else {
            missing_message(name@)
        }),
{
    let value = require_var(name, value)?;
    let bytes = value.as_str().as_bytes();
    if bytes.len() < MIN_SECRET_LEN {
        return Err(AppError::Config(concat2(name, " must be at least 32 characters")));
    }
    Ok(value)
}

/// An optional value: trimmed when set and not blank, else `default`.
pub fn optional_var(value: &Option<String>, default: &str) -> (s: String)
    ensures s@ == optional_value(opt_string(*value), default@),
{
    match value {
        Some(v) => {
            let t = trim(v.as_str());
            if !t.is_empty() {
                return t.to_owned();
            }
        },
        None => {},
    }
    default.to_owned()
}

/// An optional zoom level, rejecting values that are not non-negative integers.
pub fn optional_zoom(name: &str, value: &Option<String>, default: u32) -> (r: Result<u32, AppError>)
    ensures
        r is Ok <==> zoom_value(opt_string(*value), default) is Some,
        r matches Ok(z) ==> Some(z) == zoom_value(opt_string(*value), default),
        r matches Err(e) ==> config_error(e, bad_zoom_message(name@)),
{
    match value {
        Some(v) => {
            let t = trim(v.as_str());
            if !t.is_empty() {
                return match parse_u32(t) {
                    Some(z) => Ok(z),
                    None => Err(AppError::Config(concat2(name, " must be a non-negative integer"))),
                };
            }
        },
        None => {},
    }
    Ok(default)
}

/// Whether every required value is valid.
pub open spec fn env_valid(e: EnvValues) -> bool {
    &&& present(opt_string(e.database_url))
    &&& present(opt_string(e.meili_url))
    &&& strong_secret(opt_string(e.meili_master_key))
    &&& present(opt_string(e.storage_url))
    &&& strong_secret(opt_string(e.jwt_secret))
    &&& strong_secret(opt_string(e.nos_jwt_secret))
    &&& zoom_value(opt_string(e.tiles_max_zoom), 12) is Some
}

/// What is wrong with a required value, if anything.
pub open spec fn var_problem(name: Seq<char>, v: Option<String>) -> Option<Seq<char>> {
    if present(opt_string(v)) { None } else { Some(missing_message(name)) }
}

/// What is wrong with a required secret, if anything.
pub open spec fn secret_problem(name: Seq<char>, v: Option<String>) -> Option<Seq<char>> {
    if !present(opt_string(v)) {
        Some(missing_message(name))
    } else if !strong_secret(opt_string(v)) {
        Some(short_secret_message(name))
    } else {
        None
    }
}

/// The message of the first invalid value, in the order of the fields.
pub open spec fn config_problem(e: EnvValues) -> Option<Seq<char>> {
    if var_problem("DATABASE_URL"@, e.database_url) is Some {
        var_problem("DATABASE_URL"@, e.database_url)
    } else if var_problem("MEILI_URL"@, e.meili_url) is Some {
        var_problem("MEILI_URL"@, e.meili_url)
    } else if secret_problem("MEILI_MASTER_KEY"@, e.meili_master_key) is Some {
        secret_problem("MEILI_MASTER_KEY"@, e.meili_master_key)
    } else if var_problem("STORAGE_URL"@, e.storage_url) is Some {
        var_problem("STORAGE_URL"@, e.storage_url)
    } else if secret_problem("JWT_SECRET"@, e.jwt_secret) is Some {
        secret_problem("JWT_SECRET"@, e.jwt_secret)
    } else if secret_problem("NOS_JWT_SECRET"@, e.nos_jwt_secret) is Some {
        secret_problem("NOS_JWT_SECRET"@, e.nos_jwt_secret)
    } else if zoom_value(opt_string(e.tiles_max_zoom), 12) is None {
        Some(bad_zoom_message("TILES_MAX_ZOOM"@))
    } else {
        None
    }
}

impl Config {
    /// Validate configuration from raw environment values; the first invalid
    /// value (in the order of the fields) decides the error.
    pub fn from_values(env: &EnvValues) -> (r: Result<Config, AppError>)
        ensures
            r is Ok <==> env_valid(*env),
            r matches Ok(c) ==> {
                &&& c.database_url@ == env.database_url->0@
                &&& c.meili_url@ == env.meili_url->0@
                &&& c.meili_master_key@ == env.meili_master_key->0@
                &&& c.storage_url@ == env.storage_url->0@
                &&& c.jwt_secret@ == env.jwt_secret->0@
                &&& c.nos_jwt_secret@ == env.nos_jwt_secret->0@
                &&& c.tiles_bucket@ == optional_value(opt_string(env.tiles_bucket), DEFAULT_TILES_BUCKET@)
                &&& c.imagery_upstream_url@ == optional_value(opt_string(env.imagery_upstream_url),
                    DEFAULT_IMAGERY_UPSTREAM_URL@)
                &&& Some(c.tiles_max_zoom) == zoom_value(opt_string(env.tiles_max_zoom), 12)
                &&& c.bind_addr@ == match env.bind_addr { Some(b) => b@, None => DEFAULT_BIND_ADDR@ }
            },
            r is Ok <==> config_problem(*env) is None,
            r matches Err(e) ==> (config_problem(*env) matches Some(m) && config_error(e, m)),
    {
        let database_url = require_var("DATABASE_URL", &env.database_url)?;
        let meili_url = require_var("MEILI_URL", &env.meili_url)?;
        let meili_master_key = require_secret("MEILI_MASTER_KEY", &env.meili_master_key)?;
        let storage_url = require_var("STORAGE_URL", &env.storage_url)?;
        let jwt_secret = require_secret("JWT_SECRET", &env.jwt_secret)?;
        let nos_jwt_secret = require_secret("NOS_JWT_SECRET", &env.nos_jwt_secret)?;
        let tiles_bucket = optional_var(&env.tiles_bucket, DEFAULT_TILES_BUCKET);
        let imagery_upstream_url = optional_var(&env.imagery_upstream_url, DEFAULT_IMAGERY_UPSTREAM_URL);
        let tiles_max_zoom = optional_zoom("TILES_MAX_ZOOM", &env.tiles_max_zoom, DEFAULT_TILES_MAX_ZOOM)?;
        let bind_addr = match &env.bind_addr {
            Some(b) => b.clone(),
            None => DEFAULT_BIND_ADDR.to_owned(),
        };
        Ok(Config {
            database_url,
            meili_url,
            meili_master_key,
            storage_url,
            jwt_secret,
            nos_jwt_secret,
            tiles_bucket,
            imagery_upstream_url,
            tiles_max_zoom,
            bind_addr,
        })
    }
}

} // verus!
