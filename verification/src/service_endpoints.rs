//! The third-party service endpoints (MQ, SMTP, Redis) that templates may
//! bind to: the values a create or update stores, with their defaults, and
//! which password, if any, is (re-)encrypted.

use vstd::prelude::*;
use crate::error::{AppError, ErrKind};
use crate::text::{cat4, copy_opt, opt_view, owned};

verus! {

/// A refused insert on a unique name: 409 `<label> '<name>' already exists`.
pub fn unique_violation_to_conflict(label: &str, name: &str) -> (e: AppError)
    ensures
        e.as_pair() == (ErrKind::Conflict, label@ + " '"@ + name@ + "' already exists"@),
{
    AppError::Conflict(cat4(label, " '", name, "' already exists"))
}

/// A password that is written: a given, non-empty one. An empty or absent
/// password leaves the stored one as it is.
pub open spec fn written_password(p: Option<Seq<char>>) -> Option<Seq<char>> {
    match p {
        Some(s) => if s.len() > 0 {
            Some(s)
        } else {
            None
        },
        None => None,
    }
}

/// The password to encrypt and store, if any (the SMTP and Redis creates,
/// and every update).
pub fn nonempty_password(p: &Option<String>) -> (r: Option<String>)
    ensures
        opt_view(r) == written_password(opt_view(*p)),
{
    match p {
        Some(s) => if s.as_str().is_empty() {
            None
        } else {
            Some(s.clone())
        },
        None => None,
    }
}

fn bool_or(b: Option<bool>, d: bool) -> (r: bool)
    ensures
        r == (match b {
            Some(v) => v,
            None => d,
        }),
{
    match b {
        Some(v) => v,
        None => d,
    }
}

fn port_or(p: Option<u16>, d: u16) -> (r: u16)
    ensures
        r == (match p {
            Some(v) => v,
            None => d,
        }),
{
    match p {
        Some(v) => v,
        None => d,
    }
}

// ── MQ ──────────────────────────────────────────────────────────────────────

/// A create or update of an MQ endpoint.
pub struct MqUpsert {
    pub name: String,
    pub host: String,
    pub port: Option<u16>,
    pub vhost: Option<String>,
    pub username: String,
    pub password: Option<String>,
    pub tls_enabled: Option<bool>,
    pub description: Option<String>,
    pub is_active: Option<bool>,
}

/// The values an MQ endpoint is stored with.
pub struct MqValues {
    pub name: String,
    pub host: String,
    pub port: u16,
    pub vhost: String,
    pub username: String,
    pub tls_enabled: bool,
    pub description: Option<String>,
    pub is_active: bool,
}

/// An MQ endpoint: AMQP port 5672, vhost `/`, no TLS and active unless
/// the request says otherwise.
pub fn mq_values(body: &MqUpsert) -> (v: MqValues)
    ensures
        v.name@ == body.name@,
        v.host@ == body.host@,
        v.port == (match body.port {
            Some(p) => p,
            None => 5672,
        }),
        v.vhost@ == (match body.vhost {
            Some(h) => h@,
            None => "/"@,
        }),
        v.username@ == body.username@,
        v.tls_enabled == (match body.tls_enabled {
            Some(b) => b,
            None => false,
        }),
        opt_view(v.description) == opt_view(body.description),
        v.is_active == (match body.is_active {
            Some(b) => b,
            None => true,
        }),
{
    MqValues {
        name: body.name.clone(),
        host: body.host.clone(),
        port: port_or(body.port, 5672),
        vhost: match &body.vhost {
            Some(h) => h.clone(),
            None => owned("/"),
        },
        username: body.username.clone(),
        tls_enabled: bool_or(body.tls_enabled, false),
        description: copy_opt(&body.description),
        is_active: bool_or(body.is_active, true),
    }
}

// ── SMTP ────────────────────────────────────────────────────────────────────

/// A create or update of an SMTP endpoint.
pub struct SmtpUpsert {
    pub name: String,
    pub host: String,
    pub port: Option<u16>,
    pub username: Option<String>,
    pub password: Option<String>,
    pub from_address: Option<String>,
    pub tls_enabled: Option<bool>,
    pub description: Option<String>,
    pub is_active: Option<bool>,
}

/// The values an SMTP endpoint is stored with.
pub struct SmtpValues {
    pub name: String,
    pub host: String,
    pub port: u16,
    pub username: Option<String>,
    pub from_address: Option<String>,
    pub tls_enabled: bool,
    pub description: Option<String>,
    pub is_active: bool,
}

/// An SMTP endpoint: submission port 587, TLS on and active unless the
/// request says otherwise.
pub fn smtp_values(body: &SmtpUpsert) -> (v: SmtpValues)
    ensures
        v.name@ == body.name@,
        v.host@ == body.host@,
        v.port == (match body.port {
            Some(p) => p,
            None => 587,
        }),
        opt_view(v.username) == opt_view(body.username),
        opt_view(v.from_address) == opt_view(body.from_address),
        v.tls_enabled == (match body.tls_enabled {
            Some(b) => b,
            None => true,
        }),
        opt_view(v.description) == opt_view(body.description),
        v.is_active == (match body.is_active {
            Some(b) => b,
            None => true,
        }),
{
    SmtpValues {
        name: body.name.clone(),
        host: body.host.clone(),
        port: port_or(body.port, 587),
        username: copy_opt(&body.username),
        from_address: copy_opt(&body.from_address),
        tls_enabled: bool_or(body.tls_enabled, true),
        description: copy_opt(&body.description),
        is_active: bool_or(body.is_active, true),
    }
}

// ── Redis ───────────────────────────────────────────────────────────────────

/// A create or update of a Redis endpoint.
pub struct RedisUpsert {
    pub name: String,
    pub host: String,
    pub port: Option<u16>,
    pub password: Option<String>,
    pub db_index: Option<i16>,
    pub tls_enabled: Option<bool>,
    pub description: Option<String>,
    pub is_active: Option<bool>,
}

/// The values a Redis endpoint is stored with.
pub struct RedisValues {
    pub name: String,
    pub host: String,
    pub port: u16,
    pub db_index: i16,
    pub tls_enabled: bool,
    pub description: Option<String>,
    pub is_active: bool,
}

/// A Redis endpoint: port 6379, database 0, no TLS and active unless the
/// request says otherwise.
pub fn redis_values(body: &RedisUpsert) -> (v: RedisValues)
    ensures
        v.name@ == body.name@,
        v.host@ == body.host@,
        v.port == (match body.port {
            Some(p) => p,
            None => 6379,
        }),
        v.db_index == (match body.db_index {
            Some(d) => d,
            None => 0,
        }),
        v.tls_enabled == (match body.tls_enabled {
            Some(b) => b,
            None => false,
        }),
        opt_view(v.description) == opt_view(body.description),
        v.is_active == (match body.is_active {
            Some(b) => b,
            None => true,
        }),
{
    RedisValues {
        name: body.name.clone(),
        host: body.host.clone(),
        port: port_or(body.port, 6379),
        db_index: match body.db_index {
            Some(d) => d,
            None => 0,
        },
        tls_enabled: bool_or(body.tls_enabled, false),
        description: copy_opt(&body.description),
        is_active: bool_or(body.is_active, true),
    }
}

} // verus!
