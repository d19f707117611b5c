//! Compute clusters administered by the platform: the K3s join token, the
//! values a cluster is created and updated with, and when one may go.

use vstd::prelude::*;
use crate::columns::flag;
use rand::Rng;
use crate::error::{AppError, ErrKind};
use crate::text::{cat2, cat3, copy_opt, dec, decimal_string, opt_view, owned, str_eq, string_of};

verus! {

/// A lowercase hexadecimal digit.
pub open spec fn is_lower_hex(c: char) -> bool {
    ('0' <= c && c <= '9') || ('a' <= c && c <= 'f')
}

/// The digit of a value below 16.
pub open spec fn hex_digit(d: u8) -> char {
    if d < 10 {
        ((48 + d) as u8) as char
    } else {
        ((87 + d) as u8) as char
    }
}

fn hex_digit_char(d: u8) -> (c: char)
    requires
        d < 16,
    ensures
        c == hex_digit(d),
        is_lower_hex(c),
{
    if d < 10 {
        let x: u8 = 48 + d;
        x as char
    } else {
        let x: u8 = 87 + d;
        x as char
    }
}

/// The two lowercase hexadecimal digits of a byte (`{:02x}`).
pub open spec fn hex_byte(b: u8) -> Seq<char> {
    seq![hex_digit(b / 16), hex_digit(b % 16)]
}

/// The lowercase hexadecimal text of a byte string.
pub open spec fn hex_of(bytes: Seq<u8>) -> Seq<char>
    decreases bytes.len(),
{
    if bytes.len() == 0 {
        Seq::empty()
    } else {
        hex_of(bytes.drop_last()) + hex_byte(bytes.last())
    }
}

proof fn lemma_hex_of_shape(bytes: Seq<u8>)
    ensures
        hex_of(bytes).len() == 2 * bytes.len(),
        forall|i: int| 0 <= i < hex_of(bytes).len() ==> is_lower_hex(#[trigger] hex_of(bytes)[i]),
    decreases bytes.len(),
{
    if bytes.len() > 0 {
        lemma_hex_of_shape(bytes.drop_last());
        let b = bytes.last();
        assert(b / 16 < 16 && b % 16 < 16) by (bit_vector);
        let prev = hex_of(bytes.drop_last());
        assert forall|i: int| 0 <= i < hex_of(bytes).len() implies is_lower_hex(#[trigger] hex_of(bytes)[i]) by {
            if i < prev.len() {
                assert(hex_of(bytes)[i] == prev[i]);
            } else if i == prev.len() {
                assert(hex_of(bytes)[i] == hex_digit(b / 16));
            } else {
                assert(hex_of(bytes)[i] == hex_digit(b % 16));
            }
        }
    }
}

/// Writes bytes as lowercase hexadecimal, two digits each.
pub fn hex_text(bytes: &Vec<u8>) -> (t: String)
    ensures
        t@ == hex_of(bytes@),
{
    let mut out: Vec<char> = Vec::new();
    let mut i: usize = 0;
    while i < bytes.len()
        invariant
            i <= bytes.len(),
            out@ == hex_of(bytes@.take(i as int)),
        decreases bytes.len() - i,
    {
        let b = bytes[i];
        assert(b / 16 < 16 && b % 16 < 16) by (bit_vector);
        out.push(hex_digit_char(b / 16));
        out.push(hex_digit_char(b % 16));
        proof {
            assert(bytes@.take(i as int + 1).drop_last() =~= bytes@.take(i as int));
            assert(out@ =~= hex_of(bytes@.take(i as int + 1)));
        }
        i += 1;
    }
    assert(bytes@.take(bytes.len() as int) =~= bytes@);
    string_of(&out)
}

/// Trusted: `rand::Rng::gen::<u8>` on the thread-local generator. Any byte
/// may come back.
#[verifier::external_body]
fn random_byte() -> (b: u8) {
    rand::thread_rng().gen::<u8>()
}

/// A fresh K3s join token: 32 random bytes as 64 lowercase hexadecimal
/// digits.
pub fn generate_k3s_token() -> (t: String)
    ensures
        t@.len() == 64,
        forall|i: int| 0 <= i < 64 ==> is_lower_hex(#[trigger] t@[i]),
{
    let mut bytes: Vec<u8> = Vec::new();
    let mut i: usize = 0;
    while i < 32
        invariant
            i <= 32,
            bytes.len() == i,
        decreases 32 - i,
    {
        bytes.push(random_byte());
        i += 1;
    }
    proof {
        lemma_hex_of_shape(bytes@);
    }
    hex_text(&bytes)
}

/// `POST /admin/clusters`.
pub struct CreateClusterRequest {
    pub pool_id: Option<String>,
    pub name: String,
    pub display_name: Option<String>,
    pub description: Option<String>,
    pub k3s_token: Option<String>,
    pub ip_pool_id: Option<String>,
    pub node_main_iface: Option<String>,
    pub orchestrator: Option<String>,
}

/// `PUT /admin/clusters/:id`.
pub struct UpdateClusterRequest {
    pub display_name: Option<String>,
    pub description: Option<String>,
    pub is_active: Option<bool>,
    pub ip_pool_id: Option<String>,
    pub node_main_iface: Option<String>,
}

/// The join token of a new cluster: the given one, else a generated one.
pub fn k3s_token_or_generated(given: Option<String>) -> (t: String)
    ensures
        match given {
            Some(g) => t == g,
            None => t@.len() == 64 && forall|i: int| 0 <= i < 64 ==> is_lower_hex(#[trigger] t@[i]),
        },
{
    match given {
        Some(g) => g,
        None => generate_k3s_token(),
    }
}

/// A resource pool named in the request must exist (404).
pub fn check_pool_exists(pool_id: &str, count: i64) -> (r: Result<(), AppError>)
    ensures
        r is Ok <==> count != 0,
        r matches Err(e) ==> e.as_pair() == (ErrKind::NotFound, "resource pool "@ + pool_id@),
{
    if count == 0 {
        return Err(AppError::NotFound(cat2("resource pool ", pool_id)));
    }
    Ok(())
}

/// The values a new cluster is stored with besides its token.
pub struct ClusterInsert {
    pub display_name: String,
    pub node_main_iface: String,
    pub docker: bool,
}

/// A new cluster shows its name unless given a display name, uses `eth0`
/// unless given a NIC, and runs Docker only when asked for `DOCKER` (K3s
/// otherwise).
pub fn cluster_insert(body: &CreateClusterRequest) -> (r: ClusterInsert)
    ensures
        r.display_name@ == (match body.display_name {
            Some(d) => d@,
            None => body.name@,
        }),
        r.node_main_iface@ == (match body.node_main_iface {
            Some(n) => n@,
            None => "eth0"@,
        }),
        r.docker == (opt_view(body.orchestrator) == Some("DOCKER"@)),
{
    ClusterInsert {
        display_name: match &body.display_name {
            Some(d) => d.clone(),
            None => body.name.clone(),
        },
        node_main_iface: match &body.node_main_iface {
            Some(n) => n.clone(),
            None => owned("eth0"),
        },
        docker: match &body.orchestrator {
            Some(o) => str_eq(o.as_str(), "DOCKER"),
            None => false,
        },
    }
}

/// A cluster as stored (its editable columns).
pub struct ClusterRow {
    pub display_name: Option<String>,
    pub description: Option<String>,
    pub is_active: i8,
    pub ip_pool_id: Option<String>,
    pub node_main_iface: String,
}

/// The columns an update writes: each given field replaces the stored
/// one; a display name that was never set is written as empty.
pub struct ClusterUpdate {
    pub display_name: String,
    pub description: Option<String>,
    pub is_active: i8,
    pub ip_pool_id: Option<String>,
    pub node_main_iface: String,
}

pub fn cluster_update(existing: &ClusterRow, body: &UpdateClusterRequest) -> (r: ClusterUpdate)
    ensures
        r.display_name@ == (match body.display_name {
            Some(d) => d@,
            None => match existing.display_name {
                Some(d) => d@,
                None => Seq::empty(),
            },
        }),
        opt_view(r.description) == (match body.description {
            Some(x) => Some(x@),
            None => opt_view(existing.description),
        }),
        r.is_active == (match body.is_active {
            Some(b) => flag(b),
            None => existing.is_active,
        }),
        opt_view(r.ip_pool_id) == (match body.ip_pool_id {
            Some(x) => Some(x@),
            None => opt_view(existing.ip_pool_id),
        }),
        r.node_main_iface@ == (match body.node_main_iface {
            Some(n) => n@,
            None => existing.node_main_iface@,
        }),
{
    ClusterUpdate {
        display_name: match &body.display_name {
            Some(d) => d.clone(),
            None => match &existing.display_name {
                Some(d) => d.clone(),
                None => String::new(),
            },
        },
        description: match &body.description {
            Some(x) => Some(x.clone()),
            None => copy_opt(&existing.description),
        },
        is_active: match body.is_active {
            Some(b) => if b {
                1
            } else {
                0
            },
            None => existing.is_active,
        },
        ip_pool_id: match &body.ip_pool_id {
            Some(x) => Some(x.clone()),
            None => copy_opt(&existing.ip_pool_id),
        },
        node_main_iface: match &body.node_main_iface {
            Some(n) => n.clone(),
            None => existing.node_main_iface.clone(),
        },
    }
}

/// A cluster with nodes cannot be deleted (409).
pub fn check_cluster_deletable(node_count: i64) -> (r: Result<(), AppError>)
    ensures
        r is Ok <==> node_count <= 0,
        r matches Err(e) ==> e.as_pair() == (ErrKind::Conflict, "cluster has "@ + dec(node_count as nat)
            + " node(s); remove them first"@),
{
    if node_count > 0 {
        let n = decimal_string(node_count as u64);
        return Err(AppError::Conflict(cat3("cluster has ", n.as_str(), " node(s); remove them first")));
    }
    Ok(())
}

} // verus!
