//! The caller's own profile: SSH keys and their fingerprints.

use vstd::prelude::*;
use base64::Engine;
use sha2::{Digest, Sha256};
use crate::error::{bad_request, conflict, forbidden, AppError, ErrKind};
use crate::text::{
    cat2, cat4, chars_of, find_char, first_index, has_non_space, lemma_first_index, slice_chars,
    string_of, trim, trim_str, opt_view,
};

verus! {

pub struct AddSshKeyRequest {
    pub name: String,
    pub public_key: String,
}

pub struct UpdateSshKeyRequest {
    pub name: Option<String>,
    pub public_key: Option<String>,
}

/// The first two space-separated fields of a trimmed OpenSSH public key
/// line (`splitn(3, ' ')`): the key type and the base64 key body; none when
/// the line has no space.
pub open spec fn key_fields(public_key: Seq<char>) -> Option<(Seq<char>, Seq<char>)> {
    let t = trim(public_key);
    let k = first_index(t, ' ');
    if k < 0 {
        None
    } else {
        let rest = t.skip(k + 1);
        let j = first_index(rest, ' ');
        Some((t.take(k), if j < 0 { rest } else { rest.take(j) }))
    }
}

/// Splits a public key line into its type and its base64 body.
pub fn ssh_key_fields(public_key: &str) -> (r: Option<(String, String)>)
    ensures
        match r {
            Some((a, b)) => key_fields(public_key@) == Some((a@, b@)),
            None => key_fields(public_key@) is None,
        },
{
    let t = trim_str(public_key);
    let k = match find_char(&t, ' ') {
        None => return None,
        Some(k) => k,
    };
    proof {
        lemma_first_index(t@, ' ');
    }
    let key_type = slice_chars(&t, 0, k);
    let rest = slice_chars(&t, k + 1, t.len());
    assert(key_type@ =~= t@.take(k as int));
    assert(rest@ =~= t@.skip(k + 1));
    let body = match find_char(&rest, ' ') {
        None => rest,
        Some(j) => {
            proof {
                lemma_first_index(rest@, ' ');
            }
            let b = slice_chars(&rest, 0, j);
            assert(b@ =~= rest@.take(j as int));
            b
        },
    };
    Some((string_of(&key_type), string_of(&body)))
}

/// The bytes that standard base64 (with padding) decodes a text to, or none
/// when the text is not valid base64.
pub uninterp spec fn base64_decoded(text: Seq<char>) -> Option<Seq<u8>>;

/// The SHA-256 digest of a byte string.
pub uninterp spec fn sha256_of(bytes: Seq<u8>) -> Seq<u8>;

/// The standard base64 text, without padding, of a byte string.
pub uninterp spec fn base64_unpadded(bytes: Seq<u8>) -> Seq<char>;

/// Trusted: `base64::engine::general_purpose::STANDARD.decode`; its outcome
/// depends on the text alone.
#[verifier::external_body]
fn b64_decode(text: &str) -> (r: Option<Vec<u8>>)
    ensures
        match r {
            Some(b) => base64_decoded(text@) == Some(b@),
            None => base64_decoded(text@) is None,
        },
{
    base64::engine::general_purpose::STANDARD.decode(text).ok()
}

/// Trusted: `sha2::Sha256::digest`, 32 bytes determined by the input.
#[verifier::external_body]
fn sha256(bytes: &Vec<u8>) -> (d: Vec<u8>)
    ensures
        d@ == sha256_of(bytes@),
        d@.len() == 32,
{
    Sha256::digest(bytes).to_vec()
}

/// Trusted: `base64::engine::general_purpose::STANDARD_NO_PAD.encode`.
#[verifier::external_body]
fn b64_encode_unpadded(bytes: &Vec<u8>) -> (s: String)
    ensures
        s@ == base64_unpadded(bytes@),
{
    base64::engine::general_purpose::STANDARD_NO_PAD.encode(bytes)
}

/// The fingerprint text `SHA256:<digest> (<key type>)`.
pub fn fingerprint_text(digest_b64: &str, key_type: &str) -> (s: String)
    ensures
        s@ == "SHA256:"@ + digest_b64@ + " ("@ + key_type@ + ")"@,
{
    let a = cat4("SHA256:", digest_b64, " (", key_type);
    crate::text::cat2(a.as_str(), ")")
}

/// The fingerprint of a key line, if its body decodes.
pub open spec fn fingerprint_spec(public_key: Seq<char>) -> Option<Seq<char>> {
    match key_fields(public_key) {
        None => None,
        Some((key_type, body)) => match base64_decoded(body) {
            None => None,
            Some(bytes) => Some("SHA256:"@ + base64_unpadded(sha256_of(bytes)) + " ("@ + key_type + ")"@),
        },
    }
}

/// Compute SSH public key fingerprint in `SHA256:base64 (key-type)` format.
pub fn compute_ssh_fingerprint(public_key: &str) -> (r: Option<String>)
    ensures
        opt_view(r) == fingerprint_spec(public_key@),
{
    let (key_type, body) = match ssh_key_fields(public_key) {
        None => return None,
        Some(p) => p,
    };
    let bytes = match b64_decode(body.as_str()) {
        None => return None,
        Some(b) => b,
    };
    let digest = sha256(&bytes);
    let fp = b64_encode_unpadded(&digest);
    Some(fingerprint_text(fp.as_str(), key_type.as_str()))
}

/// A key to store: its trimmed name, trimmed public key and fingerprint.
pub struct NewSshKey {
    pub name: String,
    pub public_key: String,
    pub fingerprint: String,
}

/// Checks `POST /profile/ssh-keys`: a name is required and the key must
/// have a fingerprint.
pub fn prepare_ssh_key(body: &AddSshKeyRequest) -> (r: Result<NewSshKey, AppError>)
    ensures
        !has_non_space(body.name@) ==> (r matches Err(e) && e.as_pair() == (ErrKind::BadRequest, "key name is required"@)),
        has_non_space(body.name@) && fingerprint_spec(trim(body.public_key@)) is None ==> (r matches Err(e)
            && e.as_pair() == (ErrKind::BadRequest, "invalid SSH public key format"@)),
        has_non_space(body.name@) ==> (fingerprint_spec(trim(body.public_key@)) matches Some(f) ==> (
            r matches Ok(k) && k.name@ == trim(body.name@) && k.public_key@ == trim(body.public_key@)
                && k.fingerprint@ == f)),
{
    let name = trim_str(body.name.as_str());
    if name.len() == 0 {
        return Err(bad_request("key name is required"));
    }
    let key = string_of(&trim_str(body.public_key.as_str()));
    match compute_ssh_fingerprint(key.as_str()) {
        None => Err(bad_request("invalid SSH public key format")),
        Some(f) => Ok(NewSshKey { name: string_of(&name), public_key: key, fingerprint: f }),
    }
}

pub open spec fn blank_name(o: Option<String>) -> bool {
    match o {
        Some(n) => !has_non_space(n@),
        None => false,
    }
}

pub open spec fn bad_key(o: Option<String>) -> bool {
    match o {
        Some(x) => fingerprint_spec(trim(x@)) is None,
        None => false,
    }
}

pub open spec fn trimmed_opt(o: Option<String>) -> Option<Seq<char>> {
    match o {
        Some(x) => Some(trim(x@)),
        None => None,
    }
}

/// The changes of `PUT /profile/ssh-keys/:id`: (trimmed name, trimmed key,
/// fingerprint), each none when not changed; a blank name or a key without
/// a fingerprint is refused.
pub fn prepare_ssh_key_update(body: &UpdateSshKeyRequest) -> (r: Result<
    (Option<String>, Option<String>, Option<String>),
    AppError,
>)
    ensures
        blank_name(body.name) ==> (r matches Err(e) && e.as_pair() == (ErrKind::BadRequest, "key name is required"@)),
        !blank_name(body.name) && bad_key(body.public_key) ==> (r matches Err(e) && e.as_pair() == (
            ErrKind::BadRequest,
            "invalid SSH public key format"@,
        )),
        !blank_name(body.name) && !bad_key(body.public_key) ==> (r matches Ok((n, k, f)) && opt_view(n)
            == trimmed_opt(body.name) && opt_view(k) == trimmed_opt(body.public_key) && opt_view(f) == (
        match body.public_key {
            Some(x) => fingerprint_spec(trim(x@)),
            None => None,
        })),
{
    let name = match &body.name {
        Some(n) => {
            let t = trim_str(n.as_str());
            if t.len() == 0 {
                return Err(bad_request("key name is required"));
            }
            Some(string_of(&t))
        },
        None => None,
    };
    match &body.public_key {
        None => Ok((name, None, None)),
        Some(k) => {
            let key = string_of(&trim_str(k.as_str()));
            match compute_ssh_fingerprint(key.as_str()) {
                None => Err(bad_request("invalid SSH public key format")),
                Some(f) => Ok((name, Some(key), Some(f))),
            }
        },
    }
}

/// The outcome of writing one of the caller's SSH keys: a key the caller
/// already has is refused (409), and a key that is not the caller's is not
/// found (404 `ssh key <id>`).
pub fn ssh_key_written(duplicate: bool, rows_affected: u64, key_id: &str) -> (r: Result<(), AppError>)
    ensures
        duplicate ==> (r matches Err(e) && e.as_pair() == (
            ErrKind::Conflict,
            "this SSH key is already added to your account"@,
        )),
        !duplicate && rows_affected == 0 ==> (r matches Err(e) && e.as_pair() == (
            ErrKind::NotFound,
            "ssh key "@ + key_id@,
        )),
        !duplicate && rows_affected > 0 ==> r is Ok,
{
    if duplicate {
        return Err(conflict("this SSH key is already added to your account"));
    }
    if rows_affected == 0 {
        return Err(AppError::NotFound(cat2("ssh key ", key_id)));
    }
    Ok(())
}

/// `PUT /profile`: identity fields are managed by admins, so the route
/// always refuses.
pub fn update_profile() -> (r: Result<(), AppError>)
    ensures
        r matches Err(e) && e.as_pair() == (
            ErrKind::Forbidden,
            "profile identity fields are admin-managed; users may only manage SSH keys"@,
        ),
{
    Err(forbidden("profile identity fields are admin-managed; users may only manage SSH keys"))
}

/// `PUT /profile/password`: passwords are managed by admins, so the route
/// always refuses.
pub fn change_password() -> (r: Result<(), AppError>)
    ensures
        r matches Err(e) && e.as_pair() == (
            ErrKind::Forbidden,
            "password changes are admin-managed; users may only manage SSH keys"@,
        ),
{
    Err(forbidden("password changes are admin-managed; users may only manage SSH keys"))
}

} // verus!
