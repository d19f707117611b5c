//! The error type that every fallible decision of the platform returns.

use vstd::prelude::*;
use crate::text::owned;

verus! {

/// A refused request: its kind and a human-readable message.
#[derive(Debug, Clone)]
pub enum AppError {
    BadRequest(String),
    Unauthorized(String),
    Forbidden(String),
    NotFound(String),
    Conflict(String),
    QuotaExceeded(String),
    Crypto(String),
    Internal(String),
}

/// The kind of a refusal, without its message.
#[derive(PartialEq, Eq, Structural, Debug, Clone, Copy)]
pub enum ErrKind {
    BadRequest,
    Unauthorized,
    Forbidden,
    NotFound,
    Conflict,
    QuotaExceeded,
    Crypto,
    Internal,
}

impl AppError {
    /// The kind of the error.
    pub open spec fn kind(&self) -> ErrKind {
        match self {
            AppError::BadRequest(_) => ErrKind::BadRequest,
            AppError::Unauthorized(_) => ErrKind::Unauthorized,
            AppError::Forbidden(_) => ErrKind::Forbidden,
            AppError::NotFound(_) => ErrKind::NotFound,
            AppError::Conflict(_) => ErrKind::Conflict,
            AppError::QuotaExceeded(_) => ErrKind::QuotaExceeded,
            AppError::Crypto(_) => ErrKind::Crypto,
            AppError::Internal(_) => ErrKind::Internal,
        }
    }

    /// The kind and message of the error.
    pub open spec fn as_pair(&self) -> (ErrKind, Seq<char>) {
        (self.kind(), self.msg())
    }

    /// The message carried by the error.
    pub open spec fn msg(&self) -> Seq<char> {
        match self {
            AppError::BadRequest(m) => m@,
            AppError::Unauthorized(m) => m@,
            AppError::Forbidden(m) => m@,
            AppError::NotFound(m) => m@,
            AppError::Conflict(m) => m@,
            AppError::QuotaExceeded(m) => m@,
            AppError::Crypto(m) => m@,
            AppError::Internal(m) => m@,
        }
    }

    /// The message carried by the error.
    pub fn message(&self) -> (m: String)
        ensures
            m@ == self.msg(),
    {
        match self {
            AppError::BadRequest(m) => m.clone(),
            AppError::Unauthorized(m) => m.clone(),
            AppError::Forbidden(m) => m.clone(),
            AppError::NotFound(m) => m.clone(),
            AppError::Conflict(m) => m.clone(),
            AppError::QuotaExceeded(m) => m.clone(),
            AppError::Crypto(m) => m.clone(),
            AppError::Internal(m) => m.clone(),
        }
    }
}

pub(crate) fn bad_request(m: &str) -> (e: AppError)
    ensures
        e is BadRequest,
        e.msg() == m@,
{
    AppError::BadRequest(owned(m))
}

pub(crate) fn forbidden(m: &str) -> (e: AppError)
    ensures
        e is Forbidden,
        e.msg() == m@,
{
    AppError::Forbidden(owned(m))
}

pub(crate) fn conflict(m: &str) -> (e: AppError)
    ensures
        e is Conflict,
        e.msg() == m@,
{
    AppError::Conflict(owned(m))
}

pub(crate) fn not_found(m: &str) -> (e: AppError)
    ensures
        e is NotFound,
        e.msg() == m@,
{
    AppError::NotFound(owned(m))
}

pub(crate) fn unauthorized(m: &str) -> (e: AppError)
    ensures
        e is Unauthorized,
        e.msg() == m@,
{
    AppError::Unauthorized(owned(m))
}

pub(crate) fn quota_exceeded(m: &str) -> (e: AppError)
    ensures
        e is QuotaExceeded,
        e.msg() == m@,
{
    AppError::QuotaExceeded(owned(m))
}

pub(crate) fn internal(m: &str) -> (e: AppError)
    ensures
        e is Internal,
        e.msg() == m@,
{
    AppError::Internal(owned(m))
}

} // verus!
