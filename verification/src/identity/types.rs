//! Records of the identity registry.

use vstd::prelude::*;
use crate::common::Address;

verus! {

#[derive(Clone, Copy, Debug, PartialEq, Eq, Structural)]
pub enum CredentialType {
    AcademyGraduation,
    CourseCertificate,
    SkillBadge,
    IdentityVerification,
}

/// The identifier document an account registered.
#[derive(Debug)]
pub struct IdentityMetadata {
    pub did_uri: Vec<u8>,
    pub public_key: [u8; 32],
    pub created_at: u64,
    pub updated_at: u64,
}

/// A credential; only the hash of its claim (data and salt) is kept.
#[derive(Debug)]
pub struct Credential {
    pub issuer: Address,
    pub subject: Address,
    pub credential_type: CredentialType,
    pub claim_hash: [u8; 32],
    pub signature: Vec<u8>,
    pub issued_at: u64,
    pub expires_at: Option<u64>,
    pub is_revoked: bool,
}

pub enum DataKey {
    Admin,
    Identity(Address),
    Credential([u8; 32]),
    Verifier(Address),
}

#[derive(Clone, Copy, Debug, PartialEq, Eq, Structural)]
pub enum Error {
    NotInitialized,
    AlreadyInitialized,
    Unauthorized,
    NotFound,
    AlreadyExists,
    Revoked,
    Expired,
    InvalidHash,
}

impl Error {
    /// The contract error code.
    pub fn code(&self) -> (c: u32)
        ensures
            c == match *self {
                Error::NotInitialized => 1u32,
                Error::AlreadyInitialized => 2,
                Error::Unauthorized => 3,
                Error::NotFound => 4,
                Error::AlreadyExists => 5,
                Error::Revoked => 6,
                Error::Expired => 7,
                Error::InvalidHash => 8,
            },
    {
        match *self {
            Error::NotInitialized => 1,
            Error::AlreadyInitialized => 2,
            Error::Unauthorized => 3,
            Error::NotFound => 4,
            Error::AlreadyExists => 5,
            Error::Revoked => 6,
            Error::Expired => 7,
            Error::InvalidHash => 8,
        }
    }
}

pub struct IdentityMetadataView {
    pub did_uri: Seq<u8>,
    pub public_key: Seq<u8>,
    pub created_at: u64,
    pub updated_at: u64,
}

impl View for IdentityMetadata {
    type V = IdentityMetadataView;

    open spec fn view(&self) -> IdentityMetadataView {
        IdentityMetadataView {
            did_uri: self.did_uri@,
            public_key: self.public_key@,
            created_at: self.created_at,
            updated_at: self.updated_at,
        }
    }
}

pub struct CredentialView {
    pub issuer: Address,
    pub subject: Address,
    pub credential_type: CredentialType,
    pub claim_hash: Seq<u8>,
    pub signature: Seq<u8>,
    pub issued_at: u64,
    pub expires_at: Option<u64>,
    pub is_revoked: bool,
}

impl View for Credential {
    type V = CredentialView;

    open spec fn view(&self) -> CredentialView {
        CredentialView {
            issuer: self.issuer,
            subject: self.subject,
            credential_type: self.credential_type,
            claim_hash: self.claim_hash@,
            signature: self.signature@,
            issued_at: self.issued_at,
            expires_at: self.expires_at,
            is_revoked: self.is_revoked,
        }
    }
}

} // verus!
