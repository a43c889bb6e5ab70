//! Errors of the disaster-recovery contract.

use vstd::prelude::*;

verus! {

#[derive(Clone, Copy, Debug, PartialEq, Eq, Structural)]
pub enum DisasterRecoveryError {
    Unauthorized,
    NotAdmin,
    NotGuardian,
    NotRecoveryCouncil,
    ContractPaused,
    ContractNotPaused,
    AlreadyPaused,
    PauseCooldownActive,
    EmergencyOnlyMode,
    CircuitBreakerOpen,
    CircuitBreakerAlreadyOpen,
    CircuitBreakerAlreadyClosed,
    ThresholdNotReached,
    InvalidThreshold,
    CircuitBreakerCooldown,
    RecoveryAlreadyActive,
    RecoveryNotActive,
    RecoveryExpired,
    InsufficientQuorum,
    RecoveryActionInvalid,
    RecoveryWindowClosed,
    RecoveryAlreadyExecuted,
    AlertAlreadyActive,
    AlertNotFound,
    InvalidAlertLevel,
    MonitoringDisabled,
    InvalidParameters,
    OperationFailed,
    DataCorruption,
    InternalError,
}

pub open spec fn spec_dr_error_code(e: DisasterRecoveryError) -> u32 {
    match e {
        DisasterRecoveryError::Unauthorized => 1,
        DisasterRecoveryError::NotAdmin => 2,
        DisasterRecoveryError::NotGuardian => 3,
        DisasterRecoveryError::NotRecoveryCouncil => 4,
        DisasterRecoveryError::ContractPaused => 10,
        DisasterRecoveryError::ContractNotPaused => 11,
        DisasterRecoveryError::AlreadyPaused => 12,
        DisasterRecoveryError::PauseCooldownActive => 13,
        DisasterRecoveryError::EmergencyOnlyMode => 14,
        DisasterRecoveryError::CircuitBreakerOpen => 20,
        DisasterRecoveryError::CircuitBreakerAlreadyOpen => 21,
        DisasterRecoveryError::CircuitBreakerAlreadyClosed => 22,
        DisasterRecoveryError::ThresholdNotReached => 23,
        DisasterRecoveryError::InvalidThreshold => 24,
        DisasterRecoveryError::CircuitBreakerCooldown => 25,
        DisasterRecoveryError::RecoveryAlreadyActive => 30,
        DisasterRecoveryError::RecoveryNotActive => 31,
        DisasterRecoveryError::RecoveryExpired => 32,
        DisasterRecoveryError::InsufficientQuorum => 33,
        DisasterRecoveryError::RecoveryActionInvalid => 34,
        DisasterRecoveryError::RecoveryWindowClosed => 35,
        DisasterRecoveryError::RecoveryAlreadyExecuted => 36,
        DisasterRecoveryError::AlertAlreadyActive => 40,
        DisasterRecoveryError::AlertNotFound => 41,
        DisasterRecoveryError::InvalidAlertLevel => 42,
        DisasterRecoveryError::MonitoringDisabled => 43,
        DisasterRecoveryError::InvalidParameters => 50,
        DisasterRecoveryError::OperationFailed => 51,
        DisasterRecoveryError::DataCorruption => 52,
        DisasterRecoveryError::InternalError => 53,
    }
}

impl DisasterRecoveryError {
    /// The contract error number.
    pub fn code(&self) -> (c: u32)
        ensures
            c == spec_dr_error_code(*self),
    {
        match self {
            DisasterRecoveryError::Unauthorized => 1,
            DisasterRecoveryError::NotAdmin => 2,
            DisasterRecoveryError::NotGuardian => 3,
            DisasterRecoveryError::NotRecoveryCouncil => 4,
            DisasterRecoveryError::ContractPaused => 10,
            DisasterRecoveryError::ContractNotPaused => 11,
            DisasterRecoveryError::AlreadyPaused => 12,
            DisasterRecoveryError::PauseCooldownActive => 13,
            DisasterRecoveryError::EmergencyOnlyMode => 14,
            DisasterRecoveryError::CircuitBreakerOpen => 20,
            DisasterRecoveryError::CircuitBreakerAlreadyOpen => 21,
            DisasterRecoveryError::CircuitBreakerAlreadyClosed => 22,
            DisasterRecoveryError::ThresholdNotReached => 23,
            DisasterRecoveryError::InvalidThreshold => 24,
            DisasterRecoveryError::CircuitBreakerCooldown => 25,
            DisasterRecoveryError::RecoveryAlreadyActive => 30,
            DisasterRecoveryError::RecoveryNotActive => 31,
            DisasterRecoveryError::RecoveryExpired => 32,
            DisasterRecoveryError::InsufficientQuorum => 33,
            DisasterRecoveryError::RecoveryActionInvalid => 34,
            DisasterRecoveryError::RecoveryWindowClosed => 35,
            DisasterRecoveryError::RecoveryAlreadyExecuted => 36,
            DisasterRecoveryError::AlertAlreadyActive => 40,
            DisasterRecoveryError::AlertNotFound => 41,
            DisasterRecoveryError::InvalidAlertLevel => 42,
            DisasterRecoveryError::MonitoringDisabled => 43,
            DisasterRecoveryError::InvalidParameters => 50,
            DisasterRecoveryError::OperationFailed => 51,
            DisasterRecoveryError::DataCorruption => 52,
            DisasterRecoveryError::InternalError => 53,
        }
    }
}

} // verus!
