//! The controller's error taxonomy.
//!
//! Each operation reports failure through one of the types below; no error is
//! ever swallowed, and no operation retries on its own.

use vstd::prelude::*;

verus! {

/// The configuration field that failed to parse into its domain form.
#[derive(Clone, Copy, Debug, PartialEq, Eq, Structural)]
pub enum ConfigField {
    Account,
    Project,
    AccessKeyId,
    LabelName,
    LabelValue,
}

impl ConfigField {
    /// The name of the offending field, for reporting at the host boundary.
    pub fn name(&self) -> (r: &'static str)
        ensures
            *self is Account ==> r@ == "account"@,
            *self is Project ==> r@ == "project"@,
            *self is AccessKeyId ==> r@ == "access_key_id"@,
            *self is LabelName ==> r@ == "label name"@,
            *self is LabelValue ==> r@ == "label value"@,
    {
        match self {
            ConfigField::Account => "account",
            ConfigField::Project => "project",
            ConfigField::AccessKeyId => "access_key_id",
            ConfigField::LabelName => "label name",
            ConfigField::LabelValue => "label value",
        }
    }
}

/// A configuration field failed to parse; recoverable by fixing the input.
#[derive(Clone, Copy, Debug, PartialEq, Eq, Structural)]
pub struct ConfigError {
    pub field: ConfigField,
}

/// A reload signal could not be delivered: the receiving end is gone.
#[derive(Clone, Copy, Debug, PartialEq, Eq, Structural)]
pub enum SignalError {
    NoActiveRun,
}

/// Failure of the `stop` operation.
#[derive(Clone, Copy, Debug, PartialEq, Eq, Structural)]
pub enum StopError {
    /// The one-shot stop sender was already consumed by an earlier `stop`.
    AlreadyStopped,
    /// The stop receiver is gone (the run already ended); benign.
    NoActiveRun,
}

/// Failure of a spawn attempt.
#[derive(Debug, PartialEq, Eq)]
pub enum SpawnError {
    /// The instance's run parts were already taken by an earlier spawn.
    AlreadySpawned,
    /// The DNS resolver could not be built from system configuration.
    ResolverInit(String),
    /// The service's run ended with an error; carries the underlying message.
    Run(String),
}

impl StopError {
    /// A short description, for reporting at the host boundary.
    pub fn describe(&self) -> (r: &'static str)
        ensures
            *self is AlreadyStopped ==> r@ == "instance already stopped"@,
            *self is NoActiveRun ==> r@ == "no active run to signal"@,
    {
        match self {
            StopError::AlreadyStopped => "instance already stopped",
            StopError::NoActiveRun => "no active run to signal",
        }
    }
}

impl SignalError {
    /// A short description, for reporting at the host boundary.
    pub fn describe(&self) -> (r: &'static str)
        ensures
            r@ == "no active run to signal"@,
    {
        match self {
            SignalError::NoActiveRun => "no active run to signal",
        }
    }
}

} // verus!
