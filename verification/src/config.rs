//! Run configuration and its validation.
//!
//! A run starts from five strings (container, source directory, destination
//! prefix, account identifier, account credential) and a concurrency limit.
//! Validation happens before any I/O: every string field must be non-empty
//! and the source directory must exist. Whether the directory exists is a
//! fact about the filesystem, so the caller checks it and hands the answer
//! in as a boolean.

use vstd::prelude::*;

verus! {

/// The concurrency limit used when the caller does not choose one.
pub const DEFAULT_CONCURRENCY_LIMIT: usize = 10;

/// Everything one run needs to know before it starts.
#[derive(Debug, Clone)]
pub struct RunConfig {
    /// Name of the destination container.
    pub container: String,
    /// Path of the local directory whose files are uploaded.
    pub source_dir: String,
    /// Prefix put before each file name to form its blob name.
    pub dest_prefix: String,
    /// Identifier of the storage account.
    pub account: String,
    /// Credential for the storage account.
    pub credential: String,
    /// Most uploads allowed to hold a slot at once.
    pub concurrency_limit: usize,
}

/// Why a configuration was rejected; each variant names the first field
/// found wanting, in the order the fields are checked.
#[derive(Debug, Clone, Copy, PartialEq, Eq, Structural)]
pub enum ConfigError {
    EmptyContainer,
    EmptySourceDir,
    EmptyDestPrefix,
    EmptyAccount,
    EmptyCredential,
    SourceDirMissing,
}

impl RunConfig {
    /// A well-formed configuration has a positive concurrency limit.
    pub open spec fn wf(&self) -> bool {
        self.concurrency_limit >= 1
    }

    /// The first validation failure, if any: the string fields are checked
    /// for emptiness in a fixed order, then the source directory for
    /// existence.
    pub open spec fn first_violation(&self, source_exists: bool) -> Option<ConfigError> {
        if self.container@.len() == 0 {
            Some(ConfigError::EmptyContainer)
        } else if self.source_dir@.len() == 0 {
            Some(ConfigError::EmptySourceDir)
        } else if self.dest_prefix@.len() == 0 {
            Some(ConfigError::EmptyDestPrefix)
        } else if self.account@.len() == 0 {
            Some(ConfigError::EmptyAccount)
        } else if self.credential@.len() == 0 {
            Some(ConfigError::EmptyCredential)
        } else if !source_exists {
            Some(ConfigError::SourceDirMissing)
        } else {
            None
        }
    }

    /// Builds a configuration with the default concurrency limit.
    pub fn new(
        container: String,
        source_dir: String,
        dest_prefix: String,
        account: String,
        credential: String,
    ) -> (r: RunConfig)
        ensures
            r.container == container,
            r.source_dir == source_dir,
            r.dest_prefix == dest_prefix,
            r.account == account,
            r.credential == credential,
            r.concurrency_limit == DEFAULT_CONCURRENCY_LIMIT,
            r.wf(),
    {
        RunConfig {
            container,
            source_dir,
            dest_prefix,
            account,
            credential,
            concurrency_limit: DEFAULT_CONCURRENCY_LIMIT,
        }
    }

    /// Accepts the configuration or reports the first violation.
    ///
    /// `source_exists` is the caller's answer to "does the source directory
    /// exist": the one fact validation needs that only the filesystem knows.
    pub fn validate(&self, source_exists: bool) -> (r: Result<(), ConfigError>)
        ensures
            r == match self.first_violation(source_exists) {
                Some(e) => Result::<(), ConfigError>::Err(e),
                None => Result::<(), ConfigError>::Ok(()),
            },
    {
        if self.container.as_str().is_empty() {
            Err(ConfigError::EmptyContainer)
        } else if self.source_dir.as_str().is_empty() {
            Err(ConfigError::EmptySourceDir)
        } else if self.dest_prefix.as_str().is_empty() {
            Err(ConfigError::EmptyDestPrefix)
        } else if self.account.as_str().is_empty() {
            Err(ConfigError::EmptyAccount)
        } else if self.credential.as_str().is_empty() {
            Err(ConfigError::EmptyCredential)
        } else if !source_exists {
            Err(ConfigError::SourceDirMissing)
        } else {
            Ok(())
        }
    }
}

} // verus!
