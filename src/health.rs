//! Liveness, readiness and health records.
use vstd::prelude::*;

verus! {

/// The state of the storage directories.
#[derive(Debug)]
pub struct StorageHealth {
    pub accessible: bool,
    pub blobs_path: String,
    pub manifests_path: String,
    pub writable: bool,
}

/// The detailed health report.
#[derive(Debug)]
pub struct HealthResponse {
    pub status: String,
    pub version: String,
    pub uptime_seconds: u64,
    pub storage: StorageHealth,
}

/// The checks behind readiness.
#[derive(Debug)]
pub struct ReadinessChecks {
    pub storage_accessible: bool,
    pub users_loaded: bool,
}

/// The readiness report.
#[derive(Debug)]
pub struct ReadinessResponse {
    pub ready: bool,
    pub checks: ReadinessChecks,
}

impl ReadinessResponse {
    /// Ready when storage is accessible and users are loaded.
    pub fn from_checks(storage_accessible: bool, users_loaded: bool) -> (r: ReadinessResponse)
        ensures
            r.ready == (storage_accessible && users_loaded),
            r.checks.storage_accessible == storage_accessible,
            r.checks.users_loaded == users_loaded,
    {
        ReadinessResponse {
            ready: storage_accessible && users_loaded,
            checks: ReadinessChecks { storage_accessible, users_loaded },
        }
    }

    /// 200 when ready, 503 otherwise.
    pub fn status_code(&self) -> (r: u16)
        ensures
            r == if self.ready {
                200u16
            } else {
                503u16
            },
    {
        if self.ready {
            200
        } else {
            503
        }
    }
}

impl HealthResponse {
    /// The report for the given storage state: healthy when storage is
    /// accessible and writable.
    pub fn new(version: String, uptime_seconds: u64, accessible: bool, writable: bool) -> (r:
        HealthResponse)
        ensures
            r.status@ == if accessible && writable {
                "healthy"@
            } else {
                "unhealthy"@
            },
            r.version == version,
            r.uptime_seconds == uptime_seconds,
            r.storage.accessible == accessible,
            r.storage.writable == writable,
            r.storage.blobs_path@ == "./tmp/blobs"@,
            r.storage.manifests_path@ == "./tmp/manifests"@,
    {
        let status = if accessible && writable {
            String::from_str("healthy")
        } else {
            String::from_str("unhealthy")
        };
        HealthResponse {
            status,
            version,
            uptime_seconds,
            storage: StorageHealth {
                accessible,
                blobs_path: String::from_str("./tmp/blobs"),
                manifests_path: String::from_str("./tmp/manifests"),
                writable,
            },
        }
    }

    /// 200 when healthy, 503 otherwise.
    pub fn status_code(&self) -> (r: u16)
        ensures
            r == if self.storage.accessible && self.storage.writable {
                200u16
            } else {
                503u16
            },
    {
        if self.storage.accessible && self.storage.writable {
            200
        } else {
            503
        }
    }
}

} // verus!
