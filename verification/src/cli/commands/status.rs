//! Status commands: the storage the status is collected from.

use vstd::prelude::*;
use crate::cli::commands::MultiTenantOptions;
use crate::cluster::copy_text;
use crate::text::owned;

verus! {

/// Storage options for status commands.
#[derive(Debug, Clone)]
pub struct StatusStorageOptions {
    pub remote_storage: bool,
    pub bucket: Option<String>,
    pub prefix: Option<String>,
    pub region: Option<String>,
    pub endpoint: Option<String>,
    pub access_key: Option<String>,
    pub secret_key: Option<String>,
    /// Multi-tenant organization options
    pub multi_tenant: MultiTenantOptions,
}

/// The remote storage a status is collected from.
#[derive(Debug, Clone)]
pub struct StorageConfig {
    pub bucket: String,
    pub prefix: Option<String>,
    pub region: Option<String>,
    pub endpoint: Option<String>,
    pub access_key: Option<String>,
    pub secret_key: Option<String>,
}

/// The storage configuration of the options: none when remote storage is
/// off; with remote storage on, a bucket is required.
pub fn create_storage_config(opts: &StatusStorageOptions) -> (r: Result<Option<StorageConfig>, String>)
    ensures
        !opts.remote_storage ==> r matches Ok(None),
        opts.remote_storage && opts.bucket is None ==> (r matches Err(m)
            && m@ == "--storage-bucket is required when --remote-storage is set"@),
        opts.remote_storage && opts.bucket is Some ==> (r matches Ok(Some(c)) && {
            &&& c.bucket == opts.bucket->0
            &&& c.prefix == opts.prefix
            &&& c.region == opts.region
            &&& c.endpoint == opts.endpoint
            &&& c.access_key == opts.access_key
            &&& c.secret_key == opts.secret_key
        }),
{
    if !opts.remote_storage {
        return Ok(None);
    }
    match &opts.bucket {
        None => Err(owned("--storage-bucket is required when --remote-storage is set")),
        Some(b) => Ok(
            Some(
                StorageConfig {
                    bucket: b.clone(),
                    prefix: copy_text(&opts.prefix),
                    region: copy_text(&opts.region),
                    endpoint: copy_text(&opts.endpoint),
                    access_key: copy_text(&opts.access_key),
                    secret_key: copy_text(&opts.secret_key),
                },
            ),
        ),
    }
}

} // verus!
