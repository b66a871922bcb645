//! The answers of the plugin lifecycle and reload operations.

use crate::errors::{lifecycle_error, reports_lifecycle, StewardFailure};
use crate::responses::ClientResponse;
use vstd::prelude::*;

verus! {

/// What a lifecycle operation did.
#[derive(Debug)]
pub struct PluginLifecycleOutcome {
    pub plugin: String,
    pub was_currently_admitted: bool,
    pub change_applied: bool,
}

/// What a catalogue reload did.
#[derive(Debug)]
pub struct CatalogueReloadOutcome {
    pub from_schema_version: u32,
    pub to_schema_version: u32,
    pub rack_count: u32,
    pub duration_ms: u64,
    pub dry_run: bool,
}

/// What a manifest reload did.
#[derive(Debug)]
pub struct ManifestReloadOutcome {
    pub plugin: String,
    pub from_manifest_version: String,
    pub to_manifest_version: String,
    pub duration_ms: u64,
    pub dry_run: bool,
}

/// The answer of `enable_plugin`, `disable_plugin`, `uninstall_plugin` and
/// `purge_plugin_state`.
pub fn lifecycle_reply(op: &str, outcome: Result<PluginLifecycleOutcome, StewardFailure>) -> (r:
    ClientResponse)
    ensures
        match outcome {
            Ok(o) => r == (ClientResponse::PluginLifecycle {
                plugin_lifecycle: true,
                plugin: o.plugin,
                was_currently_admitted: o.was_currently_admitted,
                change_applied: o.change_applied,
            }),
            Err(failure) => r matches ClientResponse::Error { error } && reports_lifecycle(
                error,
                op@,
                failure,
            ),
        },
{
    match outcome {
        Ok(o) => ClientResponse::PluginLifecycle {
            plugin_lifecycle: true,
            plugin: o.plugin,
            was_currently_admitted: o.was_currently_admitted,
            change_applied: o.change_applied,
        },
        Err(failure) => ClientResponse::Error { error: lifecycle_error(op, &failure) },
    }
}

/// The answer of `reload_catalogue`.
pub fn reload_catalogue_reply(outcome: Result<CatalogueReloadOutcome, StewardFailure>) -> (r:
    ClientResponse)
    ensures
        match outcome {
            Ok(o) => r == (ClientResponse::CatalogueReloaded {
                catalogue_reload: true,
                from_schema_version: o.from_schema_version,
                to_schema_version: o.to_schema_version,
                rack_count: o.rack_count,
                duration_ms: o.duration_ms,
                dry_run: o.dry_run,
            }),
            Err(failure) => r matches ClientResponse::Error { error } && reports_lifecycle(
                error,
                "reload_catalogue"@,
                failure,
            ),
        },
{
    match outcome {
        Ok(o) => ClientResponse::CatalogueReloaded {
            catalogue_reload: true,
            from_schema_version: o.from_schema_version,
            to_schema_version: o.to_schema_version,
            rack_count: o.rack_count,
            duration_ms: o.duration_ms,
            dry_run: o.dry_run,
        },
        Err(failure) => ClientResponse::Error {
            error: lifecycle_error("reload_catalogue", &failure),
        },
    }
}

/// The answer of `reload_manifest`.
pub fn reload_manifest_reply(outcome: Result<ManifestReloadOutcome, StewardFailure>) -> (r:
    ClientResponse)
    ensures
        match outcome {
            Ok(o) => r == (ClientResponse::ManifestReloaded {
                manifest_reload: true,
                plugin: o.plugin,
                from_manifest_version: o.from_manifest_version,
                to_manifest_version: o.to_manifest_version,
                duration_ms: o.duration_ms,
                dry_run: o.dry_run,
            }),
            Err(failure) => r matches ClientResponse::Error { error } && reports_lifecycle(
                error,
                "reload_manifest"@,
                failure,
            ),
        },
{
    match outcome {
        Ok(o) => ClientResponse::ManifestReloaded {
            manifest_reload: true,
            plugin: o.plugin,
            from_manifest_version: o.from_manifest_version,
            to_manifest_version: o.to_manifest_version,
            duration_ms: o.duration_ms,
            dry_run: o.dry_run,
        },
        Err(failure) => ClientResponse::Error {
            error: lifecycle_error("reload_manifest", &failure),
        },
    }
}

/// The answer of `reload_plugin`.
pub fn reload_plugin_reply(plugin: String, outcome: Result<(), StewardFailure>) -> (r:
    ClientResponse)
    ensures
        match outcome {
            Ok(_) => r == (ClientResponse::PluginReloaded { plugin_reload: true, plugin }),
            Err(failure) => r matches ClientResponse::Error { error } && reports_lifecycle(
                error,
                "reload_plugin"@,
                failure,
            ),
        },
{
    match outcome {
        Ok(_) => ClientResponse::PluginReloaded { plugin_reload: true, plugin },
        Err(failure) => ClientResponse::Error { error: lifecycle_error("reload_plugin", &failure) },
    }
}

}
