//! Descriptions of the engine requests the lifecycle and registry
//! operations compose.  Validation happens before one of these is built, so
//! a value of this type is always ready to be performed; the surrounding
//! process turns it into the actual HTTP exchange.

use vstd::prelude::*;

use crate::config::CreateOptions;

verus! {

/// One request against the container engine.
#[derive(Debug, PartialEq)]
pub enum EngineRequest {
    /// Pull an image, with a base64-encoded JSON credential blob
    /// (empty when no credentials are configured).
    ImagePull { image: String, registry_auth: String },
    /// Delete an image.
    ImageDelete { name: String, force: bool, no_prune: bool },
    /// Create a container under the given name.
    ContainerCreate { name: String, body: CreateOptions },
    /// Start a container.
    ContainerStart { id: String },
    /// Stop a container, waiting the given whole seconds before killing it.
    ContainerStop { id: String, wait_seconds: i32 },
    /// Restart a container.
    ContainerRestart { id: String, wait_seconds: i32 },
    /// Delete a container.
    ContainerDelete { id: String, remove_volumes: bool, force: bool, remove_links: bool },
    /// List containers matching a JSON filter.
    ContainerList { all: bool, limit: i32, size: bool, filters: String },
    /// Stream a container's logs.
    ContainerLogs {
        id: String,
        follow: bool,
        stdout: bool,
        stderr: bool,
        since: i32,
        timestamps: bool,
        tail: String,
    },
    /// List networks matching a JSON filter.
    NetworkList { filters: String },
    /// Create a network under the given name.
    NetworkCreate { name: String },
    /// Query engine platform information.
    SystemInfo,
}

} // verus!
