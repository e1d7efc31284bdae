//! Lifecycle orchestration for a single fixed-name containerized robotics
//! service: pure command builders, output filters and state decisions.
//!
//! The library builds each external invocation as a structured argument
//! vector, filters introspection output deterministically, and decides each
//! lifecycle transition from plain values. Running the built commands and all
//! terminal interaction live outside the library.

pub mod command;
pub mod filter;
pub mod lifecycle;
pub mod proxy;
pub mod text;

use vstd::prelude::*;

verus! {

/// The fixed name under which both the image and the running container go.
pub open spec fn spec_container_name() -> Seq<char> {
    "geist"@
}

/// The fixed image name; it coincides with the container name.
pub open spec fn spec_image_name() -> Seq<char> {
    "geist"@
}

/// The registry namespace that image references are resolved under.
pub open spec fn spec_registry_namespace() -> Seq<char> {
    "july5613"@
}

} // verus!
