//! Finding, pinning and fetching Minecraft server software and mods from
//! three catalogs: a mod registry, a loader metadata service and a server
//! build service.
//!
//! The resolution of an artifact is written as steps: each step names the
//! outside work to do next (a request, a person's choice, a download) and
//! the caller hands its result back. Dependency closures are walked with a
//! work queue that admits each project once.
pub mod text;
pub mod retry;
pub mod modrinth_request;
pub mod records;
pub mod resolve;
pub mod dependencies;
pub mod modrinth_entry;
pub mod papermc_request;
pub mod fabric_request;
pub mod platform;
pub mod listing;
