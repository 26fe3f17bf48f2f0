//! Module lifecycle orchestration and route/spec composition for a pluggable
//! application framework.
//!
//! A module is a unit of functionality with a name, routes, a fragment of the
//! API's specification, migrations and lifecycle hooks. The registry keeps the
//! modules and says in which order each lifecycle phase visits them; the router
//! builder mounts their routes and merges their fragments into one document.
//! The calls on the modules and the serving are the application's: this
//! library decides, and its decisions are verified.

pub mod bootstrap;
pub mod error;
pub mod json;
pub mod lifecycle;
pub mod migrations;
pub mod module;
pub mod modules;
pub mod openapi;
pub mod registry;
pub mod router;
pub mod schema;
pub mod settings;
pub mod text;
pub mod utils;

pub use module::{InitCtx, Migration, ModuleDescriptor, Route};
pub use registry::ModuleRegistry;
