//! What a module contributes to the application, as plain data.

use crate::settings::Settings;
use vstd::prelude::*;

verus! {

/// Context handed to every lifecycle call of a module.
pub struct InitCtx<'a> {
    pub settings: &'a Settings,
}

/// A schema-change script contributed by a module.
#[derive(Debug)]
pub struct Migration {
    pub id: &'static str,
    pub up: &'static str,
}

impl Clone for Migration {
    fn clone(&self) -> (copy: Self)
        ensures
            copy == *self,
    {
        Migration { id: self.id, up: self.up }
    }
}

/// One binding of a routing table: a path and the handler that serves it.
/// The handler is known by a name that only the server resolves.
#[derive(Debug)]
pub struct Route {
    pub path: String,
    pub handler: String,
}

impl Clone for Route {
    fn clone(&self) -> (copy: Self)
        ensures
            copy == *self,
    {
        Route { path: self.path.clone(), handler: self.handler.clone() }
    }
}

impl Route {
    /// Binds `path` to the handler called `handler`.
    pub fn new(path: &str, handler: &str) -> (route: Route)
        ensures
            route.path@ == path@,
            route.handler@ == handler@,
    {
        Route { path: path.to_string(), handler: handler.to_string() }
    }
}

/// A route as contracts see it: its path and the name of its handler.
pub type Binding = (Seq<char>, Seq<char>);

/// The routes of `routes` as contracts see them.
pub open spec fn bindings_of(routes: Seq<Route>) -> Seq<Binding> {
    Seq::new(routes.len(), |i: int| (routes[i].path@, routes[i].handler@))
}

/// What the registry and the composer read of a module: its name, its routes
/// relative to its mount point, its specification fragment and its migrations.
#[derive(Debug)]
pub struct ModuleDescriptor {
    pub name: String,
    pub routes: Vec<Route>,
    pub openapi: Option<serde_json::Value>,
    pub migrations: Vec<Migration>,
}

impl ModuleDescriptor {
    /// A module called `name` that contributes nothing yet.
    pub fn new(name: &str) -> (module: ModuleDescriptor)
        ensures
            module.name@ == name@,
            module.routes@.len() == 0,
            module.openapi is None,
            module.migrations@.len() == 0,
    {
        ModuleDescriptor {
            name: name.to_string(),
            routes: Vec::new(),
            openapi: None,
            migrations: Vec::new(),
        }
    }

    /// Adds a route, after those already declared.
    pub fn with_route(self, path: &str, handler: &str) -> (module: ModuleDescriptor)
        ensures
            module.name == self.name,
            bindings_of(module.routes@) == bindings_of(self.routes@).push((path@, handler@)),
            module.openapi == self.openapi,
            module.migrations == self.migrations,
    {
        let mut module = self;
        module.routes.push(Route::new(path, handler));
        module
    }

    /// Sets the specification fragment, replacing an earlier one.
    pub fn with_openapi(self, fragment: serde_json::Value) -> (module: ModuleDescriptor)
        ensures
            module.name == self.name,
            module.routes == self.routes,
            module.openapi == Some(fragment),
            module.migrations == self.migrations,
    {
        let mut module = self;
        module.openapi = Some(fragment);
        module
    }

    /// Adds a migration, to be applied after those already declared.
    pub fn with_migration(self, migration: Migration) -> (module: ModuleDescriptor)
        ensures
            module.name == self.name,
            module.routes == self.routes,
            module.openapi == self.openapi,
            module.migrations@ == self.migrations@.push(migration),
    {
        let mut module = self;
        module.migrations.push(migration);
        module
    }
}

} // verus!
