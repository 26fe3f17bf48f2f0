//! Composition of the routing table that the server is given: the routes of
//! each module under the module's mount path, the health check, and the
//! documentation endpoints.

use crate::module::{bindings_of, Binding, ModuleDescriptor, Route};
use crate::openapi::{
    base_paths, base_schemas, document_value, merge_openapi, merged_paths, merged_schemas,
    mount_path, mount_prefix, ApiDocs, SpecDocument,
    HEALTH_PATH,
};
use crate::registry::ModuleRegistry;
use crate::settings::Settings;
use vstd::prelude::*;
use vstd::string::StringExecFns;

verus! {

/// Handler of the health check.
pub const HEALTH_HANDLER: &'static str = "health_check";

/// Path at which the API explorer is mounted.
pub const SWAGGER_UI_PATH: &'static str = "/swagger-ui";

/// Handler that serves the API explorer.
pub const SWAGGER_UI_HANDLER: &'static str = "swagger_ui";

/// Path at which the explorer finds the description of the API.
pub const API_DOCS_PATH: &'static str = "/api-docs/openapi.json";

/// Handler that serves the description of the API to the explorer.
pub const API_DOCS_HANDLER: &'static str = "api_docs";

/// Path at which the merged document is served as raw JSON.
pub const RAW_DOCS_PATH: &'static str = "/docs/openapi.json";

/// Handler that serves the merged document as raw JSON.
pub const RAW_DOCS_HANDLER: &'static str = "openapi_json";

/// The routes of a module called `name`, as they are served: each path behind
/// the module's mount path, bound to the handler that the module gave it.
pub open spec fn mounted(name: Seq<char>, table: Seq<Binding>) -> Seq<Binding> {
    Seq::new(table.len(), |i: int| (mount_prefix(name) + table[i].0, table[i].1))
}

/// The routes of `modules` as they are served, module after module.
pub open spec fn mounted_modules(modules: Seq<ModuleDescriptor>) -> Seq<Binding>
    decreases modules.len(),
{
    if modules.len() == 0 {
        Seq::empty()
    } else {
        mounted_modules(modules.drop_last()) + mounted(
            modules.last().name@,
            bindings_of(modules.last().routes@),
        )
    }
}

/// The document that is served for `modules`: the base document with the
/// fragments of the modules merged into it in their order, the last module
/// winning.
pub open spec fn merged_document(modules: Seq<ModuleDescriptor>) -> serde_json::Value {
    document_value(
        merged_paths(base_paths(), modules),
        merged_schemas(base_schemas(), modules),
    )
}

/// The documentation endpoints: the explorer, the description it reads, and
/// the merged document as raw JSON.
pub open spec fn docs_bindings() -> Seq<Binding> {
    seq![
        (SWAGGER_UI_PATH@, SWAGGER_UI_HANDLER@),
        (API_DOCS_PATH@, API_DOCS_HANDLER@),
        (RAW_DOCS_PATH@, RAW_DOCS_HANDLER@),
    ]
}

/// A middleware that wraps routes.
#[derive(Debug, Clone, Copy, PartialEq, Eq, Structural)]
pub enum Middleware {
    /// Traces requests and responses.
    Tracing,
    /// Answers cross-origin requests from any origin.
    Cors,
    /// Gives every request an id.
    RequestId,
    /// Ends a request that takes longer than `millis` milliseconds.
    Timeout { millis: u64 },
}

/// A middleware in place. It wraps the routes that were composed before it,
/// and none that came after.
#[derive(Debug, Clone, Copy, PartialEq, Eq, Structural)]
pub struct AppliedLayer {
    pub middleware: Middleware,
    /// How many routes it wraps, counted from the first.
    pub covers: usize,
}

/// The routing table that the server is given.
pub struct ComposedRouter {
    /// The routes, in the order of composition.
    pub routes: Vec<Route>,
    /// The middlewares, innermost first.
    pub layers: Vec<AppliedLayer>,
    /// What the documentation endpoints serve, where they were composed.
    pub docs: Option<ApiDocs>,
}

impl ComposedRouter {
    /// The paths that are served, in the order of composition.
    pub fn paths(&self) -> (paths: Vec<String>)
        ensures
            paths@.len() == self.routes@.len(),
            forall|i: int| 0 <= i < paths@.len() ==> paths@[i]@ == self.routes@[i].path@,
    {
        let mut paths: Vec<String> = Vec::new();
        let mut i: usize = 0;
        while i < self.routes.len()
            invariant
                i <= self.routes@.len(),
                paths@.len() == i,
                forall|k: int| 0 <= k < i ==> paths@[k]@ == self.routes@[k].path@,
            decreases self.routes.len() - i,
        {
            paths.push(self.routes[i].path.clone());
            i += 1;
        }
        paths
    }
}

/// Builder of the routing table.
pub struct RouterBuilder {
    routes: Vec<Route>,
    layers: Vec<AppliedLayer>,
    docs: Option<ApiDocs>,
}

impl RouterBuilder {
    /// The routes composed so far, in the order of composition.
    pub closed spec fn bindings(self) -> Seq<Binding> {
        bindings_of(self.routes@)
    }

    /// The middlewares put in place so far, innermost first.
    pub closed spec fn layers(self) -> Seq<AppliedLayer> {
        self.layers@
    }

    /// What the documentation endpoints serve, once they were composed.
    pub closed spec fn docs(self) -> Option<ApiDocs> {
        self.docs
    }

    /// A builder without routes.
    pub fn new() -> (builder: Self)
        ensures
            builder.bindings() == Seq::<Binding>::empty(),
            builder.layers() == Seq::<AppliedLayer>::empty(),
            builder.docs() is None,
    {
        let builder = RouterBuilder { routes: Vec::new(), layers: Vec::new(), docs: None };
        assert(builder.bindings() =~= Seq::<Binding>::empty());
        builder
    }

    /// Adds a route.
    pub fn route(self, path: &str, handler: &str) -> (builder: Self)
        ensures
            builder.bindings() == self.bindings().push((path@, handler@)),
            builder.layers() == self.layers(),
            builder.docs() == self.docs(),
    {
        let mut builder = self;
        builder.routes.push(Route::new(path, handler));
        assert(builder.bindings() =~= self.bindings().push((path@, handler@)));
        builder
    }

    /// Mounts the routes of a module under `/api/{module_name}`.
    pub fn mount_module(self, module_name: &str, module_router: &Vec<Route>) -> (builder: Self)
        ensures
            builder.bindings() == self.bindings() + mounted(
                module_name@,
                bindings_of(module_router@),
            ),
            builder.layers() == self.layers(),
            builder.docs() == self.docs(),
    {
        let mut builder = self;
        let prefix = mount_path(module_name);
        let ghost table = bindings_of(module_router@);
        let mut i: usize = 0;
        assert(builder.bindings() =~= self.bindings() + mounted(module_name@, table).take(0));
        while i < module_router.len()
            invariant
                i <= module_router@.len(),
                prefix@ == mount_prefix(module_name@),
                table == bindings_of(module_router@),
                builder.bindings() == self.bindings() + mounted(module_name@, table).take(i as int),
                builder.layers() == self.layers(),
                builder.docs() == self.docs(),
            decreases module_router.len() - i,
        {
            let ghost before = builder.bindings();
            let mut path = prefix.clone();
            path.append(module_router[i].path.as_str());
            builder.routes.push(Route { path, handler: module_router[i].handler.clone() });
            proof {
                let added = mounted(module_name@, table)[i as int];
                assert(builder.bindings() =~= before.push(added));
                assert(mounted(module_name@, table).take(i as int + 1) =~= mounted(
                    module_name@,
                    table,
                ).take(i as int).push(added));
                assert(before.push(added) =~= self.bindings() + mounted(module_name@, table).take(
                    i as int + 1,
                ));
            }
            i += 1;
        }
        assert(mounted(module_name@, table).take(i as int) =~= mounted(module_name@, table));
        builder
    }

    /// Puts `middleware` around the routes composed so far.
    fn layer(self, middleware: Middleware) -> (builder: Self)
        ensures
            builder.bindings() == self.bindings(),
            builder.layers() == self.layers().push(
                AppliedLayer { middleware, covers: self.bindings().len() as usize },
            ),
            builder.docs() == self.docs(),
    {
        let mut builder = self;
        let covers = builder.routes.len();
        builder.layers.push(AppliedLayer { middleware, covers });
        builder
    }

    /// Puts request tracing around the routes composed so far.
    pub fn with_tracing(self) -> (builder: Self)
        ensures
            builder.bindings() == self.bindings(),
            builder.layers() == self.layers().push(
                AppliedLayer {
                    middleware: Middleware::Tracing,
                    covers: self.bindings().len() as usize,
                },
            ),
            builder.docs() == self.docs(),
    {
        self.layer(Middleware::Tracing)
    }

    /// Puts cross-origin handling around the routes composed so far.
    pub fn with_cors(self) -> (builder: Self)
        ensures
            builder.bindings() == self.bindings(),
            builder.layers() == self.layers().push(
                AppliedLayer {
                    middleware: Middleware::Cors,
                    covers: self.bindings().len() as usize,
                },
            ),
            builder.docs() == self.docs(),
    {
        self.layer(Middleware::Cors)
    }

    /// Puts request ids around the routes composed so far.
    pub fn with_request_id(self) -> (builder: Self)
        ensures
            builder.bindings() == self.bindings(),
            builder.layers() == self.layers().push(
                AppliedLayer {
                    middleware: Middleware::RequestId,
                    covers: self.bindings().len() as usize,
                },
            ),
            builder.docs() == self.docs(),
    {
        self.layer(Middleware::RequestId)
    }

    /// Puts a timeout of `timeout_ms` milliseconds around the routes composed
    /// so far.
    pub fn with_timeout(self, timeout_ms: u64) -> (builder: Self)
        ensures
            builder.bindings() == self.bindings(),
            builder.layers() == self.layers().push(
                AppliedLayer {
                    middleware: Middleware::Timeout { millis: timeout_ms },
                    covers: self.bindings().len() as usize,
                },
            ),
            builder.docs() == self.docs(),
    {
        self.layer(Middleware::Timeout { millis: timeout_ms })
    }

    /// Merges the specification fragments of all modules of `registry` into
    /// the base document, last module winning, and adds the documentation
    /// endpoints that serve the result.
    pub fn with_openapi(self, registry: &ModuleRegistry) -> (builder: Self)
        ensures
            builder.bindings() == self.bindings() + docs_bindings(),
            builder.layers() == self.layers(),
            builder.docs() matches Some(docs) && docs.serves(
                merged_document(registry.all_entries()),
            ),
    {
        let modules = registry.modules();
        let merged = merge_openapi(SpecDocument::base(), &modules);
        proof {
            assert(crate::openapi::referred(modules@) =~= registry.all_entries());
        }
        let docs = ApiDocs::new(merged.into_json());
        let mut builder = self.route(SWAGGER_UI_PATH, SWAGGER_UI_HANDLER).route(
            API_DOCS_PATH,
            API_DOCS_HANDLER,
        ).route(RAW_DOCS_PATH, RAW_DOCS_HANDLER);
        assert(builder.bindings() =~= self.bindings() + docs_bindings());
        builder.docs = Some(docs);
        builder
    }

    /// The routing table as composed.
    pub fn build(self) -> (router: ComposedRouter)
        ensures
            bindings_of(router.routes@) == self.bindings(),
            router.layers@ == self.layers(),
            router.docs == self.docs(),
    {
        ComposedRouter { routes: self.routes, layers: self.layers, docs: self.docs }
    }
}

impl Default for RouterBuilder {
    fn default() -> (builder: Self)
        ensures
            builder.bindings() == Seq::<Binding>::empty(),
            builder.layers() == Seq::<AppliedLayer>::empty(),
            builder.docs() is None,
    {
        Self::new()
    }
}

/// The middlewares of the main router: tracing, cross-origin handling, request
/// ids and the timeout of `millis` milliseconds. They are put in place before
/// any route.
pub open spec fn main_layers(millis: u64) -> Seq<AppliedLayer> {
    seq![
        AppliedLayer { middleware: Middleware::Tracing, covers: 0 },
        AppliedLayer { middleware: Middleware::Cors, covers: 0 },
        AppliedLayer { middleware: Middleware::RequestId, covers: 0 },
        AppliedLayer { middleware: Middleware::Timeout { millis }, covers: 0 },
    ]
}

/// Builds the main router: the health check, the routes of every module of
/// `registry` under the module's mount path, in the order in which the
/// registry lists the modules, and the documentation endpoints.
pub fn build_router(registry: &ModuleRegistry, settings: &Settings) -> (router: ComposedRouter)
    ensures
        bindings_of(router.routes@) == seq![(HEALTH_PATH@, HEALTH_HANDLER@)] + mounted_modules(
            registry.all_entries(),
        ) + docs_bindings(),
        router.layers@ == main_layers(settings.server.request_timeout_ms),
        router.docs matches Some(docs) && docs.serves(
            merged_document(registry.all_entries()),
        ),
{
    let mut builder = RouterBuilder::new().with_tracing().with_cors().with_request_id();
    builder = builder.with_timeout(settings.server.request_timeout_ms);
    assert(builder.layers() =~= main_layers(settings.server.request_timeout_ms));
    builder = builder.route(HEALTH_PATH, HEALTH_HANDLER);
    let ghost health = seq![(HEALTH_PATH@, HEALTH_HANDLER@)];
    assert(builder.bindings() =~= health);
    let modules = registry.modules();
    let ghost all = registry.all_entries();
    let mut m: usize = 0;
    assert(all.take(0) =~= Seq::<ModuleDescriptor>::empty());
    assert(builder.bindings() =~= health + mounted_modules(all.take(0)));
    while m < modules.len()
        invariant
            m <= modules@.len(),
            all == registry.all_entries(),
            modules@.len() == all.len(),
            forall|i: int| 0 <= i < modules@.len() ==> *modules@[i] == all[i],
            builder.bindings() == health + mounted_modules(all.take(m as int)),
            builder.layers() == main_layers(settings.server.request_timeout_ms),
            builder.docs() is None,
        decreases modules.len() - m,
    {
        let module = modules[m];
        builder = builder.mount_module(module.name.as_str(), &module.routes);
        proof {
            let upto = all.take(m as int + 1);
            assert(upto.drop_last() =~= all.take(m as int));
            assert(upto.last() == *module);
            let added = mounted(module.name@, bindings_of(module.routes@));
            assert(health + mounted_modules(all.take(m as int)) + added =~= health + (
            mounted_modules(all.take(m as int)) + added));
        }
        m += 1;
    }
    assert(all.take(m as int) =~= all);
    builder.with_openapi(registry).build()
}

/// The order in which two modules are mounted does not change which routes
/// are served: the same paths are bound to the same handlers either way.
pub proof fn lemma_mount_order_irrelevant(
    composed: Seq<Binding>,
    first_name: Seq<char>,
    first_table: Seq<Binding>,
    second_name: Seq<char>,
    second_table: Seq<Binding>,
)
    ensures
        (composed + mounted(first_name, first_table) + mounted(
            second_name,
            second_table,
        )).to_multiset() == (composed + mounted(second_name, second_table) + mounted(
            first_name,
            first_table,
        )).to_multiset(),
{
    let first = mounted(first_name, first_table);
    let second = mounted(second_name, second_table);
    vstd::seq_lib::lemma_multiset_commutative(composed + first, second);
    vstd::seq_lib::lemma_multiset_commutative(composed, first);
    vstd::seq_lib::lemma_multiset_commutative(composed + second, first);
    vstd::seq_lib::lemma_multiset_commutative(composed, second);
    assert((composed + first + second).to_multiset() =~= (composed + second
        + first).to_multiset());
}

/// Two modules of different names do not serve one path: where the names hold
/// no slash and the paths of the modules begin with one, a path of the one
/// module under its mount path is no path of the other under its own.
pub proof fn lemma_mounts_do_not_collide(
    first_name: Seq<char>,
    first_path: Seq<char>,
    second_name: Seq<char>,
    second_path: Seq<char>,
)
    requires
        first_name != second_name,
        !first_name.contains('/'),
        !second_name.contains('/'),
        first_path.len() > 0 && first_path[0] == '/',
        second_path.len() > 0 && second_path[0] == '/',
    ensures
        mount_prefix(first_name) + first_path != mount_prefix(second_name) + second_path,
{
    let first = mount_prefix(first_name) + first_path;
    let second = mount_prefix(second_name) + second_path;
    if first == second {
        let lead = "/api/"@.len() as int;
        let a = first_name.len() as int;
        let b = second_name.len() as int;
        if a == b {
            assert forall|i: int| 0 <= i < a implies first_name[i] == second_name[i] by {
                assert(first[lead + i] == first_name[i]);
                assert(second[lead + i] == second_name[i]);
            }
            assert(first_name =~= second_name);
        } else if a < b {
            assert(first[lead + a] == first_path[0]);
            assert(second[lead + a] == second_name[a]);
            assert(second_name.contains(second_name[a]));
        } else {
            assert(second[lead + b] == second_path[0]);
            assert(first[lead + b] == first_name[b]);
            assert(first_name.contains(first_name[b]));
        }
    }
}

/// With no module registered, nothing is mounted and nothing is merged: the
/// router serves the health check and the documentation endpoints, and the
/// document holds what the base document holds.
pub proof fn lemma_nothing_registered(registry: ModuleRegistry)
    requires
        registry.all_entries().len() == 0,
    ensures
        mounted_modules(registry.all_entries()) == Seq::<Binding>::empty(),
        seq![(HEALTH_PATH@, HEALTH_HANDLER@)] + mounted_modules(registry.all_entries())
            + docs_bindings() == seq![(HEALTH_PATH@, HEALTH_HANDLER@)] + docs_bindings(),
        merged_paths(base_paths(), registry.all_entries()) == base_paths(),
        merged_schemas(base_schemas(), registry.all_entries()) == base_schemas(),
        crate::migrations::gathered(registry.all_entries()) == Seq::<
            crate::migrations::Entry,
        >::empty(),
{
    let health = seq![(HEALTH_PATH@, HEALTH_HANDLER@)];
    assert(health + Seq::<Binding>::empty() + docs_bindings() =~= health + docs_bindings());
}

} // verus!
