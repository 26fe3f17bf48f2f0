//! The module registry: two ordered collections of modules and the order in
//! which each lifecycle phase visits them.

use crate::lifecycle::{Phase, PhaseRun};
use crate::migrations::{
    entries_of, gather, gathered, is_apply_order_of, lemma_gathered_concat, names_differ,
    sort_migrations,
};
use crate::module::{Migration, ModuleDescriptor};
use crate::text::str_equal;
use vstd::prelude::*;

verus! {

/// The names of `modules`, position by position.
pub open spec fn names_of(modules: Seq<ModuleDescriptor>) -> Seq<Seq<char>> {
    Seq::new(modules.len(), |i: int| modules[i].name@)
}

/// The first position of `names` that holds `name`, if there is one.
pub open spec fn first_position(names: Seq<Seq<char>>, name: Seq<char>) -> Option<int>
    decreases names.len(),
{
    if names.len() == 0 {
        None
    } else if names[0] == name {
        Some(0)
    } else {
        match first_position(names.drop_first(), name) {
            Some(i) => Some(i + 1),
            None => None,
        }
    }
}

/// `first_position` finds a position that holds the name and has no such
/// position before it, and finds nothing only where no position holds the name.
pub proof fn lemma_first_position(names: Seq<Seq<char>>, name: Seq<char>)
    ensures
        match first_position(names, name) {
            Some(i) => {
                &&& 0 <= i < names.len()
                &&& names[i] == name
                &&& forall|j: int| 0 <= j < i ==> names[j] != name
            },
            None => forall|j: int| 0 <= j < names.len() ==> names[j] != name,
        },
    decreases names.len(),
{
    if names.len() > 0 && names[0] != name {
        let rest = names.drop_first();
        lemma_first_position(rest, name);
        match first_position(rest, name) {
            Some(i) => {
                assert forall|j: int| 0 <= j < i + 1 implies names[j] != name by {
                    if j > 0 {
                        assert(rest[j - 1] == names[j]);
                    }
                }
            },
            None => {
                assert forall|j: int| 0 <= j < names.len() implies names[j] != name by {
                    if j > 0 {
                        assert(rest[j - 1] == names[j]);
                    }
                }
            },
        }
    }
}

/// A position that holds the name and has no such position before it is the
/// one that `first_position` finds.
pub proof fn lemma_first_position_is(names: Seq<Seq<char>>, name: Seq<char>, i: int)
    requires
        0 <= i < names.len(),
        names[i] == name,
        forall|j: int| 0 <= j < i ==> names[j] != name,
    ensures
        first_position(names, name) == Some(i),
{
    lemma_first_position(names, name);
}

/// No position holds the name: `first_position` finds nothing.
pub proof fn lemma_first_position_none(names: Seq<Seq<char>>, name: Seq<char>)
    requires
        forall|j: int| 0 <= j < names.len() ==> names[j] != name,
    ensures
        first_position(names, name) is None,
{
    lemma_first_position(names, name);
}

/// The positions among `registered` that a phase over `policy` visits, in
/// order: for each policy entry the first registered module of that name. An
/// entry that no module bears contributes nothing.
pub open spec fn policy_plan(registered: Seq<Seq<char>>, policy: Seq<Seq<char>>) -> Seq<int>
    decreases policy.len(),
{
    if policy.len() == 0 {
        Seq::empty()
    } else {
        let earlier = policy_plan(registered, policy.drop_last());
        match first_position(registered, policy.last()) {
            Some(i) => earlier.push(i),
            None => earlier,
        }
    }
}

/// The positions `0, 1, .., count - 1`.
pub open spec fn forward_plan(count: nat) -> Seq<int> {
    Seq::new(count, |i: int| i)
}

/// The positions `count - 1, .., 1, 0`.
pub open spec fn backward_plan(count: nat) -> Seq<int> {
    Seq::new(count, |i: int| count - 1 - i)
}

/// The fixed order in which core modules are initialized and started. The HTTP
/// server is not in it: it is started once every module runs.
pub open spec fn core_module_order_spec() -> Seq<Seq<char>> {
    seq!["kernel"@, "telemetry"@, "db"@, "authz"@, "events"@]
}

/// The character sequences that the strings of `texts` hold.
pub open spec fn texts_of(texts: Seq<&str>) -> Seq<Seq<char>> {
    Seq::new(texts.len(), |i: int| texts[i]@)
}

/// The positions that `plan` holds, as integers.
pub open spec fn positions_of(plan: Seq<usize>) -> Seq<int> {
    Seq::new(plan.len(), |i: int| plan[i] as int)
}

/// The names found in `pool` at the positions of `plan`.
pub open spec fn names_at(pool: Seq<Seq<char>>, plan: Seq<int>) -> Seq<Seq<char>> {
    Seq::new(plan.len(), |i: int| pool[plan[i]])
}

/// The fixed order of the core modules, as data.
pub fn core_module_order() -> (order: Vec<&'static str>)
    ensures
        texts_of(order@) == core_module_order_spec(),
{
    let order = vec!["kernel", "telemetry", "db", "authz", "events"];
    assert(texts_of(order@) =~= core_module_order_spec());
    order
}

/// The names of the modules of `modules` at the positions of `plan`, copied.
fn copy_names(modules: &Vec<ModuleDescriptor>, plan: &Vec<usize>) -> (names: Vec<String>)
    requires
        forall|i: int| 0 <= i < plan@.len() ==> plan@[i] < modules@.len(),
    ensures
        names@.len() == plan@.len(),
        Seq::new(names@.len(), |i: int| names@[i]@) == names_at(
            names_of(modules@),
            positions_of(plan@),
        ),
{
    let mut names: Vec<String> = Vec::new();
    let mut i: usize = 0;
    while i < plan.len()
        invariant
            i <= plan@.len(),
            names@.len() == i,
            forall|k: int| 0 <= k < plan@.len() ==> plan@[k] < modules@.len(),
            forall|k: int| 0 <= k < i ==> names@[k]@ == modules@[plan@[k] as int].name@,
        decreases plan.len() - i,
    {
        names.push(modules[plan[i]].name.clone());
        i += 1;
    }
    assert(Seq::new(names@.len(), |i: int| names@[i]@) =~= names_at(
        names_of(modules@),
        positions_of(plan@),
    ));
    names
}

/// Module registry with core and custom modules kept apart.
pub struct ModuleRegistry {
    core_modules: Vec<ModuleDescriptor>,
    custom_modules: Vec<ModuleDescriptor>,
}

impl ModuleRegistry {
    /// The core modules, in the order of their registration.
    pub closed spec fn core_entries(&self) -> Seq<ModuleDescriptor> {
        self.core_modules@
    }

    /// The custom modules, in the order of their registration.
    pub closed spec fn custom_entries(&self) -> Seq<ModuleDescriptor> {
        self.custom_modules@
    }

    /// Every registered module: the core modules, then the custom ones.
    pub open spec fn all_entries(&self) -> Seq<ModuleDescriptor> {
        self.core_entries() + self.custom_entries()
    }

    /// A registry without modules.
    pub fn new() -> (registry: Self)
        ensures
            registry.core_entries() == Seq::<ModuleDescriptor>::empty(),
            registry.custom_entries() == Seq::<ModuleDescriptor>::empty(),
    {
        ModuleRegistry { core_modules: Vec::new(), custom_modules: Vec::new() }
    }

    /// Registers a core module, after the core modules registered so far.
    pub fn register_core(&mut self, module: ModuleDescriptor)
        ensures
            final(self).core_entries() == old(self).core_entries().push(module),
            final(self).custom_entries() == old(self).custom_entries(),
    {
        self.core_modules.push(module);
    }

    /// Registers a custom module, after the custom modules registered so far.
    pub fn register_custom(&mut self, module: ModuleDescriptor)
        ensures
            final(self).core_entries() == old(self).core_entries(),
            final(self).custom_entries() == old(self).custom_entries().push(module),
    {
        self.custom_modules.push(module);
    }

    /// All registered modules, core before custom, each once.
    pub fn modules(&self) -> (all_modules: Vec<&ModuleDescriptor>)
        ensures
            all_modules@.len() == self.all_entries().len(),
            forall|i: int|
                0 <= i < all_modules@.len() ==> *all_modules@[i] == self.all_entries()[i],
    {
        let mut all_modules: Vec<&ModuleDescriptor> = Vec::new();
        let mut i: usize = 0;
        while i < self.core_modules.len()
            invariant
                i <= self.core_modules.len(),
                all_modules@.len() == i,
                forall|k: int| 0 <= k < i ==> *all_modules@[k] == self.core_entries()[k],
            decreases self.core_modules.len() - i,
        {
            all_modules.push(&self.core_modules[i]);
            i += 1;
        }
        let mut j: usize = 0;
        while j < self.custom_modules.len()
            invariant
                j <= self.custom_modules.len(),
                all_modules@.len() == self.core_entries().len() + j,
                forall|k: int|
                    0 <= k < self.core_entries().len() ==> *all_modules@[k]
                        == self.core_entries()[k],
                forall|k: int|
                    0 <= k < j ==> *all_modules@[self.core_entries().len() + k]
                        == self.custom_entries()[k],
            decreases self.custom_modules.len() - j,
        {
            all_modules.push(&self.custom_modules[j]);
            j += 1;
        }
        all_modules
    }

    /// The module called `name`: the first core module of that name, else the
    /// first custom module of that name.
    pub fn get_module(&self, name: &str) -> (found: Option<&ModuleDescriptor>)
        ensures
            match found {
                Some(module) => first_position(names_of(self.all_entries()), name@) matches Some(i)
                    && *module == self.all_entries()[i],
                None => first_position(names_of(self.all_entries()), name@) is None,
            },
    {
        let all_modules = self.modules();
        let mut i: usize = 0;
        while i < all_modules.len()
            invariant
                i <= all_modules@.len(),
                all_modules@.len() == self.all_entries().len(),
                forall|k: int|
                    0 <= k < all_modules@.len() ==> *all_modules@[k] == self.all_entries()[k],
                forall|k: int| 0 <= k < i ==> names_of(self.all_entries())[k] != name@,
            decreases all_modules.len() - i,
        {
            let module = all_modules[i];
            if str_equal(module.name.as_str(), name) {
                proof {
                    lemma_first_position_is(names_of(self.all_entries()), name@, i as int);
                }
                return Some(module);
            }
            i += 1;
        }
        proof {
            lemma_first_position_none(names_of(self.all_entries()), name@);
        }
        None
    }

    /// Whether no two registered modules bear one name, core and custom
    /// modules taken together. The registry takes modules of one name and
    /// looks up the first of them; a caller that wants names to be unique asks
    /// here.
    pub fn names_are_distinct(&self) -> (distinct: bool)
        ensures
            distinct == names_differ(self.all_entries()),
    {
        let all_modules = self.modules();
        let ghost all = self.all_entries();
        let mut j: usize = 0;
        while j < all_modules.len()
            invariant
                j <= all_modules@.len(),
                all == self.all_entries(),
                all_modules@.len() == all.len(),
                forall|k: int| 0 <= k < all_modules@.len() ==> *all_modules@[k] == all[k],
                forall|a: int, b: int|
                    0 <= a < b < j ==> (#[trigger] all[a]).name@ != (#[trigger] all[b]).name@,
            decreases all_modules.len() - j,
        {
            let mut i: usize = 0;
            while i < j
                invariant
                    i <= j < all_modules@.len(),
                    all == self.all_entries(),
                    all_modules@.len() == all.len(),
                    forall|k: int| 0 <= k < all_modules@.len() ==> *all_modules@[k] == all[k],
                    forall|a: int| 0 <= a < i ==> (#[trigger] all[a]).name@ != all[j as int].name@,
                decreases j - i,
            {
                if str_equal(all_modules[i].name.as_str(), all_modules[j].name.as_str()) {
                    assert(all[i as int].name@ == all[j as int].name@);
                    return false;
                }
                i += 1;
            }
            j += 1;
        }
        true
    }

    /// The position of the first core module called `name`, if there is one.
    fn find_core(&self, name: &str) -> (found: Option<usize>)
        ensures
            match found {
                Some(i) => first_position(names_of(self.core_entries()), name@) == Some(i as int)
                    && i < self.core_entries().len(),
                None => first_position(names_of(self.core_entries()), name@) is None,
            },
    {
        let mut i: usize = 0;
        while i < self.core_modules.len()
            invariant
                i <= self.core_modules@.len(),
                forall|k: int| 0 <= k < i ==> names_of(self.core_entries())[k] != name@,
            decreases self.core_modules.len() - i,
        {
            if str_equal(self.core_modules[i].name.as_str(), name) {
                proof {
                    lemma_first_position_is(names_of(self.core_entries()), name@, i as int);
                }
                return Some(i);
            }
            i += 1;
        }
        proof {
            lemma_first_position_none(names_of(self.core_entries()), name@);
        }
        None
    }

    /// The core modules that a phase ordered by `policy` visits: for each entry
    /// of `policy`, in its order, the first core module of that name. Entries
    /// that name no core module are passed over, and a core module that no entry
    /// names is not visited.
    pub fn plan_for_policy(&self, policy: &Vec<&str>) -> (plan: Vec<usize>)
        ensures
            positions_of(plan@) == policy_plan(names_of(self.core_entries()), texts_of(policy@)),
            forall|i: int| 0 <= i < plan@.len() ==> plan@[i] < self.core_entries().len(),
    {
        let mut plan: Vec<usize> = Vec::new();
        let mut k: usize = 0;
        assert(texts_of(policy@).take(0) =~= Seq::<Seq<char>>::empty());
        while k < policy.len()
            invariant
                k <= policy@.len(),
                positions_of(plan@) == policy_plan(
                    names_of(self.core_entries()),
                    texts_of(policy@).take(k as int),
                ),
                forall|i: int| 0 <= i < plan@.len() ==> plan@[i] < self.core_entries().len(),
            decreases policy.len() - k,
        {
            let ghost before = positions_of(plan@);
            let found = self.find_core(policy[k]);
            proof {
                let upto = texts_of(policy@).take(k as int + 1);
                assert(upto.drop_last() =~= texts_of(policy@).take(k as int));
                assert(upto.last() == policy@[k as int]@);
            }
            match found {
                Some(i) => {
                    plan.push(i);
                    assert(positions_of(plan@) =~= before.push(i as int));
                },
                None => {},
            }
            k += 1;
        }
        assert(texts_of(policy@).take(policy@.len() as int) =~= texts_of(policy@));
        plan
    }

    /// The positions that `phase` visits, in visiting order: core phases follow
    /// the fixed order of the core modules, backwards when stopping; custom
    /// phases follow the order of registration, backwards when stopping.
    pub open spec fn phase_plan(&self, phase: Phase) -> Seq<int> {
        match phase {
            Phase::InitCore | Phase::StartCore => policy_plan(
                names_of(self.core_entries()),
                core_module_order_spec(),
            ),
            Phase::StopCore => policy_plan(
                names_of(self.core_entries()),
                core_module_order_spec().reverse(),
            ),
            Phase::InitCustom | Phase::StartCustom => forward_plan(self.custom_entries().len()),
            Phase::StopCustom => backward_plan(self.custom_entries().len()),
        }
    }

    /// The names of the modules that `phase` visits, in visiting order.
    pub open spec fn phase_names(&self, phase: Phase) -> Seq<Seq<char>> {
        if phase.is_core_spec() {
            names_at(names_of(self.core_entries()), self.phase_plan(phase))
        } else {
            names_at(names_of(self.custom_entries()), self.phase_plan(phase))
        }
    }

    /// Whether `run` is `phase` over this registry, about to make its first call.
    pub open spec fn begins_phase(&self, run: PhaseRun, phase: Phase) -> bool {
        run.begins(phase, self.phase_plan(phase), self.phase_names(phase))
    }

    /// Begins a core phase that follows the fixed order, or its reverse.
    fn begin_core(&self, phase: Phase, backwards: bool) -> (run: PhaseRun)
        requires
            phase.is_core_spec(),
            backwards <==> phase == Phase::StopCore,
        ensures
            self.begins_phase(run, phase),
    {
        let order = core_module_order();
        let plan = if backwards {
            let mut reversed: Vec<&str> = Vec::new();
            let mut left: usize = order.len();
            while left > 0
                invariant
                    left <= order@.len(),
                    reversed@.len() == order@.len() - left,
                    forall|i: int|
                        0 <= i < reversed@.len() ==> reversed@[i]@ == order@[order@.len() - 1 - i]@,
                decreases left,
            {
                left -= 1;
                reversed.push(order[left]);
            }
            assert(texts_of(reversed@) =~= texts_of(order@).reverse());
            self.plan_for_policy(&reversed)
        } else {
            self.plan_for_policy(&order)
        };
        let names = copy_names(&self.core_modules, &plan);
        PhaseRun::begin(phase, plan, names)
    }

    /// Begins a custom phase in the order of registration, or its reverse.
    fn begin_custom(&self, phase: Phase, backwards: bool) -> (run: PhaseRun)
        requires
            !phase.is_core_spec(),
            backwards <==> phase == Phase::StopCustom,
        ensures
            self.begins_phase(run, phase),
    {
        let count = self.custom_modules.len();
        let mut plan: Vec<usize> = Vec::new();
        let mut i: usize = 0;
        while i < count
            invariant
                count == self.custom_entries().len(),
                i <= count,
                plan@.len() == i,
                forall|k: int|
                    0 <= k < i ==> plan@[k] == (if backwards {
                        count - 1 - k
                    } else {
                        k
                    }),
            decreases count - i,
        {
            plan.push(if backwards { count - 1 - i } else { i });
            i += 1;
        }
        assert(positions_of(plan@) =~= self.phase_plan(phase));
        let names = copy_names(&self.custom_modules, &plan);
        PhaseRun::begin(phase, plan, names)
    }

    /// Begins the initialization of the core modules, in the fixed order.
    pub fn init_core_modules(&self) -> (run: PhaseRun)
        ensures
            self.begins_phase(run, Phase::InitCore),
    {
        self.begin_core(Phase::InitCore, false)
    }

    /// Begins the initialization of the custom modules, in the order of their
    /// registration.
    pub fn init_custom_modules(&self) -> (run: PhaseRun)
        ensures
            self.begins_phase(run, Phase::InitCustom),
    {
        self.begin_custom(Phase::InitCustom, false)
    }

    /// Begins the start of the core modules, in the fixed order.
    pub fn start_core_modules(&self) -> (run: PhaseRun)
        ensures
            self.begins_phase(run, Phase::StartCore),
    {
        self.begin_core(Phase::StartCore, false)
    }

    /// Begins the start of the custom modules, in the order of their
    /// registration.
    pub fn start_custom_modules(&self) -> (run: PhaseRun)
        ensures
            self.begins_phase(run, Phase::StartCustom),
    {
        self.begin_custom(Phase::StartCustom, false)
    }

    /// Begins the stop of the custom modules, last registered first.
    pub fn stop_custom_modules(&self) -> (run: PhaseRun)
        ensures
            self.begins_phase(run, Phase::StopCustom),
    {
        self.begin_custom(Phase::StopCustom, true)
    }

    /// Begins the stop of the core modules, in the reverse of the fixed order.
    pub fn stop_core_modules(&self) -> (run: PhaseRun)
        ensures
            self.begins_phase(run, Phase::StopCore),
    {
        self.begin_core(Phase::StopCore, true)
    }

    /// The migrations of all modules in the order in which they are to be
    /// applied: by module name, then by migration id, wherever the modules
    /// stand in the registry. Migrations of one name and id keep the order of
    /// collection: core modules first, each collection in registration order, a
    /// module's migrations as it declares them.
    pub fn collect_migrations(&self) -> (ordered: Vec<(String, Migration)>)
        ensures
            is_apply_order_of(entries_of(ordered@), gathered(self.all_entries())),
    {
        let mut collected: Vec<(String, Migration)> = Vec::new();
        gather(&self.core_modules, &mut collected);
        gather(&self.custom_modules, &mut collected);
        proof {
            lemma_gathered_concat(self.core_entries(), self.custom_entries());
            assert(entries_of(collected@) =~= gathered(self.all_entries()));
        }
        sort_migrations(collected)
    }

    /// How many core modules are registered.
    pub fn core_module_count(&self) -> (count: usize)
        ensures
            count == self.core_entries().len(),
    {
        self.core_modules.len()
    }

    /// How many custom modules are registered.
    pub fn custom_module_count(&self) -> (count: usize)
        ensures
            count == self.custom_entries().len(),
    {
        self.custom_modules.len()
    }
}

} // verus!

verus! {

impl Default for ModuleRegistry {
    fn default() -> (registry: Self)
        ensures
            registry.core_entries() == Seq::<ModuleDescriptor>::empty(),
            registry.custom_entries() == Seq::<ModuleDescriptor>::empty(),
    {
        Self::new()
    }
}

/// One registration with a registry: the module, and the collection it goes to.
pub enum Registration {
    Core(ModuleDescriptor),
    Custom(ModuleDescriptor),
}

impl Registration {
    /// The module that is registered.
    pub open spec fn module(self) -> ModuleDescriptor {
        match self {
            Registration::Core(module) => module,
            Registration::Custom(module) => module,
        }
    }
}

/// The modules that `calls` register, in the order of the calls.
pub open spec fn registered_modules(calls: Seq<Registration>) -> Seq<ModuleDescriptor> {
    Seq::new(calls.len(), |i: int| calls[i].module())
}

/// The modules that `calls` register as core modules, in the order of the calls.
pub open spec fn registered_core(calls: Seq<Registration>) -> Seq<ModuleDescriptor>
    decreases calls.len(),
{
    if calls.len() == 0 {
        Seq::empty()
    } else {
        match calls.last() {
            Registration::Core(module) => registered_core(calls.drop_last()).push(module),
            Registration::Custom(_) => registered_core(calls.drop_last()),
        }
    }
}

/// The modules that `calls` register as custom modules, in the order of the
/// calls.
pub open spec fn registered_custom(calls: Seq<Registration>) -> Seq<ModuleDescriptor>
    decreases calls.len(),
{
    if calls.len() == 0 {
        Seq::empty()
    } else {
        match calls.last() {
            Registration::Core(_) => registered_custom(calls.drop_last()),
            Registration::Custom(module) => registered_custom(calls.drop_last()).push(module),
        }
    }
}

impl ModuleRegistry {
    /// Whether the registry holds what the registrations `calls`, made in this
    /// order on an empty registry, leave in it.
    pub open spec fn results_from(&self, calls: Seq<Registration>) -> bool {
        &&& self.core_entries() == registered_core(calls)
        &&& self.custom_entries() == registered_custom(calls)
    }

    /// An empty registry results from no registration, and one more
    /// registration, as `register_core` and `register_custom` make it, leaves
    /// what results from the longer sequence of registrations.
    pub proof fn lemma_registration_step(
        before: ModuleRegistry,
        after: ModuleRegistry,
        calls: Seq<Registration>,
        call: Registration,
    )
        requires
            before.results_from(calls),
            match call {
                Registration::Core(module) => {
                    &&& after.core_entries() == before.core_entries().push(module)
                    &&& after.custom_entries() == before.custom_entries()
                },
                Registration::Custom(module) => {
                    &&& after.core_entries() == before.core_entries()
                    &&& after.custom_entries() == before.custom_entries().push(module)
                },
            },
        ensures
            after.results_from(calls.push(call)),
    {
        assert(calls.push(call).drop_last() =~= calls);
        assert(calls.push(call).last() == call);
    }

    /// However core and custom registrations interleave, the registry lists
    /// every registered module exactly once, the core modules before the custom
    /// ones, each collection in the order of its registrations.
    pub proof fn lemma_modules_each_once(&self, calls: Seq<Registration>)
        requires
            self.results_from(calls),
        ensures
            self.all_entries() == registered_core(calls) + registered_custom(calls),
            self.all_entries().len() == calls.len(),
            self.all_entries().to_multiset() == registered_modules(calls).to_multiset(),
    {
        lemma_registered_each_once(calls);
    }

    /// Initializing and starting the core modules visits, in the fixed order,
    /// the first core module of each name in that order that a core module
    /// bears. Names of the order that no core module bears are passed over, and
    /// a core module whose name is not in the order is not visited.
    pub proof fn lemma_core_phases_follow_policy(&self)
        ensures
            self.phase_plan(Phase::InitCore) == self.phase_plan(Phase::StartCore),
            ({
                let registered = names_of(self.core_entries());
                let policy = core_module_order_spec();
                let plan = self.phase_plan(Phase::InitCore);
                let hits = policy_hits(registered, policy);
                &&& plan.len() == hits.len()
                &&& forall|a: int|
                    0 <= a < plan.len() ==> {
                        &&& 0 <= #[trigger] hits[a] < policy.len()
                        &&& first_position(registered, policy[hits[a]]) == Some(plan[a])
                        &&& 0 <= plan[a] < registered.len()
                        &&& registered[plan[a]] == policy[hits[a]]
                    }
                &&& forall|a: int, b: int|
                    0 <= a < b < hits.len() ==> #[trigger] hits[a] < #[trigger] hits[b]
                &&& forall|k: int|
                    0 <= k < policy.len() && first_position(registered, #[trigger] policy[k])
                        is Some ==> hits.contains(k)
            }),
    {
        lemma_policy_plan_follows_policy(names_of(self.core_entries()), core_module_order_spec());
    }

    /// Stopping visits the modules of a collection in the exact reverse of the
    /// order in which initializing and starting visit them.
    pub proof fn lemma_stop_reverses(&self)
        ensures
            self.phase_plan(Phase::StopCore) == self.phase_plan(Phase::InitCore).reverse(),
            self.phase_plan(Phase::StopCore) == self.phase_plan(Phase::StartCore).reverse(),
            self.phase_plan(Phase::StopCustom) == self.phase_plan(Phase::InitCustom).reverse(),
            self.phase_plan(Phase::StopCustom) == self.phase_plan(Phase::StartCustom).reverse(),
            self.phase_names(Phase::StopCore) == self.phase_names(Phase::InitCore).reverse(),
            self.phase_names(Phase::StopCustom) == self.phase_names(Phase::InitCustom).reverse(),
    {
        let core_names = names_of(self.core_entries());
        lemma_policy_plan_reverse(core_names, core_module_order_spec());
        let count = self.custom_entries().len();
        assert(backward_plan(count) =~= forward_plan(count).reverse());
        assert(self.phase_names(Phase::StopCore) =~= self.phase_names(Phase::InitCore).reverse());
        assert(self.phase_names(Phase::StopCustom) =~= self.phase_names(
            Phase::InitCustom,
        ).reverse());
    }
}

/// The registered modules, split by collection, are the registered modules.
pub proof fn lemma_registered_each_once(calls: Seq<Registration>)
    ensures
        (registered_core(calls) + registered_custom(calls)).len() == calls.len(),
        (registered_core(calls) + registered_custom(calls)).to_multiset() == registered_modules(
            calls,
        ).to_multiset(),
    decreases calls.len(),
{
    broadcast use vstd::seq_lib::to_multiset_build, vstd::seq_lib::lemma_multiset_commutative;

    let core_part = registered_core(calls);
    let custom_part = registered_custom(calls);
    if calls.len() == 0 {
        assert(core_part + custom_part =~= registered_modules(calls));
    } else {
        let earlier = calls.drop_last();
        lemma_registered_each_once(earlier);
        let module = calls.last().module();
        assert(registered_modules(calls) =~= registered_modules(earlier).push(module));
        match calls.last() {
            Registration::Core(_) => {
                assert(core_part == registered_core(earlier).push(module));
                assert(custom_part == registered_custom(earlier));
                assert((core_part + custom_part).to_multiset() =~= registered_modules(
                    calls,
                ).to_multiset());
            },
            Registration::Custom(_) => {
                assert(core_part + custom_part =~= (registered_core(earlier) + registered_custom(
                    earlier,
                )).push(module));
            },
        }
    }
}

/// The plan for two policies in a row is the plan for the first followed by the
/// plan for the second.
pub proof fn lemma_policy_plan_concat(
    registered: Seq<Seq<char>>,
    first: Seq<Seq<char>>,
    second: Seq<Seq<char>>,
)
    ensures
        policy_plan(registered, first + second) == policy_plan(registered, first) + policy_plan(
            registered,
            second,
        ),
    decreases second.len(),
{
    if second.len() == 0 {
        assert(first + second =~= first);
        assert(policy_plan(registered, first) + policy_plan(registered, second) =~= policy_plan(
            registered,
            first,
        ));
    } else {
        assert((first + second).drop_last() =~= first + second.drop_last());
        assert((first + second).last() == second.last());
        lemma_policy_plan_concat(registered, first, second.drop_last());
        let head = policy_plan(registered, first);
        let tail = policy_plan(registered, second.drop_last());
        match first_position(registered, second.last()) {
            Some(i) => {
                assert(head + tail.push(i) =~= (head + tail).push(i));
            },
            None => {},
        }
    }
}

/// The plan for a policy read backwards is the plan for the policy, read
/// backwards.
pub proof fn lemma_policy_plan_reverse(registered: Seq<Seq<char>>, policy: Seq<Seq<char>>)
    ensures
        policy_plan(registered, policy.reverse()) == policy_plan(registered, policy).reverse(),
    decreases policy.len(),
{
    if policy.len() == 0 {
        assert(policy.reverse() =~= policy);
        assert(policy_plan(registered, policy).reverse() =~= Seq::<int>::empty());
    } else {
        let earlier = policy.drop_last();
        let one = seq![policy.last()];
        lemma_policy_plan_reverse(registered, earlier);
        assert(policy.reverse() =~= one + earlier.reverse());
        lemma_policy_plan_concat(registered, one, earlier.reverse());
        assert(one.drop_last() =~= Seq::<Seq<char>>::empty());
        assert(one.last() == policy.last());
        assert(policy_plan(registered, one.drop_last()) =~= Seq::<int>::empty());
        let plan = policy_plan(registered, earlier);
        match first_position(registered, policy.last()) {
            Some(i) => {
                assert(policy_plan(registered, one) =~= seq![i]);
                assert(plan.push(i).reverse() =~= seq![i] + plan.reverse());
            },
            None => {
                assert(policy_plan(registered, one) =~= Seq::<int>::empty());
                assert(Seq::<int>::empty() + plan.reverse() =~= plan.reverse());
            },
        }
    }
}

/// The places in `policy` of the entries that name a registered module, in
/// ascending order.
pub open spec fn policy_hits(registered: Seq<Seq<char>>, policy: Seq<Seq<char>>) -> Seq<int>
    decreases policy.len(),
{
    if policy.len() == 0 {
        Seq::empty()
    } else {
        let earlier = policy_hits(registered, policy.drop_last());
        if first_position(registered, policy.last()) is Some {
            earlier.push(policy.len() - 1)
        } else {
            earlier
        }
    }
}

/// A phase over a policy visits, in the order of the policy, the first module
/// of each name that the policy holds and a module bears. It passes over the
/// entries that no module bears, and visits no module that the policy does not
/// name.
pub proof fn lemma_policy_plan_follows_policy(registered: Seq<Seq<char>>, policy: Seq<Seq<char>>)
    ensures
        ({
            let plan = policy_plan(registered, policy);
            let hits = policy_hits(registered, policy);
            &&& plan.len() == hits.len()
            &&& forall|a: int|
                0 <= a < plan.len() ==> {
                    &&& 0 <= #[trigger] hits[a] < policy.len()
                    &&& first_position(registered, policy[hits[a]]) == Some(plan[a])
                    &&& 0 <= plan[a] < registered.len()
                    &&& registered[plan[a]] == policy[hits[a]]
                }
            &&& forall|a: int, b: int|
                0 <= a < b < hits.len() ==> #[trigger] hits[a] < #[trigger] hits[b]
            &&& forall|k: int|
                0 <= k < policy.len() && first_position(registered, #[trigger] policy[k]) is Some
                    ==> hits.contains(k)
        }),
    decreases policy.len(),
{
    if policy.len() > 0 {
        let earlier = policy.drop_last();
        lemma_policy_plan_follows_policy(registered, earlier);
        lemma_first_position(registered, policy.last());
        let plan = policy_plan(registered, policy);
        let hits = policy_hits(registered, policy);
        let plan0 = policy_plan(registered, earlier);
        let hits0 = policy_hits(registered, earlier);
        assert forall|a: int| 0 <= a < plan.len() implies {
            &&& 0 <= #[trigger] hits[a] < policy.len()
            &&& first_position(registered, policy[hits[a]]) == Some(plan[a])
            &&& 0 <= plan[a] < registered.len()
            &&& registered[plan[a]] == policy[hits[a]]
        } by {
            if a < plan0.len() {
                assert(hits[a] == hits0[a]);
                assert(plan[a] == plan0[a]);
                assert(policy[hits0[a]] == earlier[hits0[a]]);
            }
        }
        assert forall|a: int, b: int| 0 <= a < b < hits.len() implies #[trigger] hits[a]
            < #[trigger] hits[b] by {
            if b < hits0.len() {
                assert(hits[a] == hits0[a] && hits[b] == hits0[b]);
            } else {
                assert(hits[a] == hits0[a]);
                assert(hits0[a] < earlier.len());
            }
        }
        assert forall|k: int|
            0 <= k < policy.len() && first_position(
                registered,
                #[trigger] policy[k],
            ) is Some implies hits.contains(k) by {
            if k < earlier.len() {
                assert(policy[k] == earlier[k]);
                assert(hits0.contains(k));
                let at = choose|at: int| 0 <= at < hits0.len() && hits0[at] == k;
                assert(hits[at] == k);
            } else {
                assert(hits[hits.len() - 1] == k);
            }
        }
    }
}

/// Whether no name stands twice in `policy`.
pub open spec fn policy_is_distinct(policy: Seq<Seq<char>>) -> bool {
    forall|i: int, j: int| 0 <= i < j < policy.len() ==> policy[i] != policy[j]
}

/// The order of a policy decides the order of the visits: of two registered
/// modules, each the first of its name, the one whose name stands earlier in
/// the policy is visited earlier. Registration order plays no part.
pub proof fn lemma_policy_plan_precedence(
    registered: Seq<Seq<char>>,
    policy: Seq<Seq<char>>,
    earlier: int,
    later: int,
) -> (places: (int, int))
    requires
        0 <= earlier < later < policy.len(),
        first_position(registered, policy[earlier]) is Some,
        first_position(registered, policy[later]) is Some,
    ensures
        0 <= places.0 < places.1 < policy_plan(registered, policy).len(),
        Some(policy_plan(registered, policy)[places.0]) == first_position(
            registered,
            policy[earlier],
        ),
        Some(policy_plan(registered, policy)[places.1]) == first_position(
            registered,
            policy[later],
        ),
{
    lemma_policy_plan_follows_policy(registered, policy);
    let hits = policy_hits(registered, policy);
    assert(hits.contains(earlier));
    assert(hits.contains(later));
    let a = choose|a: int| 0 <= a < hits.len() && hits[a] == earlier;
    let b = choose|b: int| 0 <= b < hits.len() && hits[b] == later;
    if b < a {
        assert(hits[b] < hits[a]);
    }
    (a, b)
}

/// Under a policy without repeated names no module is visited twice.
pub proof fn lemma_policy_plan_visits_once(registered: Seq<Seq<char>>, policy: Seq<Seq<char>>)
    requires
        policy_is_distinct(policy),
    ensures
        forall|a: int, b: int|
            0 <= a < b < policy_plan(registered, policy).len() ==> policy_plan(
                registered,
                policy,
            )[a] != policy_plan(registered, policy)[b],
{
    lemma_policy_plan_follows_policy(registered, policy);
    let plan = policy_plan(registered, policy);
    let hits = policy_hits(registered, policy);
    assert forall|a: int, b: int| 0 <= a < b < plan.len() implies plan[a] != plan[b] by {
        assert(hits[a] < hits[b]);
        assert(registered[plan[a]] == policy[hits[a]]);
        assert(registered[plan[b]] == policy[hits[b]]);
    }
}

/// The fixed order of the core modules names no module twice.
pub proof fn lemma_core_order_is_distinct()
    ensures
        policy_is_distinct(core_module_order_spec()),
{
    reveal_strlit("kernel");
    reveal_strlit("telemetry");
    reveal_strlit("db");
    reveal_strlit("authz");
    reveal_strlit("events");
    let order = core_module_order_spec();
    assert(order[0].len() == 6 && order[1].len() == 9 && order[2].len() == 2 && order[3].len()
        == 5 && order[4].len() == 6);
    assert(order[0][0] == 'k' && order[4][0] == 'e');
}

impl ModuleRegistry {
    /// Core modules are initialized and started in the fixed order, whatever
    /// the order of their registration. Take two core modules, each the first
    /// core module of its name, whose names stand in the fixed order, the one
    /// before the other. Then the phase visits each of them once, the one
    /// before the other; and where every call succeeds, the calls are made in
    /// that order. Stopping visits them the other way round.
    pub proof fn lemma_core_modules_in_fixed_order(
        &self,
        run: PhaseRun,
        first: int,
        second: int,
        first_place: int,
        second_place: int,
    ) -> (places: (int, int))
        requires
            self.begins_phase(run, Phase::InitCore) || self.begins_phase(run, Phase::StartCore),
            0 <= first_place < second_place < core_module_order_spec().len(),
            first_position(names_of(self.core_entries()), core_module_order_spec()[first_place])
                == Some(first),
            first_position(names_of(self.core_entries()), core_module_order_spec()[second_place])
                == Some(second),
        ensures
            0 <= places.0 < places.1 < run.plan().len(),
            run.plan()[places.0] == first,
            run.plan()[places.1] == second,
            forall|at: int|
                0 <= at < run.plan().len() && at != places.0 ==> run.plan()[at] != first,
            forall|at: int|
                0 <= at < run.plan().len() && at != places.1 ==> run.plan()[at] != second,
            run.after_all(Seq::new(run.plan().len(), |i: int| true)).called() == run.plan(),
            self.phase_plan(Phase::StopCore) == run.plan().reverse(),
    {
        let registered = names_of(self.core_entries());
        let policy = core_module_order_spec();
        let plan = policy_plan(registered, policy);
        let places = lemma_policy_plan_precedence(registered, policy, first_place, second_place);
        lemma_core_order_is_distinct();
        lemma_policy_plan_visits_once(registered, policy);
        assert forall|at: int| 0 <= at < plan.len() && at != places.0 implies plan[at]
            != first by {
            if at < places.0 {
                assert(plan[at] != plan[places.0]);
            } else {
                assert(plan[places.0] != plan[at]);
            }
        }
        assert forall|at: int| 0 <= at < plan.len() && at != places.1 implies plan[at]
            != second by {
            if at < places.1 {
                assert(plan[at] != plan[places.1]);
            } else {
                assert(plan[places.1] != plan[at]);
            }
        }
        run.lemma_all_succeed(plan.len());
        assert(plan.take(plan.len() as int) =~= plan);
        self.lemma_stop_reverses();
        places
    }
}

} // verus!
