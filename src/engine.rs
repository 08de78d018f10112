//! The engine and its builder: registration with dependency checks, export
//! allow-lists, and the checks that govern every invocation.
use vstd::prelude::*;
use std::sync::Arc;
use tokio_util::sync::CancellationToken;
use crate::context::{agent_path, derived_from, tool_path, valid_user, AgentCtx, BaseCtx};
use crate::error::EngineError;
use crate::identity::Identity;
use crate::names::{holds_name, insert_name, insert_names, retain_registered};
use crate::path::{path_raw_of, valid_part, validate_path_part, Path, ROOT_PATH};
use crate::registry::{
    definitions_for, has_name, texts, unique_names, FunctionDefinition, Registry,
    UnitInfo, UnitView,
};
use crate::text::{ascii_lower, lemma_ascii_lower_idempotent, to_ascii_lower};
use vstd::string::*;

verus! {

/// The paths an engine may enter: the root, then one tagged path per tool,
/// then one per agent.
pub open spec fn allowed_paths(tools: Seq<UnitView>, agents: Seq<UnitView>) -> Seq<Seq<char>> {
    seq![path_raw_of(ROOT_PATH@)] + tools.map_values(|u: UnitView| tool_path(u.name))
        + agents.map_values(|u: UnitView| agent_path(u.name))
}

/// Whether every dependency of `unit` names a unit of `tools`.
pub open spec fn dependencies_met(tools: Seq<UnitView>, unit: UnitView) -> bool {
    forall|i: int| 0 <= i < unit.dependencies.len() ==> has_name(tools, #[trigger] unit.dependencies[i])
}

/// `unit` with its name ASCII-lowercased, as agents are registered.
pub open spec fn lowered(unit: UnitView) -> UnitView {
    UnitView { name: ascii_lower(unit.name), ..unit }
}

/// Every name is its own ASCII lowercase.
pub open spec fn lowercase_names(units: Seq<UnitView>) -> bool {
    forall|i: int| 0 <= i < units.len() ==> #[trigger] units[i].name == ascii_lower(units[i].name)
}

/// The agents registered once the first `i` agents of a batch have been.
pub open spec fn batch_prefix(start: Seq<UnitView>, batch: Seq<UnitView>, i: int) -> Seq<UnitView> {
    start + batch.take(i).map_values(|u: UnitView| lowered(u))
}

/// Whether the lowercased name of agent `i` of a batch is taken when its
/// turn comes.
pub open spec fn batch_name_taken(start: Seq<UnitView>, batch: Seq<UnitView>, i: int) -> bool {
    has_name(batch_prefix(start, batch, i), ascii_lower(batch[i].name))
}

/// Whether agent `i` of a batch breaks a rule when its turn comes.
pub open spec fn batch_fault(start: Seq<UnitView>, tools: Seq<UnitView>, batch: Seq<UnitView>, i: int) -> bool {
    batch_name_taken(start, batch, i) || !dependencies_met(tools, batch[i])
}

/// Agent `i` is the first of the batch that breaks a rule.
pub open spec fn first_batch_fault(
    start: Seq<UnitView>,
    tools: Seq<UnitView>,
    batch: Seq<UnitView>,
    i: int,
) -> bool {
    &&& 0 <= i < batch.len()
    &&& batch_fault(start, tools, batch, i)
    &&& forall|k: int| 0 <= k < i ==> !#[trigger] batch_fault(start, tools, batch, k)
}

/// Only one agent of a batch is the first to break a rule.
proof fn lemma_first_fault_decides(start: Seq<UnitView>, tools: Seq<UnitView>, batch: Seq<UnitView>, i: int)
    requires
        first_batch_fault(start, tools, batch, i),
    ensures
        forall|j: int| #[trigger] first_batch_fault(start, tools, batch, j) ==> j == i,
        !(forall|k: int| 0 <= k < batch.len() ==> !#[trigger] batch_fault(start, tools, batch, k)),
{
    assert forall|j: int| #[trigger] first_batch_fault(start, tools, batch, j) implies j == i by {
        if j < i {
            assert(!batch_fault(start, tools, batch, j));
        }
        if i < j {
            assert(!batch_fault(start, tools, batch, i));
        }
    }
}

/// No two units have names that differ only in ASCII case.
pub open spec fn unique_ignoring_case(units: Seq<UnitView>) -> bool {
    forall|i: int, j: int|
        0 <= i < units.len() && 0 <= j < units.len() && ascii_lower(#[trigger] units[i].name)
            == ascii_lower(#[trigger] units[j].name) ==> i == j
}

/// The builder's name for an engine until one is set.
pub const DEFAULT_ENGINE_NAME: &'static str = "Anda";

/// Accumulates registries, identity, cancellation signal and export lists,
/// and produces an `Engine`.
pub struct EngineBuilder {
    id: Identity,
    name: String,
    tools: Registry,
    agents: Registry,
    cancellation_token: CancellationToken,
    export_agents: Vec<String>,
    export_tools: Vec<String>,
}

impl EngineBuilder {
    /// The engine identity.
    pub closed spec fn identity(&self) -> Seq<u8> {
        self.id@
    }

    /// The engine name.
    pub closed spec fn engine_name(&self) -> Seq<char> {
        self.name@
    }

    /// The registered tools, in registration order.
    pub closed spec fn tool_units(&self) -> Seq<UnitView> {
        self.tools@
    }

    /// The registered agents, in registration order, names lowercased.
    pub closed spec fn agent_units(&self) -> Seq<UnitView> {
        self.agents@
    }

    /// The export allow-list of agents.
    pub closed spec fn exported_agents(&self) -> Seq<Seq<char>> {
        texts(self.export_agents@)
    }

    /// The export allow-list of tools.
    pub closed spec fn exported_tools(&self) -> Seq<Seq<char>> {
        texts(self.export_tools@)
    }

    /// The identity fits a principal, each registry and allow-list holds a
    /// name once, and agent names are lowercase.
    pub closed spec fn wf(&self) -> bool {
        &&& self.id.wf()
        &&& self.tools.wf()
        &&& self.agents.wf()
        &&& lowercase_names(self.agents@)
        &&& texts(self.export_agents@).no_duplicates()
        &&& texts(self.export_tools@).no_duplicates()
    }

    /// A builder with the anonymous identity, the default name, no units, a
    /// fresh cancellation signal and nothing exported.
    pub fn new() -> (r: EngineBuilder)
        ensures
            r.wf(),
            r.identity() == seq![crate::identity::ANONYMOUS_TAG],
            r.engine_name() == DEFAULT_ENGINE_NAME@,
            r.tool_units().len() == 0,
            r.agent_units().len() == 0,
            r.exported_agents().len() == 0,
            r.exported_tools().len() == 0,
    {
        let r = EngineBuilder {
            id: Identity::anonymous(),
            name: String::from_str(DEFAULT_ENGINE_NAME),
            tools: Registry::new(),
            agents: Registry::new(),
            cancellation_token: CancellationToken::new(),
            export_agents: Vec::new(),
            export_tools: Vec::new(),
        };
        assert(texts(r.export_agents@) =~= Seq::<Seq<char>>::empty());
        assert(texts(r.export_tools@) =~= Seq::<Seq<char>>::empty());
        r
    }

    /// Sets the engine identity.
    pub fn with_id(self, id: Identity) -> (r: EngineBuilder)
        requires
            self.wf(),
            id.wf(),
        ensures
            r.wf(),
            r.identity() == id@,
            r.engine_name() == self.engine_name(),
            r.tool_units() == self.tool_units(),
            r.agent_units() == self.agent_units(),
            r.exported_agents() == self.exported_agents(),
            r.exported_tools() == self.exported_tools(),
    {
        EngineBuilder { id, ..self }
    }

    /// Sets the engine name.
    pub fn with_name(self, name: String) -> (r: EngineBuilder)
        requires
            self.wf(),
        ensures
            r.wf(),
            r.identity() == self.identity(),
            r.engine_name() == name@,
            r.tool_units() == self.tool_units(),
            r.agent_units() == self.agent_units(),
            r.exported_agents() == self.exported_agents(),
            r.exported_tools() == self.exported_tools(),
    {
        EngineBuilder { name, ..self }
    }

    /// Sets the root cancellation signal.
    pub fn with_cancellation_token(self, cancellation_token: CancellationToken) -> (r: EngineBuilder)
        requires
            self.wf(),
        ensures
            r.wf(),
            r.identity() == self.identity(),
            r.engine_name() == self.engine_name(),
            r.tool_units() == self.tool_units(),
            r.agent_units() == self.agent_units(),
            r.exported_agents() == self.exported_agents(),
            r.exported_tools() == self.exported_tools(),
    {
        EngineBuilder { cancellation_token, ..self }
    }

    /// Registers a tool; fails with `DuplicateName` when its name is taken.
    pub fn register_tool(self, tool: UnitInfo) -> (r: Result<EngineBuilder, EngineError>)
        requires
            self.wf(),
        ensures
            r is Err <==> has_name(self.tool_units(), tool@.name),
            r matches Err(e) ==> e is DuplicateName,
            r matches Ok(b) ==> b.wf() && b.tool_units() == self.tool_units().push(tool@)
                && b.agent_units() == self.agent_units() && b.identity() == self.identity()
                && b.engine_name() == self.engine_name()
                && b.exported_agents() == self.exported_agents()
                && b.exported_tools() == self.exported_tools(),
    {
        let mut b = self;
        match b.tools.add(tool) {
            Ok(()) => Ok(b),
            Err(e) => Err(e),
        }
    }

    /// Registers an agent under its ASCII-lowercased name. Fails with
    /// `MissingDependency` when a tool it depends on has not been registered
    /// yet, then with `DuplicateName` when the lowercased name is taken.
    pub fn register_agent(self, agent: UnitInfo) -> (r: Result<EngineBuilder, EngineError>)
        requires
            self.wf(),
        ensures
            r matches Err(EngineError::MissingDependency(_)) <==> !dependencies_met(
                self.tool_units(),
                agent@,
            ),
            r is Ok <==> dependencies_met(self.tool_units(), agent@) && !has_name(
                self.agent_units(),
                ascii_lower(agent@.name),
            ),
            r matches Err(e) ==> e is MissingDependency || e is DuplicateName,
            r matches Ok(b) ==> b.wf() && b.agent_units() == self.agent_units().push(lowered(agent@))
                && b.tool_units() == self.tool_units() && b.identity() == self.identity()
                && b.engine_name() == self.engine_name()
                && b.exported_agents() == self.exported_agents()
                && b.exported_tools() == self.exported_tools(),
    {
        let mut b = self;
        let mut i: usize = 0;
        while i < agent.dependencies.len()
            invariant
                i <= agent.dependencies@.len(),
                b.tools@ == self.tools@,
                forall|k: int| 0 <= k < i ==> has_name(b.tools@, #[trigger] agent@.dependencies[k]),
            decreases agent.dependencies@.len() - i,
        {
            assert(agent@.dependencies[i as int] == agent.dependencies@[i as int]@);
            if !b.tools.contains(agent.dependencies[i].as_str()) {
                assert(!has_name(self.tools@, agent@.dependencies[i as int]));
                return Err(EngineError::MissingDependency(agent.dependencies[i].clone()));
            }
            i = i + 1;
        }
        assert(dependencies_met(self.tools@, agent@));
        let ghost v = agent@;
        let UnitInfo { name, definition, dependencies } = agent;
        let unit = UnitInfo { name: to_ascii_lower(name.as_str()), definition, dependencies };
        assert(unit@ == lowered(v));
        let ghost prev = b.agents@;
        match b.agents.add(unit) {
            Ok(()) => {
                proof {
                    lemma_ascii_lower_idempotent(v.name);
                    assert forall|j: int| 0 <= j < b.agents@.len() implies #[trigger] b.agents@[j].name
                        == ascii_lower(b.agents@[j].name) by {
                        if j < prev.len() {
                            assert(b.agents@[j] == prev[j]);
                        }
                    }
                }
                Ok(b)
            },
            Err(e) => Err(e),
        }
    }

    /// Registers every tool of `tools`; fails with `DuplicateName` when one
    /// of their names is taken.
    pub fn register_tools(self, tools: Registry) -> (r: Result<EngineBuilder, EngineError>)
        requires
            self.wf(),
            tools.wf(),
        ensures
            r is Ok <==> forall|i: int|
                0 <= i < tools@.len() ==> !has_name(self.tool_units(), #[trigger] tools@[i].name),
            r matches Err(e) ==> e is DuplicateName,
            r matches Ok(b) ==> b.wf() && b.tool_units() == self.tool_units() + tools@
                && b.agent_units() == self.agent_units() && b.identity() == self.identity()
                && b.engine_name() == self.engine_name()
                && b.exported_agents() == self.exported_agents()
                && b.exported_tools() == self.exported_tools(),
    {
        let mut b = self;
        let ghost start = b.tools@;
        let units = tools.into_units();
        let mut i: usize = 0;
        while i < units.len()
            invariant
                i <= units@.len(),
                units@.map_values(|u: UnitInfo| u@) == tools@,
                unique_names(tools@),
                b.wf(),
                start == self.tools@,
                b.tools@ == start + tools@.take(i as int),
                forall|k: int| 0 <= k < i ==> !has_name(start, #[trigger] tools@[k].name),
                b.agents@ == self.agents@,
                b.id@ == self.id@,
                b.name@ == self.name@,
                b.export_agents@ == self.export_agents@,
                b.export_tools@ == self.export_tools@,
            decreases units@.len() - i,
        {
            let ghost prev = b.tools@;
            assert(tools@[i as int] == units@[i as int]@);
            let unit = units[i].duplicate();
            match b.tools.add(unit) {
                Ok(()) => {},
                Err(e) => {
                    proof {
                        let j = choose|j: int| 0 <= j < prev.len() && #[trigger] prev[j].name == tools@[i as int].name;
                        if j >= start.len() {
                            let m = j - start.len();
                            assert(prev[j] == tools@.take(i as int)[m]);
                            assert(tools@[m].name == tools@[i as int].name);
                            assert(false);
                        }
                        assert(prev[j] == start[j]);
                        assert(start[j].name == tools@[i as int].name);
                        assert(has_name(start, tools@[i as int].name));
                        assert(!(forall|i: int|
                            0 <= i < tools@.len() ==> !has_name(start, #[trigger] tools@[i].name)));
                    }
                    return Err(e);
                },
            }
            proof {
                assert(!has_name(start, tools@[i as int].name)) by {
                    if has_name(start, tools@[i as int].name) {
                        let j = choose|j: int| 0 <= j < start.len() && #[trigger] start[j].name == tools@[i as int].name;
                        assert(prev[j].name == tools@[i as int].name);
                    }
                }
                assert(tools@.take(i as int + 1) =~= tools@.take(i as int).push(tools@[i as int]));
                assert(b.tools@ =~= start + tools@.take(i as int + 1));
            }
            i = i + 1;
        }
        assert(tools@.take(tools@.len() as int) =~= tools@);
        Ok(b)
    }

    /// Registers every agent of `agents`, in order, under its
    /// ASCII-lowercased name. The first agent in order that breaks a rule
    /// decides the error: `DuplicateName` when its lowercased name is taken
    /// (by an agent registered before or earlier in the batch), else
    /// `MissingDependency` when a tool it depends on is not registered.
    pub fn register_agents(self, agents: Registry) -> (r: Result<EngineBuilder, EngineError>)
        requires
            self.wf(),
            agents.wf(),
        ensures
            r is Ok <==> forall|i: int|
                0 <= i < agents@.len() ==> !#[trigger] batch_fault(
                    self.agent_units(),
                    self.tool_units(),
                    agents@,
                    i,
                ),
            r matches Err(EngineError::DuplicateName(_)) <==> exists|i: int|
                first_batch_fault(self.agent_units(), self.tool_units(), agents@, i)
                    && #[trigger] batch_name_taken(self.agent_units(), agents@, i),
            r matches Err(EngineError::MissingDependency(_)) <==> exists|i: int|
                first_batch_fault(self.agent_units(), self.tool_units(), agents@, i)
                    && !#[trigger] batch_name_taken(self.agent_units(), agents@, i),
            r matches Err(e) ==> e is DuplicateName || e is MissingDependency,
            r matches Ok(b) ==> b.wf() && b.agent_units() == self.agent_units()
                + agents@.map_values(|u: UnitView| lowered(u)) && b.tool_units() == self.tool_units()
                && b.identity() == self.identity() && b.engine_name() == self.engine_name()
                && b.exported_agents() == self.exported_agents()
                && b.exported_tools() == self.exported_tools(),
    {
        let mut b = self;
        let ghost start = b.agents@;
        let ghost tools = b.tools@;
        let units = agents.into_units();
        let mut i: usize = 0;
        while i < units.len()
            invariant
                i <= units@.len(),
                units@.map_values(|u: UnitInfo| u@) == agents@,
                start == self.agents@,
                tools == self.tools@,
                b.wf(),
                b.agents@ == start + agents@.take(i as int).map_values(|u: UnitView| lowered(u)),
                forall|k: int| 0 <= k < i ==> !#[trigger] batch_fault(start, tools, agents@, k),
                b.tools@ == self.tools@,
                b.id@ == self.id@,
                b.name@ == self.name@,
                b.export_agents@ == self.export_agents@,
                b.export_tools@ == self.export_tools@,
            decreases units@.len() - i,
        {
            assert(agents@[i as int] == units@[i as int]@);
            assert(b.agents@ == batch_prefix(start, agents@, i as int));
            let name = to_ascii_lower(units[i].name.as_str());
            if b.agents.contains(name.as_str()) {
                proof {
                    assert(batch_name_taken(start, agents@, i as int));
                    assert(first_batch_fault(start, tools, agents@, i as int));
                    lemma_first_fault_decides(start, tools, agents@, i as int);
                    assert(first_batch_fault(self.agent_units(), self.tool_units(), agents@, i as int));
                    assert(batch_name_taken(self.agent_units(), agents@, i as int));
                    assert(batch_fault(self.agent_units(), self.tool_units(), agents@, i as int));
                }
                return Err(EngineError::DuplicateName(name));
            }
            let mut k: usize = 0;
            while k < units[i].dependencies.len()
                invariant
                    0 <= i < units@.len(),
                    units@.len() == agents@.len(),
                    k <= units@[i as int].dependencies@.len(),
                    agents@[i as int] == units@[i as int]@,
                    b.tools@ == tools,
                    start == self.agents@,
                    tools == self.tools@,
                    !batch_name_taken(start, agents@, i as int),
                    forall|j: int| 0 <= j < i ==> !#[trigger] batch_fault(start, tools, agents@, j),
                    forall|m: int|
                        0 <= m < k ==> has_name(tools, #[trigger] agents@[i as int].dependencies[m]),
                decreases units@[i as int].dependencies@.len() - k,
            {
                assert(agents@[i as int].dependencies[k as int] == units@[i as int].dependencies@[k as int]@);
                if !b.tools.contains(units[i].dependencies[k].as_str()) {
                    proof {
                        assert(!dependencies_met(tools, agents@[i as int]));
                        assert(first_batch_fault(start, tools, agents@, i as int));
                        lemma_first_fault_decides(start, tools, agents@, i as int);
                        assert(first_batch_fault(self.agent_units(), self.tool_units(), agents@, i as int));
                        assert(!batch_name_taken(self.agent_units(), agents@, i as int));
                        assert(batch_fault(self.agent_units(), self.tool_units(), agents@, i as int));
                    }
                    return Err(EngineError::MissingDependency(units[i].dependencies[k].clone()));
                }
                k = k + 1;
            }
            assert(dependencies_met(tools, agents@[i as int]));
            let unit = UnitInfo {
                name,
                definition: units[i].definition.duplicate(),
                dependencies: units[i].dependencies.clone(),
            };
            assert(texts(unit.dependencies@) =~= texts(units@[i as int].dependencies@));
            assert(unit@ == lowered(agents@[i as int]));
            let ghost prev = b.agents@;
            match b.agents.add(unit) {
                Ok(()) => {},
                Err(e) => {
                    return Err(e);
                },
            }
            proof {
                lemma_ascii_lower_idempotent(agents@[i as int].name);
                assert(agents@.take(i as int + 1) =~= agents@.take(i as int).push(agents@[i as int]));
                assert(agents@.take(i as int + 1).map_values(|u: UnitView| lowered(u))
                    =~= agents@.take(i as int).map_values(|u: UnitView| lowered(u)).push(lowered(agents@[i as int])));
                assert(b.agents@ =~= start + agents@.take(i as int + 1).map_values(|u: UnitView| lowered(u)));
                assert(!batch_fault(start, tools, agents@, i as int));
                assert forall|j: int| 0 <= j < b.agents@.len() implies #[trigger] b.agents@[j].name
                    == ascii_lower(b.agents@[j].name) by {
                    if j < prev.len() {
                        assert(b.agents@[j] == prev[j]);
                    }
                }
            }
            i = i + 1;
        }
        proof {
            assert(agents@.take(agents@.len() as int) =~= agents@);
            assert forall|j: int| 0 <= j < agents@.len() implies !(#[trigger] first_batch_fault(
                start,
                tools,
                agents@,
                j,
            )) by {}
        }
        Ok(b)
    }

    /// Adds the ASCII-lowercased `agents` to the export allow-list.
    pub fn export_agents(self, agents: &Vec<String>) -> (r: EngineBuilder)
        requires
            self.wf(),
        ensures
            r.wf(),
            forall|s: Seq<char>|
                #![trigger r.exported_agents().contains(s)]
                r.exported_agents().contains(s) <==> (self.exported_agents().contains(s) || exists|i: int|
                    0 <= i < agents@.len() && s == ascii_lower(#[trigger] agents@[i]@)),
            r.identity() == self.identity(),
            r.engine_name() == self.engine_name(),
            r.tool_units() == self.tool_units(),
            r.agent_units() == self.agent_units(),
            r.exported_tools() == self.exported_tools(),
    {
        let mut b = self;
        insert_names(&mut b.export_agents, agents, true);
        b
    }

    /// Adds `tools` to the export allow-list.
    pub fn export_tools(self, tools: &Vec<String>) -> (r: EngineBuilder)
        requires
            self.wf(),
        ensures
            r.wf(),
            forall|s: Seq<char>|
                #![trigger r.exported_tools().contains(s)]
                r.exported_tools().contains(s) <==> (self.exported_tools().contains(s) || exists|i: int|
                    0 <= i < tools@.len() && s == #[trigger] tools@[i]@),
            r.identity() == self.identity(),
            r.engine_name() == self.engine_name(),
            r.tool_units() == self.tool_units(),
            r.agent_units() == self.agent_units(),
            r.exported_agents() == self.exported_agents(),
    {
        let mut b = self;
        insert_names(&mut b.export_tools, tools, false);
        b
    }
}

/// The tagged paths of the units of `reg`, in registration order.
fn tagged_paths(reg: &Registry, tag: &str) -> (r: Vec<Path>)
    ensures
        crate::context::path_texts(r@) == reg@.map_values(|u: UnitView| path_raw_of(tag@ + u.name)),
{
    let mut out: Vec<Path> = Vec::new();
    let mut i: usize = 0;
    while i < reg.len()
        invariant
            i <= reg@.len(),
            out@.len() == i,
            crate::context::path_texts(out@) =~= reg@.take(i as int).map_values(
                |u: UnitView| path_raw_of(tag@ + u.name),
            ),
        decreases reg@.len() - i,
    {
        let unit = reg.unit_at(i);
        let mut text = String::from_str(tag);
        text.append(unit.name.as_str());
        let ghost before = out@;
        out.push(Path::parse(text.as_str()));
        assert(out@ =~= before.push(out@[i as int]));
        assert(crate::context::path_texts(out@) =~= crate::context::path_texts(before).push(
            path_raw_of(tag@ + reg@[i as int].name),
        ));
        assert(reg@.take(i as int + 1) =~= reg@.take(i as int).push(reg@[i as int]));
        i = i + 1;
    }
    assert(reg@.take(reg@.len() as int) =~= reg@);
    out
}

impl EngineBuilder {
    /// Produces the engine whose default agent is `default_agent`. Fails with
    /// `DefaultAgentNotFound` when no agent of that name, ASCII-lowercased,
    /// is registered, then with `InvalidUser` when the engine name is not a
    /// valid path segment: every unit is initialized in a context whose user
    /// is the engine name. The default agent joins the export allow-list,
    /// exported names that no unit has are dropped, and the allowed paths
    /// are the root and the tagged path of every unit.
    pub fn build(self, default_agent: String) -> (r: Result<Engine, EngineError>)
        requires
            self.wf(),
        ensures
            r matches Err(EngineError::DefaultAgentNotFound(_)) <==> !has_name(
                self.agent_units(),
                ascii_lower(default_agent@),
            ),
            r is Ok <==> has_name(self.agent_units(), ascii_lower(default_agent@)) && valid_part(
                self.engine_name(),
            ),
            r matches Err(e) ==> e is DefaultAgentNotFound || e is InvalidUser,
            r matches Ok(e) ==> e.wf() && e.identity() == self.identity() && e.engine_name()
                == self.engine_name() && e.default_agent_name() == default_agent@
                && e.tool_units() == self.tool_units() && e.agent_units() == self.agent_units()
                && e.allowed() == allowed_paths(self.tool_units(), self.agent_units()),
            r matches Ok(e) ==> e.exported_agents().contains(ascii_lower(default_agent@)),
            r matches Ok(e) ==> forall|s: Seq<char>|
                #![trigger e.exported_agents().contains(s)]
                e.exported_agents().contains(s) <==> (self.exported_agents().contains(s) || s
                    == ascii_lower(default_agent@)) && has_name(self.agent_units(), s),
            r matches Ok(e) ==> forall|s: Seq<char>|
                #![trigger e.exported_tools().contains(s)]
                e.exported_tools().contains(s) <==> self.exported_tools().contains(s) && has_name(
                    self.tool_units(),
                    s,
                ),
    {
        let lower = to_ascii_lower(default_agent.as_str());
        if !self.agents.contains(lower.as_str()) {
            return Err(EngineError::DefaultAgentNotFound(default_agent));
        }
        match validate_path_part(self.name.as_str()) {
            Ok(()) => {},
            Err(_) => return Err(EngineError::InvalidUser(self.name)),
        }
        let mut b = self;
        let ghost prev = texts(b.export_agents@);
        let ghost low = lower@;
        insert_name(&mut b.export_agents, lower);
        proof {
            assert forall|s: Seq<char>|
                #![trigger texts(b.export_agents@).contains(s)]
                texts(b.export_agents@).contains(s) <==> (prev.contains(s) || s == low) by {
                if !prev.contains(low) {
                    assert(texts(b.export_agents@)[prev.len() as int] == low);
                    if prev.contains(s) {
                        let j = choose|j: int| 0 <= j < prev.len() && prev[j] == s;
                        assert(texts(b.export_agents@)[j] == s);
                    }
                }
            }
        }
        let export_agents = retain_registered(&b.export_agents, &b.agents);
        let export_tools = retain_registered(&b.export_tools, &b.tools);
        let mut paths: Vec<Path> = Vec::new();
        paths.push(Path::root());
        let mut tool_paths = tagged_paths(&b.tools, "T:");
        let mut agent_paths = tagged_paths(&b.agents, "A:");
        let ghost p0 = crate::context::path_texts(paths@);
        let ghost tp = crate::context::path_texts(tool_paths@);
        let ghost ap = crate::context::path_texts(agent_paths@);
        paths.append(&mut tool_paths);
        paths.append(&mut agent_paths);
        proof {
            reveal_strlit("T:");
            reveal_strlit("A:");
            assert("T:"@ =~= crate::context::tool_tag());
            assert("A:"@ =~= crate::context::agent_tag());
            assert(crate::context::path_texts(paths@) =~= p0 + tp + ap);
            assert(p0 =~= seq![path_raw_of(ROOT_PATH@)]);
            assert(tp =~= b.tools@.map_values(|u: UnitView| tool_path(u.name)));
            assert(ap =~= b.agents@.map_values(|u: UnitView| agent_path(u.name)));
        }
        let id = b.id.duplicate();
        let base = BaseCtx::new(b.id, b.cancellation_token, paths);
        let ctx = AgentCtx::new(base, Arc::new(b.tools), Arc::new(b.agents));
        Ok(Engine {
            id,
            ctx,
            name: b.name,
            default_agent,
            export_agents,
            export_tools,
        })
    }
}

/// One tool call made while an agent ran: its id, the tool, the arguments as
/// JSON text, and the result once known.
#[derive(Debug)]
pub struct ToolCall {
    pub id: String,
    pub name: String,
    pub args: String,
    pub result: Option<String>,
}

/// What an agent run returns: the content, the reason of a failure if any,
/// the tool calls made, and the full message history as JSON texts.
#[derive(Debug)]
pub struct AgentOutput {
    pub content: String,
    pub failed_reason: Option<String>,
    pub tool_calls: Option<Vec<ToolCall>>,
    pub full_history: Option<Vec<String>>,
}

/// What an engine tells about itself.
#[derive(Debug)]
pub struct Information {
    pub id: Identity,
    pub name: String,
    pub default_agent: String,
    pub agent_definitions: Vec<FunctionDefinition>,
    pub tool_definitions: Vec<FunctionDefinition>,
}

/// `Information` with the identity in its textual form.
#[derive(Debug)]
pub struct InformationJSON {
    pub id: String,
    pub name: String,
    pub default_agent: String,
    pub agent_definitions: Vec<FunctionDefinition>,
    pub tool_definitions: Vec<FunctionDefinition>,
}

impl InformationJSON {
    /// The same information, with the identity as text.
    pub fn from(info: Information) -> (r: InformationJSON)
        requires
            info.id.wf(),
        ensures
            r.id@ == crate::identity::principal_text_of(info.id@),
            r.name == info.name,
            r.default_agent == info.default_agent,
            r.agent_definitions == info.agent_definitions,
            r.tool_definitions == info.tool_definitions,
    {
        InformationJSON {
            id: info.id.to_text(),
            name: info.name,
            default_agent: info.default_agent,
            agent_definitions: info.agent_definitions,
            tool_definitions: info.tool_definitions,
        }
    }
}

/// A frozen set of registries and export allow-lists with a root context;
/// every invocation derives its own scoped context from it.
pub struct Engine {
    id: Identity,
    ctx: AgentCtx,
    name: String,
    default_agent: String,
    export_agents: Vec<String>,
    export_tools: Vec<String>,
}

impl Engine {
    /// The engine identity.
    pub closed spec fn identity(&self) -> Seq<u8> {
        self.id@
    }

    /// The engine name.
    pub closed spec fn engine_name(&self) -> Seq<char> {
        self.name@
    }

    /// The name of the default agent, as given to `build`.
    pub closed spec fn default_agent_name(&self) -> Seq<char> {
        self.default_agent@
    }

    /// The registered tools.
    pub closed spec fn tool_units(&self) -> Seq<UnitView> {
        self.ctx.tools@
    }

    /// The registered agents, names lowercased.
    pub closed spec fn agent_units(&self) -> Seq<UnitView> {
        self.ctx.agents@
    }

    /// The export allow-list of agents.
    pub closed spec fn exported_agents(&self) -> Seq<Seq<char>> {
        texts(self.export_agents@)
    }

    /// The export allow-list of tools.
    pub closed spec fn exported_tools(&self) -> Seq<Seq<char>> {
        texts(self.export_tools@)
    }

    /// The paths that contexts of this engine may enter.
    pub closed spec fn allowed(&self) -> Seq<Seq<char>> {
        self.ctx.base.allowed()
    }

    /// The root context.
    pub closed spec fn root_ctx(&self) -> AgentCtx {
        self.ctx
    }

    /// The identity fits a principal, each registry and allow-list holds a
    /// name once, every exported name is registered, and the allowed paths
    /// are the root and those of the units.
    pub closed spec fn wf(&self) -> bool {
        &&& self.id.wf()
        &&& self.ctx.base.id@ == self.id@
        &&& self.ctx.tools.wf()
        &&& self.ctx.agents.wf()
        &&& self.ctx.base.allowed() == allowed_paths(self.ctx.tools@, self.ctx.agents@)
        &&& texts(self.export_agents@).no_duplicates()
        &&& texts(self.export_tools@).no_duplicates()
        &&& forall|s: Seq<char>|
            #![trigger texts(self.export_agents@).contains(s)]
            texts(self.export_agents@).contains(s) ==> has_name(self.ctx.agents@, s)
        &&& forall|s: Seq<char>|
            #![trigger texts(self.export_tools@).contains(s)]
            texts(self.export_tools@).contains(s) ==> has_name(self.ctx.tools@, s)
    }

    /// A builder with default settings.
    pub fn builder() -> (r: EngineBuilder)
        ensures
            r.wf(),
            r.identity() == seq![crate::identity::ANONYMOUS_TAG],
            r.engine_name() == DEFAULT_ENGINE_NAME@,
            r.tool_units().len() == 0,
            r.agent_units().len() == 0,
            r.exported_agents().len() == 0,
            r.exported_tools().len() == 0,
    {
        EngineBuilder::new()
    }

    /// The engine identity.
    pub fn id(&self) -> (r: Identity)
        ensures
            r@ == self.identity(),
    {
        self.id.duplicate()
    }

    /// The engine name.
    pub fn name(&self) -> (r: String)
        ensures
            r@ == self.engine_name(),
    {
        self.name.clone()
    }

    /// The name of the default agent.
    pub fn default_agent(&self) -> (r: String)
        ensures
            r@ == self.default_agent_name(),
    {
        self.default_agent.clone()
    }

    /// The root context.
    pub fn ctx(&self) -> (r: &AgentCtx)
        ensures
            *r == self.root_ctx(),
    {
        &self.ctx
    }

    /// Cancels the root signal, and with it every derived context.
    pub fn cancel(&self) {
        self.ctx.base.cancel()
    }

    /// A fresh child of the root signal.
    pub fn cancellation_token(&self) -> (r: CancellationToken)
        ensures
            derived_from(r, self.root_ctx().base.cancellation_token),
    {
        self.ctx.base.cancellation_token.child_token()
    }

    /// Derives the context of a run of the agent `agent_name`,
    /// ASCII-lowercased. Fails with `NameNotAllowed` unless that name is
    /// exported, then with `AgentNotFound` unless it is registered, then with
    /// `InvalidUser`.
    pub fn ctx_with(&self, agent_name: &str, caller: Identity, user: Option<String>) -> (r: Result<
        AgentCtx,
        EngineError,
    >)
        requires
            self.wf(),
        ensures
            r matches Err(EngineError::NameNotAllowed(_)) <==> !self.exported_agents().contains(
                ascii_lower(agent_name@),
            ),
            self.exported_agents().contains(ascii_lower(agent_name@)) ==> (r matches Err(
                EngineError::AgentNotFound(_),
            ) <==> !has_name(self.agent_units(), ascii_lower(agent_name@))),
            r is Ok <==> self.exported_agents().contains(ascii_lower(agent_name@)) && has_name(
                self.agent_units(),
                ascii_lower(agent_name@),
            ) && valid_user(user),
            r matches Err(e) ==> e is NameNotAllowed || e is AgentNotFound || e is InvalidUser,
            r matches Ok(c) ==> c.base.id@ == self.identity() && c.base.caller@ == caller@
                && c.base.user == user && c.base.path@ == agent_path(ascii_lower(agent_name@))
                && c.base.allowed() == self.allowed() && c.tools@ == self.tool_units()
                && c.agents@ == self.agent_units() && derived_from(
                c.base.cancellation_token,
                self.root_ctx().base.cancellation_token,
            ),
    {
        let name = to_ascii_lower(agent_name);
        if !holds_name(&self.export_agents, name.as_str()) {
            return Err(EngineError::NameNotAllowed(name));
        }
        if !self.ctx.agents.contains(name.as_str()) {
            return Err(EngineError::AgentNotFound(name));
        }
        proof {
            let i = choose|i: int| 0 <= i < self.ctx.agents@.len() && #[trigger] self.ctx.agents@[i].name == name@;
            let a = self.ctx.agents@.map_values(|u: UnitView| agent_path(u.name));
            let t = self.ctx.tools@.map_values(|u: UnitView| tool_path(u.name));
            let p = seq![path_raw_of(ROOT_PATH@)];
            assert(a[i] == agent_path(name@));
            assert((p + t + a)[1 + t.len() + i] == agent_path(name@));
            assert(self.ctx.base.allowed().contains(agent_path(name@)));
        }
        self.ctx.child_with(name.as_str(), caller, user)
    }

    /// Resolves the agent of a run, `agent_name` or else the default agent,
    /// and derives its context as `ctx_with` does. On success returns the
    /// lowercased name under which to dispatch, with the context.
    pub fn agent_run_ctx(&self, agent_name: Option<String>, caller: Identity, user: Option<String>) -> (r: Result<
        (String, AgentCtx),
        EngineError,
    >)
        requires
            self.wf(),
        ensures
            ({
                let n = ascii_lower(
                    match agent_name {
                        Some(a) => a@,
                        None => self.default_agent_name(),
                    },
                );
                &&& (r matches Err(EngineError::NameNotAllowed(_)) <==> !self.exported_agents().contains(n))
                &&& (self.exported_agents().contains(n) ==> (r matches Err(
                    EngineError::AgentNotFound(_),
                ) <==> !has_name(self.agent_units(), n)))
                &&& (r is Ok <==> self.exported_agents().contains(n) && has_name(self.agent_units(), n)
                    && valid_user(user))
                &&& (r matches Ok((s, c)) ==> s@ == n && c.base.id@ == self.identity()
                    && c.base.caller@ == caller@ && c.base.user == user && c.base.path@
                    == agent_path(n) && c.base.allowed() == self.allowed() && c.tools@
                    == self.tool_units() && c.agents@ == self.agent_units() && derived_from(
                    c.base.cancellation_token,
                    self.root_ctx().base.cancellation_token,
                ))
            }),
            r matches Err(e) ==> e is NameNotAllowed || e is AgentNotFound || e is InvalidUser,
    {
        let name = match agent_name {
            Some(a) => a,
            None => self.default_agent.clone(),
        };
        match self.ctx_with(name.as_str(), caller, user) {
            Ok(c) => Ok((to_ascii_lower(name.as_str()), c)),
            Err(e) => Err(e),
        }
    }

    /// Derives the context of a call of the tool `name`. Fails with
    /// `ToolNotFound` unless the name is both exported and registered, then
    /// with `InvalidUser`.
    pub fn tool_call_ctx(&self, name: &str, caller: Identity, user: Option<String>) -> (r: Result<
        BaseCtx,
        EngineError,
    >)
        requires
            self.wf(),
        ensures
            r matches Err(EngineError::ToolNotFound(_)) <==> !(self.exported_tools().contains(name@)
                && has_name(self.tool_units(), name@)),
            r is Ok <==> self.exported_tools().contains(name@) && has_name(self.tool_units(), name@)
                && valid_user(user),
            r matches Err(e) ==> e is ToolNotFound || e is InvalidUser,
            r matches Ok(c) ==> c.id@ == self.identity() && c.caller@ == caller@ && c.user == user
                && c.path@ == tool_path(name@) && c.allowed() == self.allowed() && derived_from(
                c.cancellation_token,
                self.root_ctx().base.cancellation_token,
            ),
    {
        if !holds_name(&self.export_tools, name) || !self.ctx.tools.contains(name) {
            return Err(EngineError::ToolNotFound(name.to_owned()));
        }
        proof {
            let i = choose|i: int| 0 <= i < self.ctx.tools@.len() && #[trigger] self.ctx.tools@[i].name == name@;
            let t = self.ctx.tools@.map_values(|u: UnitView| tool_path(u.name));
            let a = self.ctx.agents@.map_values(|u: UnitView| agent_path(u.name));
            let p = seq![path_raw_of(ROOT_PATH@)];
            assert(t[i] == tool_path(name@));
            assert((p + t + a)[1 + i] == tool_path(name@));
            assert(self.ctx.base.allowed().contains(tool_path(name@)));
        }
        self.ctx.child_base_with(name, caller, user)
    }

    /// The definitions of the registered agents: all, or those named.
    pub fn agent_definitions(&self, names: Option<&Vec<String>>) -> (r: Vec<FunctionDefinition>)
        requires
            self.wf(),
        ensures
            names is None ==> r@.map_values(|d: FunctionDefinition| d@) == self.agent_units().map_values(
                |u: UnitView| u.definition,
            ),
            names matches Some(ns) ==> r@.map_values(|d: FunctionDefinition| d@) == definitions_for(
                self.agent_units(),
                texts(ns@),
            ),
    {
        self.ctx.agents.definitions(names)
    }

    /// The definitions of the registered tools: all, or those named.
    pub fn tool_definitions(&self, names: Option<&Vec<String>>) -> (r: Vec<FunctionDefinition>)
        requires
            self.wf(),
        ensures
            names is None ==> r@.map_values(|d: FunctionDefinition| d@) == self.tool_units().map_values(
                |u: UnitView| u.definition,
            ),
            names matches Some(ns) ==> r@.map_values(|d: FunctionDefinition| d@) == definitions_for(
                self.tool_units(),
                texts(ns@),
            ),
    {
        self.ctx.tools.definitions(names)
    }

    /// The engine's identity, name and default agent, and, only with
    /// `with_detail`, the definitions of the exported agents and tools.
    pub fn information(&self, with_detail: bool) -> (r: Information)
        requires
            self.wf(),
        ensures
            r.id@ == self.identity(),
            r.id.wf(),
            r.name@ == self.engine_name(),
            r.default_agent@ == self.default_agent_name(),
            with_detail ==> r.agent_definitions@.map_values(|d: FunctionDefinition| d@)
                == definitions_for(self.agent_units(), self.exported_agents()),
            with_detail ==> r.tool_definitions@.map_values(|d: FunctionDefinition| d@)
                == definitions_for(self.tool_units(), self.exported_tools()),
            !with_detail ==> r.agent_definitions@.len() == 0 && r.tool_definitions@.len() == 0,
    {
        let (agent_definitions, tool_definitions) = if with_detail {
            (
                self.ctx.agents.definitions(Some(&self.export_agents)),
                self.ctx.tools.definitions(Some(&self.export_tools)),
            )
        } else {
            (Vec::new(), Vec::new())
        };
        Information {
            id: self.id.duplicate(),
            name: self.name.clone(),
            default_agent: self.default_agent.clone(),
            agent_definitions,
            tool_definitions,
        }
    }

    /// The output handed back from a run: the same, with the full history
    /// cleared.
    pub fn finish_run(output: AgentOutput) -> (r: AgentOutput)
        ensures
            r.full_history is None,
            r.content == output.content,
            r.failed_reason == output.failed_reason,
            r.tool_calls == output.tool_calls,
    {
        AgentOutput { full_history: None, ..output }
    }
}

/// However agents were registered, one at a time or in batches, the agents
/// of a builder have names that are unique ignoring ASCII case; so a further
/// agent whose name matches one of them in any case is refused.
pub proof fn lemma_builder_agents_unique_ignoring_case(b: EngineBuilder)
    requires
        b.wf(),
    ensures
        unique_ignoring_case(b.agent_units()),
        forall|i: int, n: Seq<char>|
            0 <= i < b.agent_units().len() && #[trigger] ascii_lower(n) == ascii_lower(
                #[trigger] b.agent_units()[i].name,
            ) ==> has_name(b.agent_units(), ascii_lower(n)),
{
    let u = b.agent_units();
    assert forall|i: int, n: Seq<char>|
        0 <= i < u.len() && #[trigger] ascii_lower(n) == ascii_lower(#[trigger] u[i].name) implies has_name(
        u,
        ascii_lower(n),
    ) by {
        assert(u[i].name == ascii_lower(u[i].name));
    }
    assert forall|i: int, j: int|
        0 <= i < u.len() && 0 <= j < u.len() && ascii_lower(#[trigger] u[i].name) == ascii_lower(
            #[trigger] u[j].name,
        ) implies i == j by {
        assert(u[i].name == ascii_lower(u[i].name));
        assert(u[j].name == ascii_lower(u[j].name));
    }
}

} // verus!
