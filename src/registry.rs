//! Name registries of tools and agents.
use vstd::prelude::*;
use crate::error::EngineError;

verus! {

/// A machine-readable description of a unit: its name, a description, the
/// parameter schema as JSON text, and whether the schema is strict.
#[derive(Debug)]
pub struct FunctionDefinition {
    pub name: String,
    pub description: String,
    pub parameters: String,
    pub strict: Option<bool>,
}

pub struct DefinitionView {
    pub name: Seq<char>,
    pub description: Seq<char>,
    pub parameters: Seq<char>,
    pub strict: Option<bool>,
}

impl View for FunctionDefinition {
    type V = DefinitionView;

    open spec fn view(&self) -> DefinitionView {
        DefinitionView {
            name: self.name@,
            description: self.description@,
            parameters: self.parameters@,
            strict: self.strict,
        }
    }
}

impl UnitInfo {
    /// A copy of the unit.
    pub fn duplicate(&self) -> (r: UnitInfo)
        ensures
            r@ == self@,
    {
        let dependencies = self.dependencies.clone();
        assert(texts(dependencies@) =~= texts(self.dependencies@));
        UnitInfo { name: self.name.clone(), definition: self.definition.duplicate(), dependencies }
    }
}

impl FunctionDefinition {
    /// A copy of the definition.
    pub fn duplicate(&self) -> (r: FunctionDefinition)
        ensures
            r@ == self@,
    {
        FunctionDefinition {
            name: self.name.clone(),
            description: self.description.clone(),
            parameters: self.parameters.clone(),
            strict: self.strict,
        }
    }
}

/// The texts of a list of strings.
pub open spec fn texts(v: Seq<String>) -> Seq<Seq<char>> {
    v.map_values(|s: String| s@)
}

/// What the registry keeps of a unit: its name, its definition, and the names
/// of the tools it depends on (empty for tools).
#[derive(Debug)]
pub struct UnitInfo {
    pub name: String,
    pub definition: FunctionDefinition,
    pub dependencies: Vec<String>,
}

pub struct UnitView {
    pub name: Seq<char>,
    pub definition: DefinitionView,
    pub dependencies: Seq<Seq<char>>,
}

impl View for UnitInfo {
    type V = UnitView;

    open spec fn view(&self) -> UnitView {
        UnitView {
            name: self.name@,
            definition: self.definition@,
            dependencies: texts(self.dependencies@),
        }
    }
}

/// Whether some unit of `units` is named `name`.
pub open spec fn has_name(units: Seq<UnitView>, name: Seq<char>) -> bool {
    exists|i: int| 0 <= i < units.len() && #[trigger] units[i].name == name
}

/// No two units share a name.
pub open spec fn unique_names(units: Seq<UnitView>) -> bool {
    forall|i: int, j: int|
        0 <= i < units.len() && 0 <= j < units.len() && #[trigger] units[i].name
            == #[trigger] units[j].name ==> i == j
}

/// The definition of the unit named `name`, as a one-element sequence, or
/// nothing when no unit has that name.
pub open spec fn definition_of(units: Seq<UnitView>, name: Seq<char>) -> Seq<DefinitionView> {
    if has_name(units, name) {
        seq![units[choose|i: int| 0 <= i < units.len() && #[trigger] units[i].name == name].definition]
    } else {
        Seq::empty()
    }
}

/// The definitions of the requested names in request order, unknown names
/// skipped.
pub open spec fn definitions_for(units: Seq<UnitView>, names: Seq<Seq<char>>) -> Seq<DefinitionView>
    decreases names.len(),
{
    if names.len() == 0 {
        Seq::empty()
    } else {
        definitions_for(units, names.drop_last()) + definition_of(units, names.last())
    }
}

/// An ordered registry of units, keyed by name.
#[derive(Debug)]
pub struct Registry {
    units: Vec<UnitInfo>,
}

impl View for Registry {
    type V = Seq<UnitView>;

    closed spec fn view(&self) -> Seq<UnitView> {
        self.units@.map_values(|u: UnitInfo| u@)
    }
}

impl Registry {
    /// The registry holds each name once.
    pub open spec fn wf(&self) -> bool {
        unique_names(self@)
    }

    /// Whether a unit named `name` is registered.
    pub open spec fn has(&self, name: Seq<char>) -> bool {
        has_name(self@, name)
    }

    /// An empty registry.
    pub fn new() -> (r: Registry)
        ensures
            r@ == Seq::<UnitView>::empty(),
            r.wf(),
    {
        Registry { units: Vec::new() }
    }

    /// The registered units, in registration order.
    pub fn into_units(self) -> (r: Vec<UnitInfo>)
        ensures
            r@.map_values(|u: UnitInfo| u@) == self@,
    {
        self.units
    }

    /// The number of registered units.
    pub fn len(&self) -> (r: usize)
        ensures
            r == self@.len(),
    {
        self.units.len()
    }

    /// The unit at position `i` in registration order.
    pub fn unit_at(&self, i: usize) -> (r: &UnitInfo)
        requires
            i < self@.len(),
        ensures
            r@ == self@[i as int],
    {
        &self.units[i]
    }

    /// The position of the unit named `name`, if any.
    pub fn position(&self, name: &str) -> (r: Option<usize>)
        ensures
            r is Some <==> self.has(name@),
            r matches Some(i) ==> i < self@.len() && self@[i as int].name == name@,
    {
        let mut i: usize = 0;
        while i < self.units.len()
            invariant
                i <= self.units@.len(),
                forall|k: int| 0 <= k < i ==> #[trigger] self@[k].name != name@,
            decreases self.units@.len() - i,
        {
            let owned = name.to_owned();
            if self.units[i].name == owned {
                assert(self@[i as int] == self.units@[i as int]@);
                assert(self@[i as int].name == name@);
                assert(has_name(self@, name@));
                return Some(i);
            }
            i = i + 1;
        }
        None
    }

    /// Whether a unit named `name` is registered.
    pub fn contains(&self, name: &str) -> (r: bool)
        ensures
            r == self.has(name@),
    {
        self.position(name).is_some()
    }

    /// The unit named `name`, if any.
    pub fn get(&self, name: &str) -> (r: Option<&UnitInfo>)
        ensures
            r is Some <==> self.has(name@),
            r matches Some(u) ==> u@.name == name@ && self@.contains(u@),
    {
        match self.position(name) {
            Some(i) => Some(&self.units[i]),
            None => None,
        }
    }

    /// Registers `unit`; fails when its name is taken, leaving the registry
    /// as it was.
    pub fn add(&mut self, unit: UnitInfo) -> (r: Result<(), EngineError>)
        requires
            old(self).wf(),
        ensures
            final(self).wf(),
            r is Err <==> old(self).has(unit@.name),
            r matches Err(e) ==> e is DuplicateName,
            r is Err ==> final(self)@ == old(self)@,
            r is Ok ==> final(self)@ == old(self)@.push(unit@),
    {
        if self.contains(unit.name.as_str()) {
            return Err(EngineError::DuplicateName(unit.name));
        }
        let ghost prev = self@;
        let ghost u = unit@;
        self.units.push(unit);
        assert(self@ =~= prev.push(u));
        Ok(())
    }

    /// The definitions of the registered units: all of them in registration
    /// order when `names` is `None`, else those of the requested names that
    /// exist, in request order.
    pub fn definitions(&self, names: Option<&Vec<String>>) -> (r: Vec<FunctionDefinition>)
        requires
            self.wf(),
        ensures
            names is None ==> r@.map_values(|d: FunctionDefinition| d@)
                == self@.map_values(|u: UnitView| u.definition),
            names matches Some(ns) ==> r@.map_values(|d: FunctionDefinition| d@)
                == definitions_for(self@, texts(ns@)),
    {
        let mut out: Vec<FunctionDefinition> = Vec::new();
        match names {
            None => {
                let mut i: usize = 0;
                while i < self.units.len()
                    invariant
                        i <= self.units@.len(),
                        out@.map_values(|d: FunctionDefinition| d@)
                            =~= self@.take(i as int).map_values(|u: UnitView| u.definition),
                    decreases self.units@.len() - i,
                {
                    let ghost before = out@.map_values(|d: FunctionDefinition| d@);
                    out.push(self.units[i].definition.duplicate());
                    assert(self@.take(i as int + 1) =~= self@.take(i as int).push(self@[i as int]));
                    assert(self@[i as int] == self.units@[i as int]@);
                    assert(out@.map_values(|d: FunctionDefinition| d@) =~= before.push(self@[i as int].definition));
                    i = i + 1;
                }
                assert(self@.take(self@.len() as int) =~= self@);
            },
            Some(ns) => {
                let mut j: usize = 0;
                while j < ns.len()
                    invariant
                        j <= ns@.len(),
                        self.wf(),
                        out@.map_values(|d: FunctionDefinition| d@)
                            == definitions_for(self@, texts(ns@).take(j as int)),
                    decreases ns@.len() - j,
                {
                    let ghost before = out@.map_values(|d: FunctionDefinition| d@);
                    let ghost n = ns@[j as int]@;
                    assert(texts(ns@).take(j as int + 1).drop_last() =~= texts(ns@).take(j as int));
                    assert(texts(ns@).take(j as int + 1).last() == n);
                    match self.position(ns[j].as_str()) {
                        Some(i) => {
                            let d = self.units[i].definition.duplicate();
                            out.push(d);
                            proof {
                                let k = choose|k: int| 0 <= k < self@.len() && #[trigger] self@[k].name == n;
                                assert(self@[k].name == self@[i as int].name);
                            }
                            assert(definition_of(self@, n) =~= seq![self@[i as int].definition]);
                            assert(out@.map_values(|d: FunctionDefinition| d@) =~= before
                                + definition_of(self@, n));
                        },
                        None => {
                            assert(definition_of(self@, n) =~= Seq::<DefinitionView>::empty());
                            assert(before + definition_of(self@, n) =~= before);
                        },
                    }
                    j = j + 1;
                }
                assert(texts(ns@).take(ns@.len() as int) =~= texts(ns@));
            },
        }
        out
    }
}

} // verus!
