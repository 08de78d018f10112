//! Execution contexts: the base context and the agent context, each
//! derivable into scoped children.
use vstd::prelude::*;
use std::sync::Arc;
use tokio_util::sync::CancellationToken;
use crate::error::EngineError;
use crate::identity::Identity;
use crate::path::{path_raw_of, valid_part, validate_path_part, Path};
use crate::registry::Registry;
use vstd::string::*;

verus! {

#[verifier::external_type_specification]
#[verifier::external_body]
pub struct ExCancellationToken(CancellationToken);

/// Relies on `CancellationToken::new`: a fresh token, not cancelled.
pub assume_specification[ CancellationToken::new ]() -> CancellationToken;

/// Whether `child` was minted as a child of `parent`, and so is cancelled
/// whenever `parent` is.
pub uninterp spec fn derived_from(child: CancellationToken, parent: CancellationToken) -> bool;

/// Relies on `CancellationToken::child_token`: a token cancelled whenever
/// the parent is.
pub assume_specification[ CancellationToken::child_token ](t: &CancellationToken) -> (r: CancellationToken)
    ensures
        derived_from(r, *t),
;

/// Relies on `CancellationToken::cancel`: cancels the token and its children.
pub assume_specification[ CancellationToken::cancel ](t: &CancellationToken);

/// Relies on `CancellationToken::is_cancelled`.
pub assume_specification[ CancellationToken::is_cancelled ](t: &CancellationToken) -> bool;

/// The tag that marks a tool's path.
pub open spec fn tool_tag() -> Seq<char> {
    seq!['T', ':']
}

/// The tag that marks an agent's path.
pub open spec fn agent_tag() -> Seq<char> {
    seq!['A', ':']
}

/// The path under which the tool `name` is allowed.
pub open spec fn tool_path(name: Seq<char>) -> Seq<char> {
    path_raw_of(tool_tag() + name)
}

/// The path under which the agent `name` is allowed.
pub open spec fn agent_path(name: Seq<char>) -> Seq<char> {
    path_raw_of(agent_tag() + name)
}

/// A user label is acceptable when absent or a valid path segment.
pub open spec fn valid_user(user: Option<String>) -> bool {
    match user {
        Some(u) => valid_part(u@),
        None => true,
    }
}

/// The texts of a list of paths.
pub open spec fn path_texts(v: Seq<Path>) -> Seq<Seq<char>> {
    v.map_values(|p: Path| p@)
}

/// Copies a list of paths.
fn duplicate_paths(v: &Vec<Path>) -> (r: Vec<Path>)
    ensures
        path_texts(r@) == path_texts(v@),
{
    let mut out: Vec<Path> = Vec::new();
    let mut i: usize = 0;
    while i < v.len()
        invariant
            i <= v@.len(),
            out@.len() == i,
            path_texts(out@) =~= path_texts(v@.take(i as int)),
        decreases v@.len() - i,
    {
        let ghost before = out@;
        out.push(v[i].duplicate());
        assert(out@ =~= before.push(out@[i as int]));
        assert(v@.take(i as int + 1) =~= v@.take(i as int).push(v@[i as int]));
        assert(path_texts(out@) =~= path_texts(before).push(v@[i as int]@));
        i = i + 1;
    }
    assert(v@.take(v@.len() as int) =~= v@);
    out
}

/// Whether `paths` holds `p`.
fn holds_path(paths: &Vec<Path>, p: &Path) -> (r: bool)
    ensures
        r == path_texts(paths@).contains(p@),
{
    let mut i: usize = 0;
    while i < paths.len()
        invariant
            i <= paths@.len(),
            forall|k: int| 0 <= k < i ==> #[trigger] paths@[k]@ != p@,
        decreases paths@.len() - i,
    {
        if paths[i].same(p) {
            assert(path_texts(paths@)[i as int] == p@);
            return true;
        }
        i = i + 1;
    }
    assert(!path_texts(paths@).contains(p@)) by {
        if path_texts(paths@).contains(p@) {
            let k = choose|k: int| 0 <= k < path_texts(paths@).len() && path_texts(paths@)[k] == p@;
            assert(paths@[k]@ == p@);
        }
    }
    false
}

/// Checks a user label.
fn validate_user(user: &Option<String>) -> (r: Result<(), EngineError>)
    ensures
        r is Ok <==> valid_user(*user),
        r matches Err(e) ==> e is InvalidUser,
{
    match user {
        Some(u) => match validate_path_part(u.as_str()) {
            Ok(()) => Ok(()),
            Err(_) => Err(EngineError::InvalidUser(u.clone())),
        },
        None => Ok(()),
    }
}

/// The root execution context and its scoped children: who runs, on whose
/// behalf, under which path, which paths may be entered, and the
/// cancellation signal.
pub struct BaseCtx {
    pub id: Identity,
    pub caller: Identity,
    pub user: Option<String>,
    pub path: Path,
    pub paths: Vec<Path>,
    pub cancellation_token: CancellationToken,
}

impl BaseCtx {
    /// The texts of the paths that may be entered.
    pub open spec fn allowed(&self) -> Seq<Seq<char>> {
        path_texts(self.paths@)
    }

    /// The root context of engine `id`: it runs at the root path on the
    /// engine's own behalf.
    pub fn new(id: Identity, cancellation_token: CancellationToken, paths: Vec<Path>) -> (r: BaseCtx)
        ensures
            r.id@ == id@,
            r.caller@ == id@,
            r.user is None,
            r.path@ == path_raw_of(crate::path::ROOT_PATH@),
            r.allowed() == path_texts(paths@),
    {
        let caller = id.duplicate();
        BaseCtx { id, caller, user: None, path: Path::root(), paths, cancellation_token }
    }

    /// Derives a child context at the path parsed from `path`, for `caller`
    /// and `user`, with a child cancellation signal. Fails with
    /// `NameNotAllowed` when that path may not be entered, then with
    /// `InvalidUser` when the user label is not a valid segment.
    pub fn child_with(&self, path: &str, caller: Identity, user: Option<String>) -> (r: Result<
        BaseCtx,
        EngineError,
    >)
        ensures
            !self.allowed().contains(path_raw_of(path@)) <==> r matches Err(
                EngineError::NameNotAllowed(_),
            ),
            self.allowed().contains(path_raw_of(path@)) ==> (r matches Err(
                EngineError::InvalidUser(_),
            ) <==> !valid_user(user)),
            r is Ok <==> self.allowed().contains(path_raw_of(path@)) && valid_user(user),
            r matches Err(e) ==> e is NameNotAllowed || e is InvalidUser,
            r matches Ok(c) ==> c.id@ == self.id@ && c.caller@ == caller@ && c.user == user
                && c.path@ == path_raw_of(path@) && c.allowed() == self.allowed() && derived_from(
                c.cancellation_token,
                self.cancellation_token,
            ),
    {
        let p = Path::parse(path);
        if !holds_path(&self.paths, &p) {
            return Err(EngineError::NameNotAllowed(path.to_owned()));
        }
        match validate_user(&user) {
            Ok(()) => {},
            Err(e) => return Err(e),
        }
        Ok(BaseCtx {
            id: self.id.duplicate(),
            caller,
            user,
            path: p,
            paths: duplicate_paths(&self.paths),
            cancellation_token: self.cancellation_token.child_token(),
        })
    }

    /// Cancels this context's signal, and with it those of its children.
    pub fn cancel(&self) {
        self.cancellation_token.cancel()
    }

    /// Fails with `Cancelled` when this context's signal has fired.
    pub fn ensure_active(&self) -> (r: Result<(), EngineError>)
        ensures
            r matches Err(e) ==> e is Cancelled,
    {
        active_or_cancelled(self.cancellation_token.is_cancelled())
    }
}

/// `Cancelled` exactly when the signal has fired.
pub fn active_or_cancelled(cancelled: bool) -> (r: Result<(), EngineError>)
    ensures
        r is Ok <==> !cancelled,
        r matches Err(e) ==> e is Cancelled,
{
    if cancelled {
        Err(EngineError::Cancelled)
    } else {
        Ok(())
    }
}

/// A base context together with the shared tool and agent registries.
pub struct AgentCtx {
    pub base: BaseCtx,
    pub tools: Arc<Registry>,
    pub agents: Arc<Registry>,
}

impl AgentCtx {
    /// Bundles a base context with the registries.
    pub fn new(base: BaseCtx, tools: Arc<Registry>, agents: Arc<Registry>) -> (r: AgentCtx)
        ensures
            r.base == base,
            r.tools == tools,
            r.agents == agents,
    {
        AgentCtx { base, tools, agents }
    }

    /// Derives a base context for the tool `name`. Fails with
    /// `NameNotAllowed` when the tool's path may not be entered, then with
    /// `InvalidUser`.
    pub fn child_base_with(&self, name: &str, caller: Identity, user: Option<String>) -> (r: Result<
        BaseCtx,
        EngineError,
    >)
        ensures
            !self.base.allowed().contains(tool_path(name@)) <==> r matches Err(
                EngineError::NameNotAllowed(_),
            ),
            r is Ok <==> self.base.allowed().contains(tool_path(name@)) && valid_user(user),
            r matches Err(e) ==> e is NameNotAllowed || e is InvalidUser,
            r matches Ok(c) ==> c.id@ == self.base.id@ && c.caller@ == caller@ && c.user == user
                && c.path@ == tool_path(name@) && c.allowed() == self.base.allowed() && derived_from(
                c.cancellation_token,
                self.base.cancellation_token,
            ),
    {
        let mut text = String::from_str("T:");
        text.append(name);
        proof {
            reveal_strlit("T:");
            assert(text@ =~= tool_tag() + name@);
        }
        self.base.child_with(text.as_str(), caller, user)
    }

    /// Derives an agent context for the agent `name`. Fails with
    /// `NameNotAllowed` when the agent's path may not be entered, then with
    /// `AgentNotFound` when no agent of that name is registered, then with
    /// `InvalidUser`.
    pub fn child_with(&self, name: &str, caller: Identity, user: Option<String>) -> (r: Result<
        AgentCtx,
        EngineError,
    >)
        ensures
            !self.base.allowed().contains(agent_path(name@)) <==> r matches Err(
                EngineError::NameNotAllowed(_),
            ),
            self.base.allowed().contains(agent_path(name@)) ==> (r matches Err(
                EngineError::AgentNotFound(_),
            ) <==> !self.agents.has(name@)),
            r is Ok <==> self.base.allowed().contains(agent_path(name@)) && self.agents.has(name@)
                && valid_user(user),
            r matches Err(e) ==> e is NameNotAllowed || e is AgentNotFound || e is InvalidUser,
            r matches Ok(c) ==> c.base.id@ == self.base.id@ && c.base.caller@ == caller@
                && c.base.user == user && c.base.path@ == agent_path(name@)
                && c.base.allowed() == self.base.allowed() && c.tools == self.tools
                && c.agents == self.agents && derived_from(
                c.base.cancellation_token,
                self.base.cancellation_token,
            ),
    {
        let mut text = String::from_str("A:");
        text.append(name);
        proof {
            reveal_strlit("A:");
            assert(text@ =~= agent_tag() + name@);
        }
        let p = Path::parse(text.as_str());
        if !holds_path(&self.base.paths, &p) {
            return Err(EngineError::NameNotAllowed(text));
        }
        if !self.agents.contains(name) {
            return Err(EngineError::AgentNotFound(name.to_owned()));
        }
        match self.base.child_with(text.as_str(), caller, user) {
            Ok(base) => Ok(AgentCtx { base, tools: self.tools.clone(), agents: self.agents.clone() }),
            Err(e) => Err(e),
        }
    }
}

} // verus!
