//! Startup: the configured agents by name, and the order in which startup
//! goes about its work: load the descriptors, pick the one asked for,
//! bootstrap it, and only then launch it.

use vstd::prelude::*;
use crate::config::McpServerConfig;
use crate::launch::StartError;
use crate::setup::SetupError;
use crate::text::str_eq;

verus! {

/// A descriptor under its name.
#[derive(Clone, Debug, PartialEq, Eq)]
pub struct NamedServer {
    pub name: String,
    pub config: McpServerConfig,
}

/// The configured agents, each under its own name: no name occurs twice.
#[derive(Debug)]
pub struct ServerRegistry {
    entries: Vec<NamedServer>,
}

/// Why the descriptors could not be loaded.
#[derive(Clone, Debug, PartialEq, Eq)]
pub enum ConfigFailure {
    /// The file could not be read.
    Unreadable(String),
    /// The file does not hold a mapping of descriptors.
    Invalid(String),
}

/// Why startup failed.
#[derive(Clone, Debug, PartialEq, Eq)]
pub enum StartupError {
    /// The file of descriptors could not be read.
    ConfigUnreadable(String),
    /// The file of descriptors could not be understood.
    ConfigInvalid(String),
    /// No descriptor is configured under the name asked for.
    ServerNotFound(String),
    /// Bootstrap failed.
    SetupFailed(SetupError),
    /// The launch failed.
    LaunchFailed(StartError),
}

/// What startup does next.
#[derive(Debug, PartialEq, Eq)]
pub enum StartupAction {
    /// Bootstrap the descriptor at this position of the registry.
    Bootstrap(usize),
    /// Launch the descriptor at this position of the registry.
    Launch(usize),
    /// Give up with this error.
    Fail(StartupError),
}

/// The names of `entries`, in order.
pub open spec fn names_of(entries: Seq<NamedServer>) -> Seq<Seq<char>> {
    Seq::new(entries.len(), |i: int| entries[i].name@)
}

/// Whether no name occurs twice among `entries`.
pub open spec fn distinct_names(entries: Seq<NamedServer>) -> bool {
    forall|i: int, j: int|
        0 <= i < j < entries.len() ==> (#[trigger] entries[i]).name@ != (#[trigger] entries[j]).name@
}

/// The position of the first entry named `name`, if there is one.
pub open spec fn position_of(entries: Seq<NamedServer>, name: Seq<char>) -> Option<int>
    decreases entries.len(),
{
    if entries.len() == 0 {
        None
    } else {
        match position_of(entries.drop_last(), name) {
            Some(i) => Some(i),
            None => if entries.last().name@ == name {
                Some(entries.len() - 1)
            } else {
                None
            },
        }
    }
}

/// `position_of` gives the first entry of that name: the entry there has
/// the name and none before it has; and it gives `None` only where no
/// entry has the name.
pub proof fn lemma_position_of(entries: Seq<NamedServer>, name: Seq<char>)
    ensures
        match position_of(entries, name) {
            Some(i) => {
                &&& 0 <= i < entries.len()
                &&& entries[i].name@ == name
                &&& forall|j: int| 0 <= j < i ==> (#[trigger] entries[j]).name@ != name
            },
            None => forall|j: int| 0 <= j < entries.len() ==> (#[trigger] entries[j]).name@ != name,
        },
    decreases entries.len(),
{
    if entries.len() > 0 {
        let head = entries.drop_last();
        lemma_position_of(head, name);
        assert forall|j: int| 0 <= j < head.len() implies head[j] == entries[j] by {}
        match position_of(head, name) {
            Some(i) => {
                assert forall|j: int| 0 <= j < i implies (#[trigger] entries[j]).name@ != name by {
                    assert(head[j] == entries[j]);
                }
            },
            None => {
                assert forall|j: int| 0 <= j < head.len() implies (#[trigger] entries[j]).name@
                    != name by {
                    assert(head[j] == entries[j]);
                }
            },
        }
    }
}

/// The first entry of a name among the first entries is the first among
/// all of them.
proof fn lemma_position_of_prefix(entries: Seq<NamedServer>, name: Seq<char>, n: int)
    requires
        0 <= n <= entries.len(),
        position_of(entries.take(n), name) is Some,
    ensures
        position_of(entries, name) == position_of(entries.take(n), name),
    decreases entries.len() - n,
{
    if n == entries.len() {
        assert(entries.take(n) =~= entries);
    } else {
        assert(entries.drop_last().take(n) =~= entries.take(n));
        lemma_position_of_prefix(entries.drop_last(), name, n);
    }
}

/// What startup does next, given how loading went, whether the name was
/// found, and how bootstrap went if it has been run.
pub open spec fn startup_decision(
    loaded: Result<Option<int>, ConfigFailure>,
    name: Seq<char>,
    bootstrap: Option<Result<(), SetupError>>,
    action: StartupAction,
) -> bool {
    match loaded {
        Err(ConfigFailure::Unreadable(cause)) => action == StartupAction::Fail(
            StartupError::ConfigUnreadable(cause),
        ),
        Err(ConfigFailure::Invalid(cause)) => action == StartupAction::Fail(
            StartupError::ConfigInvalid(cause),
        ),
        Ok(None) => {
            &&& action matches StartupAction::Fail(StartupError::ServerNotFound(n))
            &&& n@ == name
        },
        Ok(Some(i)) => match bootstrap {
            None => action matches StartupAction::Bootstrap(k) && k == i,
            Some(Err(e)) => action == StartupAction::Fail(StartupError::SetupFailed(e)),
            Some(Ok(_)) => action matches StartupAction::Launch(k) && k == i,
        },
    }
}

impl ServerRegistry {
    /// Whether the registry is well formed: no name occurs twice.
    pub open spec fn wf(&self) -> bool {
        distinct_names(self.entries())
    }

    /// The entries, in the order in which their names first came.
    pub closed spec fn entries(&self) -> Seq<NamedServer> {
        self.entries@
    }

    /// The position of the entry named `name`, if there is one.
    pub open spec fn position(&self, name: Seq<char>) -> Option<int> {
        position_of(self.entries(), name)
    }

    /// A registry without entries.
    pub fn new() -> (r: ServerRegistry)
        ensures
            r.entries().len() == 0,
            r.wf(),
    {
        ServerRegistry { entries: Vec::new() }
    }

    /// The number of entries.
    pub fn len(&self) -> (n: usize)
        ensures
            n == self.entries().len(),
    {
        self.entries.len()
    }

    /// The position of the first entry named `name`, the only one in a
    /// well-formed registry; `None` exactly when there is no such entry.
    pub fn find(&self, name: &str) -> (r: Option<usize>)
        ensures
            match r {
                Some(i) => self.position(name@) == Some(i as int) && i < self.entries().len(),
                None => self.position(name@) is None,
            },
    {
        let mut i: usize = 0;
        assert(self.entries@.take(0) =~= Seq::<NamedServer>::empty());
        while i < self.entries.len()
            invariant
                i <= self.entries.len(),
                position_of(self.entries@.take(i as int), name@) is None,
            decreases self.entries.len() - i,
        {
            proof {
                assert(self.entries@.take(i + 1).drop_last() =~= self.entries@.take(i as int));
                assert(self.entries@.take(i + 1).last() == self.entries@[i as int]);
            }
            if str_eq(self.entries[i].name.as_str(), name) {
                proof {
                    lemma_position_of_prefix(self.entries@, name@, i + 1);
                }
                return Some(i);
            }
            i += 1;
        }
        assert(self.entries@.take(i as int) =~= self.entries@);
        None
    }

    /// The descriptor at position `i`.
    pub fn get(&self, i: usize) -> (config: &McpServerConfig)
        requires
            i < self.entries().len(),
        ensures
            *config == self.entries()[i as int].config,
    {
        &self.entries[i].config
    }

    /// Puts `config` under `name`: in place of the descriptor that stood
    /// under that name, or else as a new entry at the end. A well-formed
    /// registry stays well formed.
    pub fn insert(&mut self, name: String, config: McpServerConfig)
        ensures
            match old(self).position(name@) {
                Some(i) => final(self).entries() == old(self).entries().update(
                    i,
                    NamedServer { name: old(self).entries()[i].name, config },
                ),
                None => final(self).entries() == old(self).entries().push(
                    NamedServer { name, config },
                ),
            },
            old(self).wf() ==> final(self).wf(),
    {
        let ghost before = self.entries@;
        proof {
            lemma_position_of(before, name@);
        }
        match self.find(name.as_str()) {
            Some(i) => {
                let kept = self.entries[i].name.clone();
                self.entries.set(i, NamedServer { name: kept, config });
                assert forall|a: int, b: int|
                    distinct_names(before) && 0 <= a < b < self.entries@.len() implies (
                #[trigger] self.entries@[a]).name@ != (#[trigger] self.entries@[b]).name@ by {
                    assert(self.entries@[a].name@ == before[a].name@);
                    assert(self.entries@[b].name@ == before[b].name@);
                }
            },
            None => {
                self.entries.push(NamedServer { name, config });
                assert forall|a: int, b: int|
                    distinct_names(before) && 0 <= a < b < self.entries@.len() implies (
                #[trigger] self.entries@[a]).name@ != (#[trigger] self.entries@[b]).name@ by {
                    assert(self.entries@[a] == before[a]);
                    if b < before.len() {
                        assert(self.entries@[b] == before[b]);
                    }
                }
            },
        }
    }
}

/// Decides what startup does next. A failure to load the descriptors, or
/// a name that is not configured, ends startup before anything is run.
/// Bootstrap comes first; the launch is asked for only once bootstrap has
/// succeeded, and a bootstrap failure ends startup.
pub fn startup_next(
    loaded: &Result<ServerRegistry, ConfigFailure>,
    server_name: &str,
    bootstrap: Option<Result<(), SetupError>>,
) -> (action: StartupAction)
    ensures
        startup_decision(
            match *loaded {
                Ok(registry) => Ok(registry.position(server_name@)),
                Err(e) => Err(e),
            },
            server_name@,
            bootstrap,
            action,
        ),
        action matches StartupAction::Bootstrap(i) ==> loaded is Ok && i < loaded->Ok_0.entries().len(),
        action matches StartupAction::Launch(i) ==> loaded is Ok && i < loaded->Ok_0.entries().len(),
{
    match loaded {
        Err(ConfigFailure::Unreadable(cause)) => StartupAction::Fail(
            StartupError::ConfigUnreadable(cause.clone()),
        ),
        Err(ConfigFailure::Invalid(cause)) => StartupAction::Fail(
            StartupError::ConfigInvalid(cause.clone()),
        ),
        Ok(registry) => match registry.find(server_name) {
            None => StartupAction::Fail(
                StartupError::ServerNotFound(String::from_str(server_name)),
            ),
            Some(i) => match bootstrap {
                None => StartupAction::Bootstrap(i),
                Some(Err(e)) => StartupAction::Fail(StartupError::SetupFailed(e)),
                Some(Ok(_)) => StartupAction::Launch(i),
            },
        },
    }
}

/// The launch is asked for only after a bootstrap that succeeded, for a
/// name that is configured, from descriptors that were loaded.
pub proof fn law_launch_follows_bootstrap(
    loaded: Result<Option<int>, ConfigFailure>,
    name: Seq<char>,
    bootstrap: Option<Result<(), SetupError>>,
    action: StartupAction,
)
    requires
        startup_decision(loaded, name, bootstrap, action),
    ensures
        action is Launch ==> bootstrap is Some && bootstrap->0 is Ok && loaded is Ok
            && loaded->Ok_0 is Some,
        action is Bootstrap ==> bootstrap is None && loaded is Ok && loaded->Ok_0 is Some,
        bootstrap is Some && bootstrap->0 is Err ==> action is Fail,
        loaded is Err || loaded->Ok_0 is None ==> action is Fail,
{
}

} // verus!
