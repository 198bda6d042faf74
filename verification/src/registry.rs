//! The client registry and process configuration: an immutable, load-once
//! mapping from credential name to secret, project and granted actions.

use vstd::prelude::*;
use vstd::string::*;

use crate::codec::Action;
use crate::text::str_eq;

verus! {

/// One client's static entitlement: its shared secret, the project it may act
/// on, and the actions it has been granted. Immutable after load.
#[derive(Debug, Clone)]
pub struct ClientConfig {
    pub secret: String,
    pub project: String,
    pub permissions: Vec<Action>,
}

/// A registry entry: a client keyed by its credential name.
#[derive(Debug, Clone)]
pub struct ClientEntry {
    pub name: String,
    pub client: ClientConfig,
}

/// Writer-side configuration: the transport path and the HTTP bind address.
pub struct WebHookConfig {
    pub pipe: String,
    pub listen_addr: String,
    pub listen_port: u16,
}

/// Reader-side configuration: the transport path and the executable root.
pub struct DispatchConfig {
    pub pipe: String,
    pub scripts_dir: String,
}

/// Whole-process configuration, built once at startup and never mutated.
pub struct Config {
    pub webhooks: WebHookConfig,
    pub dispatch: DispatchConfig,
    pub clients: Vec<ClientEntry>,
}

/// First-match lookup of a credential name among the registered clients.
pub open spec fn lookup(clients: Seq<ClientEntry>, name: Seq<char>) -> Option<ClientConfig>
    decreases clients.len(),
{
    if clients.len() == 0 {
        None
    } else if clients[0].name@ == name {
        Some(clients[0].client)
    } else {
        lookup(clients.drop_first(), name)
    }
}

proof fn lemma_lookup_skip(clients: Seq<ClientEntry>, name: Seq<char>, i: int)
    requires
        0 <= i <= clients.len(),
        forall|j: int| 0 <= j < i ==> clients[j].name@ != name,
    ensures
        lookup(clients, name) == lookup(clients.skip(i), name),
    decreases i,
{
    if i > 0 {
        assert(clients.skip(1) =~= clients.drop_first());
        lemma_lookup_skip(clients.drop_first(), name, i - 1);
        assert(clients.drop_first().skip(i - 1) =~= clients.skip(i));
    } else {
        assert(clients.skip(0) =~= clients);
    }
}

/// The permission test: pure membership of the action in the client's set.
pub open spec fn permitted_spec(c: ClientConfig, a: Action) -> bool {
    c.permissions@.contains(a)
}

impl ClientConfig {
    /// Does this client hold `action`? A pure set-membership test; actions
    /// are never hierarchical and no implication between them exists.
    pub fn permitted(&self, action: Action) -> (r: bool)
        ensures
            r == permitted_spec(*self, action),
    {
        let n = self.permissions.len();
        let mut i: usize = 0;
        while i < n
            invariant
                i <= n,
                n == self.permissions@.len(),
                forall|j: int| 0 <= j < i ==> self.permissions@[j] != action,
            decreases n - i,
        {
            if self.permissions[i] == action {
                return true;
            }
            i += 1;
        }
        false
    }
}

/// Permission reads nothing but the named client's own permission set: two
/// clients with equal sets permit exactly the same actions, so granting an
/// action to one client never affects what another is permitted.
pub proof fn lemma_permitted_depends_only_on_permissions(
    c1: ClientConfig,
    c2: ClientConfig,
    a: Action,
)
    requires
        c1.permissions@ == c2.permissions@,
    ensures
        permitted_spec(c1, a) == permitted_spec(c2, a),
{
}

impl Config {
    /// The client registered under `name`, if any; first match wins.
    pub fn client_for<'a>(&'a self, name: &str) -> (r: Option<&'a ClientConfig>)
        ensures
            (match r {
                Some(c) => lookup(self.clients@, name@) == Some(*c),
                None => lookup(self.clients@, name@) is None,
            }),
    {
        let n = self.clients.len();
        let mut i: usize = 0;
        while i < n
            invariant
                i <= n,
                n == self.clients@.len(),
                forall|j: int| 0 <= j < i ==> self.clients@[j].name@ != name@,
            decreases n - i,
        {
            if str_eq(self.clients[i].name.as_str(), name) {
                proof {
                    lemma_lookup_skip(self.clients@, name@, i as int);
                    assert(self.clients@.skip(i as int)[0] == self.clients@[i as int]);
                }
                return Some(&self.clients[i].client);
            }
            i += 1;
        }
        proof {
            lemma_lookup_skip(self.clients@, name@, n as int);
        }
        None
    }

    /// The configured projects, one per registry entry in order.
    pub fn projects(&self) -> (r: Vec<String>)
        ensures
            r@.len() == self.clients@.len(),
            forall|i: int| 0 <= i < r@.len() ==> r@[i]@ == self.clients@[i].client.project@,
    {
        let mut out: Vec<String> = Vec::new();
        let n = self.clients.len();
        let mut i: usize = 0;
        while i < n
            invariant
                i <= n,
                n == self.clients@.len(),
                out@.len() == i,
                forall|j: int| 0 <= j < i ==> out@[j]@ == self.clients@[j].client.project@,
            decreases n - i,
        {
            out.push(self.clients[i].client.project.clone());
            i += 1;
        }
        out
    }
}

} // verus!
