//! The client registry: which clients exist, where they may be redirected,
//! and the scope each one is granted.

use crate::grant::{parse_scope_text, scope_text_ok, scope_tokens, scope_words};
use oxide_auth::primitives::scope::Scope;
use vstd::hash_map::StringHashMap;
use vstd::prelude::*;

verus! {

/// A registered public client.
pub struct Client {
    pub client_id: String,
    pub redirect_uri: String,
    pub default_scope: Scope,
    /// The scope as it was written at registration, shown on consent pages.
    pub scope_text: String,
}

/// The mathematical value of a client.
pub struct ClientView {
    pub client_id: Seq<char>,
    pub redirect_uri: Seq<char>,
    pub scope: Set<Seq<char>>,
    pub scope_text: Seq<char>,
}

impl View for Client {
    type V = ClientView;

    open spec fn view(&self) -> ClientView {
        ClientView {
            client_id: self.client_id@,
            redirect_uri: self.redirect_uri@,
            scope: scope_tokens(self.default_scope),
            scope_text: self.scope_text@,
        }
    }
}

impl Client {
    /// A public client with one redirect URI and the scope given as text.
    /// Scope text with a character outside the scope alphabet gives `None`.
    pub fn public(client_id: &str, redirect_uri: &str, scope: &str) -> (r: Option<Client>)
        ensures
            r is Some <==> scope_text_ok(scope@),
            r matches Some(c) ==> {
                &&& c@.client_id == client_id@
                &&& c@.redirect_uri == redirect_uri@
                &&& c@.scope == scope_words(scope@)
                &&& c@.scope_text == scope@
            },
    {
        match parse_scope_text(scope) {
            None => None,
            Some(default_scope) => Some(
                Client {
                    client_id: client_id.to_owned(),
                    redirect_uri: redirect_uri.to_owned(),
                    default_scope,
                    scope_text: scope.to_owned(),
                },
            ),
        }
    }
}

/// Why a client and redirect URI were refused.
#[derive(Debug, PartialEq, Eq, Structural, Clone, Copy)]
pub enum RegistryError {
    /// No client is registered under the identifier.
    UnknownClient,
    /// The client is registered, but not with that redirect URI.
    RedirectMismatch,
}

/// The text of an optional string.
pub open spec fn text_of(o: Option<&str>) -> Option<Seq<char>> {
    match o {
        Some(s) => Some(s@),
        None => None,
    }
}

/// The redirect URI that a request for client `id` is bound to: the one it
/// names, when that is the registered one, or the registered one when it
/// names none.
pub open spec fn bound_redirect_of(clients: Map<Seq<char>, ClientView>, id: Seq<char>, uri: Option<
    Seq<char>,
>) -> Result<Seq<char>, RegistryError> {
    if !clients.contains_key(id) {
        Err(RegistryError::UnknownClient)
    } else {
        match uri {
            None => Ok(clients[id].redirect_uri),
            Some(u) => if u == clients[id].redirect_uri {
                Ok(u)
            } else {
                Err(RegistryError::RedirectMismatch)
            },
        }
    }
}

/// The registered clients, by identifier.
pub struct ClientRegistry {
    clients: StringHashMap<Client>,
}

impl View for ClientRegistry {
    type V = Map<Seq<char>, ClientView>;

    closed spec fn view(&self) -> Map<Seq<char>, ClientView> {
        self.clients@.map_values(|c: Client| c@)
    }
}

impl ClientRegistry {
    /// Each client is filed under its own identifier.
    pub open spec fn wf(&self) -> bool {
        forall|id: Seq<char>| #[trigger] self@.contains_key(id) ==> self@[id].client_id == id
    }

    /// A registry with no clients.
    pub fn new() -> (r: ClientRegistry)
        ensures
            r@ == Map::<Seq<char>, ClientView>::empty(),
            r.wf(),
    {
        let r = ClientRegistry { clients: StringHashMap::new() };
        assert(r@ =~= Map::<Seq<char>, ClientView>::empty());
        r
    }

    /// Registers `client`, replacing any client with the same identifier.
    pub fn register(&mut self, client: Client)
        requires
            old(self).wf(),
        ensures
            final(self).wf(),
            final(self)@ == old(self)@.insert(client@.client_id, client@),
    {
        let ghost pre = self@;
        let ghost c = client@;
        let id = client.client_id.clone();
        self.clients.insert(id, client);
        assert(self@ =~= pre.insert(c.client_id, c));
    }

    /// The client registered under `client_id`, if any.
    pub fn lookup(&self, client_id: &str) -> (r: Option<&Client>)
        ensures
            r matches Some(c) ==> self@.contains_key(client_id@) && c@ == self@[client_id@],
            r is None ==> !self@.contains_key(client_id@),
    {
        self.clients.get(client_id)
    }

    /// Whether `client_id` is registered with redirect URI `uri`.
    pub fn validate_redirect(&self, client_id: &str, uri: &str) -> (r: bool)
        ensures
            r == (self@.contains_key(client_id@) && self@[client_id@].redirect_uri == uri@),
    {
        match self.clients.get(client_id) {
            None => false,
            Some(c) => c.redirect_uri == uri.to_owned(),
        }
    }

    /// Binds a request of `client_id` to its redirect URI: `uri` when it is
    /// the registered one, the registered one when `uri` is absent.
    pub fn bound_redirect(&self, client_id: &str, uri: Option<&str>) -> (r: Result<String, RegistryError>)
        ensures
            r matches Ok(u) ==> bound_redirect_of(self@, client_id@, text_of(uri)) == Ok::<
                Seq<char>,
                RegistryError,
            >(u@),
            r matches Err(e) ==> bound_redirect_of(self@, client_id@, text_of(uri)) == Err::<
                Seq<char>,
                RegistryError,
            >(e),
    {
        let client = match self.clients.get(client_id) {
            None => return Err(RegistryError::UnknownClient),
            Some(c) => c,
        };
        match uri {
            None => Ok(client.redirect_uri.clone()),
            Some(u) => {
                let given: String = u.to_owned();
                if client.redirect_uri == given {
                    Ok(given)
                } else {
                    Err(RegistryError::RedirectMismatch)
                }
            },
        }
    }
}

} // verus!
