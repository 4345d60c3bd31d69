//! A builder for registrations that will not build until the required
//! fields are given.
use vstd::prelude::*;

use crate::keys::{generate_key, is_key_text};
use crate::registration::{
    lemma_texts_push, opt_text, texts, AppServiceRegistration, Namespace, NamespaceKind, NamespaceModel,
    Namespaces, NamespacesModel,
};

verus! {

/// The length in bytes of the keys drawn for tokens that were not given.
pub const TOKEN_BYTES: usize = 24;

/// Marks a required builder field that has not been given yet.
#[derive(Clone, Copy, Debug, PartialEq, Eq, Structural)]
pub struct Unset;

/// What a registration builder holds. Tokens not given are `None`; the two
/// required fields are `Unset` until given.
pub ghost struct BuilderModel<S, U> {
    pub application_id: Seq<char>,
    pub namespaces: NamespacesModel,
    pub protocols: Seq<Seq<char>>,
    pub appservice_token: Option<Seq<char>>,
    pub homeserver_token: Option<Seq<char>>,
    pub rate_limited: bool,
    pub receive_ephemeral: bool,
    pub sender_localpart: S,
    pub url: U,
}

/// Builds an [`AppServiceRegistration`]. The sender localpart and the URL
/// must be given before `build` exists: `S` and `U` record whether they were.
pub struct AppServiceRegistrationBuilder<S, U> {
    application_id: String,
    namespaces: Namespaces,
    protocols: Vec<String>,
    appservice_token: Option<String>,
    homeserver_token: Option<String>,
    rate_limited: bool,
    receive_ephemeral: bool,
    sender_localpart: S,
    url: U,
}

impl<S, U> View for AppServiceRegistrationBuilder<S, U> {
    type V = BuilderModel<S, U>;

    closed spec fn view(&self) -> BuilderModel<S, U> {
        BuilderModel {
            application_id: self.application_id@,
            namespaces: self.namespaces@,
            protocols: texts(self.protocols@),
            appservice_token: opt_text(self.appservice_token),
            homeserver_token: opt_text(self.homeserver_token),
            rate_limited: self.rate_limited,
            receive_ephemeral: self.receive_ephemeral,
            sender_localpart: self.sender_localpart,
            url: self.url,
        }
    }
}

/// The pairs of kind and namespace model, in order.
pub open spec fn kinded_models(v: Seq<(NamespaceKind, Namespace)>) -> Seq<(NamespaceKind, NamespaceModel)> {
    v.map_values(|p: (NamespaceKind, Namespace)| (p.0, p.1@))
}

/// The collection `m` with each pair's namespace appended, in order, to the
/// list of its kind.
pub open spec fn with_all(m: NamespacesModel, items: Seq<(NamespaceKind, NamespaceModel)>) -> NamespacesModel
    decreases items.len(),
{
    if items.len() == 0 {
        m
    } else {
        with_all(m, items.drop_last()).with(items.last().0, items.last().1)
    }
}

impl AppServiceRegistration {
    /// A fresh random key of `length` bytes, as Base64 text.
    pub fn generate_key(length: usize) -> (r: String)
        ensures
            is_key_text(r@, length as nat),
            r@.len() == 4 * ((length + 2) / 3),
    {
        generate_key(length)
    }

    /// Starts building a registration with the given application id: no
    /// namespaces, no protocols, no tokens given, both flags off.
    pub fn builder(application_id: String) -> (r: AppServiceRegistrationBuilder<Unset, Unset>)
        ensures
            r@ == (BuilderModel {
                application_id: application_id@,
                namespaces: NamespacesModel::empty(),
                protocols: Seq::<Seq<char>>::empty(),
                appservice_token: None,
                homeserver_token: None,
                rate_limited: false,
                receive_ephemeral: false,
                sender_localpart: Unset,
                url: Unset,
            }),
    {
        let r = AppServiceRegistrationBuilder {
            application_id,
            namespaces: Namespaces::new(),
            protocols: Vec::new(),
            appservice_token: None,
            homeserver_token: None,
            rate_limited: false,
            receive_ephemeral: false,
            sender_localpart: Unset,
            url: Unset,
        };
        proof {
            assert(texts(r.protocols@) =~= Seq::<Seq<char>>::empty());
        }
        r
    }
}

impl<S, U> AppServiceRegistrationBuilder<S, U> {
    /// Adds a single namespace to the registration, after those of its kind.
    pub fn namespace(self, kind: NamespaceKind, regex: String, exclusive: bool) -> (r: Self)
        ensures
            r@ == (BuilderModel {
                namespaces: self@.namespaces.with(kind, NamespaceModel { exclusive, regex: regex@ }),
                ..self@
            }),
    {
        let mut b = self;
        b.namespaces.add(kind, regex, exclusive);
        b
    }

    /// Adds several namespaces to the registration, in the order given, each
    /// after those of its kind.
    pub fn namespaces(self, namespaces: Vec<(NamespaceKind, Namespace)>) -> (r: Self)
        ensures
            r@ == (BuilderModel {
                namespaces: with_all(self@.namespaces, kinded_models(namespaces@)),
                ..self@
            }),
    {
        let mut b = self;
        let mut i: usize = 0;
        while i < namespaces.len()
            invariant
                0 <= i <= namespaces@.len(),
                b@ == (BuilderModel {
                    namespaces: with_all(
                        self@.namespaces,
                        kinded_models(namespaces@.subrange(0, i as int)),
                    ),
                    ..self@
                }),
            decreases namespaces@.len() - i,
        {
            let kind = namespaces[i].0;
            let ns = &namespaces[i].1;
            b = b.namespace(kind, ns.regex(), ns.exclusive());
            proof {
                let done = kinded_models(namespaces@.subrange(0, i + 1));
                assert(done.drop_last() =~= kinded_models(namespaces@.subrange(0, i as int)));
                assert(done.last() == (kind, ns@));
            }
            i = i + 1;
        }
        proof {
            assert(namespaces@.subrange(0, namespaces@.len() as int) =~= namespaces@);
        }
        b
    }

    /// Adds a single protocol to the registration, after the others.
    pub fn protocol(self, protocol: String) -> (r: Self)
        ensures
            r@ == (BuilderModel { protocols: self@.protocols.push(protocol@), ..self@ }),
    {
        let mut b = self;
        proof {
            lemma_texts_push(b.protocols@, protocol);
        }
        b.protocols.push(protocol);
        b
    }

    /// Adds several protocols to the registration, in the order given, after
    /// the others. Nothing is deduplicated.
    pub fn protocols(self, protocols: Vec<String>) -> (r: Self)
        ensures
            r@ == (BuilderModel { protocols: self@.protocols + texts(protocols@), ..self@ }),
    {
        let mut b = self;
        let mut i: usize = 0;
        while i < protocols.len()
            invariant
                0 <= i <= protocols@.len(),
                b@ == (BuilderModel {
                    protocols: self@.protocols + texts(protocols@.subrange(0, i as int)),
                    ..self@
                }),
            decreases protocols@.len() - i,
        {
            b = b.protocol(protocols[i].clone());
            proof {
                assert(texts(protocols@.subrange(0, i + 1)) =~= texts(
                    protocols@.subrange(0, i as int),
                ).push(protocols@[i as int]@));
                assert(self@.protocols + texts(protocols@.subrange(0, i + 1)) =~= (self@.protocols
                    + texts(protocols@.subrange(0, i as int))).push(protocols@[i as int]@));
            }
            i = i + 1;
        }
        proof {
            assert(protocols@.subrange(0, protocols@.len() as int) =~= protocols@);
        }
        b
    }

    /// Sets the token the service presents to the homeserver.
    pub fn appservice_token(self, token: String) -> (r: Self)
        ensures
            r@ == (BuilderModel { appservice_token: Some(token@), ..self@ }),
    {
        let mut b = self;
        b.appservice_token = Some(token);
        b
    }

    /// Sets the token the homeserver presents to the service.
    pub fn homeserver_token(self, token: String) -> (r: Self)
        ensures
            r@ == (BuilderModel { homeserver_token: Some(token@), ..self@ }),
    {
        let mut b = self;
        b.homeserver_token = Some(token);
        b
    }

    /// Sets whether requests from masqueraded users are rate-limited.
    pub fn rate_limited(self, rate_limited: bool) -> (r: Self)
        ensures
            r@ == (BuilderModel { rate_limited, ..self@ }),
    {
        let mut b = self;
        b.rate_limited = rate_limited;
        b
    }

    /// Sets whether the service receives ephemeral data.
    pub fn receive_ephemeral(self, receive_ephemeral: bool) -> (r: Self)
        ensures
            r@ == (BuilderModel { receive_ephemeral, ..self@ }),
    {
        let mut b = self;
        b.receive_ephemeral = receive_ephemeral;
        b
    }
}

impl<U> AppServiceRegistrationBuilder<Unset, U> {
    /// Gives the localpart of the service's own user.
    pub fn sender_localpart(self, sender_localpart: String) -> (r: AppServiceRegistrationBuilder<String, U>)
        ensures
            r@ == (BuilderModel {
                application_id: self@.application_id,
                namespaces: self@.namespaces,
                protocols: self@.protocols,
                appservice_token: self@.appservice_token,
                homeserver_token: self@.homeserver_token,
                rate_limited: self@.rate_limited,
                receive_ephemeral: self@.receive_ephemeral,
                sender_localpart,
                url: self@.url,
            }),
    {
        AppServiceRegistrationBuilder {
            application_id: self.application_id,
            namespaces: self.namespaces,
            protocols: self.protocols,
            appservice_token: self.appservice_token,
            homeserver_token: self.homeserver_token,
            rate_limited: self.rate_limited,
            receive_ephemeral: self.receive_ephemeral,
            sender_localpart,
            url: self.url,
        }
    }
}

impl<S> AppServiceRegistrationBuilder<S, Unset> {
    /// Gives the URL the homeserver reaches the service at; `None` says that
    /// there is none.
    pub fn url(self, url: Option<String>) -> (r: AppServiceRegistrationBuilder<S, Option<String>>)
        ensures
            r@ == (BuilderModel {
                application_id: self@.application_id,
                namespaces: self@.namespaces,
                protocols: self@.protocols,
                appservice_token: self@.appservice_token,
                homeserver_token: self@.homeserver_token,
                rate_limited: self@.rate_limited,
                receive_ephemeral: self@.receive_ephemeral,
                sender_localpart: self@.sender_localpart,
                url,
            }),
    {
        AppServiceRegistrationBuilder {
            application_id: self.application_id,
            namespaces: self.namespaces,
            protocols: self.protocols,
            appservice_token: self.appservice_token,
            homeserver_token: self.homeserver_token,
            rate_limited: self.rate_limited,
            receive_ephemeral: self.receive_ephemeral,
            sender_localpart: self.sender_localpart,
            url,
        }
    }
}

/// A token as built: the one given, or else a fresh key.
pub open spec fn token_built(given: Option<Seq<char>>, t: Seq<char>) -> bool {
    match given {
        Some(g) => t == g,
        None => is_key_text(t, TOKEN_BYTES as nat) && t.len() == 4 * ((TOKEN_BYTES + 2) / 3),
    }
}

impl AppServiceRegistrationBuilder<String, Option<String>> {
    /// The registration with the fields given. A token that was not given is
    /// a fresh random key of 24 bytes in Base64.
    pub fn build(self) -> (r: AppServiceRegistration)
        ensures
            r@.application_id == self@.application_id,
            r@.namespaces == self@.namespaces,
            r@.protocols == self@.protocols,
            token_built(self@.appservice_token, r@.appservice_token),
            token_built(self@.homeserver_token, r@.homeserver_token),
            r@.rate_limited == self@.rate_limited,
            r@.receive_ephemeral == self@.receive_ephemeral,
            r@.sender_localpart == self@.sender_localpart@,
            r@.url == opt_text(self@.url),
    {
        let appservice_token = match self.appservice_token {
            Some(t) => t,
            None => generate_key(TOKEN_BYTES),
        };
        let homeserver_token = match self.homeserver_token {
            Some(t) => t,
            None => generate_key(TOKEN_BYTES),
        };
        AppServiceRegistration {
            application_id: self.application_id,
            namespaces: self.namespaces,
            protocols: self.protocols,
            appservice_token,
            homeserver_token,
            rate_limited: self.rate_limited,
            receive_ephemeral: self.receive_ephemeral,
            sender_localpart: self.sender_localpart,
            url: self.url,
        }
    }
}

} // verus!
