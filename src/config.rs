//! The configuration an operator writes, and the registration it describes.
use vstd::prelude::*;

use crate::keys::is_key_text;
use crate::builder::{kinded_models, with_all};
use crate::registration::{
    texts, AppServiceRegistration, Namespace, NamespaceKind, NamespaceModel, NamespacesModel,
    RegistrationModel,
};

verus! {

/// A namespace as a configuration lists it: with its kind beside it.
#[derive(Clone, Debug)]
pub struct ConfigNamespace {
    /// The kind of identifier matched.
    pub kind: NamespaceKind,
    /// The pattern.
    pub regex: String,
    /// Whether the namespace is exclusive.
    pub exclusive: bool,
}

/// An IP address, by its numeric parts.
#[derive(Clone, Copy, Debug, PartialEq, Eq, Structural)]
pub enum IpAddress {
    /// Four octets.
    V4(u8, u8, u8, u8),
    /// Eight 16-bit segments.
    V6(u16, u16, u16, u16, u16, u16, u16, u16),
}

/// A network endpoint: an address and a port.
#[derive(Clone, Copy, Debug, PartialEq, Eq, Structural)]
pub struct SocketAddress {
    /// The address.
    pub ip: IpAddress,
    /// The port.
    pub port: u16,
}

/// Where the service listens, written either as one `host:port` value or as
/// the address and the port apart.
#[derive(Clone, Copy, Debug, PartialEq, Eq, Structural)]
pub enum BindConfig {
    /// `host:port`.
    Url(SocketAddress),
    /// The address and the port.
    Parts(IpAddress, u16),
}

impl BindConfig {
    /// The endpoint that either form names.
    pub fn socket_addr(&self) -> (r: SocketAddress)
        ensures
            r == (match *self {
                BindConfig::Url(a) => a,
                BindConfig::Parts(ip, port) => SocketAddress { ip, port },
            }),
    {
        match *self {
            BindConfig::Url(a) => a,
            BindConfig::Parts(ip, port) => SocketAddress { ip, port },
        }
    }
}

/// The configuration of an application service, as its operator writes it,
/// with room for settings `E` of the service's own.
#[derive(Clone, Debug)]
pub struct AppServiceConfig<E> {
    /// A unique, user-defined id of the service, which never changes.
    pub application_id: String,
    /// The namespaces the service is interested in, in order.
    pub namespaces: Vec<ConfigNamespace>,
    /// The external protocols the service provides, in order.
    pub protocols: Vec<String>,
    /// The token the service presents to the homeserver.
    pub appservice_token: String,
    /// The token the homeserver presents to the service.
    pub homeserver_token: String,
    /// Whether requests from masqueraded users are rate-limited.
    pub rate_limited: bool,
    /// Whether the service receives ephemeral data.
    pub receive_ephemeral: bool,
    /// The localpart of the service's own user.
    pub username: String,
    /// The URL of the service.
    pub service_url: String,
    /// Where the service listens.
    pub bind_address: BindConfig,
    /// The service's own settings.
    pub extra: Option<E>,
}

/// The kinds and models of a configuration's namespaces, in order.
pub open spec fn config_namespace_models(s: Seq<ConfigNamespace>) -> Seq<(NamespaceKind, NamespaceModel)> {
    s.map_values(|c: ConfigNamespace| (c.kind, NamespaceModel { exclusive: c.exclusive, regex: c.regex@ }))
}

/// The registration that a configuration describes: its namespaces grouped
/// by kind in their order, its tokens as written, and its URL.
pub open spec fn registration_of_config<E>(c: AppServiceConfig<E>) -> RegistrationModel {
    RegistrationModel {
        application_id: c.application_id@,
        namespaces: with_all(NamespacesModel::empty(), config_namespace_models(c.namespaces@)),
        protocols: texts(c.protocols@),
        appservice_token: c.appservice_token@,
        homeserver_token: c.homeserver_token@,
        rate_limited: c.rate_limited,
        receive_ephemeral: c.receive_ephemeral,
        sender_localpart: c.username@,
        url: Some(c.service_url@),
    }
}

impl<E> AppServiceConfig<E> {
    /// A fresh random key of `length` bytes, as Base64 text.
    pub fn generate_key(length: usize) -> (r: String)
        ensures
            is_key_text(r@, length as nat),
            r@.len() == 4 * ((length + 2) / 3),
    {
        AppServiceRegistration::generate_key(length)
    }

    /// The registration this configuration describes. It depends on the
    /// configuration alone: the tokens are the configuration's, never fresh.
    pub fn registration(&self) -> (r: AppServiceRegistration)
        ensures
            r@ == registration_of_config(*self),
    {
        let mut pairs: Vec<(NamespaceKind, Namespace)> = Vec::new();
        let mut i: usize = 0;
        while i < self.namespaces.len()
            invariant
                0 <= i <= self.namespaces@.len(),
                kinded_models(pairs@) == config_namespace_models(
                    self.namespaces@.subrange(0, i as int),
                ),
            decreases self.namespaces@.len() - i,
        {
            let c = &self.namespaces[i];
            let ghost before = pairs@;
            pairs.push((c.kind, Namespace::new(c.regex.clone(), c.exclusive)));
            proof {
                let m = (c.kind, NamespaceModel { exclusive: c.exclusive, regex: c.regex@ });
                assert(kinded_models(pairs@) =~= kinded_models(before).push(m));
                assert(config_namespace_models(self.namespaces@.subrange(0, i + 1))
                    =~= config_namespace_models(self.namespaces@.subrange(0, i as int)).push(m));
            }
            i = i + 1;
        }
        proof {
            assert(self.namespaces@.subrange(0, self.namespaces@.len() as int) =~= self.namespaces@);
        }
        let r = AppServiceRegistration::builder(self.application_id.clone())
            .protocols(self.protocols.clone())
            .appservice_token(self.appservice_token.clone())
            .homeserver_token(self.homeserver_token.clone())
            .rate_limited(self.rate_limited)
            .receive_ephemeral(self.receive_ephemeral)
            .sender_localpart(self.username.clone())
            .url(Some(self.service_url.clone()))
            .namespaces(pairs)
            .build();
        r
    }
}

/// Deriving the registration twice from one configuration gives the same
/// registration, and its tokens are the configuration's own.
pub proof fn lemma_registration_repeatable<E>(
    c: AppServiceConfig<E>,
    first: AppServiceRegistration,
    second: AppServiceRegistration,
)
    requires
        first@ == registration_of_config(c),
        second@ == registration_of_config(c),
    ensures
        first@ == second@,
        first@.appservice_token == c.appservice_token@,
        first@.homeserver_token == c.homeserver_token@,
{
}

} // verus!
