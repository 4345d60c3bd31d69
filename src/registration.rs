//! Namespaces, their kinds, and the registration record of an application
//! service, with their conversions to and from the protocol's record.
use vstd::prelude::*;

use ruma::api::appservice::Namespace as WireNamespace;
use ruma::api::appservice::Namespaces as WireNamespaces;
use ruma::api::appservice::Registration as WireRegistration;
use ruma::api::appservice::RegistrationInit as WireRegistrationInit;

use crate::errors::Error;
use crate::wire::{decode_yaml, encode_yaml, yaml_record, yaml_text};

verus! {

/// The kinds of identifiers a namespace can match.
#[derive(Clone, Copy, Debug, PartialEq, Eq, Structural)]
pub enum NamespaceKind {
    /// Room aliases.
    Alias,
    /// Room ids.
    Room,
    /// User ids.
    User,
}

/// `c` is the lower-case letter `l`, or its ASCII upper-case form.
pub open spec fn same_letter(c: char, l: char) -> bool {
    c == l || ('A' <= c && c <= 'Z' && (c as u32) + 32 == (l as u32))
}

/// `s` spells the lower-case word `w`, ignoring ASCII case.
pub open spec fn spells(s: Seq<char>, w: Seq<char>) -> bool {
    &&& s.len() == w.len()
    &&& forall|i: int| 0 <= i < s.len() ==> same_letter(#[trigger] s[i], w[i])
}

/// The kind that a text names: a singular or plural kind name in any ASCII case.
pub open spec fn kind_named(s: Seq<char>) -> Option<NamespaceKind> {
    if spells(s, "alias"@) || spells(s, "aliases"@) {
        Some(NamespaceKind::Alias)
    } else if spells(s, "room"@) || spells(s, "rooms"@) {
        Some(NamespaceKind::Room)
    } else if spells(s, "user"@) || spells(s, "users"@) {
        Some(NamespaceKind::User)
    } else {
        None
    }
}

fn spells_word(s: &str, w: &str) -> (r: bool)
    ensures
        r == spells(s@, w@),
{
    let n = s.unicode_len();
    if n != w.unicode_len() {
        return false;
    }
    let mut i: usize = 0;
    while i < n
        invariant
            n == s@.len(),
            n == w@.len(),
            0 <= i <= n,
            forall|j: int| 0 <= j < i ==> same_letter(#[trigger] s@[j], w@[j]),
        decreases n - i,
    {
        let c = s.get_char(i);
        let l = w.get_char(i);
        let same = c == l || ('A' <= c && c <= 'Z' && (c as u32) + 32 == (l as u32));
        if !same {
            return false;
        }
        i = i + 1;
    }
    true
}

impl NamespaceKind {
    /// Reads a kind from text: `alias`, `room` or `user`, singular or plural,
    /// in any ASCII case. Any other text is refused with
    /// [`Error::UnknownNamespaceKind`] carrying the text as given.
    pub fn parse(s: &str) -> (r: Result<NamespaceKind, Error>)
        ensures
            kind_named(s@) matches Some(k) ==> r == Ok::<NamespaceKind, Error>(k),
            kind_named(s@) is None ==> (r matches Err(Error::UnknownNamespaceKind(t)) && t@ == s@),
    {
        if spells_word(s, "alias") || spells_word(s, "aliases") {
            Ok(NamespaceKind::Alias)
        } else if spells_word(s, "room") || spells_word(s, "rooms") {
            Ok(NamespaceKind::Room)
        } else if spells_word(s, "user") || spells_word(s, "users") {
            Ok(NamespaceKind::User)
        } else {
            Err(Error::UnknownNamespaceKind(s.to_owned()))
        }
    }
}

/// What a namespace holds: its exclusivity and its pattern.
pub ghost struct NamespaceModel {
    pub exclusive: bool,
    pub regex: Seq<char>,
}

/// A pattern over identifiers, and whether the application service claims
/// the identifiers it matches for itself alone.
#[derive(Clone, Debug)]
pub struct Namespace {
    exclusive: bool,
    regex: String,
}

impl View for Namespace {
    type V = NamespaceModel;

    closed spec fn view(&self) -> NamespaceModel {
        NamespaceModel { exclusive: self.exclusive, regex: self.regex@ }
    }
}

/// The models of a sequence of namespaces, in the same order.
pub open spec fn models(s: Seq<Namespace>) -> Seq<NamespaceModel> {
    s.map_values(|n: Namespace| n@)
}

proof fn lemma_models_push(s: Seq<Namespace>, n: Namespace)
    ensures
        models(s.push(n)) == models(s).push(n@),
        models(Seq::<Namespace>::empty()) == Seq::<NamespaceModel>::empty(),
{
    assert(models(s.push(n)) =~= models(s).push(n@));
    assert(models(Seq::<Namespace>::empty()) =~= Seq::<NamespaceModel>::empty());
}

impl Namespace {
    /// A namespace with the given pattern and exclusivity. The pattern is
    /// not checked here.
    pub fn new(regex: String, exclusive: bool) -> (r: Namespace)
        ensures
            r@ == (NamespaceModel { exclusive, regex: regex@ }),
    {
        Namespace { exclusive, regex }
    }

    /// Whether this namespace is exclusive.
    pub fn exclusive(&self) -> (r: bool)
        ensures
            r == self@.exclusive,
    {
        self.exclusive
    }

    /// This namespace's pattern.
    pub fn regex(&self) -> (r: String)
        ensures
            r@ == self@.regex,
    {
        self.regex.clone()
    }

    /// A namespace equal to this one.
    pub fn duplicate(&self) -> (r: Namespace)
        ensures
            r@ == self@,
    {
        Namespace { exclusive: self.exclusive, regex: self.regex.clone() }
    }
}

/// A copy of a list of namespaces, in the same order.
fn duplicate_all(v: &Vec<Namespace>) -> (r: Vec<Namespace>)
    ensures
        models(r@) == models(v@),
{
    let mut r: Vec<Namespace> = Vec::new();
    let mut i: usize = 0;
    while i < v.len()
        invariant
            0 <= i <= v@.len(),
            models(r@) == models(v@.subrange(0, i as int)),
        decreases v@.len() - i,
    {
        let ghost before = r@;
        r.push(v[i].duplicate());
        proof {
            lemma_models_push(before, r@.last());
            assert(v@.subrange(0, i + 1) =~= v@.subrange(0, i as int).push(v@[i as int]));
            lemma_models_push(v@.subrange(0, i as int), v@[i as int]);
        }
        i = i + 1;
    }
    proof {
        assert(v@.subrange(0, v@.len() as int) == v@);
    }
    r
}

/// What a namespace collection holds: one ordered list per kind.
pub ghost struct NamespacesModel {
    pub aliases: Seq<NamespaceModel>,
    pub rooms: Seq<NamespaceModel>,
    pub users: Seq<NamespaceModel>,
}

impl NamespacesModel {
    /// The empty collection.
    pub open spec fn empty() -> NamespacesModel {
        NamespacesModel { aliases: Seq::empty(), rooms: Seq::empty(), users: Seq::empty() }
    }

    /// This collection with `n` appended to the list of kind `kind`.
    pub open spec fn with(self, kind: NamespaceKind, n: NamespaceModel) -> NamespacesModel {
        match kind {
            NamespaceKind::Alias => NamespacesModel { aliases: self.aliases.push(n), ..self },
            NamespaceKind::Room => NamespacesModel { rooms: self.rooms.push(n), ..self },
            NamespaceKind::User => NamespacesModel { users: self.users.push(n), ..self },
        }
    }
}

/// Namespaces, grouped by the kind of identifier they match. Within a kind
/// the order in which they were added is kept.
#[derive(Clone, Debug)]
pub struct Namespaces {
    aliases: Vec<Namespace>,
    rooms: Vec<Namespace>,
    users: Vec<Namespace>,
}

impl View for Namespaces {
    type V = NamespacesModel;

    closed spec fn view(&self) -> NamespacesModel {
        NamespacesModel {
            aliases: models(self.aliases@),
            rooms: models(self.rooms@),
            users: models(self.users@),
        }
    }
}

impl Default for Namespaces {
    /// An empty collection.
    fn default() -> (r: Namespaces)
        ensures
            r@ == NamespacesModel::empty(),
    {
        Namespaces::new()
    }
}

impl Namespaces {
    /// An empty collection.
    pub fn new() -> (r: Namespaces)
        ensures
            r@ == NamespacesModel::empty(),
    {
        let r = Namespaces { aliases: Vec::new(), rooms: Vec::new(), users: Vec::new() };
        proof {
            lemma_models_push(r.aliases@, arbitrary());
        }
        r
    }

    /// Appends a namespace to the list of its kind.
    pub fn add(&mut self, kind: NamespaceKind, regex: String, exclusive: bool)
        ensures
            final(self)@ == old(self)@.with(kind, NamespaceModel { exclusive, regex: regex@ }),
    {
        let n = Namespace::new(regex, exclusive);
        proof {
            lemma_models_push(self.aliases@, n);
            lemma_models_push(self.rooms@, n);
            lemma_models_push(self.users@, n);
        }
        match kind {
            NamespaceKind::Alias => self.aliases.push(n),
            NamespaceKind::Room => self.rooms.push(n),
            NamespaceKind::User => self.users.push(n),
        }
    }

    /// The alias namespaces, in order.
    pub fn aliases(&self) -> (r: Vec<Namespace>)
        ensures
            models(r@) == self@.aliases,
    {
        duplicate_all(&self.aliases)
    }

    /// The room namespaces, in order.
    pub fn rooms(&self) -> (r: Vec<Namespace>)
        ensures
            models(r@) == self@.rooms,
    {
        duplicate_all(&self.rooms)
    }

    /// The user namespaces, in order.
    pub fn users(&self) -> (r: Vec<Namespace>)
        ensures
            models(r@) == self@.users,
    {
        duplicate_all(&self.users)
    }
}

/// The model of a namespace in the protocol's record.
pub open spec fn wire_namespace_model(w: WireNamespace) -> NamespaceModel {
    NamespaceModel { exclusive: w.exclusive, regex: w.regex@ }
}

/// The models of a list of namespaces in the protocol's record, in order.
pub open spec fn wire_models(s: Seq<WireNamespace>) -> Seq<NamespaceModel> {
    s.map_values(|w: WireNamespace| wire_namespace_model(w))
}

/// The model of the protocol's namespace collection.
pub open spec fn wire_namespaces_model(w: WireNamespaces) -> NamespacesModel {
    NamespacesModel {
        aliases: wire_models(w.aliases@),
        rooms: wire_models(w.rooms@),
        users: wire_models(w.users@),
    }
}

impl Namespace {
    /// The namespace that a namespace of the protocol's record describes.
    pub fn from_wire(w: &WireNamespace) -> (r: Namespace)
        ensures
            r@ == wire_namespace_model(*w),
    {
        Namespace::new(w.regex.clone(), w.exclusive)
    }

    /// This namespace as the protocol's record writes it.
    pub fn to_wire(&self) -> (r: WireNamespace)
        ensures
            wire_namespace_model(r) == self@,
    {
        WireNamespace::new(self.exclusive, self.regex.clone())
    }
}

impl From<String> for Namespace {
    /// A non-exclusive namespace with the given pattern.
    fn from(regex: String) -> (r: Namespace)
        ensures
            r@ == (NamespaceModel { exclusive: false, regex: regex@ }),
    {
        Namespace { exclusive: false, regex }
    }
}

impl vstd::std_specs::convert::FromSpecImpl<String> for Namespace {
    open spec fn obeys_from_spec() -> bool {
        true
    }

    closed spec fn from_spec(regex: String) -> Namespace {
        Namespace { exclusive: false, regex }
    }
}

impl<'a> From<&'a str> for Namespace {
    /// A non-exclusive namespace with the given pattern.
    fn from(regex: &'a str) -> (r: Namespace)
        ensures
            r@ == (NamespaceModel { exclusive: false, regex: regex@ }),
    {
        Namespace { exclusive: false, regex: regex.to_owned() }
    }
}

impl<'a> vstd::std_specs::convert::FromSpecImpl<&'a str> for Namespace {
    open spec fn obeys_from_spec() -> bool {
        false
    }

    // A `String` cannot be made from a `&str` in spec code: the `ensures`
    // of `from` says what it returns.
    closed spec fn from_spec(regex: &'a str) -> Namespace {
        Namespace { exclusive: false, regex: arbitrary() }
    }
}

impl From<WireNamespace> for Namespace {
    fn from(w: WireNamespace) -> (r: Namespace)
        ensures
            r@ == wire_namespace_model(w),
    {
        Namespace { exclusive: w.exclusive, regex: w.regex }
    }
}

impl vstd::std_specs::convert::FromSpecImpl<WireNamespace> for Namespace {
    open spec fn obeys_from_spec() -> bool {
        true
    }

    closed spec fn from_spec(w: WireNamespace) -> Namespace {
        Namespace { exclusive: w.exclusive, regex: w.regex }
    }
}

fn list_from_wire(v: &Vec<WireNamespace>) -> (r: Vec<Namespace>)
    ensures
        models(r@) == wire_models(v@),
{
    let mut r: Vec<Namespace> = Vec::new();
    let mut i: usize = 0;
    while i < v.len()
        invariant
            0 <= i <= v@.len(),
            models(r@) == wire_models(v@.subrange(0, i as int)),
        decreases v@.len() - i,
    {
        let ghost before = r@;
        r.push(Namespace::from_wire(&v[i]));
        proof {
            lemma_models_push(before, r@.last());
            assert(wire_models(v@.subrange(0, i + 1)) =~= wire_models(
                v@.subrange(0, i as int),
            ).push(wire_namespace_model(v@[i as int])));
        }
        i = i + 1;
    }
    proof {
        assert(v@.subrange(0, v@.len() as int) == v@);
    }
    r
}

fn list_to_wire(v: &Vec<Namespace>, out: &mut Vec<WireNamespace>)
    ensures
        wire_models(final(out)@) == wire_models(old(out)@) + models(v@),
{
    let mut i: usize = 0;
    while i < v.len()
        invariant
            0 <= i <= v@.len(),
            wire_models(out@) == wire_models(old(out)@) + models(v@.subrange(0, i as int)),
        decreases v@.len() - i,
    {
        let ghost before = out@;
        out.push(v[i].to_wire());
        proof {
            assert(wire_models(out@) =~= wire_models(before).push(v@[i as int]@));
            assert(models(v@.subrange(0, i + 1)) =~= models(v@.subrange(0, i as int)).push(
                v@[i as int]@,
            ));
            assert(wire_models(out@) =~= wire_models(old(out)@) + models(
                v@.subrange(0, i + 1),
            ));
        }
        i = i + 1;
    }
    proof {
        assert(v@.subrange(0, v@.len() as int) == v@);
    }
}

impl Namespaces {
    /// The collection that the protocol's namespace collection describes,
    /// each list in the same order.
    pub fn from_wire(w: &WireNamespaces) -> (r: Namespaces)
        ensures
            r@ == wire_namespaces_model(*w),
    {
        Namespaces {
            aliases: list_from_wire(&w.aliases),
            rooms: list_from_wire(&w.rooms),
            users: list_from_wire(&w.users),
        }
    }

    /// This collection as the protocol's record writes it, each list in the
    /// same order.
    pub fn to_wire(&self) -> (r: WireNamespaces)
        ensures
            wire_namespaces_model(r) == self@,
    {
        let mut r = WireNamespaces::new();
        proof {
            assert(wire_models(r.aliases@) =~= Seq::<NamespaceModel>::empty());
            assert(wire_models(r.rooms@) =~= Seq::<NamespaceModel>::empty());
            assert(wire_models(r.users@) =~= Seq::<NamespaceModel>::empty());
        }
        list_to_wire(&self.aliases, &mut r.aliases);
        list_to_wire(&self.rooms, &mut r.rooms);
        list_to_wire(&self.users, &mut r.users);
        proof {
            assert(wire_models(r.aliases@) =~= models(self.aliases@));
            assert(wire_models(r.rooms@) =~= models(self.rooms@));
            assert(wire_models(r.users@) =~= models(self.users@));
        }
        r
    }
}

/// A namespace written in the protocol's record and read back is the same
/// namespace: the conversion loses nothing in either direction.
pub proof fn lemma_namespace_wire_round_trip(n: Namespace, w: WireNamespace, back: Namespace)
    requires
        wire_namespace_model(w) == n@,
        back@ == wire_namespace_model(w),
    ensures
        back@ == n@,
{
}

/// A namespace of the protocol's record read into this library and written
/// back is the same namespace of the record.
pub proof fn lemma_wire_namespace_round_trip(w: WireNamespace, n: Namespace, back: WireNamespace)
    requires
        n@ == wire_namespace_model(w),
        wire_namespace_model(back) == n@,
    ensures
        back.exclusive == w.exclusive,
        back.regex@ == w.regex@,
{
}

/// The characters of each string, in order.
pub open spec fn texts(v: Seq<String>) -> Seq<Seq<char>> {
    v.map_values(|t: String| t@)
}

/// The characters of an optional string.
pub open spec fn opt_text(o: Option<String>) -> Option<Seq<char>> {
    match o {
        Some(t) => Some(t@),
        None => None,
    }
}

pub(crate) proof fn lemma_texts_push(v: Seq<String>, t: String)
    ensures
        texts(v.push(t)) == texts(v).push(t@),
{
    assert(texts(v.push(t)) =~= texts(v).push(t@));
}

fn copy_texts(v: &Vec<String>) -> (r: Vec<String>)
    ensures
        r@ == v@,
{
    let mut r: Vec<String> = Vec::new();
    let mut i: usize = 0;
    while i < v.len()
        invariant
            0 <= i <= v@.len(),
            r@ == v@.subrange(0, i as int),
        decreases v@.len() - i,
    {
        r.push(v[i].clone());
        proof {
            assert(r@ =~= v@.subrange(0, i + 1));
        }
        i = i + 1;
    }
    proof {
        assert(v@.subrange(0, v@.len() as int) =~= v@);
    }
    r
}

/// What a registration holds.
pub ghost struct RegistrationModel {
    pub application_id: Seq<char>,
    pub namespaces: NamespacesModel,
    pub protocols: Seq<Seq<char>>,
    pub appservice_token: Seq<char>,
    pub homeserver_token: Seq<char>,
    pub rate_limited: bool,
    pub receive_ephemeral: bool,
    pub sender_localpart: Seq<char>,
    pub url: Option<Seq<char>>,
}

/// The registration of an application service with a homeserver: its
/// identity, its credentials and the identifiers it claims.
#[derive(Clone, Debug)]
pub struct AppServiceRegistration {
    /// Chosen by the user once; never changes.
    pub application_id: String,
    /// The identifiers the service is interested in.
    pub namespaces: Namespaces,
    /// The external protocols the service bridges, in order.
    pub protocols: Vec<String>,
    /// The token the service presents to the homeserver.
    pub appservice_token: String,
    /// The token the homeserver presents to the service.
    pub homeserver_token: String,
    /// Whether requests from masqueraded users are rate-limited.
    pub rate_limited: bool,
    /// Whether the service receives ephemeral data.
    pub receive_ephemeral: bool,
    /// The localpart of the service's own user.
    pub sender_localpart: String,
    /// Where the homeserver reaches the service, if anywhere.
    pub url: Option<String>,
}

impl View for AppServiceRegistration {
    type V = RegistrationModel;

    open spec fn view(&self) -> RegistrationModel {
        RegistrationModel {
            application_id: self.application_id@,
            namespaces: self.namespaces@,
            protocols: texts(self.protocols@),
            appservice_token: self.appservice_token@,
            homeserver_token: self.homeserver_token@,
            rate_limited: self.rate_limited,
            receive_ephemeral: self.receive_ephemeral,
            sender_localpart: self.sender_localpart@,
            url: opt_text(self.url),
        }
    }
}

/// What a registration record of the protocol holds, its optional fields
/// as they stand.
pub ghost struct WireRecord {
    pub id: Seq<char>,
    pub url: Option<Seq<char>>,
    pub as_token: Seq<char>,
    pub hs_token: Seq<char>,
    pub sender_localpart: Seq<char>,
    pub namespaces: NamespacesModel,
    pub rate_limited: Option<bool>,
    pub protocols: Option<Seq<Seq<char>>>,
    pub receive_ephemeral: bool,
}

/// The model of a registration record of the protocol.
pub open spec fn wire_record(w: WireRegistration) -> WireRecord {
    WireRecord {
        id: w.id@,
        url: opt_text(w.url),
        as_token: w.as_token@,
        hs_token: w.hs_token@,
        sender_localpart: w.sender_localpart@,
        namespaces: wire_namespaces_model(w.namespaces),
        rate_limited: w.rate_limited,
        protocols: match w.protocols {
            Some(p) => Some(texts(p@)),
            None => None,
        },
        receive_ephemeral: w.receive_ephemeral,
    }
}

/// The registration that a record describes: an absent protocol list is
/// empty and an absent rate limit is off.
pub open spec fn registration_of_record(w: WireRecord) -> RegistrationModel {
    RegistrationModel {
        application_id: w.id,
        namespaces: w.namespaces,
        protocols: match w.protocols {
            Some(p) => p,
            None => Seq::empty(),
        },
        appservice_token: w.as_token,
        homeserver_token: w.hs_token,
        rate_limited: match w.rate_limited {
            Some(b) => b,
            None => false,
        },
        receive_ephemeral: w.receive_ephemeral,
        sender_localpart: w.sender_localpart,
        url: w.url,
    }
}

/// The record that the protocol writes for a registration: every optional
/// field present.
pub open spec fn record_of_registration(r: RegistrationModel) -> WireRecord {
    WireRecord {
        id: r.application_id,
        url: r.url,
        as_token: r.appservice_token,
        hs_token: r.homeserver_token,
        sender_localpart: r.sender_localpart,
        namespaces: r.namespaces,
        rate_limited: Some(r.rate_limited),
        protocols: Some(r.protocols),
        receive_ephemeral: r.receive_ephemeral,
    }
}

impl AppServiceRegistration {
    /// The registration that a record of the protocol describes.
    pub fn from_wire(w: &WireRegistration) -> (r: AppServiceRegistration)
        ensures
            r@ == registration_of_record(wire_record(*w)),
    {
        let protocols = match &w.protocols {
            Some(p) => copy_texts(p),
            None => Vec::new(),
        };
        let rate_limited = match w.rate_limited {
            Some(b) => b,
            None => false,
        };
        let r = AppServiceRegistration {
            application_id: w.id.clone(),
            namespaces: Namespaces::from_wire(&w.namespaces),
            protocols,
            appservice_token: w.as_token.clone(),
            homeserver_token: w.hs_token.clone(),
            rate_limited,
            receive_ephemeral: w.receive_ephemeral,
            sender_localpart: w.sender_localpart.clone(),
            url: w.url.clone(),
        };
        proof {
            assert(texts(r.protocols@) =~= registration_of_record(wire_record(*w)).protocols);
        }
        r
    }

    /// This registration as a record of the protocol.
    pub fn to_wire(&self) -> (r: WireRegistration)
        ensures
            wire_record(r) == record_of_registration(self@),
    {
        let init = WireRegistrationInit {
            id: self.application_id.clone(),
            url: self.url.clone(),
            as_token: self.appservice_token.clone(),
            hs_token: self.homeserver_token.clone(),
            sender_localpart: self.sender_localpart.clone(),
            namespaces: self.namespaces.to_wire(),
            rate_limited: Some(self.rate_limited),
            protocols: Some(copy_texts(&self.protocols)),
        };
        let mut r = WireRegistration::from(init);
        r.receive_ephemeral = self.receive_ephemeral;
        r
    }
}

impl AppServiceRegistration {
    /// Reads a registration from the YAML form that homeservers load.
    /// Text that holds no registration record gives [`Error::YamlError`].
    pub fn from_yaml(yaml: &str) -> (r: Result<AppServiceRegistration, Error>)
        ensures
            yaml_record(yaml@) matches Some(w) ==> (r is Ok && r->Ok_0@ == registration_of_record(w)),
            yaml_record(yaml@) is None ==> (r matches Err(Error::YamlError(_))),
    {
        match decode_yaml(yaml) {
            Ok(w) => Ok(AppServiceRegistration::from_wire(&w)),
            Err(e) => Err(Error::YamlError(e)),
        }
    }

    /// Writes this registration in the YAML form that homeservers load, as
    /// the protocol's record with the rate limit and the protocol list
    /// present. The record's own rules leave out `receive_ephemeral` when it
    /// is false and each empty namespace list; reading the text back gives
    /// them their defaults. Writing never fails.
    pub fn into_yaml(&self) -> (r: Result<String, Error>)
        ensures
            r is Ok,
            r->Ok_0@ == yaml_text(record_of_registration(self@)),
    {
        let w = self.to_wire();
        match encode_yaml(&w) {
            Ok(t) => Ok(t),
            Err(e) => Err(Error::YamlError(e)),
        }
    }
}

/// A registration written as a record of the protocol and read back is the
/// same registration, field for field and in every list's order.
pub proof fn lemma_registration_wire_round_trip(
    reg: AppServiceRegistration,
    w: WireRegistration,
    back: AppServiceRegistration,
)
    requires
        wire_record(w) == record_of_registration(reg@),
        back@ == registration_of_record(wire_record(w)),
    ensures
        back@ == reg@,
{
}

} // verus!
