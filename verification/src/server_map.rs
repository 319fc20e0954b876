//! The server directory: which protocol endpoints serve which mail domain.

use vstd::hash_map::StringHashMap;
use vstd::prelude::*;
use vstd::std_specs::cmp::PartialEqSpecImpl;

verus! {

/// One reachable listener: a host name and a port.
#[derive(Debug, Hash)]
pub struct ProtocolEndpoint {
    pub domain: String,
    pub port: u16,
}

pub type Endpoint = ProtocolEndpoint;

pub type Domain = String;

/// Mathematical value of a [`ProtocolEndpoint`].
pub struct EndpointView {
    pub domain: Seq<char>,
    pub port: u16,
}

impl View for ProtocolEndpoint {
    type V = EndpointView;

    open spec fn view(&self) -> EndpointView {
        EndpointView { domain: self.domain@, port: self.port }
    }
}

impl Clone for ProtocolEndpoint {
    fn clone(&self) -> (copy: Self)
        ensures
            copy == *self,
    {
        ProtocolEndpoint { domain: self.domain.clone(), port: self.port }
    }
}

impl PartialEq for ProtocolEndpoint {
    fn eq(&self, other: &Self) -> (same: bool) {
        self.domain == other.domain && self.port == other.port
    }
}

impl PartialEqSpecImpl for ProtocolEndpoint {
    open spec fn obeys_eq_spec() -> bool {
        true
    }

    open spec fn eq_spec(&self, other: &Self) -> bool {
        self@ == other@
    }
}

impl Eq for ProtocolEndpoint {

}

/// An IMAP listener.
#[derive(Debug, Hash)]
pub struct Imap(pub Endpoint);

/// A POP3 listener.
#[derive(Debug, Hash)]
pub struct Pop3(pub Endpoint);

impl View for Imap {
    type V = EndpointView;

    open spec fn view(&self) -> EndpointView {
        self.0@
    }
}

impl View for Pop3 {
    type V = EndpointView;

    open spec fn view(&self) -> EndpointView {
        self.0@
    }
}

impl Clone for Imap {
    fn clone(&self) -> (copy: Self)
        ensures
            copy == *self,
    {
        Imap(self.0.clone())
    }
}

impl Clone for Pop3 {
    fn clone(&self) -> (copy: Self)
        ensures
            copy == *self,
    {
        Pop3(self.0.clone())
    }
}

impl PartialEq for Imap {
    fn eq(&self, other: &Self) -> (same: bool) {
        self.0 == other.0
    }
}

impl PartialEqSpecImpl for Imap {
    open spec fn obeys_eq_spec() -> bool {
        true
    }

    open spec fn eq_spec(&self, other: &Self) -> bool {
        self@ == other@
    }
}

impl Eq for Imap {

}

impl PartialEq for Pop3 {
    fn eq(&self, other: &Self) -> (same: bool) {
        self.0 == other.0
    }
}

impl PartialEqSpecImpl for Pop3 {
    open spec fn obeys_eq_spec() -> bool {
        true
    }

    open spec fn eq_spec(&self, other: &Self) -> bool {
        self@ == other@
    }
}

impl Eq for Pop3 {

}

/// The protocols one server offers. Every value names at least one.
#[derive(Debug, Hash)]
pub enum Endpoints {
    Pop3 { pop3: Pop3 },
    Imap { imap: Imap },
    Full { pop3: Pop3, imap: Imap },
}

/// Mathematical value of an [`Endpoints`]: the listener of each protocol,
/// where the server offers it.
pub struct EndpointsView {
    pub pop3: Option<EndpointView>,
    pub imap: Option<EndpointView>,
}

impl View for Endpoints {
    type V = EndpointsView;

    open spec fn view(&self) -> EndpointsView {
        match *self {
            Endpoints::Pop3 { pop3 } => EndpointsView { pop3: Some(pop3@), imap: None },
            Endpoints::Imap { imap } => EndpointsView { pop3: None, imap: Some(imap@) },
            Endpoints::Full { pop3, imap } => EndpointsView {
                pop3: Some(pop3@),
                imap: Some(imap@),
            },
        }
    }
}

impl Endpoints {
    /// The POP3 listener, where the server has one.
    pub fn get_pop3(&self) -> (listener: Option<&Pop3>)
        ensures
            match listener {
                Some(pop3) => self@.pop3 == Some(pop3@),
                None => self@.pop3 is None,
            },
    {
        match self {
            Endpoints::Pop3 { pop3 } => Some(pop3),
            Endpoints::Imap { .. } => None,
            Endpoints::Full { pop3, .. } => Some(pop3),
        }
    }

    /// The IMAP listener, where the server has one.
    pub fn get_imap(&self) -> (listener: Option<&Imap>)
        ensures
            match listener {
                Some(imap) => self@.imap == Some(imap@),
                None => self@.imap is None,
            },
    {
        match self {
            Endpoints::Imap { imap } => Some(imap),
            Endpoints::Full { imap, .. } => Some(imap),
            Endpoints::Pop3 { .. } => None,
        }
    }
}

/// Every value of [`Endpoints`] offers at least one protocol.
pub proof fn lemma_endpoints_offer_a_protocol(endpoints: Endpoints)
    ensures
        endpoints@.pop3 is Some || endpoints@.imap is Some,
{
}

impl Clone for Endpoints {
    fn clone(&self) -> (copy: Self)
        ensures
            copy == *self,
    {
        match self {
            Endpoints::Pop3 { pop3 } => Endpoints::Pop3 { pop3: pop3.clone() },
            Endpoints::Imap { imap } => Endpoints::Imap { imap: imap.clone() },
            Endpoints::Full { pop3, imap } => Endpoints::Full {
                pop3: pop3.clone(),
                imap: imap.clone(),
            },
        }
    }
}

impl PartialEq for Endpoints {
    fn eq(&self, other: &Self) -> (same: bool) {
        match (self, other) {
            (Endpoints::Pop3 { pop3: a }, Endpoints::Pop3 { pop3: b }) => *a == *b,
            (Endpoints::Imap { imap: a }, Endpoints::Imap { imap: b }) => *a == *b,
            (
                Endpoints::Full { pop3: a, imap: c },
                Endpoints::Full { pop3: b, imap: d },
            ) => *a == *b && *c == *d,
            _ => false,
        }
    }
}

impl PartialEqSpecImpl for Endpoints {
    open spec fn obeys_eq_spec() -> bool {
        true
    }

    open spec fn eq_spec(&self, other: &Self) -> bool {
        self@ == other@
    }
}

impl Eq for Endpoints {

}

/// One server entry: the domains it serves and the protocols it offers.
#[derive(Debug, PartialEq, Eq, Hash)]
pub struct Server {
    pub domains: Vec<Domain>,
    pub endpoint: Endpoints,
}

/// Mathematical value of a [`Server`].
pub struct ServerView {
    pub domains: Seq<Seq<char>>,
    pub endpoint: EndpointsView,
}

impl View for Server {
    type V = ServerView;

    open spec fn view(&self) -> ServerView {
        ServerView {
            domains: Seq::new(self.domains@.len(), |i: int| self.domains@[i]@),
            endpoint: self.endpoint@,
        }
    }
}

/// The values of a list of servers.
pub open spec fn server_views(servers: Seq<Server>) -> Seq<ServerView> {
    Seq::new(servers.len(), |i: int| servers[i]@)
}

/// The directory after `server` is registered in the directory `m`: each of
/// its domains now maps to its endpoints, and every other domain maps as
/// before.
pub open spec fn with_server(
    m: Map<Seq<char>, EndpointsView>,
    server: ServerView,
) -> Map<Seq<char>, EndpointsView> {
    Map::new(
        |d: Seq<char>| m.contains_key(d) || server.domains.contains(d),
        |d: Seq<char>|
            if server.domains.contains(d) {
                server.endpoint
            } else {
                m[d]
            },
    )
}

/// Server `i` lists the domain `d` at position `k`.
pub open spec fn lists_domain(servers: Seq<ServerView>, i: int, k: int, d: Seq<char>) -> bool {
    &&& 0 <= i < servers.len()
    &&& 0 <= k < servers[i].domains.len()
    &&& servers[i].domains[k] == d
}

/// `servers` is the directory `m` grouped by endpoints: every server lists
/// at least one domain and no domain twice, every listed domain is
/// registered in `m` with the endpoints of the server that lists it, every
/// registered domain is listed, and no two servers have the same endpoints.
/// This fixes the servers up to their order and the order of their domains.
pub open spec fn groups_directory(
    servers: Seq<ServerView>,
    m: Map<Seq<char>, EndpointsView>,
) -> bool {
    &&& forall|i: int, k: int|
        0 <= i < servers.len() && 0 <= k < servers[i].domains.len() ==> m.contains_key(
            #[trigger] servers[i].domains[k],
        ) && m[servers[i].domains[k]] == servers[i].endpoint
    &&& forall|d: Seq<char>| #[trigger]
        m.contains_key(d) ==> exists|i: int, k: int| lists_domain(servers, i, k, d)
    &&& forall|i: int| 0 <= i < servers.len() ==> (#[trigger] servers[i]).domains.len() > 0
    &&& forall|i: int, k: int, l: int|
        0 <= i < servers.len() && 0 <= k < l < servers[i].domains.len()
            ==> #[trigger] servers[i].domains[k] != #[trigger] servers[i].domains[l]
    &&& forall|i: int, j: int|
        0 <= i < j < servers.len() ==> (#[trigger] servers[i]).endpoint
            != (#[trigger] servers[j]).endpoint
}

/// Adding a domain that is not yet registered to the server that has its
/// endpoints keeps the grouping.
proof fn lemma_group_grows(
    servers: Seq<ServerView>,
    m: Map<Seq<char>, EndpointsView>,
    j: int,
    d: Seq<char>,
)
    requires
        groups_directory(servers, m),
        0 <= j < servers.len(),
        !m.contains_key(d),
    ensures
        groups_directory(
            servers.update(
                j,
                ServerView { domains: servers[j].domains.push(d), endpoint: servers[j].endpoint },
            ),
            m.insert(d, servers[j].endpoint),
        ),
{
    let grown = ServerView { domains: servers[j].domains.push(d), endpoint: servers[j].endpoint };
    let after = servers.update(j, grown);
    assert forall|x: Seq<char>| #[trigger]
        m.insert(d, servers[j].endpoint).contains_key(x) implies exists|i: int, k: int|
        lists_domain(after, i, k, x) by {
        if x == d {
            assert(lists_domain(after, j, servers[j].domains.len() as int, x));
        } else {
            let (i, k) = choose|i: int, k: int| lists_domain(servers, i, k, x);
            assert(lists_domain(after, i, k, x));
        }
    }
}

/// A domain that is not yet registered, with endpoints that no server has,
/// makes a new server at the end of the list.
proof fn lemma_group_opens(
    servers: Seq<ServerView>,
    m: Map<Seq<char>, EndpointsView>,
    d: Seq<char>,
    e: EndpointsView,
)
    requires
        groups_directory(servers, m),
        forall|i: int| 0 <= i < servers.len() ==> (#[trigger] servers[i]).endpoint != e,
        !m.contains_key(d),
    ensures
        groups_directory(servers.push(ServerView { domains: seq![d], endpoint: e }), m.insert(d, e)),
{
    let after = servers.push(ServerView { domains: seq![d], endpoint: e });
    assert forall|x: Seq<char>| #[trigger] m.insert(d, e).contains_key(x) implies exists|
        i: int,
        k: int,
    | lists_domain(after, i, k, x) by {
        if x == d {
            assert(lists_domain(after, servers.len() as int, 0, x));
        } else {
            let (i, k) = choose|i: int, k: int| lists_domain(servers, i, k, x);
            assert(lists_domain(after, i, k, x));
        }
    }
}

/// The directory: for each registered domain, the endpoints of its server.
pub struct ServerMap {
    map: StringHashMap<Endpoints>,
    /// Every registered domain, once, in the order of first registration.
    domains: Vec<Domain>,
}

impl View for ServerMap {
    type V = Map<Seq<char>, EndpointsView>;

    closed spec fn view(&self) -> Map<Seq<char>, EndpointsView> {
        Map::new(|d: Seq<char>| self.map@.contains_key(d), |d: Seq<char>| self.map@[d]@)
    }
}

/// `domains` lists the keys of `map`, each once.
spec fn lists_keys(domains: Seq<Domain>, map: Map<Seq<char>, Endpoints>) -> bool {
    &&& forall|i: int, j: int| 0 <= i < j < domains.len() ==> domains[i]@ != domains[j]@
    &&& forall|i: int| 0 <= i < domains.len() ==> map.contains_key(#[trigger] domains[i]@)
    &&& forall|d: Seq<char>| #[trigger]
        map.contains_key(d) ==> exists|i: int| 0 <= i < domains.len() && #[trigger] domains[i]@ == d
}

/// `d` is one of the first `n` of `domains`.
spec fn among(domains: Seq<Domain>, n: int, d: Seq<char>) -> bool {
    exists|j: int| 0 <= j < n && #[trigger] domains[j]@ == d
}

/// The part of the directory `m` that covers the first `n` of `keys`.
spec fn covered(
    m: Map<Seq<char>, Endpoints>,
    keys: Seq<Domain>,
    n: int,
) -> Map<Seq<char>, EndpointsView> {
    Map::new(|d: Seq<char>| among(keys, n, d), |d: Seq<char>| m[d]@)
}

proof fn lemma_among_step(domains: Seq<Domain>, n: int, d: Seq<char>)
    requires
        0 <= n < domains.len(),
    ensures
        among(domains, n + 1, d) == (among(domains, n, d) || d == domains[n]@),
{
}

proof fn lemma_among_all(server: Server, d: Seq<char>)
    ensures
        server@.domains.contains(d) == among(server.domains@, server.domains@.len() as int, d),
{
    if among(server.domains@, server.domains@.len() as int, d) {
        let j = choose|j: int| 0 <= j < server.domains@.len() && #[trigger] server.domains@[j]@ == d;
        assert(server@.domains[j] == d);
    }
}

/// Maps `domain` to `endpoints`, whether or not it was registered before.
fn register(
    map: &mut StringHashMap<Endpoints>,
    domains: &mut Vec<Domain>,
    domain: Domain,
    endpoints: Endpoints,
)
    requires
        lists_keys(old(domains)@, old(map)@),
    ensures
        lists_keys(final(domains)@, final(map)@),
        final(map)@ == old(map)@.insert(domain@, endpoints),
{
    let known = map.contains_key(domain.as_str());
    if !known {
        domains.push(domain.clone());
    }
    map.insert(domain, endpoints);
    proof {
        let after = domains@;
        let before = old(domains)@;
        assert forall|d: Seq<char>| #[trigger] map@.contains_key(d) implies exists|i: int|
            0 <= i < after.len() && #[trigger] after[i]@ == d by {
            if d == domain@ && !known {
                assert(after[after.len() - 1]@ == d);
            } else {
                let i = choose|i: int| 0 <= i < before.len() && #[trigger] before[i]@ == d;
                assert(after[i]@ == d);
            }
        }
    }
}

fn find_group(servers: &Vec<Server>, endpoint: &Endpoints) -> (found: Option<usize>)
    ensures
        match found {
            Some(j) => j < servers.len() && servers[j as int].endpoint@ == endpoint@,
            None => forall|j: int| 0 <= j < servers.len() ==> servers[j].endpoint@ != endpoint@,
        },
{
    let mut j: usize = 0;
    while j < servers.len()
        invariant
            j <= servers.len(),
            forall|i: int| 0 <= i < j ==> servers[i].endpoint@ != endpoint@,
        decreases servers.len() - j,
    {
        if servers[j].endpoint == *endpoint {
            return Some(j);
        }
        j += 1;
    }
    None
}

impl ServerMap {
    #[verifier::type_invariant]
    spec fn consistent(self) -> bool {
        lists_keys(self.domains@, self.map@)
    }

    /// The empty directory.
    pub fn new() -> (directory: Self)
        ensures
            directory@ == Map::<Seq<char>, EndpointsView>::empty(),
    {
        Self { map: StringHashMap::new(), domains: Vec::new() }
    }

    /// Registers `server`: each of its domains maps to its endpoints from now
    /// on, whatever it mapped to before. Other domains are left as they are.
    pub fn add_server(&mut self, server: Server)
        ensures
            final(self)@ == with_server(old(self)@, server@),
    {
        let mut taken = ServerMap::new();
        std::mem::swap(self, &mut taken);
        proof {
            use_type_invariant(&taken);
        }
        let ServerMap { mut map, mut domains } = taken;
        let ghost before = map@;
        let mut i: usize = 0;
        while i < server.domains.len()
            invariant
                i <= server.domains.len(),
                lists_keys(domains@, map@),
                forall|d: Seq<char>| #[trigger]
                    map@.contains_key(d) <==> before.contains_key(d) || among(
                        server.domains@,
                        i as int,
                        d,
                    ),
                forall|d: Seq<char>| #[trigger]
                    map@.contains_key(d) ==> map@[d]@ == (if among(server.domains@, i as int, d) {
                        server.endpoint@
                    } else {
                        before[d]@
                    }),
            decreases server.domains.len() - i,
        {
            let domain = server.domains[i].clone();
            let endpoints = server.endpoint.clone();
            let ghost previous = map@;
            register(&mut map, &mut domains, domain, endpoints);
            proof {
                assert forall|d: Seq<char>|
                    among(server.domains@, i + 1, d) == (among(server.domains@, i as int, d) || d
                        == domain@) by {
                    lemma_among_step(server.domains@, i as int, d);
                }
            }
            i += 1;
        }
        *self = ServerMap { map, domains };
        proof {
            assert forall|d: Seq<char>|
                server@.domains.contains(d) == among(server.domains@, server.domains@.len() as int, d) by {
                lemma_among_all(server, d);
            }
        }
    }

    /// The directory as a list of servers: the registered domains, grouped
    /// by the endpoints they map to. This walks the whole directory; it is
    /// meant for export and inspection, not for lookups.
    pub fn servers(&self) -> (servers: Vec<Server>)
        ensures
            groups_directory(server_views(servers@), self@),
    {
        proof {
            use_type_invariant(self);
        }
        let mut result: Vec<Server> = Vec::new();
        let mut n: usize = 0;
        while n < self.domains.len()
            invariant
                n <= self.domains@.len(),
                lists_keys(self.domains@, self.map@),
                groups_directory(
                    server_views(result@),
                    covered(self.map@, self.domains@, n as int),
                ),
            decreases self.domains.len() - n,
        {
            let domain = &self.domains[n];
            let endpoints = self.map.get(domain.as_str()).unwrap();
            let ghost before = server_views(result@);
            let ghost part = covered(self.map@, self.domains@, n as int);
            proof {
                assert(!part.contains_key(domain@)) by {
                    if part.contains_key(domain@) {
                        let j = choose|j: int| 0 <= j < n && #[trigger] self.domains@[j]@ == domain@;
                        assert(self.domains@[j]@ != self.domains@[n as int]@);
                    }
                }
                assert forall|d: Seq<char>|
                    among(self.domains@, n + 1, d) == (among(self.domains@, n as int, d) || d
                        == domain@) by {
                    lemma_among_step(self.domains@, n as int, d);
                }
                assert(covered(self.map@, self.domains@, n + 1) =~= part.insert(
                    domain@,
                    endpoints@,
                ));
            }
            match find_group(&result, endpoints) {
                Some(j) => {
                    result[j].domains.push(domain.clone());
                    proof {
                        lemma_group_grows(before, part, j as int, domain@);
                        assert(result@[j as int]@.domains =~= before[j as int].domains.push(
                            domain@,
                        ));
                        assert(server_views(result@) =~= before.update(
                            j as int,
                            ServerView {
                                domains: before[j as int].domains.push(domain@),
                                endpoint: before[j as int].endpoint,
                            },
                        ));
                    }
                },
                None => {
                    let mut domains: Vec<Domain> = Vec::new();
                    domains.push(domain.clone());
                    let opened = Server { domains, endpoint: endpoints.clone() };
                    result.push(opened);
                    proof {
                        lemma_group_opens(before, part, domain@, endpoints@);
                        assert(opened@.domains =~= seq![domain@]);
                        assert(server_views(result@) =~= before.push(opened@));
                    }
                },
            }
            n += 1;
        }
        proof {
            assert(covered(self.map@, self.domains@, self.domains@.len() as int) =~= self@);
        }
        result
    }

    /// The endpoints registered for `domain`, if any.
    pub fn get_by_domain(&self, domain: &str) -> (entry: Option<&Endpoints>)
        ensures
            match entry {
                Some(endpoints) => self@.contains_key(domain@) && self@[domain@] == endpoints@,
                None => !self@.contains_key(domain@),
            },
    {
        self.map.get(domain)
    }
}

/// Registering a server and then grouping the directory gives that server
/// back: exactly one server of the grouping has its endpoints, and that one
/// lists exactly its domains. This holds whatever was registered before, as
/// long as the server names a domain and no domain that stays registered to
/// another entry has the very same endpoints (such a domain would join the
/// group).
pub proof fn lemma_registration_round_trip(
    m: Map<Seq<char>, EndpointsView>,
    server: ServerView,
    servers: Seq<ServerView>,
)
    requires
        server.domains.len() > 0,
        forall|d: Seq<char>|
            m.contains_key(d) && !server.domains.contains(d) ==> m[d] != server.endpoint,
        groups_directory(servers, with_server(m, server)),
    ensures
        exists|i: int|
            {
                &&& 0 <= i < servers.len()
                &&& (#[trigger] servers[i]).endpoint == server.endpoint
                &&& servers[i].domains.to_set() == server.domains.to_set()
                &&& forall|j: int|
                    0 <= j < servers.len() && (#[trigger] servers[j]).endpoint == server.endpoint
                        ==> j == i
            },
{
    let after = with_server(m, server);
    let first = server.domains[0];
    assert(after.contains_key(first));
    let (i, k) = choose|i: int, k: int| lists_domain(servers, i, k, first);
    assert forall|d: Seq<char>|
        servers[i].domains.to_set().contains(d) == server.domains.to_set().contains(d) by {
        if server.domains.contains(d) {
            assert(after.contains_key(d));
            let (a, b) = choose|a: int, b: int| lists_domain(servers, a, b, d);
            assert(servers[i].domains[b] == d);
        }
    }
}

} // verus!
