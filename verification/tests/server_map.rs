use mail_reader::server_map::{Endpoints, Imap, Pop3, ProtocolEndpoint, Server, ServerMap};

fn endpoint(domain: &str, port: u16) -> ProtocolEndpoint {
    ProtocolEndpoint { domain: domain.to_string(), port }
}

fn imap_only(domain: &str) -> Endpoints {
    Endpoints::Imap { imap: Imap(endpoint(domain, 993)) }
}

fn pop3_only(domain: &str) -> Endpoints {
    Endpoints::Pop3 { pop3: Pop3(endpoint(domain, 995)) }
}

fn full(imap: &str, pop3: &str) -> Endpoints {
    Endpoints::Full { pop3: Pop3(endpoint(pop3, 995)), imap: Imap(endpoint(imap, 993)) }
}

fn server(domains: &[&str], endpoint: Endpoints) -> Server {
    Server { domains: domains.iter().map(|d| d.to_string()).collect(), endpoint }
}

fn sorted(domains: &[String]) -> Vec<String> {
    let mut domains = domains.to_vec();
    domains.sort();
    domains
}

#[test]
fn endpoints_hand_out_the_listeners_they_have() {
    let imap = imap_only("imap.example.com");
    assert_eq!(imap.get_imap(), Some(&Imap(endpoint("imap.example.com", 993))));
    assert_eq!(imap.get_pop3(), None);
    let pop3 = pop3_only("pop.example.com");
    assert_eq!(pop3.get_pop3(), Some(&Pop3(endpoint("pop.example.com", 995))));
    assert_eq!(pop3.get_imap(), None);
    let both = full("imap.example.com", "pop.example.com");
    assert_eq!(both.get_imap(), Some(&Imap(endpoint("imap.example.com", 993))));
    assert_eq!(both.get_pop3(), Some(&Pop3(endpoint("pop.example.com", 995))));
}

#[test]
fn endpoints_compare_by_value() {
    assert_eq!(endpoint("a", 1), endpoint("a", 1));
    assert_ne!(endpoint("a", 1), endpoint("a", 2));
    assert_ne!(endpoint("a", 1), endpoint("b", 1));
    assert_eq!(imap_only("a"), imap_only("a").clone());
    assert_ne!(imap_only("a"), pop3_only("a"));
    assert_ne!(full("a", "b"), imap_only("a"));
    assert_ne!(full("a", "b"), full("a", "c"));
    assert_eq!(full("a", "b"), full("a", "b"));
}

#[test]
fn a_new_directory_knows_no_domain() {
    let map = ServerMap::new();
    assert_eq!(map.get_by_domain("example.com"), None);
    assert!(map.servers().is_empty());
}

#[test]
fn add_server_registers_every_domain() {
    let mut map = ServerMap::new();
    map.add_server(server(&["a.example", "b.example"], imap_only("imap.example")));
    assert_eq!(map.get_by_domain("a.example"), Some(&imap_only("imap.example")));
    assert_eq!(map.get_by_domain("b.example"), Some(&imap_only("imap.example")));
    assert_eq!(map.get_by_domain("c.example"), None);
    assert_eq!(map.get_by_domain("A.example"), None);
}

#[test]
fn add_server_overwrites_only_the_domains_it_names() {
    let mut map = ServerMap::new();
    map.add_server(server(&["a.example", "b.example"], imap_only("old.example")));
    map.add_server(server(&["b.example", "c.example"], pop3_only("new.example")));
    assert_eq!(map.get_by_domain("a.example"), Some(&imap_only("old.example")));
    assert_eq!(map.get_by_domain("b.example"), Some(&pop3_only("new.example")));
    assert_eq!(map.get_by_domain("c.example"), Some(&pop3_only("new.example")));
}

#[test]
fn add_server_without_domains_changes_nothing() {
    let mut map = ServerMap::new();
    map.add_server(server(&["a.example"], imap_only("imap.example")));
    map.add_server(server(&[], pop3_only("pop.example")));
    let servers = map.servers();
    assert_eq!(servers.len(), 1);
    assert_eq!(servers[0].endpoint, imap_only("imap.example"));
}

#[test]
fn add_server_takes_a_domain_named_twice_once() {
    let mut map = ServerMap::new();
    map.add_server(server(&["a.example", "a.example"], imap_only("imap.example")));
    let servers = map.servers();
    assert_eq!(servers.len(), 1);
    assert_eq!(servers[0].domains, vec!["a.example".to_string()]);
}

#[test]
fn servers_gives_back_a_registered_server() {
    let mut map = ServerMap::new();
    map.add_server(server(&["x.example"], pop3_only("pop.x.example")));
    map.add_server(server(&["y.example", "z.example"], full("imap.y.example", "pop.y.example")));
    map.add_server(server(&["a.example", "b.example"], imap_only("imap.example")));
    let servers = map.servers();
    assert_eq!(servers.len(), 3);
    let found: Vec<&Server> =
        servers.iter().filter(|s| s.endpoint == imap_only("imap.example")).collect();
    assert_eq!(found.len(), 1);
    assert_eq!(sorted(&found[0].domains), vec!["a.example".to_string(), "b.example".to_string()]);
}

#[test]
fn servers_groups_domains_with_equal_endpoints() {
    let mut map = ServerMap::new();
    map.add_server(server(&["a.example"], imap_only("imap.example")));
    map.add_server(server(&["p.example"], pop3_only("pop.example")));
    map.add_server(server(&["b.example"], imap_only("imap.example")));
    let servers = map.servers();
    assert_eq!(servers.len(), 2);
    assert_eq!(servers[0].endpoint, imap_only("imap.example"));
    assert_eq!(servers[0].domains, vec!["a.example".to_string(), "b.example".to_string()]);
    assert_eq!(servers[1].endpoint, pop3_only("pop.example"));
    assert_eq!(servers[1].domains, vec!["p.example".to_string()]);
}

#[test]
fn servers_follows_an_overwrite() {
    let mut map = ServerMap::new();
    map.add_server(server(&["a.example", "b.example"], imap_only("old.example")));
    map.add_server(server(&["a.example", "b.example"], pop3_only("new.example")));
    let servers = map.servers();
    assert_eq!(servers.len(), 1);
    assert_eq!(servers[0].endpoint, pop3_only("new.example"));
    assert_eq!(sorted(&servers[0].domains), vec!["a.example".to_string(), "b.example".to_string()]);
}

#[test]
fn servers_lists_every_domain_once() {
    let mut map = ServerMap::new();
    let names: Vec<String> = (0..20).map(|i| format!("d{i}.example")).collect();
    for (i, name) in names.iter().enumerate() {
        let host = format!("imap{}.example", i % 3);
        map.add_server(server(&[name.as_str()], imap_only(&host)));
    }
    let servers = map.servers();
    assert_eq!(servers.len(), 3);
    let mut listed: Vec<String> = servers.iter().flat_map(|s| s.domains.clone()).collect();
    listed.sort();
    let mut expected = names.clone();
    expected.sort();
    assert_eq!(listed, expected);
    for s in &servers {
        for d in &s.domains {
            assert_eq!(map.get_by_domain(d), Some(&s.endpoint));
        }
    }
}
