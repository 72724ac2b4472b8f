use tandem::plc::{plc_query, PlcService, ResolveDid};
use tandem::resolve::{
    dns_name, resolve_handle, resolve_handle_dns, resolve_handle_http, well_known_url,
    ResolveAction, ResolveError, ResolveEvent, ResolvedHandle, Resolver,
};

struct World {
    directory: Vec<(String, ResolveDid)>,
    http: Vec<(String, String)>,
    dns: Vec<(String, Vec<String>)>,
}

impl World {
    fn new() -> World {
        World { directory: Vec::new(), http: Vec::new(), dns: Vec::new() }
    }

    fn document(mut self, did: &str, names: &[&str], pds: &[&str]) -> World {
        let service = pds
            .iter()
            .map(|endpoint| PlcService {
                service_type: "AtprotoPersonalDataServer".to_string(),
                service_endpoint: endpoint.to_string(),
            })
            .collect();
        let also_known_as = names.iter().map(|name| name.to_string()).collect();
        self.directory.push((did.to_string(), ResolveDid { also_known_as, service }));
        self
    }

    fn http(mut self, handle: &str, body: &str) -> World {
        self.http.push((handle.to_string(), body.to_string()));
        self
    }

    fn dns(mut self, handle: &str, records: &[&str]) -> World {
        self.dns.push((handle.to_string(), records.iter().map(|r| r.to_string()).collect()));
        self
    }

    fn answer(&self, action: &ResolveAction) -> ResolveEvent {
        match action {
            ResolveAction::QueryDirectory { did } => ResolveEvent::Directory(
                self.directory.iter().find(|(d, _)| d == did).map(|(_, doc)| plc_query(doc)),
            ),
            ResolveAction::VerifyHandle { handle } => {
                let http = match self.http.iter().find(|(h, _)| h == handle) {
                    Some((_, body)) => resolve_handle_http(body),
                    None => Err(ResolveError::Transport),
                };
                let dns = match self.dns.iter().find(|(h, _)| h == handle) {
                    Some((_, records)) => resolve_handle_dns(records),
                    None => Err(ResolveError::Transport),
                };
                ResolveEvent::Handle { http, dns }
            }
            ResolveAction::Done(_) => unreachable!(),
        }
    }

    fn resolve(&self, subject: &str) -> (Result<ResolvedHandle, ResolveError>, usize) {
        let mut resolver = Resolver::new(subject);
        let mut action = resolver.action();
        let mut lookups = 0;
        loop {
            if let ResolveAction::Done(result) = action {
                return (result, lookups);
            }
            assert!(lookups < 19, "a resolution asks for at most nineteen lookups");
            let event = self.answer(&action);
            let (next, next_action) = resolve_handle(resolver, event);
            resolver = next;
            action = next_action;
            lookups += 1;
        }
    }
}

fn identity(did: &str, pds: &str, handles: &[&str]) -> ResolvedHandle {
    ResolvedHandle {
        did: did.to_string(),
        pds: pds.to_string(),
        handles: handles.iter().map(|h| h.to_string()).collect(),
    }
}

#[test]
fn end_to_end_handle_over_https() {
    let world = World::new()
        .http("alice.example", "did:plc:abc123")
        .document("did:plc:abc123", &["at://alice.example"], &["https://pds.example"]);
    let (result, lookups) = world.resolve("alice.example");
    assert_eq!(result, Ok(identity("did:plc:abc123", "https://pds.example", &["alice.example"])));
    assert_eq!(lookups, 2);
}

#[test]
fn the_steps_of_a_resolution() {
    let resolver = Resolver::new("alice.example");
    assert_eq!(
        resolver.action(),
        ResolveAction::VerifyHandle { handle: "alice.example".to_string() }
    );
    let (resolver, action) = resolve_handle(
        resolver,
        ResolveEvent::Handle {
            http: Ok("did:plc:abc123".to_string()),
            dns: Err(ResolveError::Transport),
        },
    );
    assert_eq!(action, ResolveAction::QueryDirectory { did: "did:plc:abc123".to_string() });
    assert_eq!(resolver.action(), action);
    let (resolver, action) = resolve_handle(
        resolver,
        ResolveEvent::Directory(Some((
            vec!["https://pds.example".to_string()],
            vec!["alice.example".to_string()],
        ))),
    );
    let expected = ResolveAction::Done(Ok(identity(
        "did:plc:abc123",
        "https://pds.example",
        &["alice.example"],
    )));
    assert_eq!(action, expected);
    let (resolver, action) = resolve_handle(resolver, ResolveEvent::Directory(None));
    assert_eq!(action, expected);
    assert_eq!(resolver.action(), expected);
}

#[test]
fn a_did_resolves_through_its_handle() {
    let world = World::new()
        .dns("alice.example", &["did=did:plc:abc123"])
        .document("did:plc:abc123", &["at://alice.example"], &["https://pds.example"]);
    let (result, lookups) = world.resolve("did:plc:abc123");
    assert_eq!(result, Ok(identity("did:plc:abc123", "https://pds.example", &["alice.example"])));
    assert_eq!(lookups, 2);
}

#[test]
fn both_sources_agreeing_is_one_did() {
    let world = World::new()
        .http("alice.example", "did:plc:abc123")
        .dns("alice.example", &["v=spf1 -all", "did=did:plc:abc123"])
        .document("did:plc:abc123", &["at://alice.example"], &["https://pds.example"]);
    let (result, _) = world.resolve("alice.example");
    assert_eq!(result, Ok(identity("did:plc:abc123", "https://pds.example", &["alice.example"])));
}

#[test]
fn several_handles_are_all_checked() {
    let world = World::new()
        .http("alice.example", "did:plc:abc123")
        .http("alice.test", "did:plc:abc123")
        .document(
            "did:plc:abc123",
            &["at://alice.example", "at://alice.test", "alice.example"],
            &["https://pds.example", "https://pds.example"],
        );
    let (result, lookups) = world.resolve("alice.example");
    assert_eq!(
        result,
        Ok(identity("did:plc:abc123", "https://pds.example", &["alice.example", "alice.test"]))
    );
    assert_eq!(lookups, 3);
}

#[test]
fn https_and_dns_disagreeing_is_fatal() {
    let world = World::new()
        .http("alice.example", "did:plc:abc123")
        .dns("alice.example", &["did=did:plc:other"])
        .document("did:plc:abc123", &["at://alice.example"], &["https://pds.example"])
        .document("did:plc:other", &["at://alice.example"], &["https://pds.example"]);
    let (result, _) = world.resolve("alice.example");
    assert_eq!(result, Err(ResolveError::MultipleDids));
    let (result, _) = world.resolve("did:plc:abc123");
    assert_eq!(result, Err(ResolveError::MultipleDids));
}

#[test]
fn handles_of_one_did_naming_another_is_fatal() {
    let world = World::new()
        .http("alice.example", "did:plc:abc123")
        .http("alice.test", "did:plc:other")
        .document(
            "did:plc:abc123",
            &["at://alice.example", "at://alice.test"],
            &["https://pds.example"],
        );
    let (result, _) = world.resolve("alice.example");
    assert_eq!(result, Err(ResolveError::MultipleDids));
}

#[test]
fn ambiguous_dns_records_fail_at_once() {
    let world = World::new()
        .http("alice.example", "did:plc:abc123")
        .dns("alice.example", &["did=did:plc:abc123", "did=did:plc:other"])
        .document("did:plc:abc123", &["at://alice.example"], &["https://pds.example"]);
    let (result, lookups) = world.resolve("alice.example");
    assert_eq!(result, Err(ResolveError::AmbiguousHandle));
    assert_eq!(lookups, 1);
}

#[test]
fn two_data_servers_are_fatal() {
    let world = World::new()
        .http("alice.example", "did:plc:abc123")
        .document(
            "did:plc:abc123",
            &["at://alice.example"],
            &["https://pds.example", "https://pds.test"],
        );
    let (result, _) = world.resolve("alice.example");
    assert_eq!(result, Err(ResolveError::MultiplePds));
}

#[test]
fn nothing_found() {
    let world = World::new();
    assert_eq!(world.resolve("alice.example"), (Err(ResolveError::NoHandlesFound), 1));
    assert_eq!(world.resolve("did:plc:abc123"), (Err(ResolveError::NoHandlesFound), 1));
    let world = World::new().http("alice.example", "did:plc:abc123");
    assert_eq!(world.resolve("alice.example"), (Err(ResolveError::NoHandlesFound), 2));
}

#[test]
fn a_did_whose_handles_prove_nothing() {
    let world = World::new().document(
        "did:plc:abc123",
        &["at://alice.example"],
        &["https://pds.example"],
    );
    assert_eq!(world.resolve("did:plc:abc123"), (Err(ResolveError::NoDidFound), 2));
}

#[test]
fn a_document_without_a_data_server() {
    let world = World::new()
        .http("alice.example", "did:plc:abc123")
        .document("did:plc:abc123", &["at://alice.example"], &[]);
    let (result, _) = world.resolve("alice.example");
    assert_eq!(result, Err(ResolveError::NoPdsFound));
}

#[test]
fn an_endless_chain_exceeds_the_depth() {
    let mut world = World::new();
    for i in 0..40 {
        let handle = format!("h{}.example", i);
        let did = format!("did:plc:{}", i);
        let next = format!("at://h{}.example", i + 1);
        world = world.http(&handle, &did).document(&did, &[&next], &["https://pds.example"]);
    }
    let (result, lookups) = world.resolve("h0.example");
    assert_eq!(result, Err(ResolveError::ResolutionDepthExceeded));
    assert_eq!(lookups, 10);
    let (result, lookups) = world.resolve("did:plc:0");
    assert_eq!(result, Err(ResolveError::ResolutionDepthExceeded));
    assert_eq!(lookups, 10);
}

#[test]
fn a_round_with_two_lookups() {
    let world = World::new()
        .http("h0.example", "did:plc:0")
        .http("h1.example", "did:plc:1")
        .http("h2.example", "did:plc:0")
        .document(
            "did:plc:0",
            &["at://h0.example", "at://h1.example", "at://h2.example"],
            &["https://pds.example"],
        )
        .document("did:plc:1", &["at://h1.example"], &["https://pds.example"]);
    let resolver = Resolver::new("h0.example");
    let mut asked = vec![resolver.action()];
    let mut resolver = resolver;
    loop {
        let last = asked.last().unwrap();
        if let ResolveAction::Done(_) = last {
            break;
        }
        let (next, action) = resolve_handle(resolver, world.answer(last));
        resolver = next;
        asked.push(action);
    }
    assert_eq!(
        asked,
        vec![
            ResolveAction::VerifyHandle { handle: "h0.example".to_string() },
            ResolveAction::QueryDirectory { did: "did:plc:0".to_string() },
            ResolveAction::VerifyHandle { handle: "h1.example".to_string() },
            ResolveAction::QueryDirectory { did: "did:plc:1".to_string() },
            ResolveAction::VerifyHandle { handle: "h2.example".to_string() },
            ResolveAction::Done(Err(ResolveError::MultipleDids)),
        ]
    );
}

#[test]
fn every_listed_handle_is_verified() {
    let mut world = World::new();
    for i in 0..4 {
        let handle = format!("h{}.example", i);
        world = world.http(&handle, "did:plc:abc123");
    }
    world = world.document(
        "did:plc:abc123",
        &["h0.example", "h1.example", "h2.example", "h3.example"],
        &["https://pds.example"],
    );
    let (result, lookups) = world.resolve("h0.example");
    assert_eq!(
        result,
        Ok(identity(
            "did:plc:abc123",
            "https://pds.example",
            &["h0.example", "h1.example", "h2.example", "h3.example"]
        ))
    );
    assert_eq!(lookups, 5);
}

#[test]
fn an_event_that_answers_nothing_is_ignored() {
    let resolver = Resolver::new("did:plc:abc123");
    let asked = ResolveAction::QueryDirectory { did: "did:plc:abc123".to_string() };
    assert_eq!(resolver.action(), asked);
    let (resolver, action) = resolve_handle(
        resolver,
        ResolveEvent::Handle {
            http: Ok("did:plc:other".to_string()),
            dns: Ok("did:plc:third".to_string()),
        },
    );
    assert_eq!(action, asked);
    let (_, action) = resolve_handle(resolver, ResolveEvent::Directory(None));
    assert_eq!(action, ResolveAction::Done(Err(ResolveError::NoHandlesFound)));
}

#[test]
fn dns_records() {
    let records = |list: &[&str]| list.iter().map(|r| r.to_string()).collect::<Vec<String>>();
    assert_eq!(
        resolve_handle_dns(&records(&["v=spf1", "did=did:plc:abc123"])),
        Ok("did:plc:abc123".to_string())
    );
    assert_eq!(
        resolve_handle_dns(&records(&["did=did:plc:abc123", "did=did:plc:abc123"])),
        Ok("did:plc:abc123".to_string())
    );
    assert_eq!(
        resolve_handle_dns(&records(&["did=did:plc:abc123", "x", "did=did:plc:other"])),
        Err(ResolveError::AmbiguousHandle)
    );
    assert_eq!(resolve_handle_dns(&records(&[])), Err(ResolveError::NoDidRecord));
    assert_eq!(
        resolve_handle_dns(&records(&["DID=did:plc:abc123", " did=did:plc:abc123"])),
        Err(ResolveError::NoDidRecord)
    );
    assert_eq!(resolve_handle_dns(&records(&["did="])), Ok(String::new()));
}

#[test]
fn https_documents() {
    assert_eq!(resolve_handle_http("did:plc:abc123"), Ok("did:plc:abc123".to_string()));
    assert_eq!(resolve_handle_http("did:plc:abc123\n"), Ok("did:plc:abc123\n".to_string()));
    assert_eq!(resolve_handle_http("did:"), Ok("did:".to_string()));
    assert_eq!(resolve_handle_http("<html>did:plc:abc</html>"), Err(ResolveError::InvalidResponse));
    assert_eq!(resolve_handle_http(" did:plc:abc"), Err(ResolveError::InvalidResponse));
    assert_eq!(resolve_handle_http(""), Err(ResolveError::InvalidResponse));
}

#[test]
fn where_the_proofs_of_a_handle_live() {
    assert_eq!(dns_name("alice.example"), "_atproto.alice.example");
    assert_eq!(well_known_url("alice.example"), "https://alice.example/.well-known/atproto-did");
}
