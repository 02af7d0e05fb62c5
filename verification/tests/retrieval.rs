use std::collections::HashMap;

use ddragon::{DDragonClient, DDragonClientError, Event, Phase, Reply, Retrieval};

const HOST: &str = "http://127.0.0.1:1234";

/// A cache and a server held in memory, with a count of the requests made.
struct World {
    cache: HashMap<String, Vec<u8>>,
    server: HashMap<String, String>,
    requests: usize,
    writes: usize,
}

fn world() -> World {
    World { cache: HashMap::new(), server: HashMap::new(), requests: 0, writes: 0 }
}

fn client_at(version: &str, cache_dir: Option<&str>) -> DDragonClient {
    let list = format!("[\"{}\"]", version);
    DDragonClient::create(cache_dir.map(str::to_owned), HOST.to_owned(), Reply::Body(list))
        .unwrap()
}

fn as_value(bytes: &[u8]) -> Result<serde_json::Value, serde_json::Error> {
    serde_json::from_slice(bytes)
}

fn as_strings(bytes: &[u8]) -> Result<Vec<String>, serde_json::Error> {
    serde_json::from_slice(bytes)
}

fn drive<T>(
    mut retrieval: Retrieval<T>,
    world: &mut World,
    decode: fn(&[u8]) -> Result<T, serde_json::Error>,
) -> Result<T, DDragonClientError> {
    loop {
        let event = match &retrieval.phase {
            Phase::ReadCache => {
                assert!(retrieval.cache_dir.is_some());
                Event::CacheRead(world.cache.get(&retrieval.url).cloned())
            }
            Phase::DecodeCached { bytes } => Event::Decoded(decode(bytes)),
            Phase::Request => {
                world.requests += 1;
                Event::Replied(match world.server.get(&retrieval.url) {
                    Some(text) => Reply::Body(text.clone()),
                    None => Reply::RequestFailed("connection refused".to_owned()),
                })
            }
            Phase::Decode { text } => Event::Decoded(decode(text.as_bytes())),
            Phase::Store { text, .. } => {
                assert!(retrieval.cache_dir.is_some());
                world.writes += 1;
                world.cache.insert(retrieval.url.clone(), text.clone().into_bytes());
                Event::Stored
            }
            Phase::Done { .. } => return retrieval.finish().ok().expect("ended"),
        };
        retrieval = retrieval.step(event);
    }
}

#[test]
fn get_data_err_if_server_unavailable() {
    let client = client_at("0.0.0", None);
    let mut w = world();
    let retrieval = client.get_data::<serde_json::Value>("/fake-endpoint").unwrap();
    assert!(drive(retrieval, &mut w, as_value).is_err());
}

#[test]
fn get_data_err_if_data_not_deserializable() {
    let client = client_at("0.0.0", None);
    let mut w = world();
    w.server.insert(
        format!("{}/cdn/0.0.0/data/en_US/data.json", HOST),
        r#"no chance to deserialize this"#.to_owned(),
    );
    let retrieval = client.get_data::<serde_json::Value>("./data.json").unwrap();
    assert!(drive(retrieval, &mut w, as_value).is_err());
}

#[test]
fn get_data_ok_deserializes_to_type() {
    let client = client_at("0.0.0", None);
    let mut w = world();
    w.server.insert(
        format!("{}/cdn/0.0.0/data/en_US/data.json", HOST),
        r#"["value"]"#.to_owned(),
    );
    let retrieval = client.get_data::<Vec<String>>("./data.json").unwrap();
    assert_eq!(drive(retrieval, &mut w, as_strings).unwrap(), vec!["value".to_owned()]);
}

#[test]
fn challenges_end_to_end() {
    let client = client_at("10.1.1", None);
    let mut w = world();
    w.server.insert(
        format!("{}/cdn/10.1.1/data/en_US/challenges.json", HOST),
        r#"{"version":"10.1.1","data":{}}"#.to_owned(),
    );
    let document = drive(client.challenges().unwrap(), &mut w, as_value).unwrap();
    assert_eq!(document.get("version").and_then(|v| v.as_str()), Some("10.1.1"));
    assert_eq!(document.get("data").and_then(|d| d.as_object()).map(|d| d.len()), Some(0));
    assert_eq!(w.requests, 1);
}

#[test]
fn without_a_cache_every_call_requests() {
    let client = client_at("1.0.0", None);
    let mut w = world();
    let url = format!("{}/cdn/1.0.0/data/en_US/item.json", HOST);
    w.server.insert(url.clone(), r#"["a", "b"]"#.to_owned());
    let first = drive(client.items().unwrap(), &mut w, as_strings).unwrap();
    assert_eq!(w.requests, 1);
    let second = drive(client.items().unwrap(), &mut w, as_strings).unwrap();
    assert_eq!(w.requests, 2);
    assert_eq!(first, second);
    assert_eq!(first, vec!["a".to_owned(), "b".to_owned()]);
    assert_eq!(w.writes, 0);
    assert!(w.cache.is_empty());
}

#[test]
fn a_cached_document_is_returned_without_a_request() {
    let client = client_at("1.0.0", Some("dir"));
    let mut w = world();
    let url = format!("{}/cdn/1.0.0/data/en_US/champion.json", HOST);
    w.cache.insert(url, br#"["cached"]"#.to_vec());
    let document = drive(client.champions().unwrap(), &mut w, as_strings).unwrap();
    assert_eq!(document, vec!["cached".to_owned()]);
    assert_eq!(w.requests, 0);
    assert_eq!(w.writes, 0);
}

#[test]
fn undecodable_cache_falls_back_to_the_network() {
    let client = client_at("1.0.0", Some("dir"));
    let mut w = world();
    let url = format!("{}/cdn/1.0.0/data/en_US/summoner.json", HOST);
    w.cache.insert(url.clone(), b"{ broken".to_vec());
    w.server.insert(url.clone(), r#"["live"]"#.to_owned());
    let document = drive(client.summoner_spells().unwrap(), &mut w, as_strings).unwrap();
    assert_eq!(document, vec!["live".to_owned()]);
    assert_eq!(w.requests, 1);
    assert_eq!(w.cache.get(&url), Some(&br#"["live"]"#.to_vec()));
}

#[test]
fn a_miss_fills_the_cache_under_the_request_url() {
    let client = client_at("2.0.0", Some("dir"));
    let mut w = world();
    let url = format!("{}/cdn/2.0.0/data/en_US/language.json", HOST);
    w.server.insert(url.clone(), r#"["text"]"#.to_owned());
    let first = drive(client.translations().unwrap(), &mut w, as_strings).unwrap();
    assert_eq!((w.requests, w.writes), (1, 1));
    assert_eq!(w.cache.get(&url), Some(&br#"["text"]"#.to_vec()));
    let second = drive(client.translations().unwrap(), &mut w, as_strings).unwrap();
    assert_eq!((w.requests, w.writes), (1, 1));
    assert_eq!(first, second);
}

#[test]
fn a_body_that_does_not_decode_is_not_cached() {
    let client = client_at("2.0.0", Some("dir"));
    let mut w = world();
    let url = format!("{}/cdn/2.0.0/data/en_US/runesReforged.json", HOST);
    w.server.insert(url, r#"{"not": "a list"}"#.to_owned());
    let outcome = drive(client.runes().unwrap(), &mut w, as_strings);
    assert!(matches!(outcome, Err(DDragonClientError::JSONParse(_))));
    assert!(w.cache.is_empty());
}

#[test]
fn a_failed_request_is_a_request_error() {
    let client = client_at("2.0.0", Some("dir"));
    let mut w = world();
    match drive(client.items().unwrap(), &mut w, as_strings) {
        Err(DDragonClientError::Request(why)) => assert_eq!(why, "connection refused"),
        other => panic!("unexpected outcome: {:?}", other),
    }
    assert_eq!(w.requests, 1);
}

#[test]
fn an_unreadable_body_is_a_parse_error() {
    let retrieval: Retrieval<String> = Retrieval::start("http://h/x".to_owned(), None);
    let next = retrieval.step(Event::Replied(Reply::BodyUnreadable("bad utf-8".to_owned())));
    match next.finish() {
        Ok(Err(DDragonClientError::Parse(why))) => assert_eq!(why, "bad utf-8"),
        other => panic!("unexpected outcome: {:?}", other),
    }
}

#[test]
fn a_retrieval_starts_at_the_cache_only_where_there_is_one() {
    let cached: Retrieval<String> =
        Retrieval::start("http://h/x".to_owned(), Some("dir".to_owned()));
    assert!(matches!(cached.phase, Phase::ReadCache));
    assert_eq!(cached.url, "http://h/x");
    assert_eq!(cached.cache_dir, Some("dir".to_owned()));
    let plain: Retrieval<String> = Retrieval::start("http://h/x".to_owned(), None);
    assert!(matches!(plain.phase, Phase::Request));
}

#[test]
fn an_event_that_was_not_asked_for_changes_nothing() {
    let retrieval: Retrieval<String> = Retrieval::start("http://h/x".to_owned(), None);
    let same = retrieval.step(Event::Stored);
    assert!(matches!(same.phase, Phase::Request));
    let same = same.step(Event::CacheRead(Some(vec![1, 2, 3])));
    assert!(matches!(same.phase, Phase::Request));
    let same = same.step(Event::Decoded(Ok("early".to_owned())));
    assert!(matches!(same.phase, Phase::Request));
    assert_eq!(same.url, "http://h/x");
}

#[test]
fn finish_hands_an_unfinished_retrieval_back() {
    let retrieval: Retrieval<String> = Retrieval::start("http://h/x".to_owned(), None);
    let back = retrieval.finish().unwrap_err();
    assert!(matches!(back.phase, Phase::Request));
    let done = back
        .step(Event::Replied(Reply::Body("text".to_owned())))
        .step(Event::Decoded(Ok("value".to_owned())));
    assert_eq!(done.finish().unwrap().unwrap(), "value");
}

#[test]
fn a_finished_retrieval_ignores_further_events() {
    let done: Retrieval<String> = Retrieval::start("http://h/x".to_owned(), None)
        .step(Event::Replied(Reply::RequestFailed("down".to_owned())))
        .step(Event::Replied(Reply::Body("late".to_owned())))
        .step(Event::Stored);
    assert!(matches!(done.finish(), Ok(Err(DDragonClientError::Request(_)))));
}

#[test]
fn the_longest_retrieval_takes_five_reports() {
    let start: Retrieval<String> =
        Retrieval::start("http://h/x".to_owned(), Some("dir".to_owned()));
    let broken = serde_json::from_str::<String>("{").unwrap_err();
    let reports: Vec<Event<String>> = vec![
        Event::CacheRead(Some(b"{".to_vec())),
        Event::Decoded(Err(broken)),
        Event::Replied(Reply::Body("\"live\"".to_owned())),
        Event::Decoded(Ok("live".to_owned())),
        Event::Stored,
    ];
    let mut retrieval = start;
    let mut taken = 0;
    for report in reports {
        assert!(!matches!(retrieval.phase, Phase::Done { .. }));
        retrieval = retrieval.step(report);
        taken += 1;
    }
    assert_eq!(taken, 5);
    assert_eq!(retrieval.finish().unwrap().unwrap(), "live");
}

#[test]
fn a_store_phase_carries_the_raw_response_text() {
    let retrieval: Retrieval<u32> =
        Retrieval::start("http://h/x".to_owned(), Some("dir".to_owned()))
            .step(Event::CacheRead(None))
            .step(Event::Replied(Reply::Body(" 42 ".to_owned())))
            .step(Event::Decoded(Ok(42)));
    match &retrieval.phase {
        Phase::Store { text, value } => {
            assert_eq!(text, " 42 ");
            assert_eq!(*value, 42);
        }
        other => panic!("unexpected phase: {:?}", other),
    }
    assert_eq!(retrieval.step(Event::Stored).finish().unwrap().unwrap(), 42);
}
