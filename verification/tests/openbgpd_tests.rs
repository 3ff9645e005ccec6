use update_watcher::counter::{Counter, PeerCounter};
use update_watcher::error::ProbeFault;
use update_watcher::json::{parse_json, Json};
use update_watcher::openbgpd::{read_document, read_neighbor, read_update_count, OpenBgpd};
use update_watcher::text::ipv4_from_octets;

const DOCUMENT: &str = r#"{
  "neighbors": [
    {
      "remote_as": "65002",
      "remote_addr": "10.0.0.2",
      "state": "Established",
      "stats": {
        "prefixes": { "sent": 3, "received": 4 },
        "message": {
          "sent": { "open": 1, "notifications": 0, "updates": 5, "keepalives": 10, "total": 16 },
          "received": { "open": 1, "notifications": 0, "updates": 7, "keepalives": 10, "total": 18 }
        }
      }
    },
    {
      "remote_as": "65000",
      "remote_addr": "172.0.0.0/8",
      "state": "Template"
    },
    {
      "remote_addr": "10.0.0.3",
      "stats": { "message": { "sent": { "updates": 0 }, "received": { "updates": 0 } } }
    }
  ]
}"#;

fn cs(s: &str) -> Vec<char> {
    s.chars().collect()
}

fn object(members: Vec<(&str, Json)>) -> Json {
    Json::Object(members.into_iter().map(|(k, v)| (cs(k), v)).collect())
}

fn neighbor(addr: &str, tx: i64, rx: i64) -> Json {
    object(vec![
        ("remote_addr", Json::Text(cs(addr))),
        (
            "stats",
            object(vec![(
                "message",
                object(vec![
                    ("received", object(vec![("updates", Json::Number(Some(rx)))])),
                    ("sent", object(vec![("updates", Json::Number(Some(tx)))])),
                ]),
            )]),
        ),
    ])
}

#[test]
fn openbgpd_new_keeps_nothing() {
    let a = OpenBgpd::new();
    let b = OpenBgpd::new();
    assert_eq!(a.get_counter("{\"neighbors\": []}").ok().unwrap().len(), 0);
    assert_eq!(b.get_counter("{\"neighbors\": []}").ok().unwrap().len(), 0);
}

#[test]
fn openbgpd_address_range_is_left_out() {
    let c = OpenBgpd::new().get_counter(DOCUMENT).ok().unwrap();
    assert_eq!(c.len(), 2);
    assert_eq!(c.get(ipv4_from_octets(10, 0, 0, 2)), Some(PeerCounter { tx: 5, rx: 7 }));
    assert_eq!(c.get(ipv4_from_octets(10, 0, 0, 3)), Some(PeerCounter { tx: 0, rx: 0 }));
    assert_eq!(c.get(ipv4_from_octets(172, 0, 0, 0)), None);
}

#[test]
fn openbgpd_broken_text_is_a_fault() {
    let b = OpenBgpd::new();
    assert_eq!(b.get_counter("").err(), Some(ProbeFault::Document));
    assert_eq!(b.get_counter("{\"neighbors\": [").err(), Some(ProbeFault::Document));
    assert_eq!(b.get_counter("not json").err(), Some(ProbeFault::Document));
}

#[test]
fn openbgpd_missing_fields_are_faults() {
    let b = OpenBgpd::new();
    assert_eq!(b.get_counter("{}").err(), Some(ProbeFault::MissingField));
    assert_eq!(b.get_counter("[]").err(), Some(ProbeFault::MissingField));
    assert_eq!(b.get_counter("{\"neighbors\": 3}").err(), Some(ProbeFault::MissingField));
    assert_eq!(b.get_counter("{\"neighbors\": [{}]}").err(), Some(ProbeFault::MissingField));
    assert_eq!(
        b.get_counter("{\"neighbors\": [{\"remote_addr\": 5}]}").err(),
        Some(ProbeFault::MissingField)
    );
    assert_eq!(
        b.get_counter("{\"neighbors\": [{\"remote_addr\": \"10.0.0.2\"}]}").err(),
        Some(ProbeFault::MissingField)
    );
    let no_received = r#"{"neighbors": [{"remote_addr": "10.0.0.2",
        "stats": {"message": {"sent": {"updates": 5}}}}]}"#;
    assert_eq!(b.get_counter(no_received).err(), Some(ProbeFault::MissingField));
    let fraction = r#"{"neighbors": [{"remote_addr": "10.0.0.2",
        "stats": {"message": {"sent": {"updates": 5.5}, "received": {"updates": 1}}}}]}"#;
    assert_eq!(b.get_counter(fraction).err(), Some(ProbeFault::MissingField));
    let huge = r#"{"neighbors": [{"remote_addr": "10.0.0.2",
        "stats": {"message": {"sent": {"updates": 9223372036854775808}, "received": {"updates": 1}}}}]}"#;
    assert_eq!(b.get_counter(huge).err(), Some(ProbeFault::MissingField));
}

#[test]
fn openbgpd_bad_values_are_faults() {
    assert_eq!(
        read_document(&object(vec![("neighbors", Json::Array(vec![neighbor("10.0.0", 1, 1)]))])).err(),
        Some(ProbeFault::Address)
    );
    assert_eq!(
        read_document(&object(vec![("neighbors", Json::Array(vec![neighbor("10.0.0.2", -1, 1)]))]))
            .err(),
        Some(ProbeFault::Count)
    );
    assert_eq!(
        read_document(&object(vec![("neighbors", Json::Array(vec![neighbor("10.0.0.2", 1, -5)]))]))
            .err(),
        Some(ProbeFault::Count)
    );
}

#[test]
fn openbgpd_read_document_by_hand() {
    let doc = object(vec![
        ("other", Json::Null),
        (
            "neighbors",
            Json::Array(vec![
                neighbor("10.0.0.2", 5, 7),
                neighbor("10.0.0.0/24", 1, 1),
                object(vec![("remote_addr", Json::Text(cs("192.168.0.0/16")))]),
                neighbor("10.0.0.4", i64::MAX, 0),
                neighbor("10.0.0.2", 6, 8),
            ]),
        ),
    ]);
    let c = read_document(&doc).ok().unwrap();
    assert_eq!(c.len(), 2);
    assert_eq!(c.get(ipv4_from_octets(10, 0, 0, 2)), Some(PeerCounter { tx: 6, rx: 8 }));
    assert_eq!(
        c.get(ipv4_from_octets(10, 0, 0, 4)),
        Some(PeerCounter { tx: 9223372036854775807, rx: 0 })
    );
}

#[test]
fn openbgpd_read_neighbor_leaves_peers_alone_on_fault() {
    let mut peers = Counter::new();
    peers.insert(9, PeerCounter { tx: 1, rx: 2 });
    assert_eq!(read_neighbor(&mut peers, &neighbor("bad", 1, 1)).err(), Some(ProbeFault::Address));
    assert_eq!(read_neighbor(&mut peers, &Json::Null).err(), Some(ProbeFault::MissingField));
    assert!(read_neighbor(&mut peers, &neighbor("1.2.3.4/5", 1, 1)).is_ok());
    assert_eq!(peers.len(), 1);
    assert_eq!(peers.get(9), Some(PeerCounter { tx: 1, rx: 2 }));
    assert!(read_neighbor(&mut peers, &neighbor("0.0.0.9", 3, 4)).is_ok());
    assert_eq!(peers.get(9), Some(PeerCounter { tx: 3, rx: 4 }));
}

#[test]
fn openbgpd_read_update_count_by_hand() {
    let n = neighbor("10.0.0.2", 5, 7);
    assert_eq!(read_update_count(&n, "sent"), Ok(5));
    assert_eq!(read_update_count(&n, "received"), Ok(7));
    assert_eq!(read_update_count(&n, "dropped"), Err(ProbeFault::MissingField));
    assert_eq!(read_update_count(&Json::Null, "sent"), Err(ProbeFault::MissingField));
    assert_eq!(read_update_count(&neighbor("x", -1, 0), "sent"), Err(ProbeFault::Count));
    assert_eq!(read_update_count(&neighbor("x", -1, 0), "received"), Ok(0));
}

#[test]
fn json_text_becomes_a_tree() {
    let doc = parse_json(r#"{"b": [1, -2, 2.5, 18446744073709551615, "xé", true, null], "a": {}}"#)
        .unwrap();
    assert_eq!(
        doc.get("b"),
        Some(&Json::Array(vec![
            Json::Number(Some(1)),
            Json::Number(Some(-2)),
            Json::Number(None),
            Json::Number(None),
            Json::Text(cs("x\u{e9}")),
            Json::Bool(true),
            Json::Null,
        ]))
    );
    assert_eq!(doc.get("a"), Some(&Json::Object(vec![])));
    assert_eq!(doc.get("c"), None);
    assert_eq!(parse_json("[1,]"), None);
    assert_eq!(parse_json("7"), Some(Json::Number(Some(7))));
}

#[test]
fn json_accessors() {
    let doc = object(vec![("k", Json::Number(Some(3))), ("k", Json::Null), ("t", Json::Text(cs("v")))]);
    assert_eq!(doc.get("k"), Some(&Json::Number(Some(3))));
    assert_eq!(doc.get("t").unwrap().as_text(), Some(&cs("v")));
    assert_eq!(doc.get("k").unwrap().as_i64(), Some(3));
    assert_eq!(doc.get("t").unwrap().as_i64(), None);
    assert_eq!(Json::Number(None).as_i64(), None);
    assert_eq!(doc.as_array(), None);
    assert_eq!(Json::Array(vec![Json::Null]).as_array(), Some(&vec![Json::Null]));
    assert_eq!(Json::Null.get("k"), None);
    assert_eq!(Json::Bool(false).as_text(), None);
}

#[test]
fn json_duplicate_member_last_one_is_kept() {
    let doc = parse_json(r#"{"k": 1, "k": 2}"#).unwrap();
    assert_eq!(doc.get("k"), Some(&Json::Number(Some(2))));
}
