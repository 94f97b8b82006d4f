use sentiric_ai_pipeline_sdk::clients::ApiClients;
use sentiric_ai_pipeline_sdk::metadata::{GrpcRequest, ROOMY_NAMES};
use tonic::metadata::{MetadataKey, MetadataMap};

fn clients() -> ApiClients {
    let channel = || ApiClients::admit_channel(&"https://service".to_string());
    match ApiClients::from_channels(channel(), channel(), channel()) {
        Ok(clients) => clients,
        Err(e) => panic!("{:?}", e),
    }
}

fn request(metadata: MetadataMap) -> GrpcRequest<u32> {
    let mut inner = tonic::Request::new(7u32);
    *inner.metadata_mut() = metadata;
    let (metadata, extensions, message) = inner.into_parts();
    GrpcRequest { metadata, extensions, message }
}

fn value(req: &GrpcRequest<u32>, name: &str) -> Option<String> {
    req.metadata.get(name).map(|v| v.to_str().unwrap().to_string())
}

#[test]
fn a_request_is_tagged() {
    let r = clients().inject_metadata(request(MetadataMap::new()), "t 1", "s-2", "n\t3");
    assert_eq!(r.message, 7);
    assert_eq!(value(&r, "x-trace-id"), Some("t 1".to_string()));
    assert_eq!(value(&r, "x-span-id"), Some("s-2".to_string()));
    assert_eq!(r.metadata.get("x-tenant-id").unwrap().as_bytes(), b"n\t3");
    assert_eq!(r.metadata.len(), 3);
}

#[test]
fn what_cannot_be_a_tag_is_passed_over() {
    let mut metadata = MetadataMap::new();
    metadata.insert("x-span-id", "before".parse().unwrap());
    let r = clients().inject_metadata(request(metadata), "a\nb", "\u{7f}", "");
    assert_eq!(value(&r, "x-trace-id"), None);
    assert_eq!(value(&r, "x-span-id"), Some("before".to_string()));
    assert_eq!(value(&r, "x-tenant-id"), Some(String::new()));
}

#[test]
fn a_tag_may_hold_any_script() {
    let r = clients().inject_metadata(request(MetadataMap::new()), "\u{131}\u{85}", "s", "n");
    assert_eq!(
        r.metadata.get("x-trace-id").unwrap().as_bytes(),
        "\u{131}\u{85}".as_bytes()
    );
}

#[test]
fn every_ascii_character_is_a_tag_or_not() {
    let clients = clients();
    for b in 0..128u8 {
        let text = (b as char).to_string();
        let r = clients.inject_metadata(request(MetadataMap::new()), &text, "s", "n");
        let visible = (32..127).contains(&b) || b == 9;
        assert_eq!(r.metadata.get("x-trace-id").is_some(), visible, "{}", b);
    }
}

#[test]
fn tags_replace_all_earlier_values_and_nothing_else() {
    let mut metadata = MetadataMap::new();
    metadata.append("x-trace-id", "old".parse().unwrap());
    metadata.append("x-trace-id", "older".parse().unwrap());
    metadata.append("x-other", "1".parse().unwrap());
    metadata.append("x-other", "2".parse().unwrap());
    let r = clients().inject_metadata(request(metadata), "new", "s", "n");
    let all = |name: &str| -> Vec<String> {
        r.metadata
            .get_all(name)
            .iter()
            .map(|v| v.to_str().unwrap().to_string())
            .collect()
    };
    assert_eq!(all("x-trace-id"), ["new"]);
    assert_eq!(all("x-other"), ["1", "2"]);
}

#[test]
fn tagging_twice_is_tagging_once() {
    let clients = clients();
    let once = clients.inject_metadata(request(MetadataMap::new()), "t", "s", "n");
    let shown = format!("{:?}", once.metadata);
    let twice = clients.inject_metadata(once, "t", "s", "n");
    assert_eq!(format!("{:?}", twice.metadata), shown);
}

#[test]
fn the_last_tags_win() {
    let clients = clients();
    let first = clients.inject_metadata(request(MetadataMap::new()), "t0", "s0", "n0");
    let last = clients.inject_metadata(first, "t", "s", "n");
    let alone = clients.inject_metadata(request(MetadataMap::new()), "t", "s", "n");
    assert_eq!(format!("{:?}", last.metadata), format!("{:?}", alone.metadata));
}

#[test]
fn full_metadata_is_given_back() {
    let mut metadata = MetadataMap::new();
    for i in 0..ROOMY_NAMES - 2 {
        let key = MetadataKey::from_bytes(format!("k{}", i).as_bytes()).unwrap();
        metadata.insert(key, "v".parse().unwrap());
    }
    let clients = clients();
    match clients.try_inject_metadata(request(metadata.clone()), "t", "s", "n") {
        Ok(r) => assert_eq!(r.metadata.keys_len(), ROOMY_NAMES + 1),
        Err(_) => panic!("refused"),
    }
    metadata.insert("one-more", "v".parse().unwrap());
    match clients.try_inject_metadata(request(metadata), "t", "s", "n") {
        Ok(_) => panic!("taken"),
        Err(r) => {
            assert_eq!(r.metadata.keys_len(), ROOMY_NAMES - 1);
            assert!(r.metadata.get("x-trace-id").is_none());
            assert_eq!(r.message, 7);
        }
    }
}
