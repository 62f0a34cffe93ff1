use azure_prompt::configs::azure::AzureConfig;
use azure_prompt::context::Context;
use azure_prompt::modules::azure::{
    find_subscription_name, get_azure_subscription_id, get_azure_subscription_name, module,
    parse_json, parse_profile, read_active_identifier, read_all_records, read_cloud_config,
    read_document_records, read_record, resolve, set_segments, ProfileRecord, Rendered,
    Subscription,
};
use ini::Ini;

const ID: &str = "f3935dc9-92b5-9a93-da7b-42c325d86939";
const CLOUD_CONFIG: &str = "[AzureCloud]\nsubscription = f3935dc9-92b5-9a93-da7b-42c325d86939\n";

fn context<'a>(dir: &str, cloud_config: Option<&[u8]>, profile: Option<&[u8]>) -> Context<'a> {
    let mut files = Vec::new();
    if let Some(bytes) = cloud_config {
        files.push((format!("{}/clouds.config", dir), bytes.to_vec()));
    }
    if let Some(bytes) = profile {
        files.push((format!("{}/accountProfile.json", dir), bytes.to_vec()));
    }
    Context {
        env: vec![("AZURE_CONFIG_DIR".to_string(), dir.to_string())],
        home: None,
        files,
        config: AzureConfig::default(),
    }
}

fn profile_of(records: &[(&str, &str)]) -> String {
    let entries: Vec<String> = records
        .iter()
        .map(|(id, name)| format!("{{\"id\": \"{}\", \"name\": \"{}\"}}", id, name))
        .collect();
    format!("{{\"subscriptions\": [{}]}}", entries.join(", "))
}

fn pairs(records: Option<Vec<ProfileRecord>>) -> Option<Vec<(String, Option<String>)>> {
    records.map(|records| {
        records
            .into_iter()
            .map(|record| (record.id, record.name))
            .collect()
    })
}

fn record(id: &str, name: Option<&str>) -> ProfileRecord {
    ProfileRecord {
        id: id.to_string(),
        name: name.map(str::to_string),
    }
}

#[test]
fn identifier_is_the_value_of_the_key_unmodified() {
    let context = context("/d", Some(b"[Other]\nsubscription = no\n[AzureCloud]\nname = x\nsubscription = Some Id/42\n"), None);
    assert_eq!(
        get_azure_subscription_id(&context),
        Some("Some Id/42".to_string())
    );
}

#[test]
fn identifier_is_absent_without_the_section() {
    let context = context("/d", Some(b"[AzureChinaCloud]\nsubscription = abc\n"), None);
    assert_eq!(get_azure_subscription_id(&context), None);
}

#[test]
fn identifier_is_absent_without_the_key() {
    let context = context("/d", Some(b"[AzureCloud]\ntenant = abc\n"), None);
    assert_eq!(get_azure_subscription_id(&context), None);
    let general = context_general();
    assert_eq!(get_azure_subscription_id(&general), None);
}

fn context_general<'a>() -> Context<'a> {
    context("/d", Some(b"subscription = abc\n"), None)
}

#[test]
fn identifier_is_absent_where_the_file_does_not_parse() {
    let context = context("/d", Some(b"[AzureCloud\nsubscription = abc\n"), None);
    assert_eq!(get_azure_subscription_id(&context), None);
}

#[test]
fn identifier_is_absent_where_the_file_is_not_text() {
    let mut bytes = CLOUD_CONFIG.as_bytes().to_vec();
    bytes.push(0xFF);
    let context = context("/d", Some(&bytes), None);
    assert_eq!(get_azure_subscription_id(&context), None);
}

#[test]
fn identifier_is_absent_where_the_file_is_missing() {
    let context = context("/d", None, Some(profile_of(&[(ID, "One")]).as_bytes()));
    assert_eq!(get_azure_subscription_id(&context), None);
    assert!(resolve(&context).is_none());
}

#[test]
fn cloud_config_may_begin_with_a_byte_order_mark() {
    let mut bytes = vec![0xEF, 0xBB, 0xBF];
    bytes.extend_from_slice(CLOUD_CONFIG.as_bytes());
    let context = context("/d", Some(&bytes), None);
    assert_eq!(get_azure_subscription_id(&context), Some(ID.to_string()));
}

#[test]
fn parsed_cloud_config_gives_the_identifier() {
    let mut document = Ini::new();
    document
        .with_section(Some("AzureCloud"))
        .set("subscription", "abc");
    assert_eq!(read_active_identifier(&document), Some("abc".to_string()));
    let mut other = Ini::new();
    other.with_section(Some("azurecloud")).set("subscription", "abc");
    assert_eq!(read_active_identifier(&other), None);
    assert_eq!(read_active_identifier(&Ini::new()), None);
}

#[test]
fn happy_path_resolves_identifier_and_name() {
    let profile = profile_of(&[("other", "Zero"), (ID, "Subscription 1"), ("last", "Two")]);
    let context = context("/d", Some(CLOUD_CONFIG.as_bytes()), Some(profile.as_bytes()));
    assert_eq!(
        resolve(&context),
        Some(Subscription {
            id: ID.to_string(),
            name: "Subscription 1".to_string()
        })
    );
    let segment = module(&context).unwrap();
    assert_eq!(segment.name, "azure");
    assert_eq!(segment.subscription.id, ID);
    assert_eq!(segment.subscription.name, "Subscription 1");
    assert_eq!(segment.format(), "on [$symbol($subscription)]($style) ");
    assert_eq!(segment.content_variable("subscription"), Some("Subscription 1"));
    assert_eq!(segment.style_variable("style"), Some("blue bold"));
    assert_eq!(segment.meta_variable("symbol"), Some("\u{fd03} "));
}

#[test]
fn variables_of_other_names_stand_for_nothing() {
    let profile = profile_of(&[(ID, "One")]);
    let context = context("/d", Some(CLOUD_CONFIG.as_bytes()), Some(profile.as_bytes()));
    let segment = module(&context).unwrap();
    assert_eq!(segment.meta_variable("style"), None);
    assert_eq!(segment.meta_variable("subscription"), None);
    assert_eq!(segment.style_variable("symbol"), None);
    assert_eq!(segment.style_variable(""), None);
    assert_eq!(segment.content_variable("symbol"), None);
    assert_eq!(segment.content_variable("Subscription"), None);
}

#[test]
fn settings_reach_the_segment_unchanged() {
    let profile = profile_of(&[(ID, "One")]);
    let mut context = context("/d", Some(CLOUD_CONFIG.as_bytes()), Some(profile.as_bytes()));
    context.config = AzureConfig {
        format: "[$subscription]($style)",
        symbol: "az ",
        style: "red",
        disabled: true,
    };
    let segment = module(&context).unwrap();
    assert_eq!(segment.format(), "[$subscription]($style)");
    assert_eq!(segment.meta_variable("symbol"), Some("az "));
    assert_eq!(segment.style_variable("style"), Some("red"));
    assert!(segment.config.disabled);
}

#[test]
fn empty_profile_resolves_to_nothing() {
    let context = context(
        "/d",
        Some(CLOUD_CONFIG.as_bytes()),
        Some(b"{\"subscriptions\": []}"),
    );
    assert_eq!(pairs(read_all_records(&context)), Some(vec![]));
    assert_eq!(get_azure_subscription_name(&context, ID), None);
    assert!(module(&context).is_none());
}

#[test]
fn missing_files_resolve_to_nothing() {
    let context = context("/d", None, None);
    assert_eq!(get_azure_subscription_id(&context), None);
    assert!(read_all_records(&context).is_none());
    assert!(resolve(&context).is_none());
    assert!(module(&context).is_none());
}

#[test]
fn byte_order_mark_does_not_change_the_profile() {
    let profile = profile_of(&[("a", "Alpha"), (ID, "Marked")]);
    let mut marked = vec![0xEF, 0xBB, 0xBF];
    marked.extend_from_slice(profile.as_bytes());
    let plain = context("/d", Some(CLOUD_CONFIG.as_bytes()), Some(profile.as_bytes()));
    let with_mark = context("/d", Some(CLOUD_CONFIG.as_bytes()), Some(&marked));
    assert_eq!(
        pairs(read_all_records(&with_mark)),
        pairs(read_all_records(&plain))
    );
    assert_eq!(
        get_azure_subscription_name(&with_mark, ID),
        Some("Marked".to_string())
    );
    assert_eq!(
        parse_json(&with_mark, "/d/accountProfile.json"),
        parse_json(&plain, "/d/accountProfile.json")
    );
}

#[test]
fn second_byte_order_mark_is_not_taken_off() {
    let profile = profile_of(&[(ID, "One")]);
    let mut marked = vec![0xEF, 0xBB, 0xBF, 0xEF, 0xBB, 0xBF];
    marked.extend_from_slice(profile.as_bytes());
    let context = context("/d", Some(CLOUD_CONFIG.as_bytes()), Some(&marked));
    assert!(parse_json(&context, "/d/accountProfile.json").is_none());
    assert!(module(&context).is_none());
}

#[test]
fn no_match_resolves_to_nothing() {
    let profile = profile_of(&[("a", "Alpha"), ("b", "Beta")]);
    let context = context("/d", Some(CLOUD_CONFIG.as_bytes()), Some(profile.as_bytes()));
    assert_eq!(get_azure_subscription_id(&context), Some(ID.to_string()));
    assert_eq!(get_azure_subscription_name(&context, ID), None);
    assert!(resolve(&context).is_none());
    assert!(module(&context).is_none());
}

#[test]
fn first_of_two_duplicates_gives_the_name() {
    let profile = profile_of(&[("a", "Alpha"), (ID, "First"), (ID, "Second")]);
    let context = context("/d", Some(CLOUD_CONFIG.as_bytes()), Some(profile.as_bytes()));
    assert_eq!(
        get_azure_subscription_name(&context, ID),
        Some("First".to_string())
    );
    assert_eq!(resolve(&context).unwrap().name, "First");
    let swapped = profile_of(&[(ID, "Second"), ("a", "Alpha"), (ID, "First")]);
    let context = self::context("/d", Some(CLOUD_CONFIG.as_bytes()), Some(swapped.as_bytes()));
    assert_eq!(resolve(&context).unwrap().name, "Second");
}

#[test]
fn override_is_read_and_home_is_not() {
    let mut context = context(
        "/override",
        Some(CLOUD_CONFIG.as_bytes()),
        Some(profile_of(&[(ID, "From override")]).as_bytes()),
    );
    context.home = Some("/home/user".to_string());
    context.files.insert(
        0,
        (
            "/home/user/.azure/clouds.config".to_string(),
            b"[AzureCloud]\nsubscription = home-id\n".to_vec(),
        ),
    );
    context.files.insert(
        1,
        (
            "/home/user/.azure/accountProfile.json".to_string(),
            profile_of(&[("home-id", "From home"), (ID, "Also from home")]).into_bytes(),
        ),
    );
    let resolved = resolve(&context).unwrap();
    assert_eq!(resolved.id, ID);
    assert_eq!(resolved.name, "From override");

    context.files.truncate(2);
    assert!(resolve(&context).is_none());

    context.env.clear();
    let resolved = resolve(&context).unwrap();
    assert_eq!(resolved.id, "home-id");
    assert_eq!(resolved.name, "From home");
}

#[test]
fn malformed_profile_gives_no_records() {
    for profile in [
        &b"{\"subscriptions\": [{\"id\": \"a\", \"name\": \"A\"}"[..],
        &b""[..],
        &b"not json"[..],
        &b"{\"subscriptions\": []} trailing"[..],
    ] {
        let context = context("/d", Some(CLOUD_CONFIG.as_bytes()), Some(profile));
        assert!(parse_json(&context, "/d/accountProfile.json").is_none());
        assert!(read_all_records(&context).is_none());
        assert!(module(&context).is_none());
    }
}

#[test]
fn profile_without_an_array_gives_no_records() {
    for profile in [
        &b"{\"installationId\": \"x\"}"[..],
        &b"{\"subscriptions\": {\"id\": \"a\"}}"[..],
        &b"{\"subscriptions\": \"a\"}"[..],
        &b"{\"subscriptions\": null}"[..],
        &b"[{\"id\": \"a\", \"name\": \"A\"}]"[..],
        &b"42"[..],
    ] {
        let context = context("/d", Some(CLOUD_CONFIG.as_bytes()), Some(profile));
        assert!(parse_json(&context, "/d/accountProfile.json").is_some());
        assert!(read_all_records(&context).is_none());
        assert!(module(&context).is_none());
    }
}

#[test]
fn records_come_in_document_order() {
    let profile = profile_of(&[("c", "Gamma"), ("a", "Alpha"), ("c", "Again"), ("b", "Beta")]);
    let context = context("/d", None, Some(profile.as_bytes()));
    let expected: Vec<(String, Option<String>)> =
        [("c", "Gamma"), ("a", "Alpha"), ("c", "Again"), ("b", "Beta")]
            .iter()
            .map(|(id, name)| (id.to_string(), Some(name.to_string())))
            .collect();
    assert_eq!(pairs(read_all_records(&context)), Some(expected));
}

#[test]
fn entries_without_an_identifier_are_no_records() {
    let profile = br#"{"subscriptions": [
        {"id": 7, "name": "Number"},
        {"name": "No id"},
        {"id": null, "name": "Null"},
        "x",
        ["x"],
        {"id": "x", "name": "Found", "state": "Enabled"},
        {"id": "y", "name": ""},
        {"id": "z"},
        {"id": "w", "name": 3}
    ]}"#;
    let context = context("/d", None, Some(profile));
    assert_eq!(
        read_all_records(&context),
        Some(vec![
            record("x", Some("Found")),
            record("y", Some("")),
            record("z", None),
            record("w", None)
        ])
    );
    assert_eq!(
        get_azure_subscription_name(&context, "x"),
        Some("Found".to_string())
    );
    assert_eq!(get_azure_subscription_name(&context, "y"), Some("".to_string()));
    assert_eq!(get_azure_subscription_name(&context, "z"), None);
    assert_eq!(get_azure_subscription_name(&context, "7"), None);
}

#[test]
fn first_record_decides_even_without_a_name() {
    let profile = br#"{"subscriptions": [
        {"id": "x"},
        {"id": "x", "name": "Later"}
    ]}"#;
    let context = context(
        "/d",
        Some(b"[AzureCloud]\nsubscription = x\n"),
        Some(profile),
    );
    assert_eq!(get_azure_subscription_id(&context), Some("x".to_string()));
    assert_eq!(get_azure_subscription_name(&context, "x"), None);
    assert!(module(&context).is_none());
}

#[test]
fn parsed_document_gives_its_records() {
    let document: serde_json::Value =
        serde_json::from_str(r#"{"subscriptions": [{"id": "a", "name": "A"}, {"id": "b"}, {}]}"#)
            .unwrap();
    assert_eq!(
        read_document_records(&document),
        Some(vec![record("a", Some("A")), record("b", None)])
    );
    let entry: serde_json::Value =
        serde_json::from_str(r#"{"id": "a", "name": "A", "user": {"name": "u"}}"#).unwrap();
    assert_eq!(read_record(&entry), Some(record("a", Some("A"))));
    let nested: serde_json::Value =
        serde_json::from_str(r#"{"user": {"id": "a", "name": "A"}}"#).unwrap();
    assert_eq!(read_record(&nested), None);
    assert_eq!(read_document_records(&entry), None);
}

#[test]
fn name_is_found_by_exact_identifier() {
    let records = vec![
        record("ab", Some("Short")),
        record("abc", Some("Long")),
        record("ab", Some("Late")),
        record("none", None),
        record("none", Some("Hidden")),
    ];
    assert_eq!(
        find_subscription_name(&records, "abc"),
        Some("Long".to_string())
    );
    assert_eq!(
        find_subscription_name(&records, "ab"),
        Some("Short".to_string())
    );
    assert_eq!(find_subscription_name(&records, "none"), None);
    assert_eq!(find_subscription_name(&records, "AB"), None);
    assert_eq!(find_subscription_name(&records, ""), None);
    assert_eq!(find_subscription_name(&Vec::new(), "ab"), None);
}

#[test]
fn engine_text_becomes_the_segment() {
    let rendered = set_segments(Ok("on azure ".to_string()));
    assert_eq!(rendered.segment(), Some("on azure "));
    assert_eq!(rendered.warning(), None);
    assert!(matches!(rendered, Rendered::Segment(text) if text == "on azure "));
}

#[test]
fn engine_error_becomes_a_warning_and_no_segment() {
    let rendered = set_segments(Err("unexpected `(` at 4".to_string()));
    assert_eq!(rendered.segment(), None);
    assert_eq!(
        rendered.warning(),
        Some("Error in module `azure`:\nunexpected `(` at 4")
    );
}

#[test]
fn cloud_config_bytes_give_the_identifier() {
    assert_eq!(
        read_cloud_config(b"[AzureCloud]\nsubscription=abc\n"),
        Some("abc".to_string())
    );
    assert_eq!(
        read_cloud_config(b"\xEF\xBB\xBF[AzureCloud]\nsubscription = \"a b\"\n"),
        Some("a b".to_string())
    );
    assert_eq!(read_cloud_config(b""), None);
    assert_eq!(read_cloud_config(b"[AzureCloud]\nsubscription = a\xFF\n"), None);
    assert_eq!(read_cloud_config(b"= abc\n"), None);
}

#[test]
fn profile_bytes_give_the_document() {
    let plain = parse_profile(b"{\"subscriptions\": [1]}").unwrap();
    assert_eq!(plain["subscriptions"][0], 1);
    assert_eq!(parse_profile(b"\xEF\xBB\xBF{\"subscriptions\": [1]}"), Some(plain));
    assert_eq!(parse_profile(b"\xEF\xBB\xBF"), None);
    assert_eq!(parse_profile(b"\xEF\xBB{}"), None);
    assert_eq!(parse_profile(b"{"), None);
}

#[test]
fn profile_is_read_from_the_file_of_its_name_only() {
    let profile = br#"{"subscriptions":[{"id":"a","name":"A"}]}"#;
    let mut context = context("/d", None, Some(profile));
    assert_eq!(context.files[0].0, "/d/accountProfile.json");
    assert_eq!(
        get_azure_subscription_name(&context, "a"),
        Some("A".to_string())
    );
    context.files[0].0 = "/d/azureProfile.json".to_string();
    assert_eq!(get_azure_subscription_name(&context, "a"), None);
    context.files[0].0 = "/d/sub/accountProfile.json".to_string();
    assert_eq!(get_azure_subscription_name(&context, "a"), None);
}
