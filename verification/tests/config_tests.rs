use mirrord_runner::config::update_mirrord_config;
use mirrord_runner::errors::ConfigError;

#[test]
fn merge_binds_target_for_resolved_instance() {
    // deployment "checkout" resolved to its one running instance
    let partial = "{\"feature\":{\"network\":{\"incoming\":{\"mode\":\"mirror\",\"ports\":[8080]}}}}";
    let merged = update_mirrord_config(partial, "checkout-7f9", "default").unwrap();
    assert_eq!(
        merged,
        "{\"feature\":{\"network\":{\"incoming\":{\"mode\":\"mirror\",\"ports\":[8080]}}},\"target\":{\"namespace\":\"default\",\"path\":\"pod/checkout-7f9\"}}"
    );
    // the feature subtree is unchanged and target has the resolved form
    let value: serde_json::Value = serde_json::from_str(&merged).unwrap();
    let given: serde_json::Value = serde_json::from_str(partial).unwrap();
    assert_eq!(value["feature"], given["feature"]);
    assert_eq!(value["target"]["namespace"], "default");
    assert_eq!(value["target"]["path"], "pod/checkout-7f9");
}

#[test]
fn merge_rejects_malformed_json() {
    for bad in ["", "not json", "{", "{\"a\":}", "[1,", "{\"a\":1} trailing"] {
        let r = update_mirrord_config(bad, "pod-1", "default");
        assert!(matches!(r, Err(ConfigError::InvalidJson)), "{:?}", bad);
    }
}

#[test]
fn merge_rejects_non_objects() {
    for bad in ["[1,2]", "42", "\"s\"", "null", "true"] {
        let r = update_mirrord_config(bad, "pod-1", "default");
        assert!(matches!(r, Err(ConfigError::NotAnObject)), "{:?}", bad);
    }
}

#[test]
fn merge_clobbers_caller_target() {
    let merged =
        update_mirrord_config("{\"target\":{\"path\":\"pod/old\"},\"a\":1}", "new-pod", "ns")
            .unwrap();
    assert_eq!(
        merged,
        "{\"a\":1,\"target\":{\"namespace\":\"ns\",\"path\":\"pod/new-pod\"}}"
    );
}

#[test]
fn merge_into_empty_object() {
    let merged = update_mirrord_config("{}", "p", "n").unwrap();
    assert_eq!(merged, "{\"target\":{\"namespace\":\"n\",\"path\":\"pod/p\"}}");
}

#[test]
fn merge_keeps_member_order() {
    let merged = update_mirrord_config("{\"z\":1,\"a\":2,\"m\":3}", "p", "n").unwrap();
    assert_eq!(
        merged,
        "{\"z\":1,\"a\":2,\"m\":3,\"target\":{\"namespace\":\"n\",\"path\":\"pod/p\"}}"
    );
}

#[test]
fn merge_escapes_special_characters() {
    let merged = update_mirrord_config("{}", "p\"q", "n\\m").unwrap();
    assert_eq!(
        merged,
        "{\"target\":{\"namespace\":\"n\\\\m\",\"path\":\"pod/p\\\"q\"}}"
    );
    // the result is still a valid document with the intended values
    let value: serde_json::Value = serde_json::from_str(&merged).unwrap();
    assert_eq!(value["target"]["namespace"], "n\\m");
    assert_eq!(value["target"]["path"], "pod/p\"q");
}

#[test]
fn merge_result_stays_parseable_by_serde() {
    let merged = update_mirrord_config(
        "{\"feature\":{\"env\":true},\"agent\":{\"ttl\":30}}",
        "web-abc12",
        "default",
    )
    .unwrap();
    let value: serde_json::Value = serde_json::from_str(&merged).unwrap();
    assert_eq!(value["agent"]["ttl"], 30);
    assert_eq!(value["feature"]["env"], true);
    assert_eq!(value["target"]["path"], "pod/web-abc12");
}
