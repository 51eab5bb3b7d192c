use soroban_debugger::inspector::auth::{AuthInspector, AuthNode};

fn leaf(function: &str, contract_id: &str) -> AuthNode {
    AuthNode {
        function: function.to_string(),
        contract_id: contract_id.to_string(),
        sub_invocations: vec![],
    }
}

#[test]
fn test_auth_node_serialization() {
    let node = AuthNode {
        function: "transfer".to_string(),
        contract_id: "C123".to_string(),
        sub_invocations: vec![AuthNode {
            function: "inner".to_string(),
            contract_id: "C456".to_string(),
            sub_invocations: vec![],
        }],
    };

    let nodes = vec![node];
    let json = AuthInspector::to_json(&nodes).unwrap();
    assert!(json.contains("transfer"));
    assert!(json.contains("inner"));
    assert!(json.contains("C123"));
    assert!(json.contains("C456"));
}

#[test]
fn test_auth_json_exact_text() {
    let nodes = vec![AuthNode {
        function: "transfer".to_string(),
        contract_id: "C123".to_string(),
        sub_invocations: vec![leaf("inner", "C456")],
    }];
    let json = AuthInspector::to_json(&nodes).unwrap();
    assert_eq!(
        json,
        "[{\"function\":\"transfer\",\"contract_id\":\"C123\",\"sub_invocations\":[{\"function\":\"inner\",\"contract_id\":\"C456\",\"sub_invocations\":[]}]}]"
    );
}

#[test]
fn test_auth_json_of_no_nodes_is_empty_array() {
    assert_eq!(AuthInspector::to_json(&Vec::new()).unwrap(), "[]");
}

#[test]
fn test_auth_json_nests_children_under_sub_invocations() {
    let nodes = vec![
        AuthNode {
            function: "transfer".to_string(),
            contract_id: "C123".to_string(),
            sub_invocations: vec![leaf("inner", "C456"), leaf("second", "C789")],
        },
        leaf("approve", "C000"),
    ];
    let json = AuthInspector::to_json(&nodes).unwrap();
    let value: serde_json::Value = serde_json::from_str(&json).unwrap();
    let top = value.as_array().unwrap();
    assert_eq!(top.len(), 2);
    assert_eq!(top[0]["function"].as_str(), Some("transfer"));
    assert_eq!(top[0]["contract_id"].as_str(), Some("C123"));
    let children = top[0]["sub_invocations"].as_array().unwrap();
    assert_eq!(children.len(), 2);
    assert_eq!(children[0]["function"].as_str(), Some("inner"));
    assert_eq!(children[0]["contract_id"].as_str(), Some("C456"));
    assert_eq!(children[0]["sub_invocations"].as_array().unwrap().len(), 0);
    assert_eq!(children[1]["function"].as_str(), Some("second"));
    assert_eq!(top[1]["function"].as_str(), Some("approve"));
    assert_eq!(top[1]["sub_invocations"].as_array().unwrap().len(), 0);
}

#[test]
fn test_auth_json_escapes_text() {
    let tricky = "say \"hi\"\\ \n\t\r\u{8}\u{c}\u{1}\u{1f} é";
    let nodes = vec![leaf(tricky, "C\"1")];
    let json = AuthInspector::to_json(&nodes).unwrap();
    assert_eq!(
        json,
        "[{\"function\":\"say \\\"hi\\\"\\\\ \\n\\t\\r\\b\\f\\u0001\\u001f é\",\"contract_id\":\"C\\\"1\",\"sub_invocations\":[]}]"
    );
    let value: serde_json::Value = serde_json::from_str(&json).unwrap();
    assert_eq!(value[0]["function"].as_str(), Some(tricky));
    assert_eq!(value[0]["contract_id"].as_str(), Some("C\"1"));
}

#[test]
fn test_auth_render_indents_by_depth() {
    let nodes = vec![
        AuthNode {
            function: "transfer".to_string(),
            contract_id: "C123".to_string(),
            sub_invocations: vec![
                AuthNode {
                    function: "inner".to_string(),
                    contract_id: "C456".to_string(),
                    sub_invocations: vec![leaf("deep", "C789")],
                },
                leaf("sibling", "C456"),
            ],
        },
        leaf("approve", "C000"),
    ];
    let lines = AuthInspector::render(&nodes);
    assert_eq!(
        lines,
        vec![
            "transfer (C123)".to_string(),
            "  inner (C456)".to_string(),
            "    deep (C789)".to_string(),
            "  sibling (C456)".to_string(),
            "approve (C000)".to_string(),
        ]
    );
}

#[test]
fn test_auth_render_of_no_nodes_is_empty() {
    assert!(AuthInspector::render(&Vec::new()).is_empty());
}
