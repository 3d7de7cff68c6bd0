use agent_pipeline::agent_traits::ProjectScope;
use agent_pipeline::json::{
    decode_project_scope, decode_string_list, encode_project_scope, encode_string_list,
};

#[test]
fn tests_decode_scope_canonical() {
    let text = "{\"is_crud_required\":true,\"is_user_login_and_logout\":false,\"is_external_urls_required\":true}";
    let scope = decode_project_scope(text).unwrap();
    assert_eq!(
        scope,
        ProjectScope {
            is_crud_required: true,
            is_user_login_and_logout: false,
            is_external_urls_required: true,
        }
    );
}

#[test]
fn tests_decode_scope_with_whitespace() {
    let text = "\n{\n  \"is_crud_required\": true,\n  \"is_user_login_and_logout\": true,\n  \"is_external_urls_required\": false\n}\n";
    let scope = decode_project_scope(text).unwrap();
    assert_eq!(
        scope,
        ProjectScope {
            is_crud_required: true,
            is_user_login_and_logout: true,
            is_external_urls_required: false,
        }
    );
}

#[test]
fn tests_decode_scope_rejects_malformed() {
    assert!(decode_project_scope("").is_none());
    assert!(decode_project_scope("not json at all").is_none());
    assert!(decode_project_scope("{\"is_crud_required\":true}").is_none());
    assert!(decode_project_scope(
        "{\"is_crud_required\":yes,\"is_user_login_and_logout\":true,\"is_external_urls_required\":false}"
    )
    .is_none());
    // trailing text after the object is not accepted
    assert!(decode_project_scope(
        "{\"is_crud_required\":true,\"is_user_login_and_logout\":true,\"is_external_urls_required\":false} extra"
    )
    .is_none());
}

#[test]
fn tests_scope_round_trip() {
    for crud in [false, true] {
        for login in [false, true] {
            for urls in [false, true] {
                let scope = ProjectScope {
                    is_crud_required: crud,
                    is_user_login_and_logout: login,
                    is_external_urls_required: urls,
                };
                let encoded = encode_project_scope(&scope);
                assert_eq!(decode_project_scope(&encoded), Some(scope));
            }
        }
    }
}

#[test]
fn tests_encode_scope_exact() {
    let scope = ProjectScope {
        is_crud_required: false,
        is_user_login_and_logout: false,
        is_external_urls_required: true,
    };
    assert_eq!(
        encode_project_scope(&scope),
        "{\"is_crud_required\":false,\"is_user_login_and_logout\":false,\"is_external_urls_required\":true}"
    );
}

#[test]
fn tests_decode_string_list() {
    let urls = decode_string_list(
        "[\n  \"http://worldtimeapi.org/api/timezone\",\n  \"https://api.example.com/prices\"\n]",
    )
    .unwrap();
    assert_eq!(
        urls,
        vec![
            "http://worldtimeapi.org/api/timezone".to_string(),
            "https://api.example.com/prices".to_string(),
        ]
    );
}

#[test]
fn tests_decode_string_list_empty() {
    assert_eq!(decode_string_list("[]").unwrap(), Vec::<String>::new());
    assert_eq!(decode_string_list("  [ ]  ").unwrap(), Vec::<String>::new());
}

#[test]
fn tests_decode_string_list_rejects_malformed() {
    assert!(decode_string_list("").is_none());
    assert!(decode_string_list("[\"unterminated]").is_none());
    assert!(decode_string_list("[\"a\",]").is_none());
    assert!(decode_string_list("[\"with \\\\ escape\"]").is_none());
    assert!(decode_string_list("[\"a\"] trailing").is_none());
}

#[test]
fn tests_encode_string_list() {
    let items = vec!["a".to_string(), "b".to_string()];
    let encoded = encode_string_list(&items);
    assert_eq!(encoded, "[\"a\",\"b\"]");
    assert_eq!(decode_string_list(&encoded).unwrap(), items);

    let empty: Vec<String> = Vec::new();
    assert_eq!(encode_string_list(&empty), "[]");
}
