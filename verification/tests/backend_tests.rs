use spotted_arms::compute::ComputeError;
use spotted_arms::github::{
    copy_labels, jit_config_from_response, jit_config_request, GithubError, JitConfigRequest,
    JitConfigResponse, RUNNER_GROUP_ID,
};
use spotted_arms::placement::fnv1a_hash;
use spotted_arms::server::{normalize_webhook_path, ping};
use spotted_arms::text::{find_last, str_equal};
use spotted_arms::webhook::{extract_labels, has_required_labels, WorkflowJob};
use spotted_arms::workflow::WorkflowError;

fn labels(names: &[&str]) -> Vec<String> {
    names.iter().map(|name| name.to_string()).collect()
}

#[test]
fn delete_failure_with_status_404_is_not_found() {
    assert_eq!(
        ComputeError::from_delete_failure(Some(404), "gone".to_string()),
        ComputeError::NotFound
    );
    assert!(ComputeError::from_delete_failure(Some(404), String::new()).is_not_found());
}

#[test]
fn delete_failure_with_other_status_keeps_message() {
    for status in [None, Some(0), Some(400), Some(403), Some(405), Some(500), Some(u16::MAX)] {
        let error = ComputeError::from_delete_failure(status, "boom".to_string());
        assert_eq!(error, ComputeError::Other("boom".to_string()));
        assert!(!error.is_not_found());
    }
}

#[test]
fn jit_config_request_targets_the_repository_endpoint() {
    let request = jit_config_request(
        "https://api.github.com/repos/owner/repo",
        "secret-token",
        "gha-123-42",
        &labels(&["linux", "self-hosted", "ARM64"]),
    );
    assert_eq!(
        request,
        JitConfigRequest {
            url: "https://api.github.com/repos/owner/repo/actions/runners/generate-jitconfig"
                .to_string(),
            token: "secret-token".to_string(),
            name: "gha-123-42".to_string(),
            labels: labels(&["linux", "self-hosted", "ARM64"]),
            runner_group_id: 1,
        }
    );
    assert_eq!(RUNNER_GROUP_ID, 1);
}

#[test]
fn jit_config_request_with_empty_parts() {
    let request = jit_config_request("", "", "", &labels(&[]));
    assert_eq!(request.url, "/actions/runners/generate-jitconfig");
    assert_eq!(request.labels, Vec::<String>::new());
}

#[test]
fn copy_labels_copies_every_entry() {
    let source = labels(&["a", "", "b", "a"]);
    assert_eq!(copy_labels(&source), source);
    assert_eq!(copy_labels(&labels(&[])), labels(&[]));
}

#[test]
fn jit_config_response_with_credential() {
    assert_eq!(
        jit_config_from_response(JitConfigResponse::Decoded {
            encoded_jit_config: Some("abc".to_string())
        }),
        Ok("abc".to_string())
    );
}

#[test]
fn jit_config_response_without_credential() {
    assert_eq!(
        jit_config_from_response(JitConfigResponse::Decoded { encoded_jit_config: None }),
        Err(GithubError::Other("encoded_jit_config missing".to_string()))
    );
}

#[test]
fn jit_config_response_of_failed_exchange() {
    assert_eq!(
        jit_config_from_response(JitConfigResponse::Failed("403 Forbidden".to_string())),
        Err(GithubError::Other("403 Forbidden".to_string()))
    );
}

#[test]
fn required_labels_must_all_be_present() {
    assert!(has_required_labels(&labels(&["linux", "self-hosted", "ARM64"])));
    assert!(has_required_labels(&labels(&["ARM64", "linux", "self-hosted"])));
    assert!(!has_required_labels(&labels(&[])));
    assert!(!has_required_labels(&labels(&["windows"])));
    assert!(!has_required_labels(&labels(&["linux", "self-hosted"])));
    assert!(!has_required_labels(&labels(&["linux", "ARM64"])));
    assert!(!has_required_labels(&labels(&["self-hosted", "ARM64"])));
}

#[test]
fn required_labels_are_case_sensitive() {
    assert!(!has_required_labels(&labels(&["linux", "self-hosted", "arm64"])));
    assert!(!has_required_labels(&labels(&["Linux", "self-hosted", "ARM64"])));
    assert!(!has_required_labels(&labels(&["linux", "Self-Hosted", "ARM64"])));
    assert!(!has_required_labels(&labels(&["linux ", "self-hosted", "ARM64"])));
}

#[test]
fn unrelated_labels_do_not_change_eligibility() {
    let sets: [&[&str]; 4] =
        [&["linux", "self-hosted", "ARM64"], &["linux"], &[], &["windows", "x64"]];
    for set in sets {
        let before = has_required_labels(&labels(set));
        for extra in ["gpu", "", "LINUX", "arm64", "self_hosted"] {
            let mut more = labels(set);
            more.push(extra.to_string());
            assert_eq!(has_required_labels(&more), before);
            more.insert(0, extra.to_string());
            assert_eq!(has_required_labels(&more), before);
        }
    }
}

#[test]
fn removing_a_required_label_rejects() {
    let full = ["linux", "gpu", "self-hosted", "ARM64", "linux"];
    assert!(has_required_labels(&labels(&full)));
    for required in ["linux", "self-hosted", "ARM64"] {
        let without: Vec<String> =
            labels(&full).into_iter().filter(|label| label != required).collect();
        assert!(!has_required_labels(&without));
    }
}

#[test]
fn extract_labels_drops_what_is_not_a_string() {
    let job = |entries: Option<Vec<Option<String>>>| WorkflowJob {
        id: None,
        run_id: None,
        labels: entries,
        conclusion: None,
    };
    assert_eq!(extract_labels(&job(None)), Vec::<String>::new());
    assert_eq!(extract_labels(&job(Some(vec![]))), Vec::<String>::new());
    assert_eq!(extract_labels(&job(Some(vec![None, None]))), Vec::<String>::new());
    assert_eq!(
        extract_labels(&job(Some(vec![
            None,
            Some("b".to_string()),
            Some("a".to_string()),
            None,
            Some("b".to_string())
        ]))),
        labels(&["b", "a", "b"])
    );
}

#[test]
fn fnv1a_reference_values() {
    assert_eq!(fnv1a_hash(b""), 0xcbf2_9ce4_8422_2325);
    assert_eq!(fnv1a_hash(b"a"), 0xaf63_dc4c_8601_ec8c);
    assert_eq!(fnv1a_hash(b"foobar"), 0x8594_4171_f739_67e8);
    assert_eq!(fnv1a_hash(b"hello"), 0xa430_d846_80aa_bd0b);
    assert_eq!(fnv1a_hash("gha-123-42".as_bytes()), 0xcfee_003f_80de_4415);
}

#[test]
fn ping_answers_pong() {
    assert_eq!(ping(), "pong");
}

#[test]
fn webhook_path_defaults_when_unusable() {
    assert_eq!(normalize_webhook_path(""), "/webhook");
    assert_eq!(normalize_webhook_path("/"), "/webhook");
}

#[test]
fn webhook_path_gets_leading_slash() {
    assert_eq!(normalize_webhook_path("hooks"), "/hooks");
    assert_eq!(normalize_webhook_path("hooks/github"), "/hooks/github");
    assert_eq!(normalize_webhook_path("ü"), "/ü");
}

#[test]
fn webhook_path_with_leading_slash_is_kept() {
    assert_eq!(normalize_webhook_path("/webhook"), "/webhook");
    assert_eq!(normalize_webhook_path("/hooks/github"), "/hooks/github");
    assert_eq!(normalize_webhook_path("//"), "//");
}

#[test]
fn str_equal_compares_contents() {
    assert!(str_equal("", ""));
    assert!(str_equal("abc", "abc"));
    assert!(str_equal("zürich", "zürich"));
    assert!(!str_equal("abc", "abd"));
    assert!(!str_equal("abc", "ab"));
    assert!(!str_equal("", "a"));
    assert!(!str_equal("ABC", "abc"));
}

#[test]
fn find_last_counts_characters() {
    assert_eq!(find_last("", '-'), None);
    assert_eq!(find_last("abc", '-'), None);
    assert_eq!(find_last("-", '-'), Some(0));
    assert_eq!(find_last("a-b-c", '-'), Some(3));
    assert_eq!(find_last("ü-ü-ü", '-'), Some(3));
    assert_eq!(find_last("a/b", '/'), Some(1));
}

#[test]
fn compute_error_debug_text_matches_its_debug_output() {
    for message in ["", "boom", "quota \"exceeded\"", "line\nbreak\ttab", "back\\slash", "zürich ✓"] {
        let error = ComputeError::Other(message.to_string());
        assert_eq!(error.debug_text(), format!("{:?}", error));
    }
    assert_eq!(ComputeError::NotFound.debug_text(), "NotFound");
    assert_eq!(ComputeError::Other("boom".to_string()).debug_text(), "Other(\"boom\")");
    assert_eq!(ComputeError::Other("a\"b".to_string()).debug_text(), "Other(\"a\\\"b\")");
}

#[test]
fn workflow_error_messages_and_statuses() {
    let cases = [
        (WorkflowError::MissingEventHeader, 400, "missing X-GitHub-Event header"),
        (WorkflowError::InvalidEventHeader, 400, "invalid X-GitHub-Event header"),
        (WorkflowError::InvalidRepositoryUrl, 500, "Invalid repository URL format"),
        (WorkflowError::JitConfigFailed, 500, "jit config failed"),
        (WorkflowError::TemplateGetFailed, 500, "templates get failed"),
        (WorkflowError::UnsupportedRegion, 500, ""),
        (WorkflowError::InsertFailed(ComputeError::NotFound), 500, "NotFound"),
        (
            WorkflowError::InsertFailed(ComputeError::Other("already exists".to_string())),
            500,
            "Other(\"already exists\")",
        ),
        (
            WorkflowError::DeleteFailed(ComputeError::Other("denied".to_string())),
            500,
            "Other(\"denied\")",
        ),
        (WorkflowError::UnexpectedReply, 500, "unexpected reply"),
    ];
    for (error, status, message) in cases {
        assert_eq!(error.status_code(), status, "status of {:?}", error);
        assert_eq!(error.message(), message, "message of {:?}", error);
    }
}
