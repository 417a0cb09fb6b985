use tracebuild::orchestrate::build_span_name;
use tracebuild::orchestrate::command_span_name;
use tracebuild::orchestrate::step_span_name;
use tracebuild::pipeline::prometheus_push_url;
use tracebuild::pipeline::push_status_accepted;
use tracebuild::pipeline::sanitize_label_names;
use tracebuild::pipeline::sanitize_prometheus_key;

#[test]
fn sanitize_replaces_everything_outside_the_class() {
    assert_eq!(sanitize_prometheus_key("exit_code"), "exit_code");
    assert_eq!(sanitize_prometheus_key("build.name"), "build_name");
    assert_eq!(sanitize_prometheus_key("a-b c/d"), "a_b_c_d");
    assert_eq!(sanitize_prometheus_key("Grüße"), "Gr__e");
}

#[test]
fn sanitize_prefixes_digit_and_underscore_starts() {
    assert_eq!(sanitize_prometheus_key("9lives"), "key_9lives");
    assert_eq!(sanitize_prometheus_key("_internal"), "key_internal");
    // An escaped first character counts: `%` becomes `_`, so `key` is prefixed.
    assert_eq!(sanitize_prometheus_key("%rate"), "key_rate");
}

#[test]
fn sanitize_truncates_to_100() {
    let long = "a".repeat(150);
    let out = sanitize_prometheus_key(&long);
    assert_eq!(out.len(), 100);
    assert_eq!(out, "a".repeat(100));
    // The prefix counts toward the limit.
    let digits = format!("9{}", "a".repeat(150));
    let out = sanitize_prometheus_key(&digits);
    assert_eq!(out.len(), 100);
    assert_eq!(out, format!("key_9{}", "a".repeat(95)));
}

#[test]
fn sanitize_is_idempotent_on_samples() {
    for s in ["", "abc", "9lives", "_x", "%rate", "Grüße", "a b-c.d", "к", "123"] {
        let once = sanitize_prometheus_key(s);
        let twice = sanitize_prometheus_key(&once);
        assert_eq!(twice, once);
    }
    let long = format!("_{}", "é".repeat(200));
    let once = sanitize_prometheus_key(&long);
    assert_eq!(sanitize_prometheus_key(&once), once);
}

#[test]
fn sanitize_output_matches_the_class() {
    for s in ["", "exit code", "9lives", "_", "%", "Grüße42"] {
        let out = sanitize_prometheus_key(s);
        assert!(out.chars().all(|c| c.is_ascii_alphanumeric() || c == '_'));
        if !s.is_empty() {
            assert!(!out.is_empty());
        }
    }
}

#[test]
fn label_lists_are_sanitized_elementwise() {
    let names = vec!["name".to_string(), "build.name".to_string(), "9x".to_string()];
    let out = sanitize_label_names(&names);
    assert_eq!(out, vec!["name".to_string(), "build_name".to_string(), "key_9x".to_string()]);
}

#[test]
fn push_url_and_status() {
    assert_eq!(
        prometheus_push_url("0.0.0.0:9464"),
        "http://0.0.0.0:9464/metrics/job/tracebuild"
    );
    assert!(push_status_accepted(200));
    assert!(push_status_accepted(202));
    assert!(!push_status_accepted(204));
    assert!(!push_status_accepted(404));
    assert!(!push_status_accepted(500));
}

#[test]
fn span_names() {
    let args = vec!["-la".to_string(), "/tmp".to_string()];
    assert_eq!(command_span_name(&Some("list".to_string()), "ls", &args), "cmd - list");
    assert_eq!(command_span_name(&None, "ls", &args), "cmd - ls -la /tmp");
    // No arguments still leaves the separating space, as the fallback is
    // the command line joined with spaces.
    assert_eq!(command_span_name(&None, "make", &vec![]), "cmd - make ");
    assert_eq!(step_span_name(&Some("compile".to_string())), "step - compile");
    assert_eq!(step_span_name(&None), "step");
    assert_eq!(build_span_name(&Some("nightly".to_string())), "build - nightly");
    assert_eq!(build_span_name(&None), "build");
}
