use kube_gateway::models::pod::ExecParams;
use kube_gateway::services::deployment_service::{deployment_status, ReplicaStatus};
use kube_gateway::services::dispatcher::{
    process_resource, resource_outcome, typed_outcome, CreateResponse, ManifestBody, ResourceKind,
    CONFLICT,
};
use kube_gateway::services::renderer::{check_template, render, render_outcome, NESTING_LIMIT};
use kube_gateway::services::splitter::{parse_outcome, split};
use kube_gateway::services::templates::{template_name, TemplateDirectory};
use kube_gateway::services::{ingress_service, namespace_service, pod_service};
use kube_gateway::text::{chars_of, decimal};
use kube_gateway::Error;

#[test]
fn each_error_has_its_message() {
    assert_eq!(Error::General(String::from("boom")).message(), "boom");
    assert_eq!(Error::TemplateNotFound.message(), "Template not found");
    assert_eq!(Error::RenderError(String::from("bad template")).message(), "bad template");
    assert_eq!(Error::ParseError(String::from("bad yaml")).message(), "bad yaml");
    assert_eq!(
        Error::UnsupportedKind(String::from("Frobnicator")).message(),
        "UnsupportedKind: Frobnicator"
    );
    assert_eq!(Error::ResourceNotFound.message(), "InternalServerError");
    assert_eq!(
        Error::ResourceAlreadyExists(String::from("Resource Service y already exists")).message(),
        "Resource Service y already exists"
    );
    assert_eq!(Error::ApiError(String::from("forbidden")).message(), "forbidden");
}

#[test]
fn kinds_are_matched_exactly() {
    assert_eq!(ResourceKind::parse("Deployment"), Some(ResourceKind::Deployment));
    assert_eq!(ResourceKind::parse("Service"), Some(ResourceKind::Service));
    assert_eq!(ResourceKind::parse("ConfigMap"), Some(ResourceKind::ConfigMap));
    assert_eq!(ResourceKind::parse("Secret"), Some(ResourceKind::Secret));
    assert_eq!(ResourceKind::parse("deployment"), None);
    assert_eq!(ResourceKind::parse("Deployments"), None);
    assert_eq!(ResourceKind::parse(""), None);
    assert_eq!(ResourceKind::parse("Frobnicator"), None);
    for kind in [
        ResourceKind::Deployment,
        ResourceKind::Service,
        ResourceKind::ConfigMap,
        ResourceKind::Secret,
    ] {
        assert_eq!(ResourceKind::parse(kind.as_str()), Some(kind));
    }
}

#[test]
fn document_facts_are_read_from_the_text() {
    let documents =
        split("kind: Deployment\nmetadata:\n  name: a\n---\n~\n---\nkind: 7\n---\n- kind: Service\n")
            .unwrap();
    assert_eq!(documents.len(), 4);
    assert!(!documents[0].is_null());
    assert_eq!(documents[0].kind().as_deref(), Some("Deployment"));
    assert!(documents[1].is_null());
    assert_eq!(documents[1].kind(), None);
    assert!(!documents[2].is_null());
    assert_eq!(documents[2].kind(), None);
    assert!(!documents[3].is_null());
    assert_eq!(documents[3].kind(), None);
}

#[test]
fn document_without_kind_is_a_general_error() {
    let documents = split("metadata:\n  name: a\n").unwrap();
    match process_resource(&documents[0]) {
        Err(Error::General(message)) => assert_eq!(message, "Missing 'kind' field"),
        other => panic!("expected General, got {:?}", other.map(|m| m.kind())),
    }
}

#[test]
fn document_of_unknown_kind_is_unsupported() {
    let documents = split("kind: Frobnicator\nmetadata:\n  name: a\n").unwrap();
    match process_resource(&documents[0]) {
        Err(Error::UnsupportedKind(kind)) => assert_eq!(kind, "Frobnicator"),
        other => panic!("expected UnsupportedKind, got {:?}", other.map(|m| m.kind())),
    }
}

#[test]
fn document_that_does_not_fit_its_schema_is_a_general_error() {
    let documents = split("kind: Deployment\nmetadata:\n  name: a\nspec: 7\n").unwrap();
    match process_resource(&documents[0]) {
        Err(Error::General(message)) => assert!(!message.is_empty()),
        other => panic!("expected General, got {:?}", other.map(|m| m.kind())),
    }
}

#[test]
fn document_of_known_kind_becomes_its_manifest() {
    let text = "kind: Deployment\nmetadata:\n  name: a\n---\nkind: Service\nmetadata:\n  name: b\n---\nkind: ConfigMap\nmetadata:\n  name: c\n---\nkind: Secret\n";
    let documents = split(text).unwrap();
    let expected = [
        (ResourceKind::Deployment, Some("a")),
        (ResourceKind::Service, Some("b")),
        (ResourceKind::ConfigMap, Some("c")),
        (ResourceKind::Secret, None),
    ];
    for (document, (kind, name)) in documents.iter().zip(expected) {
        let manifest = process_resource(document).map_err(|e| e.message()).unwrap();
        assert_eq!(manifest.kind(), kind);
        assert_eq!(manifest.name().map(String::as_str), name);
    }
}

#[test]
fn outcome_follows_the_response() {
    let documents = split("kind: Secret\nmetadata:\n  name: token\n---\nkind: Secret\n").unwrap();
    let named = process_resource(&documents[0]).map_err(|e| e.message()).unwrap();
    let nameless = process_resource(&documents[1]).map_err(|e| e.message()).unwrap();

    let created =
        resource_outcome(&named, CreateResponse::Created { name: Some(String::from("token-1")) });
    assert_eq!(created.map_err(|e| e.message()), Ok(String::from("Created Secret: token-1")));
    let unnamed = resource_outcome(&named, CreateResponse::Created { name: None });
    assert_eq!(unnamed.map_err(|e| e.message()), Ok(String::from("Created Secret: token")));
    let nothing = resource_outcome(&nameless, CreateResponse::Created { name: None });
    assert_eq!(nothing.map_err(|e| e.message()), Ok(String::from("Created Secret: ")));

    assert_eq!(CONFLICT, 409);
    match resource_outcome(
        &named,
        CreateResponse::ApiError { code: 409, message: String::from("secrets \"token\" already exists") },
    ) {
        Err(Error::ResourceAlreadyExists(message)) => {
            assert_eq!(message, "Resource Secret token already exists")
        }
        other => panic!("expected ResourceAlreadyExists, got {:?}", other),
    }
    match resource_outcome(
        &nameless,
        CreateResponse::ApiError { code: 409, message: String::from("conflict") },
    ) {
        Err(Error::ResourceAlreadyExists(message)) => {
            assert_eq!(message, "Resource Secret  already exists")
        }
        other => panic!("expected ResourceAlreadyExists, got {:?}", other),
    }
    match resource_outcome(
        &named,
        CreateResponse::ApiError { code: 422, message: String::from("invalid: Invalid") },
    ) {
        Err(Error::ApiError(message)) => assert_eq!(message, "invalid: Invalid"),
        other => panic!("expected ApiError, got {:?}", other),
    }
    match resource_outcome(&named, CreateResponse::Failed { message: String::from("timed out") }) {
        Err(Error::ApiError(message)) => assert_eq!(message, "timed out"),
        other => panic!("expected ApiError, got {:?}", other),
    }
}

#[test]
fn later_template_replaces_the_earlier_one() {
    let mut templates = TemplateDirectory::new();
    assert_eq!(templates.get("nginx.yaml.hbs"), None);
    templates.insert("nginx.yaml.hbs", b"first".to_vec());
    templates.insert("redis.yaml.hbs", b"other".to_vec());
    templates.insert("nginx.yaml.hbs", b"second".to_vec());
    assert_eq!(templates.get("nginx.yaml.hbs"), Some(&b"second".to_vec()));
    assert_eq!(templates.get("redis.yaml.hbs"), Some(&b"other".to_vec()));
    assert_eq!(templates.get("nginx"), None);
    assert_eq!(template_name("nginx"), "nginx.yaml.hbs");
}

#[test]
fn integers_are_written_in_decimal() {
    assert_eq!(decimal(0), "0");
    assert_eq!(decimal(7), "7");
    assert_eq!(decimal(10), "10");
    assert_eq!(decimal(409), "409");
    assert_eq!(decimal(-1), "-1");
    assert_eq!(decimal(-120), "-120");
    assert_eq!(decimal(i32::MAX), "2147483647");
    assert_eq!(decimal(i32::MIN), "-2147483648");
}

#[test]
fn deployment_status_is_reported() {
    let full = ReplicaStatus { available_replicas: Some(2), replicas: Some(3) };
    assert_eq!(
        deployment_status("nginx", Some(full)).map_err(|e| e.message()),
        Ok(String::from("Deployment nginx has 2 available out of 3 replicas"))
    );
    let bare = ReplicaStatus { available_replicas: None, replicas: None };
    assert_eq!(
        deployment_status("nginx", Some(bare)).map_err(|e| e.message()),
        Ok(String::from("Deployment nginx has 0 available out of 0 replicas"))
    );
    match deployment_status("nginx", None) {
        Err(Error::ResourceNotFound) => {}
        other => panic!("expected ResourceNotFound, got {:?}", other),
    }
}

#[test]
fn namespaces_without_a_name_are_left_out() {
    let names = vec![Some(String::from("default")), None, Some(String::from("kube-system")), None];
    assert_eq!(namespace_service::namespace_names(names), vec!["default", "kube-system"]);
    assert!(namespace_service::namespace_names(Vec::new()).is_empty());
    assert_eq!(namespace_service::created_message("test"), "Created namespace: test");
    assert_eq!(namespace_service::deleted_message("test"), "delete namespace: test");
    assert_eq!(ingress_service::deleted_message("web"), "delete ingress: web");
}

#[test]
fn output_chunks_that_are_not_utf8_are_dropped() {
    let chunks = vec![b"total 4\n".to_vec(), vec![0xff, 0xfe], "caf\u{e9}\n".as_bytes().to_vec()];
    assert_eq!(pod_service::get_output(&chunks), "total 4\ncaf\u{e9}\n");
    assert_eq!(pod_service::get_output(&Vec::new()), "");
}

#[test]
fn exec_params_hold_container_and_commands() {
    let params = ExecParams {
        container: Some(String::from("alpine")),
        commands: vec![String::from("/bin/sh"), String::from("-c"), String::from("ls -la")],
    };
    assert_eq!(params.container.as_deref(), Some("alpine"));
    assert_eq!(params.commands.len(), 3);
}

#[test]
fn reader_results_become_manifests_or_general_errors() {
    let body = ManifestBody::Service(k8s_openapi::api::core::v1::Service::default());
    let manifest = typed_outcome(Ok((Some(String::from("y")), body)))
        .map_err(|e| e.message())
        .unwrap();
    assert_eq!(manifest.kind(), ResourceKind::Service);
    assert_eq!(manifest.name().map(String::as_str), Some("y"));
    assert!(matches!(manifest.body(), ManifestBody::Service(_)));

    let body = ManifestBody::Deployment(k8s_openapi::api::apps::v1::Deployment::default());
    let manifest = typed_outcome(Ok((None, body))).map_err(|e| e.message()).unwrap();
    assert_eq!(manifest.kind(), ResourceKind::Deployment);
    assert_eq!(manifest.name(), None);

    match typed_outcome(Err(String::from("spec: invalid type"))) {
        Err(Error::General(message)) => assert_eq!(message, "spec: invalid type"),
        other => panic!("expected General, got {:?}", other.map(|m| m.kind())),
    }
}

#[test]
fn stage_complaints_become_stage_errors() {
    assert_eq!(
        render_outcome(Ok(String::from("kind: Service\n"))).map_err(|e| e.message()),
        Ok(String::from("kind: Service\n"))
    );
    match render_outcome(Err(String::from("no such helper"))) {
        Err(Error::RenderError(message)) => assert_eq!(message, "no such helper"),
        other => panic!("expected RenderError, got {:?}", other),
    }
    match parse_outcome(Err(String::from("did not find expected key"))) {
        Err(Error::ParseError(message)) => assert_eq!(message, "did not find expected key"),
        other => panic!("expected ParseError, got {:?}", other.map(|d| d.is_null())),
    }
    let value: serde_yaml::Value = serde_yaml::from_str("kind: Secret\n").unwrap();
    let document = parse_outcome(Ok(value.clone())).map_err(|e| e.message()).unwrap();
    assert_eq!(document.kind().as_deref(), Some("Secret"));
    assert_eq!(document.value(), &value);
}

const PARTIAL: &str = "Partials are not supported";
const NESTING: &str = "Template is nested too deeply";

#[test]
fn partial_tags_are_refused_where_they_are_tags() {
    for template in [
        "{{> header}}",
        "a{{~> header}}b",
        "{{#> layout}}x{{/layout}}",
        "{{ \n\t~ # > layout}}",
        "{{#if a}}{{> x}}{{/if}}",
        "{{x \"}}\"}}{{> y}}",
    ] {
        assert_eq!(check_template(template).as_deref(), Some(PARTIAL), "{}", template);
    }
    for template in [
        "",
        "{",
        "{{",
        "{{name}}",
        "{{#if a}}>{{/if}}",
        "{ {> x}}",
        "{{a}} > {{b}}",
        "{{! {{> hidden}}",
        "{{!}}{{x}}",
        "{{x \"{{> y}}\"}}",
        "{{x '{{> y}}'}}",
        "caf\u{e9} {{#each items}}{{this}}{{/each}} >",
    ] {
        assert_eq!(check_template(template), None, "{}", template);
    }
}

#[test]
fn partial_tags_are_refused_where_the_scan_is_unsure() {
    for template in [
        "{{!-- {{> hidden}} --}}",
        "\\{{> escaped}}",
        "{{{{raw}}}} {{> x}} {{{{/raw}}}}",
        "{{lookup this [a\"b]}}{{> x}}",
        "{{x \"a\\\"b\"}}{{> x}}",
        "{{x {}}} {{#> y}}",
    ] {
        assert_eq!(check_template(template).as_deref(), Some(PARTIAL), "{}", template);
    }
}

#[test]
fn characters_are_read_in_order() {
    assert_eq!(chars_of("k\u{e9}{"), vec!['k', '\u{e9}', '{']);
    assert!(chars_of("").is_empty());
}

fn json(text: &str) -> serde_json::Value {
    serde_json::from_str(text).expect("the context is JSON")
}

fn nested_blocks(depth: usize) -> String {
    let mut text = String::new();
    for _ in 0..depth {
        text.push_str("{{#if on}}");
    }
    text.push('x');
    for _ in 0..depth {
        text.push_str("{{/if}}");
    }
    text
}

fn nested_in_tag(open: &str, inner: &str, close: &str, depth: usize) -> String {
    let mut text = String::from("{{#if ");
    for _ in 0..depth {
        text.push_str(open);
    }
    text.push_str(inner);
    for _ in 0..depth {
        text.push_str(close);
    }
    text.push_str("}}x{{/if}}");
    text
}

#[test]
fn nesting_is_counted_by_depth() {
    assert_eq!(NESTING_LIMIT, 100);
    for template in [
        String::new(),
        String::from("{{name}} # a comment (with a note)"),
        nested_blocks(100),
        "(".repeat(500),
        "{{#if on}}x{{/if}}".repeat(500),
        "{{x (a) (b) (c)}}".repeat(200),
        "{{ ~ #each x}}y{{ ~ /each}}".repeat(101),
        "# {{x}} {{/if}} {{ a # }}".repeat(200),
        nested_in_tag("(not ", "on", ")", 99),
        format!("{}{{{{x {}", nested_blocks(50), "(".repeat(100)),
        "{{! {{#if}} }}".repeat(200),
        "{{x \"{{#if\"}}".repeat(200),
    ] {
        assert_eq!(check_template(&template), None, "{}", &template[..template.len().min(40)]);
    }
    for template in [
        nested_blocks(101),
        "{{ ~ #each x}}".repeat(101),
        nested_in_tag("(not ", "on", ")", 100),
        format!("{}{{{{x {}", "{{#if on}}".repeat(50), "(".repeat(51)),
        format!("\\{}", "(".repeat(101)),
        format!("{{{{!-- --}}}}{}", "{{#if on}}x{{/if}}".repeat(101)),
    ] {
        assert_eq!(
            check_template(&template).as_deref(),
            Some(NESTING),
            "{}",
            &template[..template.len().min(40)]
        );
    }
}

#[test]
fn templates_within_the_limits_are_rendered_as_they_are() {
    let context = json("{\"on\": true, \"name\": \"web\"}");
    let rows = "{{#if on}}x{{/if}}".repeat(200);
    assert_eq!(render("t", &rows, &context).map_err(|e| e.message()), Ok("x".repeat(200)));
    let plain = format!("{} {{{{name}}}}", "(".repeat(200));
    assert_eq!(
        render("t", &plain, &context).map_err(|e| e.message()),
        Ok(format!("{} web", "(".repeat(200)))
    );
    assert_eq!(
        render("t", "{{! {{> hidden}} }}{{name}}", &context).map_err(|e| e.message()),
        Ok(String::from(" }}web"))
    );
    assert_eq!(
        render("t", "{{#if (eq name \"}}\")}}a{{else}}b{{/if}}", &context).map_err(|e| e.message()),
        Ok(String::from("b"))
    );
}

#[test]
fn template_at_the_nesting_limit_is_rendered() {
    let context = &json("{\"on\": true}");
    assert_eq!(
        render("t", &nested_blocks(100), context).map_err(|e| e.message()),
        Ok(String::from("x"))
    );
    assert_eq!(
        render("t", &nested_in_tag("(not ", "on", ")", 98), context).map_err(|e| e.message()),
        Ok(String::from("x"))
    );
}

#[test]
fn template_nested_too_deeply_is_refused() {
    let context = &json("{\"on\": true}");
    for template in [nested_blocks(101), nested_blocks(5000), nested_in_tag("(not ", "on", ")", 500)] {
        match render("t", &template, context) {
            Err(Error::RenderError(complaint)) => {
                assert_eq!(complaint, "Template is nested too deeply")
            }
            other => panic!("expected RenderError, got {:?}", other),
        }
    }
}

#[test]
fn deeply_nested_literals_are_render_errors() {
    let context = &json("{\"on\": true}");
    for template in [
        nested_in_tag("[", "1", "]", 500),
        nested_in_tag("{\"a\":", "1", "}", 500),
        nested_in_tag("[", "1", "]", 5000),
    ] {
        match render("t", &template, context) {
            Err(Error::RenderError(complaint)) => assert!(!complaint.is_empty()),
            other => panic!("expected RenderError, got {:?}", other),
        }
    }
}

/// Pieces of a template that hold what looks like the end of a block but is
/// none: in a comment, a string, an escape, a raw block, a bracketed path,
/// an object literal.
const DECOYS: [&str; 14] = [
    "{{! {{/if}}",
    "{{!-- {{/if}} --}}",
    "{{!--{{/if}}{{/if}}--}}",
    "{{lookup this \"{{/if}}\"}}",
    "{{lookup this '{{/if}}'}}",
    "\\{{/if}}",
    "{{{{raw}}}}{{/if}}{{{{/raw}}}}",
    "{{[{{/if}}]}}",
    "{{lookup this {\"a\":\"{{/if}}\"}}}",
    "{{{on}}}",
    "{{~on~}}",
    "{{lookup this \"a\\\"{{/if}}\"}}",
    "{{#if on}}y{{else}}{{! {{/if}}{{/if}}",
    "}} {/if} } ",
];

fn nested_with(decoy: &str, depth: usize) -> String {
    let mut text = String::new();
    for _ in 0..depth {
        text.push_str("{{#if on}}");
        text.push_str(decoy);
    }
    text.push('x');
    for _ in 0..depth {
        text.push_str("{{/if}}");
    }
    text
}

#[test]
fn decoys_do_not_hide_the_nesting() {
    for decoy in DECOYS {
        let shallow = nested_with(decoy, 3);
        let mut registry = handlebars::Handlebars::new();
        registry
            .register_template_string("t", &shallow)
            .unwrap_or_else(|e| panic!("{} does not compile: {}", decoy, e));
        let deep = nested_with(decoy, 101);
        assert_eq!(check_template(&deep).as_deref(), Some(NESTING), "{}", decoy);
        let context = json("{\"on\": true}");
        match render("t", &nested_with(decoy, 300), &context) {
            Err(Error::RenderError(complaint)) => assert_eq!(complaint, NESTING, "{}", decoy),
            other => panic!("expected RenderError for {}, got {:?}", decoy, other),
        }
    }
}
