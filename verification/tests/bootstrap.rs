use diom::bootstrap::defaults::ensure_defaults;
use diom::bootstrap::payload::{EvictionPolicy, KvConfigureNamespaceIn, NamespaceName, Retention};
use diom::bootstrap::script::parse_bootstrap;
use diom::bootstrap::{BootstrapCommand, BootstrapErrorKind};

#[test]
fn kv_defaults() {
    let cmd: BootstrapCommand = r#"kv namespace configure {"name":"myns"}"#.parse().unwrap();
    let BootstrapCommand::Kv(v) = cmd else {
        panic!()
    };
    assert_eq!(v.name.as_str(), "myns");
}

#[test]
fn cache_defaults() {
    let cmd: BootstrapCommand = r#"cache namespace configure {"name":"myns"}"#.parse().unwrap();
    let BootstrapCommand::Cache(v) = cmd else {
        panic!()
    };
    assert_eq!(v.eviction_policy, EvictionPolicy::NoEviction);
}

#[test]
fn idempotency() {
    let cmd: BootstrapCommand = r#"idempotency namespace configure {"name":"myns"}"#
        .parse()
        .unwrap();
    let BootstrapCommand::Idempotency(v) = cmd else {
        panic!()
    };
    assert_eq!(v.name.as_str(), "myns");
}

#[test]
fn rate_limit() {
    let cmd: BootstrapCommand =
        r#"rate-limit namespace configure {"name":"myns"}"#.parse().unwrap();
    assert!(matches!(cmd, BootstrapCommand::RateLimit(v) if v.name.as_str() == "myns"));
}

#[test]
fn msgs_defaults() {
    let cmd: BootstrapCommand = r#"msgs namespace configure {"name":"myns"}"#.parse().unwrap();
    let BootstrapCommand::Msgs(v) = cmd else {
        panic!()
    };
    assert_eq!(v.name.as_str(), "myns");
    assert_eq!(v.retention, Retention::default());
}

#[test]
fn msgs_with_options() {
    let cmd: BootstrapCommand =
        r#"msgs namespace configure {"name":"myns","retention":{"period_ms":60000,"size_bytes":500}}"#
            .parse()
            .unwrap();
    let BootstrapCommand::Msgs(v) = cmd else {
        panic!()
    };
    assert_eq!(v.retention.period_ms.unwrap(), 60000);
    assert_eq!(v.retention.size_bytes.unwrap(), 500);
}

#[test]
fn too_few_tokens() {
    assert!(
        "kv namespace configure"
            .parse::<BootstrapCommand>()
            .is_err()
    );
}

#[test]
fn wrong_resource() {
    assert!(r#"kv config configure {"name":"myns"}"#.parse::<BootstrapCommand>().is_err());
}

#[test]
fn wrong_action() {
    assert!(r#"kv namespace update {"name":"myns"}"#.parse::<BootstrapCommand>().is_err());
}

#[test]
fn admin_namespace_and_module_auth_role_refused() {
    assert!(r#"admin namespace configure {"name":"myns"}"#.parse::<BootstrapCommand>().is_err());
    assert!(r#"kv auth-role configure {"id":"r","description":"d","rules":[]}"#
        .parse::<BootstrapCommand>()
        .is_err());
}

#[test]
fn unknown_module() {
    assert!(r#"blob namespace configure {"name":"myns"}"#.parse::<BootstrapCommand>().is_err());
}

#[test]
fn auth_policy_configure() {
    let cmd: BootstrapCommand =
        r#"admin auth-policy configure {"id":"mypolicy","description":"test","rules":[]}"#
            .parse()
            .unwrap();
    let BootstrapCommand::AdminAuthPolicy(v) = cmd else {
        panic!()
    };
    assert_eq!(v.id.as_str(), "mypolicy");
    assert_eq!(v.description, "test");
    assert!(v.rules.is_empty());
}

#[test]
fn auth_role_configure() {
    let cmd: BootstrapCommand =
        r#"admin auth-role configure {"id":"myrole","description":"test","rules":[]}"#
            .parse()
            .unwrap();
    let BootstrapCommand::AdminAuthRole(v) = cmd else {
        panic!()
    };
    assert_eq!(v.id.as_str(), "myrole");
    assert_eq!(v.description, "test");
    assert!(v.rules.is_empty());
    assert!(v.policies.is_empty());
}

#[test]
fn unknown_admin_subcommand() {
    assert!(r#"admin unknown configure {"id":"x"}"#.parse::<BootstrapCommand>().is_err());
}

#[test]
fn invalid_json() {
    assert!(
        "kv namespace configure not-json"
            .parse::<BootstrapCommand>()
            .is_err()
    );
}

#[test]
fn missing_name_field() {
    assert!(r#"kv namespace configure {}"#.parse::<BootstrapCommand>().is_err());
}

#[test]
fn invalid_eviction_policy() {
    assert!(
        r#"cache namespace configure {"name":"myns","eviction_policy":"random"}"#
            .parse::<BootstrapCommand>()
            .is_err()
    );
}

#[test]
fn skips_blank_lines_and_comments() {
    let input = r#"
            # this is a comment
            kv namespace configure {"name":"foo"}

            # another comment
            cache namespace configure {"name":"bar"}
        "#;
    let cmds = parse_bootstrap(input).unwrap();
    assert_eq!(cmds.len(), 2);
    assert!(matches!(&cmds[0], BootstrapCommand::Kv(v) if v.name.as_str() == "foo"));
    assert!(matches!(&cmds[1], BootstrapCommand::Cache(v) if v.name.as_str() == "bar"));
}

#[test]
fn parse_error_includes_line_number() {
    let input = "kv namespace configure {\"name\":\"foo\"}\nkv namespace configure not-json\n";
    let err = parse_bootstrap(input).unwrap_err();
    assert!(err.message().contains("line 2"), "error was: {}", err.message());
}

#[test]
fn empty_input_produces_no_commands() {
    assert!(parse_bootstrap("").unwrap().is_empty());
}

fn is_default(name: &NamespaceName) -> bool {
    name.as_str() == "default"
}

#[test]
fn ensure_defaults_injects_all_five_when_empty() {
    let mut cmds = vec![];
    ensure_defaults(&mut cmds);
    // Make sure at least the original five are there
    assert!(cmds.len() >= 5);
    assert!(cmds.iter().any(|c| matches!(c, BootstrapCommand::Kv(v) if is_default(&v.name))));
    assert!(cmds.iter().any(|c| matches!(c, BootstrapCommand::Cache(v) if is_default(&v.name))));
    assert!(cmds.iter().any(|c| matches!(c, BootstrapCommand::Idempotency(v) if is_default(&v.name))));
    assert!(cmds.iter().any(|c| matches!(c, BootstrapCommand::RateLimit(v) if is_default(&v.name))));
    assert!(cmds.iter().any(|c| matches!(c, BootstrapCommand::Msgs(v) if is_default(&v.name))));
}

#[test]
fn ensure_defaults_does_not_duplicate_existing_default() {
    let mut cmds = vec![BootstrapCommand::Kv(KvConfigureNamespaceIn {
        name: NamespaceName("default".to_owned()),
    })];
    ensure_defaults(&mut cmds);
    let kv_defaults: Vec<_> = cmds
        .iter()
        .filter(|c| matches!(c, BootstrapCommand::Kv(v) if is_default(&v.name)))
        .collect();
    assert_eq!(kv_defaults.len(), 1);
}

#[test]
fn ensure_defaults_does_not_suppress_non_default_namespaces() {
    let mut cmds = vec![BootstrapCommand::Kv(KvConfigureNamespaceIn {
        name: NamespaceName("other".to_owned()),
    })];
    ensure_defaults(&mut cmds);
    let kv_count = cmds
        .iter()
        .filter(|c| matches!(c, BootstrapCommand::Kv(_)))
        .count();
    assert_eq!(kv_count, 2);
}

#[test]
fn auth_policy_configure_single_line() {
    let input = r#"admin auth-policy configure {"id":"pol","description":"full access","rules":[{"effect":"allow","resource":"*:*:*","actions":["*"]}]}"#;
    let cmds = parse_bootstrap(input).unwrap();
    assert_eq!(cmds.len(), 1);
    let BootstrapCommand::AdminAuthPolicy(v) = &cmds[0] else {
        panic!()
    };
    assert_eq!(v.id.as_str(), "pol");
    assert_eq!(v.rules.len(), 1);
}

#[test]
fn auth_policy_configure_multiline() {
    let input = r#"admin auth-policy configure {
            "id": "pol",
            "description": "full access",
            "rules": [
                {
                    "effect": "allow",
                    "resource": "*:*:*",
                    "actions": ["*"]
                }
            ]
        }"#;
    let cmds = parse_bootstrap(input).unwrap();
    assert_eq!(cmds.len(), 1);
    let BootstrapCommand::AdminAuthPolicy(v) = &cmds[0] else {
        panic!()
    };
    assert_eq!(v.id.as_str(), "pol");
    assert_eq!(v.rules.len(), 1);
}

#[test]
fn parse_multiple_commands_all_modules() {
    let input = r#"
            kv namespace configure {"name":"my-kv"}
            cache namespace configure {"name":"my-cache","eviction_policy":"no-eviction"}
            idempotency namespace configure {"name":"my-idemp"}
            rate-limit namespace configure {"name":"my-rl"}
            msgs namespace configure {"name":"my-msgs","retention":{"period_ms":60000,"size_bytes":500}}
            admin auth-policy configure {"id":"pol","description":"full access","rules":[{"effect":"allow","resource":"*:*:*","actions":["*"]}]}
            admin auth-role configure {"id":"role","description":"admin","rules":[],"policies":["pol"]}
        "#;
    let cmds = parse_bootstrap(input).unwrap();
    assert_eq!(cmds.len(), 7);
    assert!(matches!(&cmds[0], BootstrapCommand::Kv(v) if v.name.as_str() == "my-kv"));
    assert!(matches!(&cmds[1], BootstrapCommand::Cache(v) if v.name.as_str() == "my-cache"));
    assert!(
        matches!(&cmds[2], BootstrapCommand::Idempotency(v) if v.name.as_str() == "my-idemp")
    );
    assert!(matches!(&cmds[3], BootstrapCommand::RateLimit(v) if v.name.as_str() == "my-rl"));
    assert!(matches!(&cmds[4], BootstrapCommand::Msgs(v) if v.name.as_str() == "my-msgs"));
    assert!(matches!(&cmds[5], BootstrapCommand::AdminAuthPolicy(v) if v.id.as_str() == "pol"));
    assert!(matches!(&cmds[6], BootstrapCommand::AdminAuthRole(v) if v.id.as_str() == "role"));
}

#[test]
fn multiline_auth_policy_and_role() {
    let input = r#"
            kv namespace configure {"name":"my-kv"}
            admin auth-policy configure {
                "id": "pol",
                "description": "full access",
                "rules": [
                    {
                        "effect": "allow",
                        "resource": "*:*:*",
                        "actions": ["*"]
                    }
                ]
            }
            admin auth-role configure {
                "id": "role",
                "description": "admin",
                "rules": [],
                "policies": ["pol"]
            }
        "#;
    let cmds = parse_bootstrap(input).unwrap();
    assert_eq!(cmds.len(), 3);
    assert!(matches!(&cmds[0], BootstrapCommand::Kv(v) if v.name.as_str() == "my-kv"));
    assert!(matches!(&cmds[1], BootstrapCommand::AdminAuthPolicy(v) if v.id.as_str() == "pol"));
    assert!(matches!(&cmds[2], BootstrapCommand::AdminAuthRole(v) if v.id.as_str() == "role"));
}

#[test]
fn header_errors_name_their_kind() {
    assert_eq!(
        "kv namespace configure".parse::<BootstrapCommand>().unwrap_err(),
        BootstrapErrorKind::MalformedHeader
    );
    assert_eq!(
        r#"blob namespace configure {"name":"myns"}"#.parse::<BootstrapCommand>().unwrap_err(),
        BootstrapErrorKind::UnknownCommand
    );
    assert_eq!(
        "kv namespace configure not-json".parse::<BootstrapCommand>().unwrap_err(),
        BootstrapErrorKind::InvalidPayload
    );
}

#[test]
fn unterminated_json_reports_its_first_line() {
    let err = parse_bootstrap("kv namespace configure {\"name\":\n \"x\"").unwrap_err();
    assert_eq!(err.kind, BootstrapErrorKind::UnterminatedJson);
    assert_eq!(err.line, Some(1));
}
