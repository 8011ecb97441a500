//! The environment snapshot accessors and the built-in configuration.

use zerg_operator::config::Config;
use zerg_operator::crd::ConfigValue;
use zerg_operator::envs::{get_env, get_env_parse, ConfigProps, Env, Error};

fn snapshot(pairs: &[(&str, &str)]) -> Env {
    Env::new(pairs.iter().map(|(k, v)| (k.to_string(), v.to_string())).collect())
}

#[test]
fn reads_bound_variables() {
    let env = snapshot(&[("HOST", "0.0.0.0"), ("PORT", "8080")]);
    assert_eq!(env.get_env("HOST").unwrap(), "0.0.0.0");
    assert_eq!(get_env(&env, "PORT").unwrap(), "8080");
    assert!(matches!(env.get_env("MISSING"), Err(Error::MissingEnv(n)) if n == "MISSING"));
}

#[test]
fn first_binding_wins() {
    let env = snapshot(&[("HOST", "first"), ("HOST", "second")]);
    assert_eq!(env.get_env("HOST").unwrap(), "first");
}

#[test]
fn parses_numeric_variables() {
    let env = snapshot(&[("PORT", "8080"), ("BAD", "eight")]);
    assert_eq!(env.get_env_parse("PORT").unwrap(), 8080);
    assert_eq!(get_env_parse(&env, "PORT").unwrap(), 8080);
    assert!(matches!(env.get_env_parse("BAD"), Err(Error::WrongFormat(n)) if n == "BAD"));
    assert!(matches!(env.get_env_parse("GONE"), Err(Error::MissingEnv(n)) if n == "GONE"));
}

#[test]
fn port_is_range_checked() {
    assert_eq!(snapshot(&[("PORT", "65535")]).get_port().unwrap(), 65535);
    assert_eq!(snapshot(&[("PORT", "+8080")]).get_port().unwrap(), 8080);
    assert!(matches!(
        snapshot(&[("PORT", "65536")]).get_port(),
        Err(Error::WrongFormat(n)) if n == "PORT"
    ));
    assert!(matches!(snapshot(&[]).get_port(), Err(Error::MissingEnv(n)) if n == "PORT"));
}

#[test]
fn named_accessors_read_their_variables() {
    let env = snapshot(&[
        ("DATABASE_URL", "postgres://db"),
        ("REDIS_HOST", "redis://cache"),
        ("MONGO_URI", "mongodb://docs"),
    ]);
    assert_eq!(env.get_postgres().unwrap(), "postgres://db");
    assert_eq!(env.get_redis().unwrap(), "redis://cache");
    assert_eq!(env.get_mongo().unwrap(), "mongodb://docs");
}

#[test]
fn production_detection_ignores_case_and_defaults_off() {
    assert!(snapshot(&[("RUST_ENV", "production")]).is_prod().unwrap());
    assert!(snapshot(&[("RUST_ENV", "PRODUCTION")]).is_prod().unwrap());
    assert!(!snapshot(&[("RUST_ENV", "development")]).is_prod().unwrap());
    assert!(!snapshot(&[]).is_prod().unwrap());
}

#[test]
fn config_props_gathers_every_connection() {
    let env = snapshot(&[
        ("HOST", "0.0.0.0"),
        ("PORT", "9000"),
        ("MONGO_URI", "mongodb://docs"),
        ("REDIS_URI", "redis://cache"),
        ("DATABASE_URL", "postgres://db"),
        ("INFLUXDB_URL", "http://influx"),
    ]);
    let props = ConfigProps::new(&env).unwrap();
    assert_eq!(props.host, "0.0.0.0");
    assert_eq!(props.port, 9000);
    assert_eq!(props.mongo_uri, "mongodb://docs");
    assert_eq!(props.redis_uri, "redis://cache");
    assert_eq!(props.postgres_uri, "postgres://db");
    assert_eq!(props.influxdb_uri, "http://influx");
}

#[test]
fn config_props_fails_at_first_missing_variable() {
    let env = snapshot(&[("HOST", "0.0.0.0"), ("PORT", "9000")]);
    assert!(matches!(ConfigProps::new(&env), Err(Error::MissingEnv(n)) if n == "MONGO_URI"));
}

#[test]
fn config_props_reads_the_redis_connection_string() {
    // The settings read REDIS_URI; the bare-host accessor reads REDIS_HOST.
    let env = snapshot(&[
        ("HOST", "0.0.0.0"),
        ("PORT", "9000"),
        ("MONGO_URI", "mongodb://docs"),
        ("REDIS_HOST", "cache"),
        ("DATABASE_URL", "postgres://db"),
        ("INFLUXDB_URL", "http://influx"),
    ]);
    assert!(matches!(ConfigProps::new(&env), Err(Error::MissingEnv(n)) if n == "REDIS_URI"));
    let env2 = snapshot(&[
        ("HOST", "0.0.0.0"),
        ("PORT", "9000"),
        ("MONGO_URI", "mongodb://docs"),
        ("REDIS_URI", "redis://cache"),
        ("DATABASE_URL", "postgres://db"),
        ("INFLUXDB_URL", "http://influx"),
    ]);
    assert_eq!(ConfigProps::new(&env2).unwrap().redis_uri, "redis://cache");
    assert!(matches!(env2.get_redis(), Err(Error::MissingEnv(n)) if n == "REDIS_HOST"));
}

#[test]
fn default_config_operator_settings() {
    let config = Config::default();
    assert_eq!(config.operator.default_namespace, "zerg-system");
    assert_eq!(config.operator.reconciliation_interval, 300);
    assert_eq!(config.operator.max_concurrent_reconciles, 5);
    assert!(config.operator.metrics_enabled);
    assert_eq!(config.operator.metrics_port, 8080);
}

#[test]
fn default_config_templates() {
    let config = Config::default();
    let names: Vec<&str> = config.dependency_templates.iter().map(|(k, _)| k.as_str()).collect();
    assert_eq!(
        names,
        vec!["external-secrets", "crossplane", "loki", "prometheus", "cert-manager"]
    );
    let loki = &config.dependency_templates[2].1;
    assert_eq!(loki.type_, "helm");
    assert_eq!(loki.repo, "https://grafana.github.io/helm-charts");
    assert_eq!(loki.chart.as_deref(), Some("loki-stack"));
    assert_eq!(loki.version.as_deref(), Some("2.9.0"));
    assert_eq!(loki.namespace.as_deref(), Some("loki-system"));
    let loki_values = loki.values.as_ref().unwrap();
    assert_eq!(loki_values.len(), 2);
    assert_eq!(loki_values[0].0, "grafana.enabled");
    assert!(matches!(loki_values[0].1, ConfigValue::Bool(true)));
    let gitops: Vec<&str> = config.gitops_templates.iter().map(|(k, _)| k.as_str()).collect();
    assert_eq!(gitops, vec!["flux", "argocd"]);
    assert!(matches!(
        &config.gitops_templates[0].1.config[0].1,
        ConfigValue::Text(t) if t == "5m"
    ));
    let cicd: Vec<&str> = config.cicd_templates.iter().map(|(k, _)| k.as_str()).collect();
    assert_eq!(cicd, vec!["tekton", "argo-workflows"]);
    assert!(config.cicd_templates[0].1.config.is_empty());
}
