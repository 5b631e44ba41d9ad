use casdoor_config::config::{CasdoorConfig, ConfigError};
use casdoor_config::pem::replace_all_matches;

const CERT_IN: &str = "-----BEGIN CERTIFICATE-----\nABC\n-----END CERTIFICATE-----";
const CERT_OUT: &str = "-----BEGIN PUBLIC KEY-----\nABC\n-----END PUBLIC KEY-----";

fn build(cert: &str, app_name: Option<&str>) -> CasdoorConfig {
    CasdoorConfig::new(
        "http://localhost:8000".to_string(),
        "0ba528121ea87b3eb54d".to_string(),
        "04f4ca6f4d3a1a6b8de6".to_string(),
        cert.to_string(),
        "built-in".to_string(),
        app_name.map(|s| s.to_string()),
    )
}

const FULL_DOC: &str = r#"
endpoint = "http://localhost:8000"
client_id = "0ba528121ea87b3eb54d"
client_secret = "04f4ca6f4d3a1a6b8de6"
certificate = "-----BEGIN CERTIFICATE-----\nABC\n-----END CERTIFICATE-----"
org_name = "built-in"
app_name = "app-example"
"#;

const DOC_WITHOUT_APP: &str = r#"
endpoint = "http://localhost:8000"
client_id = "0ba528121ea87b3eb54d"
client_secret = "04f4ca6f4d3a1a6b8de6"
certificate = "-----BEGIN CERTIFICATE-----\nABC\n-----END CERTIFICATE-----"
org_name = "built-in"
"#;

#[test]
fn new_rewrites_certificate_labels() {
    let c = build(CERT_IN, Some("app-example"));
    assert_eq!(c.certificate(), CERT_OUT);
    assert_eq!(c.endpoint(), "http://localhost:8000");
    assert_eq!(c.client_id(), "0ba528121ea87b3eb54d");
    assert_eq!(c.client_secret(), "04f4ca6f4d3a1a6b8de6");
    assert_eq!(c.org_name(), "built-in");
    assert_eq!(c.app_name(), &Some("app-example".to_string()));
}

#[test]
fn replace_rewrites_both_delimiters() {
    let r = CasdoorConfig::replace_cert_to_pub_key(CERT_IN.to_string());
    assert_eq!(r, CERT_OUT);
}

#[test]
fn rewrite_twice_equals_once() {
    let inputs = [
        CERT_IN,
        "CERTIFICATECERTIFICATE",
        "CERTIFICATCERTIFICATEE",
        "xCERTIFICATE PUBLIC KEY CERTIFICATE",
    ];
    for s in inputs {
        let once = CasdoorConfig::replace_cert_to_pub_key(s.to_string());
        let twice = CasdoorConfig::replace_cert_to_pub_key(once.clone());
        assert_eq!(once, twice);
        assert!(!once.contains("CERTIFICATE"));
    }
}

#[test]
fn text_without_label_is_unchanged() {
    for s in ["", "ABC", "certificate", "-----BEGIN PUBLIC KEY-----", "CERTIFICAT", "é€CERT"] {
        assert_eq!(CasdoorConfig::replace_cert_to_pub_key(s.to_string()), s);
    }
}

#[test]
fn rewrite_keeps_surrounding_text() {
    let r = CasdoorConfig::replace_cert_to_pub_key("é€CERTIFICATE→ü".to_string());
    assert_eq!(r, "é€PUBLIC KEY→ü");
}

#[test]
fn replace_all_matches_left_to_right() {
    assert_eq!(replace_all_matches("aaaa", "aa", "b"), "bb");
    assert_eq!(replace_all_matches("aaa", "aa", "b"), "ba");
    assert_eq!(replace_all_matches("abcabc", "bc", ""), "aa");
    assert_eq!(replace_all_matches("", "x", "y"), "");
    assert_eq!(replace_all_matches("xyz", "xyz", "longer"), "longer");
}

#[test]
fn load_full_document() {
    let c = CasdoorConfig::from_toml_str(FULL_DOC).unwrap();
    assert_eq!(c.endpoint(), "http://localhost:8000");
    assert_eq!(c.client_id(), "0ba528121ea87b3eb54d");
    assert_eq!(c.client_secret(), "04f4ca6f4d3a1a6b8de6");
    assert_eq!(c.certificate(), CERT_OUT);
    assert_eq!(c.org_name(), "built-in");
    assert_eq!(c.app_name(), &Some("app-example".to_string()));
}

#[test]
fn load_and_new_store_the_same_certificate() {
    let loaded = CasdoorConfig::from_toml_str(FULL_DOC).unwrap();
    let built = build(CERT_IN, Some("app-example"));
    assert_eq!(loaded.certificate(), built.certificate());
}

#[test]
fn load_without_app_name() {
    let c = CasdoorConfig::from_toml_str(DOC_WITHOUT_APP).unwrap();
    assert_eq!(c.app_name(), &None);
    assert_eq!(c.certificate(), CERT_OUT);
}

#[test]
fn load_missing_client_id_is_parse_error() {
    let doc = DOC_WITHOUT_APP.replace("client_id = \"0ba528121ea87b3eb54d\"\n", "");
    assert!(!doc.contains("client_id"));
    assert_eq!(CasdoorConfig::from_toml_str(&doc).unwrap_err(), ConfigError::ParseError);
}

#[test]
fn load_malformed_text_is_parse_error() {
    let r = CasdoorConfig::from_toml_str("endpoint = \"unterminated\nclient_id = ");
    assert_eq!(r.unwrap_err(), ConfigError::ParseError);
    let r = CasdoorConfig::from_toml_str("");
    assert_eq!(r.unwrap_err(), ConfigError::ParseError);
}

#[test]
fn load_non_string_field_is_parse_error() {
    let doc = DOC_WITHOUT_APP.replace("org_name = \"built-in\"", "org_name = 7");
    assert_eq!(CasdoorConfig::from_toml_str(&doc).unwrap_err(), ConfigError::ParseError);
    let doc = format!("{}app_name = true\n", DOC_WITHOUT_APP);
    assert_eq!(CasdoorConfig::from_toml_str(&doc).unwrap_err(), ConfigError::ParseError);
}

#[test]
fn load_ignores_other_keys() {
    let doc = format!("{}extra = 3\n", DOC_WITHOUT_APP);
    let c = CasdoorConfig::from_toml_str(&doc).unwrap();
    assert_eq!(c.org_name(), "built-in");
}

#[test]
fn load_keeps_empty_strings() {
    let doc = "endpoint = \"\"\nclient_id = \"\"\nclient_secret = \"\"\ncertificate = \"\"\norg_name = \"\"\n";
    let c = CasdoorConfig::from_toml_str(doc).unwrap();
    assert_eq!(c.endpoint(), "");
    assert_eq!(c.certificate(), "");
    assert_eq!(c.app_name(), &None);
}

#[test]
fn from_table_reads_entries() {
    let mut t = toml::Table::new();
    for (k, v) in [
        ("endpoint", "e"),
        ("client_id", "i"),
        ("client_secret", "s"),
        ("certificate", "CERTIFICATE"),
        ("org_name", "o"),
    ] {
        t.insert(k.to_string(), toml::Value::String(v.to_string()));
    }
    let c = CasdoorConfig::from_table(t.clone()).unwrap();
    assert_eq!(c.certificate(), "PUBLIC KEY");
    assert_eq!(c.client_id(), "i");
    assert_eq!(c.app_name(), &None);
    t.remove("endpoint");
    assert_eq!(CasdoorConfig::from_table(t).unwrap_err(), ConfigError::ParseError);
}
