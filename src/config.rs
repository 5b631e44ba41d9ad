//! The configuration value of a client: where the service is, who the client
//! is, and the key that the service's tokens are checked against.
use crate::document::{document_entries, parse_table, table_entries, take_entry};
use crate::pem::{
    cert_label, key_label, lemma_no_label_after_rewrite, occurs_in, replace_all_matches,
    to_public_key,
};
use vstd::prelude::*;

verus! {

/// A client's connection settings. The certificate is held with its labels
/// rewritten to those of a public-key block.
#[derive(Debug, Clone)]
pub struct CasdoorConfig {
    endpoint: String,
    client_id: String,
    client_secret: String,
    certificate: String,
    org_name: String,
    app_name: Option<String>,
}

/// What a `CasdoorConfig` holds, as text.
pub struct ConfigView {
    pub endpoint: Seq<char>,
    pub client_id: Seq<char>,
    pub client_secret: Seq<char>,
    pub certificate: Seq<char>,
    pub org_name: Seq<char>,
    pub app_name: Option<Seq<char>>,
}

/// Why a configuration could not be loaded.
#[derive(Debug, Clone, Copy, PartialEq, Eq, Structural)]
pub enum ConfigError {
    /// The configuration file could not be opened or read.
    IoError,
    /// The text is no valid TOML, or a field is missing or not a string.
    ParseError,
}

/// The text of an optional string.
pub open spec fn opt_text(o: Option<String>) -> Option<Seq<char>> {
    match o {
        Some(s) => Some(s@),
        None => None,
    }
}

impl View for CasdoorConfig {
    type V = ConfigView;

    closed spec fn view(&self) -> ConfigView {
        ConfigView {
            endpoint: self.endpoint@,
            client_id: self.client_id@,
            client_secret: self.client_secret@,
            certificate: self.certificate@,
            org_name: self.org_name@,
            app_name: opt_text(self.app_name),
        }
    }
}

/// The configuration built from these fields: all are kept as given but the
/// certificate, whose labels are rewritten.
pub open spec fn built(
    endpoint: Seq<char>,
    client_id: Seq<char>,
    client_secret: Seq<char>,
    certificate: Seq<char>,
    org_name: Seq<char>,
    app_name: Option<Seq<char>>,
) -> ConfigView {
    ConfigView {
        endpoint,
        client_id,
        client_secret,
        certificate: to_public_key(certificate),
        org_name,
        app_name,
    }
}

/// The text of a required field: present, and a string.
pub open spec fn text_field(m: Map<Seq<char>, Option<Seq<char>>>, key: Seq<char>) -> Option<
    Seq<char>,
> {
    if m.contains_key(key) {
        m[key]
    } else {
        None
    }
}

/// The optional field is absent or a string.
pub open spec fn optional_ok(m: Map<Seq<char>, Option<Seq<char>>>, key: Seq<char>) -> bool {
    !m.contains_key(key) || m[key] is Some
}

/// The configuration that a table with these entries describes, or `None`
/// where a required field is missing or a field is not a string. Keys of
/// which nothing is asked are ignored.
pub open spec fn from_entries(m: Map<Seq<char>, Option<Seq<char>>>) -> Option<ConfigView> {
    if text_field(m, "endpoint"@) is Some && text_field(m, "client_id"@) is Some && text_field(
        m,
        "client_secret"@,
    ) is Some && text_field(m, "certificate"@) is Some && text_field(m, "org_name"@) is Some
        && optional_ok(m, "app_name"@) {
        Some(
            built(
                text_field(m, "endpoint"@)->Some_0,
                text_field(m, "client_id"@)->Some_0,
                text_field(m, "client_secret"@)->Some_0,
                text_field(m, "certificate"@)->Some_0,
                text_field(m, "org_name"@)->Some_0,
                text_field(m, "app_name"@),
            ),
        )
    } else {
        None
    }
}

/// The outcome of loading a configuration from the text of a TOML document.
pub open spec fn loaded(text: Seq<char>) -> Result<ConfigView, ConfigError> {
    match document_entries(text) {
        None => Err(ConfigError::ParseError),
        Some(m) => match from_entries(m) {
            Some(v) => Ok(v),
            None => Err(ConfigError::ParseError),
        },
    }
}

/// The view of a result of loading.
pub open spec fn result_view(r: Result<CasdoorConfig, ConfigError>) -> Result<
    ConfigView,
    ConfigError,
> {
    match r {
        Ok(c) => Ok(c@),
        Err(e) => Err(e),
    }
}

/// A configuration loaded from a document holds the same certificate as one
/// built from fields, when the document's certificate is the text handed to
/// the builder.
pub proof fn lemma_load_and_build_agree(
    text: Seq<char>,
    endpoint: Seq<char>,
    client_id: Seq<char>,
    client_secret: Seq<char>,
    certificate: Seq<char>,
    org_name: Seq<char>,
    app_name: Option<Seq<char>>,
)
    requires
        loaded(text) is Ok,
        text_field(document_entries(text)->Some_0, "certificate"@) == Some(certificate),
    ensures
        loaded(text)->Ok_0.certificate == built(
            endpoint,
            client_id,
            client_secret,
            certificate,
            org_name,
            app_name,
        ).certificate,
{
}

/// The certificate that a configuration holds never reads `CERTIFICATE`.
pub proof fn lemma_built_certificate_rewritten(
    endpoint: Seq<char>,
    client_id: Seq<char>,
    client_secret: Seq<char>,
    certificate: Seq<char>,
    org_name: Seq<char>,
    app_name: Option<Seq<char>>,
)
    ensures
        !occurs_in(
            cert_label(),
            built(endpoint, client_id, client_secret, certificate, org_name, app_name).certificate,
        ),
{
    lemma_no_label_after_rewrite(certificate);
}

/// The six keys of a configuration table are distinct.
proof fn lemma_keys_differ()
    ensures
        "endpoint"@ != "client_id"@,
        "endpoint"@ != "client_secret"@,
        "endpoint"@ != "certificate"@,
        "endpoint"@ != "org_name"@,
        "endpoint"@ != "app_name"@,
        "client_id"@ != "client_secret"@,
        "client_id"@ != "certificate"@,
        "client_id"@ != "org_name"@,
        "client_id"@ != "app_name"@,
        "client_secret"@ != "certificate"@,
        "client_secret"@ != "org_name"@,
        "client_secret"@ != "app_name"@,
        "certificate"@ != "org_name"@,
        "certificate"@ != "app_name"@,
        "org_name"@ != "app_name"@,
{
    reveal_strlit("endpoint");
    reveal_strlit("client_id");
    reveal_strlit("client_secret");
    reveal_strlit("certificate");
    reveal_strlit("org_name");
    reveal_strlit("app_name");
    assert("endpoint"@[0] == 'e' && "client_id"@[1] == 'l' && "client_secret"@[1] == 'l');
    assert("certificate"@[0] == 'c' && "certificate"@[1] == 'e');
    assert("org_name"@[0] == 'o' && "app_name"@[0] == 'a');
    assert("client_id"@[7] == 'i' && "client_secret"@[7] == 's');
}

impl CasdoorConfig {
    /// Builds a configuration from its fields, rewriting the certificate's
    /// labels.
    pub fn new(
        endpoint: String,
        client_id: String,
        client_secret: String,
        certificate: String,
        org_name: String,
        app_name: Option<String>,
    ) -> (r: Self)
        ensures
            r@ == built(
                endpoint@,
                client_id@,
                client_secret@,
                certificate@,
                org_name@,
                opt_text(app_name),
            ),
    {
        CasdoorConfig {
            endpoint,
            client_id,
            client_secret,
            certificate: Self::replace_cert_to_pub_key(certificate),
            org_name,
            app_name,
        }
    }

    /// Rewrites every `CERTIFICATE` in the text as `PUBLIC KEY`, so that a
    /// certificate block reads as a public-key block.
    pub fn replace_cert_to_pub_key(certificate: String) -> (r: String)
        ensures
            r@ == to_public_key(certificate@),
    {
        proof {
            reveal_strlit("CERTIFICATE");
            reveal_strlit("PUBLIC KEY");
            assert("CERTIFICATE"@ =~= cert_label());
            assert("PUBLIC KEY"@ =~= key_label());
        }
        replace_all_matches(certificate.as_str(), "CERTIFICATE", "PUBLIC KEY")
    }

    /// Takes a required field out of the table.
    fn take_text(t: &mut toml::Table, key: &str) -> (r: Option<String>)
        ensures
            table_entries(*final(t)) == table_entries(*old(t)).remove(key@),
            opt_text(r) == text_field(table_entries(*old(t)), key@),
    {
        match take_entry(t, key) {
            Some(Some(s)) => Some(s),
            _ => None,
        }
    }

    /// Builds a configuration from the entries of a TOML table.
    pub fn from_table(table: toml::Table) -> (r: Result<Self, ConfigError>)
        ensures
            result_view(r) == match from_entries(table_entries(table)) {
                Some(v) => Ok(v),
                None => Err(ConfigError::ParseError),
            },
    {
        let mut t = table;
        let endpoint = Self::take_text(&mut t, "endpoint");
        let client_id = Self::take_text(&mut t, "client_id");
        let client_secret = Self::take_text(&mut t, "client_secret");
        let certificate = Self::take_text(&mut t, "certificate");
        let org_name = Self::take_text(&mut t, "org_name");
        let app_name = take_entry(&mut t, "app_name");
        proof {
            lemma_keys_differ();
        }
        match (endpoint, client_id, client_secret, certificate, org_name, app_name) {
            (Some(e), Some(i), Some(s), Some(c), Some(o), None) => Ok(
                Self::new(e, i, s, c, o, None),
            ),
            (Some(e), Some(i), Some(s), Some(c), Some(o), Some(Some(a))) => Ok(
                Self::new(e, i, s, c, o, Some(a)),
            ),
            _ => Err(ConfigError::ParseError),
        }
    }

    /// The base URL of the identity service.
    pub fn endpoint(&self) -> (r: &String)
        ensures
            r@ == self@.endpoint,
    {
        &self.endpoint
    }

    /// The public identifier of the client application.
    pub fn client_id(&self) -> (r: &String)
        ensures
            r@ == self@.client_id,
    {
        &self.client_id
    }

    /// The client's secret.
    pub fn client_secret(&self) -> (r: &String)
        ensures
            r@ == self@.client_secret,
    {
        &self.client_secret
    }

    /// The key block, with public-key labels.
    pub fn certificate(&self) -> (r: &String)
        ensures
            r@ == self@.certificate,
    {
        &self.certificate
    }

    /// The organization the client belongs to.
    pub fn org_name(&self) -> (r: &String)
        ensures
            r@ == self@.org_name,
    {
        &self.org_name
    }

    /// The application within the organization, if one is named.
    pub fn app_name(&self) -> (r: &Option<String>)
        ensures
            opt_text(*r) == self@.app_name,
    {
        &self.app_name
    }

    /// Loads a configuration from the text of a TOML document.
    pub fn from_toml_str(text: &str) -> (r: Result<Self, ConfigError>)
        ensures
            result_view(r) == loaded(text@),
    {
        match parse_table(text) {
            Ok(t) => Self::from_table(t),
            Err(_) => Err(ConfigError::ParseError),
        }
    }
}

} // verus!
