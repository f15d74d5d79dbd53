//! What the client says of itself when a stream opens, and the two requests
//! that this core builds on its own: the setup handshake and the liveness
//! probe.

use crate::payload::{
    clone_pairs, distinct_names, headers_view, text_bytes, Payload, PayloadUtils, PayloadView,
};
use vstd::prelude::*;

verus! {

/// Type tag of the setup handshake.
pub open spec fn setup_request_type() -> Seq<char> {
    "ConnectionSetupRequest"@
}

/// Type tag of the liveness probe.
pub open spec fn server_check_type() -> Seq<char> {
    "ServerCheckRequest"@
}

/// Body of the liveness probe: the empty JSON object.
pub open spec fn server_check_body() -> Seq<char> {
    "{}"@
}

/// Label under which the client names its application.
pub open spec fn default_label_name() -> Seq<char> {
    "AppName"@
}

/// Default application name.
pub open spec fn default_app_name() -> Seq<char> {
    "rust_nacos_client"@
}

/// Default client version.
pub open spec fn default_client_version() -> Seq<char> {
    "0.3."@
}

/// Default client address.
pub open spec fn default_client_ip() -> Seq<char> {
    "127.0.0.1"@
}

/// An optional text as an optional character sequence.
pub open spec fn text_option_view(text: Option<String>) -> Option<Seq<char>> {
    match text {
        Some(t) => Some(t@),
        None => None,
    }
}

/// Body of the setup handshake before it is serialised: the labels, a map
/// from name to value kept as a list in which no name occurs twice, and the
/// client's version.
#[derive(Debug, PartialEq, Eq)]
pub struct ConnectionSetupRequest {
    labels: Vec<(String, String)>,
    client_version: Option<String>,
}

/// Mathematical value of a [`ConnectionSetupRequest`].
pub struct ConnectionSetupRequestView {
    pub labels: Seq<(Seq<char>, Seq<char>)>,
    pub client_version: Option<Seq<char>>,
}

impl View for ConnectionSetupRequest {
    type V = ConnectionSetupRequestView;

    closed spec fn view(&self) -> ConnectionSetupRequestView {
        ConnectionSetupRequestView {
            labels: headers_view(self.labels@),
            client_version: text_option_view(self.client_version),
        }
    }
}

/// Copy of an optional text.
pub fn clone_text_option(text: &Option<String>) -> (copy: Option<String>)
    ensures
        text_option_view(copy) == text_option_view(*text),
{
    match text {
        Some(t) => Some(t.clone()),
        None => None,
    }
}

impl Clone for ConnectionSetupRequest {
    fn clone(&self) -> (copy: ConnectionSetupRequest)
        ensures
            copy@ == self@,
    {
        proof {
            use_type_invariant(self);
        }
        ConnectionSetupRequest {
            labels: clone_pairs(&self.labels),
            client_version: clone_text_option(&self.client_version),
        }
    }
}

impl ConnectionSetupRequest {
    #[verifier::type_invariant]
    spec fn names_occur_once(&self) -> bool {
        distinct_names(headers_view(self.labels@))
    }

    /// The request with these labels and this version, where no label name
    /// occurs twice; `None` where one does.
    pub fn new(labels: Vec<(String, String)>, client_version: Option<String>) -> (r: Option<
        ConnectionSetupRequest,
    >)
        ensures
            r.is_some() == distinct_names(headers_view(labels@)),
            r matches Some(request) ==> request@ == (ConnectionSetupRequestView {
                labels: headers_view(labels@),
                client_version: text_option_view(client_version),
            }),
    {
        if PayloadUtils::has_distinct_names(&labels) {
            Some(ConnectionSetupRequest { labels, client_version })
        } else {
            None
        }
    }

    /// The labels, in which no name occurs twice.
    pub fn labels(&self) -> (labels: &Vec<(String, String)>)
        ensures
            headers_view(labels@) == self@.labels,
            distinct_names(self@.labels),
    {
        proof {
            use_type_invariant(self);
        }
        &self.labels
    }

    /// The client's version, if it gives one.
    pub fn client_version(&self) -> (version: &Option<String>)
        ensures
            text_option_view(*version) == self@.client_version,
    {
        &self.client_version
    }

    /// The request taken apart: labels and version.
    pub fn into_parts(self) -> (parts: (Vec<(String, String)>, Option<String>))
        ensures
            headers_view(parts.0@) == self@.labels,
            distinct_names(self@.labels),
            text_option_view(parts.1) == self@.client_version,
    {
        proof {
            use_type_invariant(&self);
        }
        (self.labels, self.client_version)
    }
}

/// How the client identifies itself: its labels, a map from name to value
/// kept as a list in which no name occurs twice, its version and its address.
/// `Default` gives the label `AppName` = `rust_nacos_client`, version `0.3.`
/// and address `127.0.0.1`.
#[derive(Debug, PartialEq, Eq)]
pub struct ClientConfig {
    labels: Vec<(String, String)>,
    client_version: Option<String>,
    client_ip: String,
}

/// Mathematical value of a [`ClientConfig`].
pub struct ClientConfigView {
    pub labels: Seq<(Seq<char>, Seq<char>)>,
    pub client_version: Option<Seq<char>>,
    pub client_ip: Seq<char>,
}

impl View for ClientConfig {
    type V = ClientConfigView;

    closed spec fn view(&self) -> ClientConfigView {
        ClientConfigView {
            labels: headers_view(self.labels@),
            client_version: text_option_view(self.client_version),
            client_ip: self.client_ip@,
        }
    }
}

/// The defaults as a value.
pub open spec fn default_config() -> ClientConfigView {
    ClientConfigView {
        labels: seq![(default_label_name(), default_app_name())],
        client_version: Some(default_client_version()),
        client_ip: default_client_ip(),
    }
}

impl Default for ClientConfig {
    fn default() -> (config: ClientConfig)
        ensures
            config@ == default_config(),
    {
        let mut labels: Vec<(String, String)> = Vec::new();
        labels.push(("AppName".to_owned(), "rust_nacos_client".to_owned()));
        assert(headers_view(labels@) =~= seq![(default_label_name(), default_app_name())]);
        ClientConfig {
            labels,
            client_version: Some("0.3.".to_owned()),
            client_ip: "127.0.0.1".to_owned(),
        }
    }
}

impl Clone for ClientConfig {
    fn clone(&self) -> (copy: ClientConfig)
        ensures
            copy@ == self@,
    {
        proof {
            use_type_invariant(self);
        }
        ClientConfig {
            labels: clone_pairs(&self.labels),
            client_version: clone_text_option(&self.client_version),
            client_ip: self.client_ip.clone(),
        }
    }
}

impl ClientConfig {
    #[verifier::type_invariant]
    spec fn names_occur_once(&self) -> bool {
        distinct_names(headers_view(self.labels@))
    }

    /// The configuration with these labels, this version and this address,
    /// where no label name occurs twice; `None` where one does.
    pub fn new(
        labels: Vec<(String, String)>,
        client_version: Option<String>,
        client_ip: String,
    ) -> (r: Option<ClientConfig>)
        ensures
            r.is_some() == distinct_names(headers_view(labels@)),
            r matches Some(config) ==> config@ == (ClientConfigView {
                labels: headers_view(labels@),
                client_version: text_option_view(client_version),
                client_ip: client_ip@,
            }),
    {
        if PayloadUtils::has_distinct_names(&labels) {
            Some(ClientConfig { labels, client_version, client_ip })
        } else {
            None
        }
    }

    /// The labels, in which no name occurs twice.
    pub fn labels(&self) -> (labels: &Vec<(String, String)>)
        ensures
            headers_view(labels@) == self@.labels,
            distinct_names(self@.labels),
    {
        proof {
            use_type_invariant(self);
        }
        &self.labels
    }

    /// The client's version, if it gives one.
    pub fn client_version(&self) -> (version: &Option<String>)
        ensures
            text_option_view(*version) == self@.client_version,
    {
        &self.client_version
    }

    /// The address that the client gives as its own.
    pub fn client_ip(&self) -> (ip: &String)
        ensures
            ip@ == self@.client_ip,
    {
        &self.client_ip
    }

    /// The setup request that this configuration stands for: its labels and
    /// its version.
    pub fn setup_request(&self) -> (request: ConnectionSetupRequest)
        ensures
            request@ == (ConnectionSetupRequestView {
                labels: self@.labels,
                client_version: self@.client_version,
            }),
            distinct_names(request@.labels),
    {
        proof {
            use_type_invariant(self);
        }
        ConnectionSetupRequest {
            labels: clone_pairs(&self.labels),
            client_version: clone_text_option(&self.client_version),
        }
    }

    /// The setup handshake: the full envelope with the setup type tag, the
    /// serialised request as body, this client's address and no headers.
    pub fn setup_payload(&self, body: String) -> (p: Payload)
        ensures
            p@ == setup_envelope(self@.client_ip, body@),
    {
        let headers: Vec<(String, String)> = Vec::new();
        assert(headers_view(headers@) =~= Seq::<(Seq<char>, Seq<char>)>::empty());
        PayloadUtils::build_full_payload(
            "ConnectionSetupRequest",
            body,
            self.client_ip.as_str(),
            headers,
        )
    }
}

/// Value of the setup handshake for a client address and a serialised body.
pub open spec fn setup_envelope(client_ip: Seq<char>, body: Seq<char>) -> PayloadView {
    PayloadView {
        type_tag: setup_request_type(),
        client_ip,
        headers: Seq::<(Seq<char>, Seq<char>)>::empty(),
        body: text_bytes(body),
    }
}

/// Value of the liveness probe.
pub open spec fn server_check_envelope() -> PayloadView {
    PayloadView {
        type_tag: server_check_type(),
        client_ip: Seq::<char>::empty(),
        headers: Seq::<(Seq<char>, Seq<char>)>::empty(),
        body: text_bytes(server_check_body()),
    }
}

/// The liveness probe: type tag `ServerCheckRequest`, the empty JSON object
/// as body, nothing else.
pub fn server_check_payload() -> (p: Payload)
    ensures
        p@ == server_check_envelope(),
{
    PayloadUtils::build_payload("ServerCheckRequest", "{}".to_owned())
}

} // verus!
