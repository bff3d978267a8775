//! The log shipper's settings: the watched logs, the Kafka account, the
//! trace server it uploads to, and the static login account.
use vstd::prelude::*;

use crate::common::models::LogInfo;
use crate::common::text::{concat2, starts_with};
use crate::ntex_auth::StaticOauth;

verus! {

broadcast use vstd::string::group_string_axioms;

/// A Kafka account: broker, topic, user name and password.
#[derive(Debug, Clone)]
pub struct KafkaConfig {
    broker: String,
    topic: String,
    username: String,
    password: String,
}

impl KafkaConfig {
    /// The broker address.
    pub closed spec fn broker_text(&self) -> Seq<char> {
        self.broker@
    }

    /// The topic.
    pub closed spec fn topic_text(&self) -> Seq<char> {
        self.topic@
    }

    /// The user name.
    pub closed spec fn username_text(&self) -> Seq<char> {
        self.username@
    }

    /// The password.
    pub closed spec fn password_text(&self) -> Seq<char> {
        self.password@
    }

    /// A Kafka account with the given values.
    pub fn new(broker: String, topic: String, username: String, password: String) -> (r: KafkaConfig)
        ensures
            r.broker_text() == broker@,
            r.topic_text() == topic@,
            r.username_text() == username@,
            r.password_text() == password@,
    {
        KafkaConfig { broker, topic, username, password }
    }

    /// The broker address.
    pub fn get_broker(&self) -> (r: &String)
        ensures
            r@ == self.broker_text(),
    {
        &self.broker
    }

    /// The topic.
    pub fn get_topic(&self) -> (r: &String)
        ensures
            r@ == self.topic_text(),
    {
        &self.topic
    }

    /// The user name.
    pub fn get_username(&self) -> (r: &String)
        ensures
            r@ == self.username_text(),
    {
        &self.username
    }

    /// The password.
    pub fn get_password(&self) -> (r: &String)
        ensures
            r@ == self.password_text(),
    {
        &self.password
    }
}

/// The trace server: its address and the paths of the upload and login
/// endpoints.
#[derive(Debug, Clone)]
pub struct RemoteServerConfig {
    server_domain: String,
    upload_uri: String,
    auth_uri: String,
}

/// An endpoint path joined to the server address: directly when the path
/// starts with `/`, with a `/` between them otherwise.
pub open spec fn with_domain_text(domain: Seq<char>, uri: Seq<char>) -> Seq<char> {
    if uri.len() > 0 && uri[0] == '/' {
        domain + uri
    } else {
        domain + "/"@ + uri
    }
}

impl RemoteServerConfig {
    /// The server address.
    pub closed spec fn server_domain_text(&self) -> Seq<char> {
        self.server_domain@
    }

    /// The path of the upload endpoint.
    pub closed spec fn upload_uri_text(&self) -> Seq<char> {
        self.upload_uri@
    }

    /// The path of the login endpoint.
    pub closed spec fn auth_uri_text(&self) -> Seq<char> {
        self.auth_uri@
    }

    /// A trace server with the given address and endpoint paths.
    pub fn new(server_domain: String, upload_uri: String, auth_uri: String) -> (r: RemoteServerConfig)
        ensures
            r.server_domain_text() == server_domain@,
            r.upload_uri_text() == upload_uri@,
            r.auth_uri_text() == auth_uri@,
    {
        RemoteServerConfig { server_domain, upload_uri, auth_uri }
    }

    /// The server address.
    pub fn get_server_domain(&self) -> (r: &String)
        ensures
            r@ == self.server_domain_text(),
    {
        &self.server_domain
    }

    /// The path of the upload endpoint, as configured.
    pub fn get_upload_path(&self) -> (r: &String)
        ensures
            r@ == self.upload_uri_text(),
    {
        &self.upload_uri
    }

    /// The path of the login endpoint, as configured.
    pub fn get_auth_path(&self) -> (r: &String)
        ensures
            r@ == self.auth_uri_text(),
    {
        &self.auth_uri
    }

    /// The address of the upload endpoint.
    pub fn get_upload_uri(&self) -> (r: String)
        ensures
            r@ == with_domain_text(self.server_domain_text(), self.upload_uri_text()),
    {
        self.with_domain(&self.upload_uri)
    }

    /// The address of the login endpoint.
    pub fn get_auth_uri(&self) -> (r: String)
        ensures
            r@ == with_domain_text(self.server_domain_text(), self.auth_uri_text()),
    {
        self.with_domain(&self.auth_uri)
    }

    /// Joins an endpoint path to the server address.
    pub fn with_domain(&self, uri: &String) -> (r: String)
        ensures
            r@ == with_domain_text(self.server_domain_text(), uri@),
    {
        proof {
            reveal_strlit("/");
        }
        if starts_with(uri.as_str(), "/") {
            assert(uri@.subrange(0, 1) == "/"@);
            assert(uri@[0] == uri@.subrange(0, 1)[0]);
            concat2(self.server_domain.as_str(), uri.as_str())
        } else {
            proof {
                if uri@.len() > 0 && uri@[0] == '/' {
                    assert(uri@.subrange(0, 1) =~= "/"@);
                }
            }
            let mut r = concat2(self.server_domain.as_str(), "/");
            r.append(uri.as_str());
            r
        }
    }
}

/// An endpoint address is the server address, one `/`, and the endpoint
/// path without its leading `/`.
pub proof fn law_endpoint_address_has_one_separator(domain: Seq<char>, uri: Seq<char>)
    ensures
        with_domain_text(domain, uri) == domain + "/"@ + (if uri.len() > 0 && uri[0] == '/' {
            uri.drop_first()
        } else {
            uri
        }),
{
    reveal_strlit("/");
    if uri.len() > 0 && uri[0] == '/' {
        assert(uri =~= "/"@ + uri.drop_first());
        assert(domain + uri =~= domain + "/"@ + uri.drop_first());
    }
}

/// The log shipper's settings.
#[derive(Debug, Clone)]
pub struct Settings {
    pub debug: bool,
    pub store_path: String,
    pub log_infos: Vec<LogInfo>,
    pub kafka_config: KafkaConfig,
    pub remote_server: RemoteServerConfig,
    pub static_oauth: StaticOauth,
}

impl Settings {
    /// Settings with the given values.
    pub fn new(
        debug: bool,
        store_path: String,
        log_infos: Vec<LogInfo>,
        kafka_config: KafkaConfig,
        remote_server: RemoteServerConfig,
        static_oauth: StaticOauth,
    ) -> (r: Settings)
        ensures
            r.debug == debug,
            r.store_path == store_path,
            r.log_infos == log_infos,
            r.kafka_config == kafka_config,
            r.remote_server == remote_server,
            r.static_oauth == static_oauth,
    {
        Settings { debug, store_path, log_infos, kafka_config, remote_server, static_oauth }
    }

    /// Whether debug logging is on.
    pub fn is_debug(&self) -> (r: bool)
        ensures
            r == self.debug,
    {
        self.debug
    }

    /// The directory of the shipper's own logs.
    pub fn store_path(&self) -> (r: &String)
        ensures
            *r == self.store_path,
    {
        &self.store_path
    }
}

} // verus!
