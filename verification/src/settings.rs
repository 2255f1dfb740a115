//! The service's configuration, as the loader hands it over.

use std::time::Duration;

use vstd::prelude::*;
use vstd::string::StringExecFns;

use crate::text::{decimal, opt_str, pair_texts, push_decimal, texts};

verus! {

/// The run mode of a service that was started without one.
pub const DEFAULT_RUN_MODE: &'static str = "dev";

/// What the service was configured with.
#[derive(Debug)]
pub struct Settings {
    pub debug: Option<bool>,
    pub serve: Serve,
    pub otlp: Option<Otlp>,
}

/// Where the service listens.
#[derive(Debug)]
pub struct Serve {
    host: String,
    port: u16,
}

/// What a [`Serve`] holds.
pub ghost struct ServeView {
    pub host: Seq<char>,
    pub port: int,
}

/// Where spans are exported to, and with which credentials.
#[derive(Debug)]
pub struct Otlp {
    pub endpoint: String,
    pub interval: Option<Duration>,
    pub token: Option<String>,
    pub organization: Option<String>,
    pub stream: Option<String>,
}

impl View for Serve {
    type V = ServeView;

    closed spec fn view(&self) -> ServeView {
        ServeView { host: self.host@, port: self.port as int }
    }
}

impl Serve {
    /// A listener on `host`, port `port`.
    pub fn new(host: String, port: u16) -> (r: Self)
        ensures
            r@ == (ServeView { host: host@, port: port as int }),
    {
        Serve { host, port }
    }

    /// The host to listen on.
    pub fn host(&self) -> (r: &str)
        ensures
            r@ == self@.host,
    {
        self.host.as_str()
    }

    /// The port to listen on.
    pub fn port(&self) -> (r: u16)
        ensures
            r == self@.port,
    {
        self.port
    }

    /// The address to bind: the host, a colon, and the port in decimal.
    pub fn addr(&self) -> (r: String)
        ensures
            0 <= self@.port,
            r@ == self@.host + seq![':'] + decimal(self@.port as nat),
    {
        proof {
            reveal_strlit(":");
        }
        let mut r = self.host.clone();
        r.append(":");
        assert(r@ =~= self@.host + seq![':']);
        push_decimal(&mut r, self.port);
        r
    }
}

/// The configuration files of run mode `mode`, in the order in which they
/// are read, a later one overriding an earlier one: the defaults, the
/// mode's own file, the local overrides.
pub open spec fn config_file_names(mode: Seq<char>) -> Seq<Seq<char>> {
    seq!["config/default"@, "config/"@ + mode, "config/local"@]
}

/// The run mode in force: the one that was asked for, or the default.
pub open spec fn run_mode_or_default(run_mode: Option<Seq<char>>) -> Seq<char> {
    match run_mode {
        Some(mode) => mode,
        None => DEFAULT_RUN_MODE@,
    }
}

impl Settings {
    /// The configuration files to read, in order, for a service started in
    /// `run_mode`, or in the default mode where none was given.
    pub fn config_files(run_mode: Option<&str>) -> (r: Vec<String>)
        ensures
            texts(r@) == config_file_names(run_mode_or_default(opt_str(run_mode))),
    {
        let mode: &str = match run_mode {
            Some(mode) => mode,
            None => DEFAULT_RUN_MODE,
        };
        let mut r: Vec<String> = Vec::new();
        r.push(String::from_str("config/default"));
        r.push(String::from_str("config/").concat(mode));
        r.push(String::from_str("config/local"));
        assert(texts(r@) =~= config_file_names(run_mode_or_default(opt_str(run_mode))));
        r
    }

    /// Whether the service runs in debug mode. It does not unless it was
    /// told to.
    pub fn is_debug(&self) -> (r: bool)
        ensures
            r == (self.debug == Some(true)),
    {
        match self.debug {
            Some(debug) => debug,
            None => false,
        }
    }
}

/// The scheme under which the exporter's token is sent: the token is a
/// bearer token.
pub const AUTHORIZATION_SCHEME: &'static str = "Bearer ";

impl Otlp {
    /// The metadata that goes out with every export, as names and values.
    /// Credentials are sent whole or not at all: with a token, an
    /// organization and a stream, the three headers; with any of them
    /// missing, none.
    pub open spec fn spec_metadata(self) -> Seq<(Seq<char>, Seq<char>)> {
        match (self.token, self.organization, self.stream) {
            (Some(token), Some(organization), Some(stream)) => seq![
                ("authorization"@, AUTHORIZATION_SCHEME@ + token@),
                ("organization"@, organization@),
                ("stream-name"@, stream@),
            ],
            _ => Seq::empty(),
        }
    }

    /// The metadata to send with every export.
    pub fn metadata(&self) -> (r: Vec<(String, String)>)
        ensures
            pair_texts(r@) == self.spec_metadata(),
    {
        let mut r: Vec<(String, String)> = Vec::new();
        match (&self.token, &self.organization, &self.stream) {
            (Some(token), Some(organization), Some(stream)) => {
                r.push(
                    (
                        String::from_str("authorization"),
                        String::from_str(AUTHORIZATION_SCHEME).concat(token.as_str()),
                    ),
                );
                r.push((String::from_str("organization"), organization.clone()));
                r.push((String::from_str("stream-name"), stream.clone()));
            },
            _ => {},
        }
        assert(pair_texts(r@) =~= self.spec_metadata());
        r
    }
}

} // verus!
