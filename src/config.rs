//! Listener configurations and their narrowing to one protocol.
use vstd::prelude::*;

verus! {

/// The protocol a listener serves.
#[derive(Debug, Clone, Copy, PartialEq, Eq, Structural)]
pub enum ListenerType {
    HTTP,
    HTTPS,
    TCP,
}

/// The configuration of one logical listener, handed to each of its workers.
#[derive(Debug, Clone, PartialEq, Eq)]
pub struct ListenerConfig {
    pub listener_type: ListenerType,
    pub address: String,
    pub port: u16,
    /// How many worker processes serve the listener; one when absent.
    pub worker_count: Option<u16>,
    pub answer_404: Option<String>,
    pub answer_503: Option<String>,
    /// TLS certificate, required for HTTPS.
    pub certificate: Option<String>,
    /// TLS private key, required for HTTPS.
    pub key: Option<String>,
}

/// The part of a configuration that an HTTP listener runs on.
#[derive(Debug, Clone, PartialEq, Eq)]
pub struct HttpListenerConfig {
    pub address: String,
    pub port: u16,
    pub answer_404: Option<String>,
    pub answer_503: Option<String>,
}

/// The part of a configuration that a TLS listener runs on.
#[derive(Debug, Clone, PartialEq, Eq)]
pub struct TlsListenerConfig {
    pub address: String,
    pub port: u16,
    pub answer_404: Option<String>,
    pub answer_503: Option<String>,
    pub certificate: String,
    pub key: String,
}

/// Copies an optional string.
pub fn copy_text(o: &Option<String>) -> (r: Option<String>)
    ensures
        r == *o,
{
    match o {
        Some(s) => Some(s.clone()),
        None => None,
    }
}

impl ListenerConfig {
    /// Whether the configuration narrows to an HTTP listener: it is one, with an address.
    pub open spec fn is_http(&self) -> bool {
        self.listener_type == ListenerType::HTTP && self.address@.len() > 0
    }

    /// Whether the configuration narrows to a TLS listener: it is an HTTPS
    /// one, with an address, a certificate and a key.
    pub open spec fn is_tls(&self) -> bool {
        &&& self.listener_type == ListenerType::HTTPS
        &&& self.address@.len() > 0
        &&& self.certificate.is_some()
        &&& self.key.is_some()
    }

    /// Whether the configuration narrows to a protocol that workers can serve.
    pub open spec fn narrows(&self) -> bool {
        self.is_http() || self.is_tls()
    }

    /// The number of workers to start: the configured count, one when absent,
    /// and never fewer than one.
    pub open spec fn spec_workers(&self) -> nat {
        match self.worker_count {
            Some(n) => if n == 0 { 1 } else { n as nat },
            None => 1,
        }
    }

    /// See `spec_workers`.
    pub fn workers(&self) -> (r: u16)
        ensures
            r as nat == self.spec_workers(),
            r >= 1,
    {
        match self.worker_count {
            Some(n) => if n == 0 { 1 } else { n },
            None => 1,
        }
    }

    /// The HTTP part of the configuration, when it is an HTTP one with an address.
    pub fn to_http(&self) -> (r: Option<HttpListenerConfig>)
        ensures
            r.is_some() == self.is_http(),
            r matches Some(h) ==> {
                &&& h.address == self.address
                &&& h.port == self.port
                &&& h.answer_404 == self.answer_404
                &&& h.answer_503 == self.answer_503
            },
    {
        if self.listener_type == ListenerType::HTTP && !self.address.as_str().is_empty() {
            Some(HttpListenerConfig {
                address: self.address.clone(),
                port: self.port,
                answer_404: copy_text(&self.answer_404),
                answer_503: copy_text(&self.answer_503),
            })
        } else {
            None
        }
    }

    /// The TLS part of the configuration, when it is an HTTPS one with an
    /// address, a certificate and a key.
    pub fn to_tls(&self) -> (r: Option<TlsListenerConfig>)
        ensures
            r.is_some() == self.is_tls(),
            r matches Some(t) ==> {
                &&& t.address == self.address
                &&& t.port == self.port
                &&& t.answer_404 == self.answer_404
                &&& t.answer_503 == self.answer_503
                &&& Some(t.certificate) == self.certificate
                &&& Some(t.key) == self.key
            },
    {
        if self.listener_type != ListenerType::HTTPS || self.address.as_str().is_empty() {
            return None;
        }
        match (&self.certificate, &self.key) {
            (Some(certificate), Some(key)) => Some(TlsListenerConfig {
                address: self.address.clone(),
                port: self.port,
                answer_404: copy_text(&self.answer_404),
                answer_503: copy_text(&self.answer_503),
                certificate: certificate.clone(),
                key: key.clone(),
            }),
            _ => None,
        }
    }
}

} // verus!
