//! Decisions taken by a worker process when it starts: receiving its
//! configuration over the inherited channel, its label, and which listener
//! it runs.
use vstd::prelude::*;
use vstd::string::StringExecFns;
use crate::channel::{ChannelError, CommandChannel, read_outcome};
use crate::config::{HttpListenerConfig, ListenerConfig, ListenerType, TlsListenerConfig};

verus! {

/// Why a worker cannot run.
#[derive(Debug, PartialEq, Eq, Clone, Copy)]
pub enum WorkerError {
    /// No usable configuration came over the inherited channel.
    ConfigHandshake(ChannelError),
    /// The configuration names a protocol that workers do not serve.
    UnsupportedListener(ListenerType),
}

/// The listener a worker runs once it has its configuration.
pub enum WorkerStart {
    Http(HttpListenerConfig),
    Tls(TlsListenerConfig),
    /// The configuration is of a served protocol but does not narrow to it.
    Nothing,
}

/// The label of a worker: its tag and its id, joined by a dash.
pub fn worker_label(tag: &str, id: &str) -> (r: String)
    ensures
        r@ == tag@ + seq!['-'] + id@,
{
    let mut label = tag.to_owned();
    let dash = "-";
    proof {
        reveal_strlit("-");
    }
    label.append(dash);
    label.append(id);
    label
}

/// One step of the handshake on the worker's side: the bytes of the
/// configuration once a whole message has arrived, `Ok(None)` while it has
/// not, and a handshake error when the channel fails before it arrives.
pub fn receive_config<Tx, Rx>(channel: &mut CommandChannel<Tx, Rx>) -> (r: Result<Option<Vec<u8>>, WorkerError>)
    requires
        old(channel).wf(),
    ensures
        final(channel).wf(),
        final(channel)@ == read_outcome(old(channel)@).0,
        match (r, read_outcome(old(channel)@).1) {
            (Ok(Some(m)), Ok(Some(p))) => m@ == p,
            (Ok(None), Ok(None)) => true,
            (Err(WorkerError::ConfigHandshake(e)), Err(f)) => e == f,
            _ => false,
        },
{
    match channel.read_message() {
        Ok(m) => Ok(m),
        Err(e) => Err(WorkerError::ConfigHandshake(e)),
    }
}

/// The listener to run for a received configuration: the HTTP or TLS part
/// of it, nothing when it does not narrow to its protocol, and an error for
/// a protocol that workers do not serve.
pub fn worker_start(config: &ListenerConfig) -> (r: Result<WorkerStart, WorkerError>)
    ensures
        config.listener_type == ListenerType::TCP <==> r == Err::<WorkerStart, WorkerError>(
            WorkerError::UnsupportedListener(ListenerType::TCP),
        ),
        config.listener_type == ListenerType::HTTP ==> match r {
            Ok(WorkerStart::Http(h)) => config.is_http() && h.address == config.address && h.port == config.port
                && h.answer_404 == config.answer_404 && h.answer_503 == config.answer_503,
            Ok(WorkerStart::Nothing) => !config.is_http(),
            _ => false,
        },
        config.listener_type == ListenerType::HTTPS ==> match r {
            Ok(WorkerStart::Tls(t)) => config.is_tls() && t.address == config.address && t.port == config.port
                && t.answer_404 == config.answer_404 && t.answer_503 == config.answer_503
                && Some(t.certificate) == config.certificate && Some(t.key) == config.key,
            Ok(WorkerStart::Nothing) => !config.is_tls(),
            _ => false,
        },
{
    match config.listener_type {
        ListenerType::HTTP => match config.to_http() {
            Some(h) => Ok(WorkerStart::Http(h)),
            None => Ok(WorkerStart::Nothing),
        },
        ListenerType::HTTPS => match config.to_tls() {
            Some(t) => Ok(WorkerStart::Tls(t)),
            None => Ok(WorkerStart::Nothing),
        },
        ListenerType::TCP => Err(WorkerError::UnsupportedListener(ListenerType::TCP)),
    }
}

} // verus!
