use vstd::prelude::*;

use lettre::transport::smtp::AsyncSmtpTransportBuilder;

use crate::transport::{ProbeRequest, TlsMode};

verus! {

#[verifier::external_type_specification]
#[verifier::external_body]
pub struct ExSmtpTransportBuilder(lettre::transport::smtp::AsyncSmtpTransportBuilder);

#[verifier::external_type_specification]
#[verifier::external_body]
pub struct ExSmtpError(lettre::transport::smtp::Error);

/// Relies on lettre's AsyncSmtpTransport::relay: a builder for an
/// implicit-TLS connection to `host`, failing when no TLS parameters can be
/// made for that host name.
#[verifier::external_body]
fn relay_builder(host: &str) -> (r: Result<AsyncSmtpTransportBuilder, lettre::transport::smtp::Error>) {
    lettre::AsyncSmtpTransport::<lettre::Tokio1Executor>::relay(host)
}

/// Relies on lettre's AsyncSmtpTransport::starttls_relay: a builder for a
/// plain connection to `host` that is upgraded with STARTTLS before login.
#[verifier::external_body]
fn starttls_relay_builder(host: &str) -> (r: Result<AsyncSmtpTransportBuilder, lettre::transport::smtp::Error>) {
    lettre::AsyncSmtpTransport::<lettre::Tokio1Executor>::starttls_relay(host)
}

/// Relies on lettre's AsyncSmtpTransportBuilder::port: sets the port to connect to.
#[verifier::external_body]
fn builder_port(builder: AsyncSmtpTransportBuilder, port: u16) -> (r: AsyncSmtpTransportBuilder) {
    builder.port(port)
}

/// Relies on lettre's AsyncSmtpTransportBuilder::timeout: sets the connect
/// timeout, here a whole number of seconds.
#[verifier::external_body]
fn builder_timeout(builder: AsyncSmtpTransportBuilder, secs: u64) -> (r: AsyncSmtpTransportBuilder) {
    builder.timeout(Some(std::time::Duration::from_secs(secs)))
}

/// Relies on lettre's AsyncSmtpTransportBuilder::credentials and
/// Credentials::new: attaches the login used to authenticate.
#[verifier::external_body]
fn builder_credentials(builder: AsyncSmtpTransportBuilder, username: String, password: String) -> (r:
    AsyncSmtpTransportBuilder) {
    builder.credentials(lettre::transport::smtp::authentication::Credentials::new(username, password))
}

/// Turns an attempt's description into a transport builder: implicit TLS or
/// STARTTLS by its mode, then its port, its timeout when it has one, and its
/// credentials. Fails only where the builder for the host cannot be made.
pub fn session_builder(req: &ProbeRequest) -> (r: Result<
    AsyncSmtpTransportBuilder,
    lettre::transport::smtp::Error,
>) {
    let base = match req.mode {
        TlsMode::TLS => relay_builder(req.host.as_str()),
        TlsMode::STARTTLS => starttls_relay_builder(req.host.as_str()),
    };
    let mut builder = match base {
        Ok(b) => b,
        Err(e) => {
            return Err(e);
        },
    };
    builder = builder_port(builder, req.port);
    match req.timeout_secs {
        Some(secs) => {
            builder = builder_timeout(builder, secs);
        },
        None => {},
    }
    Ok(builder_credentials(builder, req.username.clone(), req.password.clone()))
}

/// Whether text parses as a mail address with an optional display name.
pub uninterp spec fn is_mailbox(text: Seq<char>) -> bool;

/// Relies on lettre's `FromStr` for `Mailbox`: whether the text parses as a
/// mailbox, which depends on the text alone.
#[verifier::external_body]
fn parses_as_mailbox(text: &str) -> (r: bool)
    ensures
        r == is_mailbox(text@),
{
    text.parse::<lettre::message::Mailbox>().is_ok()
}

/// The addresses of `send_to` that parse as mailboxes, in their order.
pub open spec fn mailboxes_only(send_to: Seq<Seq<char>>) -> Seq<Seq<char>>
    decreases send_to.len(),
{
    if send_to.len() == 0 {
        Seq::empty()
    } else {
        let rest = mailboxes_only(send_to.drop_last());
        if is_mailbox(send_to.last()) {
            rest.push(send_to.last())
        } else {
            rest
        }
    }
}

pub open spec fn string_views(v: Seq<String>) -> Seq<Seq<char>> {
    v.map_values(|s: String| s@)
}

/// Who a message goes to: `None` when the sender does not parse as a mailbox
/// (nothing can be sent); otherwise the recipients that parse, in their
/// order, each bad one skipped so that it cannot block the others.
pub fn envelope_recipients(from: &String, send_to: &Vec<String>) -> (r: Option<Vec<String>>)
    ensures
        !is_mailbox(from@) ==> r is None,
        is_mailbox(from@) ==> r is Some && string_views(r->0@) == mailboxes_only(
            string_views(send_to@),
        ),
{
    if !parses_as_mailbox(from.as_str()) {
        return None;
    }
    let ghost all = string_views(send_to@);
    let mut kept: Vec<String> = Vec::new();
    let mut i: usize = 0;
    while i < send_to.len()
        invariant
            i <= send_to@.len(),
            all == string_views(send_to@),
            string_views(kept@) == mailboxes_only(all.take(i as int)),
        decreases send_to@.len() - i,
    {
        assert(all.take(i + 1).drop_last() =~= all.take(i as int));
        let address = &send_to[i];
        if parses_as_mailbox(address.as_str()) {
            kept.push(address.clone());
            assert(string_views(kept@) =~= mailboxes_only(all.take(i as int)).push(all[i as int]));
        }
        i = i + 1;
    }
    assert(all.take(i as int) =~= all);
    Some(kept)
}

} // verus!
