//! Client configuration: address-family preference, trust anchor selection,
//! and assembly of the immutable configuration record.

use vstd::prelude::*;

verus! {

/// Which IP address family the key-establishment phase must use.
///
/// `NoPreference` leaves the choice to the collaborator, which probes both
/// families and picks one that works.
#[derive(Clone, Copy, Debug, PartialEq, Eq, Structural)]
pub enum AddrPreference {
    ForceIpv4,
    ForceIpv6,
    NoPreference,
}

/// The preference derived from the two mutually exclusive command flags.
/// `ipv4` wins over `ipv6` whenever both are set, so the result is
/// deterministic even if the flag layer failed to reject that combination.
pub open spec fn addr_preference_of(ipv4: bool, ipv6: bool) -> AddrPreference {
    if ipv4 {
        AddrPreference::ForceIpv4
    } else if ipv6 {
        AddrPreference::ForceIpv6
    } else {
        AddrPreference::NoPreference
    }
}

/// Derives the address-family preference from the two command flags.
pub fn resolve_addr_preference(ipv4: bool, ipv6: bool) -> (r: AddrPreference)
    ensures
        r == addr_preference_of(ipv4, ipv6),
{
    if ipv4 {
        AddrPreference::ForceIpv4
    } else if ipv6 {
        AddrPreference::ForceIpv6
    } else {
        AddrPreference::NoPreference
    }
}

/// Setting `ipv4` forces IPv4 no matter what the `ipv6` flag says.
pub proof fn lemma_ipv4_priority(ipv6: bool)
    ensures
        addr_preference_of(true, ipv6) == AddrPreference::ForceIpv4,
{
}

/// A trust anchor: one certificate, carried as its encoded bytes. The bytes
/// are opaque to this layer; only the key-establishment collaborator reads
/// them.
#[derive(Clone, Debug, PartialEq, Eq)]
pub struct Certificate {
    pub der: Vec<u8>,
}

impl View for Certificate {
    type V = Seq<u8>;

    open spec fn view(&self) -> Seq<u8> {
        self.der@
    }
}

/// Why a supplied certificate bundle yielded no certificates.
#[derive(Clone, Copy, Debug, PartialEq, Eq, Structural)]
pub enum CertLoadError {
    /// The file could not be read.
    Unreadable,
    /// The file was read but held no parseable certificate.
    Malformed,
}

/// Selects the trust anchor from the outcome of loading a certificate
/// bundle: the bundle's first certificate, when there is one.
///
/// `loaded` is `None` when no bundle path was supplied. A load failure, or a
/// bundle with no certificates, is deliberately swallowed: the run proceeds
/// with no trust anchor rather than aborting.
pub fn select_trust_anchor(loaded: Option<Result<Vec<Certificate>, CertLoadError>>) -> (r: Option<
    Certificate,
>)
    ensures
        r is Some <==> (loaded matches Some(Ok(certs)) && certs@.len() > 0),
        loaded matches Some(Ok(certs)) ==> (if certs@.len() > 0 {
            r == Some(certs@[0])
        } else {
            r is None
        }),
        loaded is None ==> r is None,
{
    match loaded {
        Some(Ok(mut certs)) => if certs.len() > 0 {
            Some(certs.remove(0))
        } else {
            None
        },
        _ => None,
    }
}

/// The immutable client configuration: sole input to the key-establishment
/// phase. Owned by the orchestrator for the duration of one run.
#[derive(Clone, Debug, PartialEq, Eq)]
pub struct ClientConfig {
    /// Key-establishment server host name or address. Never empty.
    pub host: String,
    /// Optional key-establishment server port override.
    pub port: Option<String>,
    /// Optional trust anchor for the TLS phase.
    pub trusted_cert: Option<Certificate>,
    /// Which address family to use, if any was forced.
    pub addr_preference: AddrPreference,
}

impl ClientConfig {
    /// A configuration is well formed when its host is non-empty.
    pub open spec fn wf(self) -> bool {
        self.host@.len() > 0
    }
}

/// Assembles the client configuration from the command-line inputs: the
/// required host, the optional port, the outcome of loading the optional
/// certificate bundle, and the two address-family flags.
pub fn build_client_config(
    host: String,
    port: Option<String>,
    loaded: Option<Result<Vec<Certificate>, CertLoadError>>,
    ipv4: bool,
    ipv6: bool,
) -> (c: ClientConfig)
    requires
        host@.len() > 0,
    ensures
        c.wf(),
        c.host == host,
        c.port == port,
        c.addr_preference == addr_preference_of(ipv4, ipv6),
        c.trusted_cert is Some <==> (loaded matches Some(Ok(certs)) && certs@.len() > 0),
        loaded matches Some(Ok(certs)) ==> (if certs@.len() > 0 {
            c.trusted_cert == Some(certs@[0])
        } else {
            c.trusted_cert is None
        }),
        loaded is None ==> c.trusted_cert is None,
{
    ClientConfig {
        host,
        port,
        trusted_cert: select_trust_anchor(loaded),
        addr_preference: resolve_addr_preference(ipv4, ipv6),
    }
}

} // verus!
