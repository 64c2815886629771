//! The security protocols a listener can speak.
use vstd::prelude::*;
use vstd::string::StringExecFns;

use crate::text::str_eq;

verus! {

/// A security protocol: whether the channel is encrypted and whether its
/// peers authenticate through SASL.
#[derive(Debug, Clone, Copy, PartialEq, Eq, Hash, Structural)]
pub enum SecurityProtocol {
    /// Unauthenticated, non-encrypted channel.
    Plaintext,
    /// SSL channel.
    Ssl,
    /// SASL authenticated, non-encrypted channel.
    SaslPlaintext,
    /// SASL authenticated, SSL channel.
    SaslSsl,
}

/// The character sequence `s` upper-cased by `str::to_uppercase`.
pub uninterp spec fn uppercase_of(s: Seq<char>) -> Seq<char>;

/// Relies on `str::to_uppercase`: the result depends on the characters alone.
#[verifier::external_body]
fn to_uppercase(s: &str) -> (r: String)
    ensures
        r@ == uppercase_of(s@),
{
    s.to_uppercase()
}

impl SecurityProtocol {
    /// The permanent wire id of the protocol.
    pub open spec fn spec_id(self) -> i16 {
        match self {
            SecurityProtocol::Plaintext => 0,
            SecurityProtocol::Ssl => 1,
            SecurityProtocol::SaslPlaintext => 2,
            SecurityProtocol::SaslSsl => 3,
        }
    }

    /// The configuration name of the protocol.
    pub open spec fn spec_name(self) -> Seq<char> {
        match self {
            SecurityProtocol::Plaintext => "PLAINTEXT"@,
            SecurityProtocol::Ssl => "SSL"@,
            SecurityProtocol::SaslPlaintext => "SASL_PLAINTEXT"@,
            SecurityProtocol::SaslSsl => "SASL_SSL"@,
        }
    }

    /// All protocols, in id order.
    pub open spec fn spec_values() -> Seq<SecurityProtocol> {
        seq![
            SecurityProtocol::Plaintext,
            SecurityProtocol::Ssl,
            SecurityProtocol::SaslPlaintext,
            SecurityProtocol::SaslSsl,
        ]
    }

    /// The protocol whose configuration name is exactly `name`.
    pub open spec fn with_name(name: Seq<char>) -> Option<SecurityProtocol> {
        if name == "PLAINTEXT"@ {
            Some(SecurityProtocol::Plaintext)
        } else if name == "SSL"@ {
            Some(SecurityProtocol::Ssl)
        } else if name == "SASL_PLAINTEXT"@ {
            Some(SecurityProtocol::SaslPlaintext)
        } else if name == "SASL_SSL"@ {
            Some(SecurityProtocol::SaslSsl)
        } else {
            None
        }
    }

    /// The permanent and immutable id of the protocol.
    pub fn id(&self) -> (r: i16)
        ensures
            r == self.spec_id(),
    {
        match self {
            SecurityProtocol::Plaintext => 0,
            SecurityProtocol::Ssl => 1,
            SecurityProtocol::SaslPlaintext => 2,
            SecurityProtocol::SaslSsl => 3,
        }
    }

    /// The name of the protocol, as client configuration writes it.
    pub fn name(&self) -> (r: &'static str)
        ensures
            r@ == self.spec_name(),
    {
        match self {
            SecurityProtocol::Plaintext => "PLAINTEXT",
            SecurityProtocol::Ssl => "SSL",
            SecurityProtocol::SaslPlaintext => "SASL_PLAINTEXT",
            SecurityProtocol::SaslSsl => "SASL_SSL",
        }
    }

    /// The names of all protocols, in id order.
    pub fn names() -> (r: Vec<&'static str>)
        ensures
            r@.len() == 4,
            forall|i: int| 0 <= i < 4 ==> #[trigger] r@[i]@ == Self::spec_values()[i].spec_name(),
    {
        vec!["PLAINTEXT", "SSL", "SASL_PLAINTEXT", "SASL_SSL"]
    }

    /// The protocol with the given id, if there is one.
    pub fn for_id(id: i16) -> (r: Option<Self>)
        ensures
            r == (if 0 <= id < 4 {
                Some(Self::spec_values()[id as int])
            } else {
                None::<SecurityProtocol>
            }),
            r matches Some(p) ==> p.spec_id() == id,
    {
        match id {
            0 => Some(SecurityProtocol::Plaintext),
            1 => Some(SecurityProtocol::Ssl),
            2 => Some(SecurityProtocol::SaslPlaintext),
            3 => Some(SecurityProtocol::SaslSsl),
            _ => None,
        }
    }

    /// The protocol whose name is exactly `name` (already upper case).
    pub fn for_canonical_name(name: &str) -> (r: Option<Self>)
        ensures
            r == Self::with_name(name@),
    {
        if str_eq(name, "PLAINTEXT") {
            Some(SecurityProtocol::Plaintext)
        } else if str_eq(name, "SSL") {
            Some(SecurityProtocol::Ssl)
        } else if str_eq(name, "SASL_PLAINTEXT") {
            Some(SecurityProtocol::SaslPlaintext)
        } else if str_eq(name, "SASL_SSL") {
            Some(SecurityProtocol::SaslSsl)
        } else {
            None
        }
    }

    /// Case-insensitive lookup by protocol name.
    pub fn for_name(name: &str) -> (r: Option<Self>)
        ensures
            r == Self::with_name(uppercase_of(name@)),
    {
        let upper = to_uppercase(name);
        Self::for_canonical_name(upper.as_str())
    }

    /// All protocols, in id order.
    pub fn values() -> (r: Vec<Self>)
        ensures
            r@ == Self::spec_values(),
    {
        let r = vec![
            SecurityProtocol::Plaintext,
            SecurityProtocol::Ssl,
            SecurityProtocol::SaslPlaintext,
            SecurityProtocol::SaslSsl,
        ];
        assert(r@ =~= Self::spec_values());
        r
    }
}

/// Whether the protocol runs over an SSL transport.
pub fn uses_ssl_transport_layer(security_protocol: &SecurityProtocol) -> (r: bool)
    ensures
        r == (*security_protocol == SecurityProtocol::Ssl || *security_protocol
            == SecurityProtocol::SaslSsl),
{
    match security_protocol {
        SecurityProtocol::Ssl | SecurityProtocol::SaslSsl => true,
        _ => false,
    }
}

/// Whether the protocol authenticates its peers through SASL.
pub fn uses_sasl_authentication(security_protocol: &SecurityProtocol) -> (r: bool)
    ensures
        r == (*security_protocol == SecurityProtocol::SaslPlaintext || *security_protocol
            == SecurityProtocol::SaslSsl),
{
    match security_protocol {
        SecurityProtocol::SaslPlaintext | SecurityProtocol::SaslSsl => true,
        _ => false,
    }
}

} // verus!
