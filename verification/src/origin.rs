//! What the studio reads of a node: its announced protocol version and its
//! registered administrative operations.

use vstd::prelude::*;
use crate::text::{lit, append, owned, decimal, decimal_of, strip_trailing, strip_trailing_str};

verus! {

/// Protocol version a node announces.
#[derive(Debug, Clone, Copy, PartialEq, Eq, Structural)]
pub struct ProtocolVersion {
    pub major: u32,
    pub minor: u32,
}

/// Administrative operation recorded by a node.
#[derive(Debug, Clone, PartialEq, Eq)]
pub enum AdminOp {
    Bootstrap { node_name: String },
    SetService { service: String, running: bool },
}

/// A recorded operation: its id and what it did.
#[derive(Debug, Clone, PartialEq, Eq)]
pub struct OpRecord {
    pub id: String,
    pub op: AdminOp,
}

/// Observable summary of a node: announced version and recorded operations.
#[derive(Debug, Clone, PartialEq, Eq)]
pub struct NodeSummary {
    pub version: ProtocolVersion,
    pub operations: Vec<OpRecord>,
}

/// Errors at the boundary between the studio and a node.
#[derive(Debug, Clone, PartialEq, Eq)]
pub enum OriginError {
    /// Node unreachable or answer invalid.
    Unreachable { url: String, detail: String },
    /// The node's protocol is incompatible with the studio: reading stops.
    Incompatible { peer: ProtocolVersion },
}

/// `ProtocolVersion { major: .., minor: .. }` as `Debug` writes it.
pub open spec fn version_text(v: ProtocolVersion) -> Seq<char> {
    "ProtocolVersion { major: "@ + decimal(v.major as nat) + ", minor: "@ + decimal(v.minor as nat) + " }"@
}

impl OriginError {
    /// The error's text.
    pub open spec fn text(self) -> Seq<char> {
        match self {
            OriginError::Unreachable { url, detail } => "falha ao ler o no em "@ + url@ + ": "@ + detail@,
            OriginError::Incompatible { peer } => "no com protocolo incompativel: "@ + version_text(peer),
        }
    }

    /// The error's text.
    pub fn message(&self) -> (r: String)
        ensures
            r@ == self.text(),
    {
        match self {
            OriginError::Unreachable { url, detail } => {
                let mut r = lit("falha ao ler o no em ");
                append(&mut r, url.as_str());
                append(&mut r, ": ");
                append(&mut r, detail.as_str());
                r
            },
            OriginError::Incompatible { peer } => {
                let mut r = lit("no com protocolo incompativel: ");
                append(&mut r, "ProtocolVersion { major: ");
                append(&mut r, decimal_of(peer.major as u64).as_str());
                append(&mut r, ", minor: ");
                append(&mut r, decimal_of(peer.minor as u64).as_str());
                append(&mut r, " }");
                r
            },
        }
    }
}

/// The protocol version this studio speaks: 1.0.
pub fn studio_protocol() -> (v: ProtocolVersion)
    ensures
        v.major == 1,
        v.minor == 0,
{
    ProtocolVersion { major: 1, minor: 0 }
}

/// Whether a studio speaking `local` works with a node announcing `peer`:
/// the major versions agree (minor versions only add to a protocol). This
/// is the rule the studio applies on its own side; it stands in for the
/// node protocol's own compatibility rule, which is not part of this crate
/// and may be stricter.
pub fn accepts(local: ProtocolVersion, peer: ProtocolVersion) -> (r: bool)
    ensures
        r == (peer.major == local.major),
{
    peer.major == local.major
}

/// The summary of a node at `url` (without trailing slashes) that
/// announced `version`: refused as incompatible when the node protocol's
/// compatibility rule did not accept it (`accepted`), otherwise built from
/// the operations read next (`Err` with the reason when they could not be
/// read).
pub fn node_summary(url: &str, version: ProtocolVersion, accepted: bool, operations: Result<Vec<OpRecord>, String>) -> (r:
    Result<NodeSummary, OriginError>)
    ensures
        !accepted ==> r == Err::<NodeSummary, OriginError>(OriginError::Incompatible { peer: version }),
        accepted ==> match operations {
            Ok(ops) => r == Ok::<NodeSummary, OriginError>(NodeSummary { version, operations: ops }),
            Err(detail) => r is Err && r->Err_0 is Unreachable && r->Err_0->url@ == url@ && r->Err_0->detail@
                == detail@,
        },
{
    if !accepted {
        return Err(OriginError::Incompatible { peer: version });
    }
    match operations {
        Ok(ops) => Ok(NodeSummary { version, operations: ops }),
        Err(detail) => Err(OriginError::Unreachable { url: owned(url), detail }),
    }
}

/// One line summarising an administrative operation.
pub open spec fn op_text(op: AdminOp) -> Seq<char> {
    match op {
        AdminOp::Bootstrap { node_name } => "bootstrap "@ + node_name@,
        AdminOp::SetService { service, running } => "serviço "@ + service@ + " "@ + if running {
            "on"@
        } else {
            "off"@
        },
    }
}

/// One line summarising an operation, for the node's operations table.
pub fn op_summary(op: &AdminOp) -> (r: String)
    ensures
        r@ == op_text(*op),
{
    match op {
        AdminOp::Bootstrap { node_name } => {
            let mut r = lit("bootstrap ");
            append(&mut r, node_name.as_str());
            r
        },
        AdminOp::SetService { service, running } => {
            let mut r = lit("serviço ");
            append(&mut r, service.as_str());
            append(&mut r, " ");
            append(&mut r, if *running { "on" } else { "off" });
            r
        },
    }
}

/// Address of `path` on the node at `base` (`/version`, `/operations`).
pub fn node_endpoint(base: &str, path: &str) -> (r: String)
    ensures
        r@ == strip_trailing(base@, '/') + path@,
{
    let mut r = strip_trailing_str(base, '/');
    append(&mut r, path);
    r
}

} // verus!
