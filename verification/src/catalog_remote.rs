//! The shared catalog as the studio sees it: a client of the node's
//! authority. Publication and deletion are conditional on an explicit base;
//! a conflict is never silent: it becomes text with the current revision
//! and the snapshot is read again.

use vstd::prelude::*;
use crate::text::{lit, append, owned, decimal, decimal_of, strip_trailing, strip_trailing_str, trim, trim_str,
    parsed_u64, parse_u64};

verus! {

/// One published item of the catalog.
#[derive(Debug, Clone, PartialEq, Eq)]
pub struct CatalogItem {
    pub id: String,
    pub value: String,
    pub revision: u64,
}

/// A consistent snapshot of the authority: its items and event cursor.
#[derive(Debug, Clone, PartialEq, Eq)]
pub struct CatalogSnapshot {
    pub items: Vec<CatalogItem>,
    pub cursor: u64,
}

/// Errors at the boundary between the studio and the catalog authority.
#[derive(Debug, Clone, PartialEq, Eq)]
pub enum SharedCatalogError {
    /// Stale base: nothing applied; `current` is the revision in force.
    Conflict { current: Option<u64> },
    /// Removed id: recreating it needs a new identity.
    Tombstoned,
    /// Cursor beyond retention: resynchronise from the snapshot.
    CursorExpired,
    /// Authority unreachable or outside the contract.
    Unreachable { url: String, detail: String },
}

/// `Some(n)` / `None` as `Debug` writes an `Option<u64>`.
pub open spec fn option_text(o: Option<u64>) -> Seq<char> {
    match o {
        Some(n) => "Some("@ + decimal(n as nat) + ")"@,
        None => "None"@,
    }
}

impl SharedCatalogError {
    /// The error's text.
    pub open spec fn text(self) -> Seq<char> {
        match self {
            SharedCatalogError::Conflict { current } => "base obsoleta; vigente: "@ + option_text(current),
            SharedCatalogError::Tombstoned => "id removido; recriar exige identidade nova"@,
            SharedCatalogError::CursorExpired => "cursor expirado; refazer snapshot"@,
            SharedCatalogError::Unreachable { url, detail } => "falha no catalogo em "@ + url@ + ": "@
                + detail@,
        }
    }

    /// The error's text.
    pub fn message(&self) -> (r: String)
        ensures
            r@ == self.text(),
    {
        match self {
            SharedCatalogError::Conflict { current } => {
                let mut r = lit("base obsoleta; vigente: ");
                match current {
                    Some(n) => {
                        append(&mut r, "Some(");
                        append(&mut r, decimal_of(*n).as_str());
                        append(&mut r, ")");
                    },
                    None => append(&mut r, "None"),
                }
                r
            },
            SharedCatalogError::Tombstoned => lit("id removido; recriar exige identidade nova"),
            SharedCatalogError::CursorExpired => lit("cursor expirado; refazer snapshot"),
            SharedCatalogError::Unreachable { url, detail } => {
                let mut r = lit("falha no catalogo em ");
                append(&mut r, url.as_str());
                append(&mut r, ": ");
                append(&mut r, detail.as_str());
                r
            },
        }
    }
}

/// `base` without trailing slashes, followed by `path`.
pub open spec fn endpoint_of(base: Seq<char>, path: Seq<char>) -> Seq<char> {
    strip_trailing(base, '/') + path
}

/// The address of `path` on the authority at `base`.
pub fn endpoint(base: &str, path: &str) -> (r: String)
    ensures
        r@ == endpoint_of(base@, path@),
{
    let mut r = strip_trailing_str(base, '/');
    append(&mut r, path);
    r
}

/// Address of the snapshot.
pub fn snapshot_endpoint(base: &str) -> (r: String)
    ensures
        r@ == endpoint_of(base@, "/catalog/snapshot"@),
{
    endpoint(base, "/catalog/snapshot")
}

/// Address of a mutation (`publish` or `delete`).
pub fn mutation_endpoint(base: &str, action: &str) -> (r: String)
    ensures
        r@ == endpoint_of(base@, "/catalog/"@ + action@),
{
    let mut r = endpoint(base, "/catalog/");
    append(&mut r, action);
    r
}

/// Address of the events after cursor `since`.
pub fn events_endpoint(base: &str, since: u64) -> (r: String)
    ensures
        r@ == endpoint_of(base@, "/catalog/events?since="@ + decimal(since as nat)),
{
    let mut r = endpoint(base, "/catalog/events?since=");
    append(&mut r, decimal_of(since).as_str());
    r
}

/// The fields a mutation reply carries: the resulting revision, and the
/// revision in force reported with a conflict (absent or `null`: `None`).
#[derive(Debug, Clone, Copy, PartialEq, Eq, Structural)]
pub struct MutationReply {
    pub revision: Option<u64>,
    pub current: Option<u64>,
}

/// Outcome of a mutation that was answered with HTTP `status` and whose
/// body read as `reply` (`Err` with the reason when it could not be read).
/// `url` is the authority's address without trailing slashes.
pub fn mutation_outcome(url: &str, status: u16, reply: Result<MutationReply, String>) -> (r: Result<
    u64,
    SharedCatalogError,
>)
    ensures
        status == 200 ==> match reply {
            Err(detail) => r is Err && r->Err_0 is Unreachable && r->Err_0->url@ == url@ && r->Err_0->detail@
                == detail@,
            Ok(fields) => match fields.revision {
                Some(n) => r == Ok::<u64, SharedCatalogError>(n),
                None => r is Err && r->Err_0 is Unreachable && r->Err_0->url@ == url@ && r->Err_0->detail@
                    == "resposta sem revision"@,
            },
        },
        status == 409 ==> r == Err::<u64, SharedCatalogError>(
            SharedCatalogError::Conflict {
                current: match reply {
                    Ok(fields) => fields.current,
                    Err(_) => None,
                },
            },
        ),
        status == 410 ==> r == Err::<u64, SharedCatalogError>(SharedCatalogError::Tombstoned),
        status != 200 && status != 409 && status != 410 ==> r is Err && r->Err_0 is Unreachable
            && r->Err_0->url@ == url@ && r->Err_0->detail@ == "status inesperado: "@ + decimal(
            status as nat,
        ),
{
    if status == 200 {
        match reply {
            Err(detail) => Err(SharedCatalogError::Unreachable { url: owned(url), detail }),
            Ok(fields) => match fields.revision {
                Some(n) => Ok(n),
                None => Err(SharedCatalogError::Unreachable { url: owned(url), detail: lit("resposta sem revision") }),
            },
        }
    } else if status == 409 {
        let current = match reply {
            Ok(fields) => fields.current,
            Err(_) => None,
        };
        Err(SharedCatalogError::Conflict { current })
    } else if status == 410 {
        Err(SharedCatalogError::Tombstoned)
    } else {
        Err(unexpected_status(url, status))
    }
}

fn unexpected_status(url: &str, status: u16) -> (e: SharedCatalogError)
    ensures
        e is Unreachable && e->url@ == url@ && e->detail@ == "status inesperado: "@ + decimal(status as nat),
{
    let mut detail = lit("status inesperado: ");
    append(&mut detail, decimal_of(status as u64).as_str());
    SharedCatalogError::Unreachable { url: owned(url), detail }
}

/// Whether the events read after a cursor can be used: `Ok` for 200 (the
/// body is then read), `CursorExpired` for 410, otherwise unreachable.
pub fn events_outcome(url: &str, status: u16) -> (r: Result<(), SharedCatalogError>)
    ensures
        status == 200 ==> r is Ok,
        status == 410 ==> r == Err::<(), SharedCatalogError>(SharedCatalogError::CursorExpired),
        status != 200 && status != 410 ==> r is Err && r->Err_0 is Unreachable && r->Err_0->url@ == url@
            && r->Err_0->detail@ == "status inesperado: "@ + decimal(status as nat),
{
    if status == 200 {
        Ok(())
    } else if status == 410 {
        Err(SharedCatalogError::CursorExpired)
    } else {
        Err(unexpected_status(url, status))
    }
}

/// A conditional publication: item `id` with `value`, over revision
/// `base` (`None`: creation).
#[derive(Debug, Clone, PartialEq, Eq)]
pub struct PublishRequest {
    pub url: String,
    pub id: String,
    pub base: Option<u64>,
    pub value: String,
}

/// A deletion of item `id` from revision `base`.
#[derive(Debug, Clone, PartialEq, Eq)]
pub struct DeleteRequest {
    pub url: String,
    pub id: String,
    pub base: u64,
}

/// The shared-catalog panel: authority address, last snapshot, the form
/// (id, value, base) and the notice shown to the user.
#[derive(Debug, Clone, Default)]
pub struct SharedCatalog {
    pub url: String,
    pub snapshot: Option<CatalogSnapshot>,
    pub form_id: String,
    pub form_value: String,
    pub form_base: String,
    pub notice: String,
}

impl SharedCatalog {
    /// A panel on the authority at `url`, with an empty form and no snapshot.
    pub fn with_url(url: &str) -> (r: Self)
        ensures
            r.url@ == url@,
            r.snapshot is None,
            r.form_id@.len() == 0,
            r.form_value@.len() == 0,
            r.form_base@.len() == 0,
            r.notice@.len() == 0,
    {
        SharedCatalog {
            url: owned(url),
            snapshot: None,
            form_id: String::new(),
            form_value: String::new(),
            form_base: String::new(),
            notice: String::new(),
        }
    }

    /// Takes in the result of reading the snapshot: a snapshot replaces the
    /// old one and clears the notice; an error becomes the notice and the
    /// old snapshot stays (rows are never invented).
    pub fn refresh(&mut self, outcome: Result<CatalogSnapshot, SharedCatalogError>)
        ensures
            match outcome {
                Ok(s) => final(self).snapshot == Some(s) && final(self).notice@.len() == 0,
                Err(e) => final(self).snapshot == old(self).snapshot && final(self).notice@ == e.text(),
            },
            final(self).url == old(self).url,
            final(self).form_id == old(self).form_id,
            final(self).form_value == old(self).form_value,
            final(self).form_base == old(self).form_base,
    {
        match outcome {
            Ok(s) => {
                self.snapshot = Some(s);
                self.notice = String::new();
            },
            Err(e) => {
                self.notice = e.message();
            },
        }
    }

    /// The publication the form asks for: the trimmed id, the form value,
    /// and the trimmed base read as a number (empty or not a number: a
    /// creation).
    pub fn publish_form(&self) -> (r: PublishRequest)
        ensures
            r.url@ == self.url@,
            r.id@ == trim(self.form_id@),
            r.base == parsed_u64(trim(self.form_base@)),
            r.value@ == self.form_value@,
    {
        let base_text = trim_str(self.form_base.as_str());
        PublishRequest {
            url: owned(self.url.as_str()),
            id: trim_str(self.form_id.as_str()),
            base: parse_u64(base_text.as_str()),
            value: owned(self.form_value.as_str()),
        }
    }

    /// The deletion the form asks for: the trimmed id, from the trimmed
    /// base read as a number (`u64::MAX` when it is not one).
    pub fn delete_form(&self) -> (r: DeleteRequest)
        ensures
            r.url@ == self.url@,
            r.id@ == trim(self.form_id@),
            r.base == match parsed_u64(trim(self.form_base@)) {
                Some(n) => n,
                None => u64::MAX,
            },
    {
        let base_text = trim_str(self.form_base.as_str());
        let base = match parse_u64(base_text.as_str()) {
            Some(n) => n,
            None => u64::MAX,
        };
        DeleteRequest { url: owned(self.url.as_str()), id: trim_str(self.form_id.as_str()), base }
    }

    /// Takes in the outcome of a publication: the notice names the new
    /// revision, or the error.
    pub fn published(&mut self, outcome: Result<u64, SharedCatalogError>)
        ensures
            final(self).notice@ == match outcome {
                Ok(n) => "publicado em r"@ + decimal(n as nat),
                Err(e) => e.text(),
            },
            final(self).snapshot == old(self).snapshot,
            final(self).url == old(self).url,
            final(self).form_id == old(self).form_id,
            final(self).form_value == old(self).form_value,
            final(self).form_base == old(self).form_base,
    {
        self.notice = match outcome {
            Ok(n) => {
                let mut t = lit("publicado em r");
                append(&mut t, decimal_of(n).as_str());
                t
            },
            Err(e) => e.message(),
        };
    }

    /// Takes in the outcome of a deletion: the notice names the revision of
    /// the tombstone, or the error.
    pub fn removed(&mut self, outcome: Result<u64, SharedCatalogError>)
        ensures
            final(self).notice@ == match outcome {
                Ok(n) => "removido em r"@ + decimal(n as nat),
                Err(e) => e.text(),
            },
            final(self).snapshot == old(self).snapshot,
            final(self).url == old(self).url,
            final(self).form_id == old(self).form_id,
            final(self).form_value == old(self).form_value,
            final(self).form_base == old(self).form_base,
    {
        self.notice = match outcome {
            Ok(n) => {
                let mut t = lit("removido em r");
                append(&mut t, decimal_of(n).as_str());
                t
            },
            Err(e) => e.message(),
        };
    }
}

} // verus!
