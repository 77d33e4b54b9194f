//! Dependent pickers: changing the host invalidates the device and the
//! artifact path with a localized notice; independent fields are kept.
//! Never a silent "GPU 0" of another machine.

use vstd::prelude::*;
use crate::text::{lit, append, owned, same};

verus! {

/// A destination choice whose device and path depend on the host.
#[derive(Debug, Clone, PartialEq, Eq)]
pub struct DestinationPick {
    pub host: String,
    pub device: Option<String>,
    pub artifact_path: Option<String>,
    pub notice: String,
}

/// The notice shown when a host change discards dependent choices.
pub open spec fn host_changed_notice() -> Seq<char> {
    "Host alterado: escolha novamente dispositivo e caminho do artefato."@
}

impl DestinationPick {
    /// Nothing chosen.
    pub fn new() -> (r: Self)
        ensures
            r.host@.len() == 0,
            r.device is None,
            r.artifact_path is None,
            r.notice@.len() == 0,
    {
        DestinationPick { host: String::new(), device: None, artifact_path: None, notice: String::new() }
    }

    /// Changes the host: device and path must be chosen again, with a
    /// notice when there was something to discard. The same host changes
    /// nothing.
    pub fn change_host(&mut self, host: &str)
        ensures
            old(self).host@ == host@ ==> *final(self) == *old(self),
            old(self).host@ != host@ ==> final(self).host@ == host@ && final(self).device is None
                && final(self).artifact_path is None && final(self).notice@ == if old(self).device is Some
                || old(self).artifact_path is Some {
                host_changed_notice()
            } else {
                Seq::<char>::empty()
            },
    {
        if same(self.host.as_str(), host) {
            return;
        }
        self.host = owned(host);
        let had_dependents = self.device.is_some() || self.artifact_path.is_some();
        self.device = None;
        self.artifact_path = None;
        self.notice = if had_dependents {
            lit("Host alterado: escolha novamente dispositivo e caminho do artefato.")
        } else {
            String::new()
        };
    }

    /// The path's label, always naming the machine.
    pub fn path_label(&self) -> (r: String)
        ensures
            r@ == match self.artifact_path {
                Some(p) => "Arquivo em "@ + self.host@ + ": "@ + p@,
                None => "nenhum artefato escolhido"@,
            },
    {
        match &self.artifact_path {
            Some(p) => {
                let mut r = lit("Arquivo em ");
                append(&mut r, self.host.as_str());
                append(&mut r, ": ");
                append(&mut r, p.as_str());
                r
            },
            None => lit("nenhum artefato escolhido"),
        }
    }
}

impl Default for DestinationPick {
    fn default() -> (r: Self)
        ensures
            r.host@.len() == 0,
            r.device is None,
            r.artifact_path is None,
            r.notice@.len() == 0,
    {
        Self::new()
    }
}

} // verus!
