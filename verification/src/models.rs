//! Model artifacts on disk: the inventory of `.gguf` files (name, size,
//! SHA-256). A file is never presumed to be a complete, valid model; a
//! loaded model and a copy per node are states of other panels.

use vstd::prelude::*;
use sha2::Digest;
use crate::text::{lit, append, owned};
use crate::events::{hex_fixed, hex_of, lemma_hex_fixed_len};
use crate::state::{lex_le, str_le, lemma_lex_total, lemma_lex_transitive};

verus! {

/// A model artifact on disk.
#[derive(Debug, Clone, PartialEq, Eq)]
pub struct ModelArtifact {
    pub file_name: String,
    pub size_bytes: u64,
    pub sha256_hex: String,
}

/// Errors at the boundary between the studio and the file system.
#[derive(Debug, Clone, PartialEq, Eq)]
pub enum ModelsError {
    /// Directory unreachable or unreadable.
    Unreadable { dir: String, detail: String },
}

impl ModelsError {
    /// The error's text.
    pub open spec fn text(self) -> Seq<char> {
        match self {
            ModelsError::Unreadable { dir, detail } => "diretorio de modelos inacessivel "@ + dir@ + ": "@ + detail@,
        }
    }

    /// The error's text.
    pub fn message(&self) -> (r: String)
        ensures
            r@ == self.text(),
    {
        match self {
            ModelsError::Unreadable { dir, detail } => {
                let mut r = lit("diretorio de modelos inacessivel ");
                append(&mut r, dir.as_str());
                append(&mut r, ": ");
                append(&mut r, detail.as_str());
                r
            },
        }
    }
}

/// Position of the last `.` of `s`, if any.
pub open spec fn last_dot(s: Seq<char>) -> Option<int>
    decreases s.len(),
{
    if s.len() == 0 {
        None
    } else if s.last() == '.' {
        Some(s.len() - 1)
    } else {
        last_dot(s.drop_last())
    }
}

/// The extension of a file name, as `Path::extension` defines it: what
/// follows the last `.`, unless there is none or the only one opens the
/// name.
pub open spec fn extension(name: Seq<char>) -> Option<Seq<char>> {
    match last_dot(name) {
        Some(i) => if i == 0 {
            None
        } else {
            Some(name.subrange(i + 1, name.len() as int))
        },
        None => None,
    }
}

/// The file `name` is listed in the inventory: its extension is `gguf`.
pub fn is_model_file(name: &str) -> (r: bool)
    ensures
        r == (extension(name@) == Some("gguf"@)),
{
    let v = crate::text::chars_of(name);
    let mut i: usize = v.len();
    assert(name@.subrange(0, v.len() as int) =~= name@);
    while i > 0 && v[i - 1] != '.'
        invariant
            i <= v.len(),
            v@ == name@,
            last_dot(name@) == last_dot(name@.subrange(0, i as int)),
        decreases i,
    {
        assert(name@.subrange(0, i as int).drop_last() =~= name@.subrange(0, i - 1));
        i = i - 1;
    }
    if i <= 1 {
        proof {
            if i == 1 {
                assert(name@.subrange(0, 1).last() == '.');
            }
        }
        return false;
    }
    proof {
        assert(name@.subrange(0, i as int).last() == '.');
    }
    let ext = crate::text::string_of(&v, i, v.len());
    crate::text::same(ext.as_str(), "gguf")
}

/// Lowercase hexadecimal rendering of `bytes`, two digits per byte.
pub open spec fn hex_bytes(bytes: Seq<u8>) -> Seq<char>
    decreases bytes.len(),
{
    if bytes.len() == 0 {
        Seq::empty()
    } else {
        hex_bytes(bytes.drop_last()) + hex_fixed(bytes.last() as nat, 2)
    }
}

/// Lowercase hexadecimal rendering of `bytes` (as `{:x}` on a digest).
pub fn hex_string(bytes: &[u8]) -> (r: String)
    ensures
        r@ == hex_bytes(bytes@),
        r@.len() == 2 * bytes@.len(),
{
    let mut r = String::new();
    let mut i: usize = 0;
    while i < bytes.len()
        invariant
            i <= bytes@.len(),
            r@ == hex_bytes(bytes@.take(i as int)),
            r@.len() == 2 * i,
        decreases bytes.len() - i,
    {
        proof {
            assert(bytes@.take(i + 1).drop_last() =~= bytes@.take(i as int));
            lemma_hex_fixed_len(bytes@[i as int] as nat, 2);
        }
        append(&mut r, hex_of(bytes[i] as u64, 2).as_str());
        i = i + 1;
    }
    assert(bytes@.take(bytes@.len() as int) =~= bytes@);
    r
}

/// SHA-256 of a byte string (32 bytes).
pub uninterp spec fn sha256(data: Seq<u8>) -> Seq<u8>;

/// A file's content digest, computed block by block as the file is read.
/// The SHA-256 hasher it holds is opaque to verification; [`fed`] names
/// what it has been given.
#[verifier::external_body]
pub struct ContentDigest {
    hasher: sha2::Sha256,
}

/// What a content digest has been fed so far.
pub uninterp spec fn fed(d: ContentDigest) -> Seq<u8>;

/// A fresh hasher (`Sha256::new`): nothing fed yet.
#[verifier::external_body]
fn digest_new() -> (d: ContentDigest)
    ensures
        fed(d) == Seq::<u8>::empty(),
{
    ContentDigest { hasher: sha2::Sha256::new() }
}

/// Feeds `data` to the hasher (`Digest::update`): it is appended to what
/// was fed before.
#[verifier::external_body]
fn digest_update(d: &mut ContentDigest, data: &[u8])
    ensures
        fed(*final(d)) == fed(*old(d)) + data@,
{
    d.hasher.update(data);
}

/// The digest of everything fed (`Digest::finalize`): 32 bytes, the
/// SHA-256 of the fed bytes.
#[verifier::external_body]
fn digest_finalize(d: ContentDigest) -> (r: Vec<u8>)
    ensures
        r@ == sha256(fed(d)),
        r@.len() == 32,
{
    d.hasher.finalize().to_vec()
}

impl ContentDigest {
    /// A digest of nothing yet.
    pub fn new() -> (r: Self)
        ensures
            fed(r) == Seq::<u8>::empty(),
    {
        digest_new()
    }

    /// Feeds the next block read.
    pub fn feed(&mut self, block: &[u8])
        ensures
            fed(*final(self)) == fed(*old(self)) + block@,
    {
        digest_update(self, block);
    }

    /// The SHA-256 of everything fed, in lowercase hexadecimal (64 digits).
    pub fn hex(self) -> (r: String)
        ensures
            r@ == hex_bytes(sha256(fed(self))),
            r@.len() == 64,
    {
        let d = digest_finalize(self);
        hex_string(d.as_slice())
    }
}

/// The artifact of a file read whole: its name (`?` when it has none that
/// is text), size and digest.
pub fn artifact_of(file_name: Option<&str>, size_bytes: u64, digest: ContentDigest) -> (r: ModelArtifact)
    ensures
        r.file_name@ == match file_name {
            Some(n) => n@,
            None => "?"@,
        },
        r.size_bytes == size_bytes,
        r.sha256_hex@ == hex_bytes(sha256(fed(digest))),
{
    let name = match file_name {
        Some(n) => owned(n),
        None => lit("?"),
    };
    ModelArtifact { file_name: name, size_bytes, sha256_hex: digest.hex() }
}

/// The artifacts are ordered by file name.
pub open spec fn sorted_by_name(list: Seq<ModelArtifact>) -> bool {
    forall|i: int, j: int| 0 <= i < j < list.len() ==> lex_le(
        (#[trigger] list[i]).file_name@,
        (#[trigger] list[j]).file_name@,
    )
}

/// The inventory of the artifacts found: the same artifacts, ordered by
/// file name.
pub fn inventory_of(found: Vec<ModelArtifact>) -> (r: Vec<ModelArtifact>)
    ensures
        sorted_by_name(r@),
        r@.to_multiset() == found@.to_multiset(),
        r@.len() == found@.len(),
{
    let mut r: Vec<ModelArtifact> = Vec::new();
    let ghost all = found@;
    proof {
        assert(all.take(0) =~= Seq::<ModelArtifact>::empty());
        assert(r@ =~= Seq::<ModelArtifact>::empty());
    }
    for a in it: found
        invariant
            it.seq() == all,
            sorted_by_name(r@),
            r@.to_multiset() == all.take(it.index() as int).to_multiset(),
            r@.len() == it.index(),
    {
        let ghost idx = it.index();
        let mut p: usize = 0;
        while p < r.len() && str_le(r[p].file_name.as_str(), a.file_name.as_str())
            invariant
                p <= r@.len(),
                forall|k: int| 0 <= k < p ==> lex_le((#[trigger] r@[k]).file_name@, a.file_name@),
            decreases r.len() - p,
        {
            p = p + 1;
        }
        proof {
            if p < r@.len() {
                lemma_lex_total(r@[p as int].file_name@, a.file_name@);
                assert forall|k: int| p <= k < r@.len() implies lex_le(a.file_name@, (#[trigger] r@[k]).file_name@) by {
                    if k > p {
                        assert(lex_le(r@[p as int].file_name@, r@[k].file_name@));
                        lemma_lex_transitive(a.file_name@, r@[p as int].file_name@, r@[k].file_name@);
                    }
                }
            }
        }
        let ghost before = r@;
        let ghost x = a;
        r.insert(p, a);
        proof {
            assert(r@ =~= before.insert(p as int, x));
            assert forall|i: int, j: int| 0 <= i < j < r@.len() implies lex_le(
                (#[trigger] r@[i]).file_name@,
                (#[trigger] r@[j]).file_name@,
            ) by {
                if j < p {
                    assert(r@[i] == before[i] && r@[j] == before[j]);
                } else if j == p {
                    assert(r@[i] == before[i]);
                } else if i == p {
                    assert(r@[j] == before[j - 1]);
                } else if i < p {
                    assert(r@[i] == before[i] && r@[j] == before[j - 1]);
                    lemma_lex_transitive(before[i].file_name@, x.file_name@, before[j - 1].file_name@);
                } else {
                    assert(r@[i] == before[i - 1] && r@[j] == before[j - 1]);
                }
            }
            vstd::seq_lib::to_multiset_insert(before, p as int, x);
            assert(all.take(idx + 1) =~= all.take(idx as int).push(x));
            vstd::seq_lib::to_multiset_build(all.take(idx as int), x);
        }
    }
    assert(all.take(all.len() as int) =~= all);
    r
}

/// The models panel: directory, last inventory and the error of the last
/// reading (empty when it succeeded).
#[derive(Debug, Clone)]
pub struct ModelsState {
    pub dir: String,
    pub list: Vec<ModelArtifact>,
    pub error: String,
}

impl ModelsState {
    /// The checkout's model directory, nothing listed yet.
    pub fn new() -> (r: Self)
        ensures
            r.dir@ == "/home/mzet/projetos/tese/models"@,
            r.list@.len() == 0,
            r.error@.len() == 0,
    {
        ModelsState { dir: lit("/home/mzet/projetos/tese/models"), list: Vec::new(), error: String::new() }
    }

    /// Takes in a new inventory: it replaces the list and clears the error;
    /// a failure keeps the list and records why.
    pub fn refresh(&mut self, outcome: Result<Vec<ModelArtifact>, ModelsError>)
        ensures
            final(self).dir == old(self).dir,
            match outcome {
                Ok(list) => final(self).list == list && final(self).error@.len() == 0,
                Err(e) => final(self).list == old(self).list && final(self).error@ == e.text(),
            },
    {
        match outcome {
            Ok(list) => {
                self.list = list;
                self.error = String::new();
            },
            Err(e) => {
                self.error = e.message();
            },
        }
    }
}

impl Default for ModelsState {
    fn default() -> (r: Self)
        ensures
            r.dir@ == "/home/mzet/projetos/tese/models"@,
            r.list@.len() == 0,
            r.error@.len() == 0,
    {
        Self::new()
    }
}

/// Number of artifacts whose digest is known.
pub open spec fn hashed_count(list: Seq<ModelArtifact>) -> nat
    decreases list.len(),
{
    if list.len() == 0 {
        0
    } else {
        hashed_count(list.drop_last()) + if list.last().sha256_hex@.len() > 0 {
            1nat
        } else {
            0nat
        }
    }
}

/// How many artifacts of `list` carry a SHA-256.
pub fn models_hashed(list: &Vec<ModelArtifact>) -> (r: usize)
    ensures
        r == hashed_count(list@),
{
    let mut n: usize = 0;
    let mut i: usize = 0;
    while i < list.len()
        invariant
            i <= list@.len(),
            n == hashed_count(list@.take(i as int)),
            n <= i,
        decreases list.len() - i,
    {
        assert(list@.take(i + 1).drop_last() =~= list@.take(i as int));
        if !list[i].sha256_hex.as_str().is_empty() {
            n = n + 1;
        }
        i = i + 1;
    }
    assert(list@.take(list@.len() as int) =~= list@);
    n
}

} // verus!
