//! Content addressing: the pure mapping from a layer's hash algorithm and
//! digest to its canonical storage path.

use vstd::prelude::*;

verus! {

/// Hash algorithms the registry recognises when addressing a layer.
#[derive(Clone, Copy, PartialEq, Eq, Structural, Debug)]
pub enum Algorithm {
    Sha256,
}

/// A validated reference to one image layer. The digest is the hex-encoded
/// content hash; `name` and `repo` arrive on the wire but are not consulted
/// when the storage path is built.
pub struct Layer {
    pub algorithm: Algorithm,
    pub digest: String,
    pub name: String,
    pub repo: String,
}

/// The filename prefix that each algorithm contributes to a layer's path.
pub open spec fn prefix_of(algorithm: Algorithm) -> Seq<char> {
    match algorithm {
        Algorithm::Sha256 => "sha256"@,
    }
}

/// The canonical filename of a layer: `<prefix>:<digest>`.
pub open spec fn filename_of(algorithm: Algorithm, digest: Seq<char>) -> Seq<char> {
    prefix_of(algorithm) + ":"@ + digest
}

/// The canonical storage path of a layer: `data/layers/<prefix>:<digest>`.
/// A function of the algorithm and the digest alone.
pub open spec fn canonical_path_of(algorithm: Algorithm, digest: Seq<char>) -> Seq<char> {
    "data/layers/"@ + filename_of(algorithm, digest)
}

/// Build the canonical filename of `layer`.
pub fn construct_filename(layer: Layer) -> (r: String)
    ensures
        r@ == filename_of(layer.algorithm, layer.digest@),
{
    let prefix: &str = match layer.algorithm {
        Algorithm::Sha256 => "sha256",
    };
    let mut out = prefix.to_owned();
    out.append(":");
    out.append(layer.digest.as_str());
    out
}

/// Build the canonical storage path of `layer`.
pub fn construct_absolute_path(layer: Layer) -> (r: String)
    ensures
        r@ == canonical_path_of(layer.algorithm, layer.digest@),
{
    let mut out = "data/layers/".to_owned();
    let filename = construct_filename(layer);
    out.append(filename.as_str());
    out
}

/// Law: the canonical path is independent of the repository and layer-name
/// fields — two references that agree on algorithm and digest are stored at
/// the same path, whatever their `name` and `repo` hold.
pub proof fn lemma_path_ignores_repo_and_name(a: Layer, b: Layer)
    requires
        a.algorithm == b.algorithm,
        a.digest@ == b.digest@,
    ensures
        canonical_path_of(a.algorithm, a.digest@) == canonical_path_of(b.algorithm, b.digest@),
{
}

} // verus!
