use vstd::prelude::*;

use crate::Error;

verus! {

/// A single, platform-specific image manifest: its config blob and layers,
/// by digest.
#[derive(Debug)]
pub struct ImageManifest {
    pub config_digest: String,
    pub layer_digests: Vec<String>,
}

/// What a registry returns for an artifact reference.
#[derive(Debug)]
pub enum OciManifest {
    /// A concrete manifest.
    Image(ImageManifest),
    /// A manifest of manifests, one per platform, given by digest.
    ImageIndex(Vec<String>),
}

/// Accepts a concrete manifest and rejects an index: multi-platform
/// resolution is not supported, whatever registry or tag it came from.
pub fn select_image_manifest(m: OciManifest) -> (r: Result<ImageManifest, Error>)
    ensures
        m is ImageIndex <==> r matches Err(Error::UnsupportedManifestIndex),
        m is ImageIndex <==> r is Err,
        m matches OciManifest::Image(im) ==> (r matches Ok(x) && x == im),
{
    match m {
        OciManifest::Image(im) => Ok(im),
        OciManifest::ImageIndex(_) => Err(Error::UnsupportedManifestIndex),
    }
}

/// Maps the outcome of decoding the package configuration to the
/// controller's taxonomy.
pub fn package_config<T>(decoded: core::result::Result<T, String>) -> (r: Result<T, Error>)
    ensures
        decoded matches Ok(v) ==> (r matches Ok(x) && x == v),
        decoded matches Err(m) ==> (r matches Err(Error::DecodePackageConfig(m2)) && m2 == m),
{
    match decoded {
        Ok(v) => Ok(v),
        Err(m) => Err(Error::DecodePackageConfig(m)),
    }
}

} // verus!
