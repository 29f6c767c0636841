//! The manifest of a release with artifacts for several platforms.

use vstd::prelude::*;

use crate::release::{
    build_manifest, collect, is_collection, is_manifest, published_at, release_base, rfc3339,
    without_slashes, Artifact, Asset, AssetError, Manifest, ManifestError, Selection,
};
use crate::text::optional_text;

verus! {

/// The artifacts that the manifest lists. Windows artifacts are listed only on
/// request, so that the manifest never names what was not uploaded.
pub fn collect_assets(artifacts: &[Artifact], release_base: &str, include_windows: bool) -> (out:
    Result<Vec<Asset>, AssetError>)
    ensures
        is_collection(
            artifacts@,
            Selection::Platforms { include_windows },
            release_base@,
            out,
        ),
{
    collect(artifacts, Selection::Platforms { include_windows }, release_base)
}

/// The manifest of a release at a moment in nanoseconds since the Unix epoch.
pub fn run(
    artifacts: &[Artifact],
    tag: &str,
    base_url: &str,
    include_windows: bool,
    nanos: i128,
) -> (out: Result<Manifest, ManifestError>)
    ensures
        exists|assets: Result<Vec<Asset>, AssetError>, time: Option<String>|
            #![trigger is_manifest(tag@, assets, time, out)]
            is_collection(
                artifacts@,
                Selection::Platforms { include_windows },
                without_slashes(base_url@) + "/releases/"@ + tag@,
                assets,
            ) && optional_text(time) == rfc3339(nanos) && is_manifest(tag@, assets, time, out),
{
    let base: String = release_base(base_url, tag);
    let assets: Result<Vec<Asset>, AssetError> = collect_assets(
        artifacts,
        base.as_str(),
        include_windows,
    );
    let time: Option<String> = published_at(nanos);
    build_manifest(tag, assets, time)
}

} // verus!
