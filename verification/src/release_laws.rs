//! Laws of a release: what is published, under which name, and what the updater is told.

use vstd::prelude::*;
use vstd::string::*;

use crate::order::{lemma_text_key_order, stable_order, text_key, text_lt};
use crate::release::{
    are_assets, asset_keys, build_manifest, classification, classify, collect, dmg_arch, is_asset,
    is_broken, listed, listing, published_artifacts_are_signed, release_base, release_version,
    sorted_assets, wanted_artifacts_are_published, without_slashes, Arch, Artifact, ArtifactKind,
    Asset, AssetError, Manifest, ManifestError, Selection,
};
use crate::text::{after_last, occurs_at, rfind_from};

verus! {

// ── Names ───────────────────────────────────────────────────────────────────

/// The last characters of `name` are `end`.
pub open spec fn ends_in(name: Seq<char>, end: Seq<char>) -> bool {
    name.len() >= end.len() && name.skip(name.len() - end.len()) == end
}

proof fn lemma_ends_in(name: Seq<char>, a: Seq<char>, b: Seq<char>)
    ensures
        ends_in(name, a + b) <==> ends_in(name, b) && ends_in(name.take(name.len() - b.len()), a),
{
    let n = name.len() as int;
    if n >= a.len() + b.len() {
        let whole = name.skip(n - (a + b).len());
        let stem = name.take(n - b.len());
        assert(whole =~= stem.skip(stem.len() - a.len()) + name.skip(n - b.len()));
        if whole == a + b {
            assert(name.skip(n - b.len()) =~= whole.skip(a.len() as int));
            assert((a + b).skip(a.len() as int) =~= b);
            assert(stem.skip(stem.len() - a.len()) =~= whole.take(a.len() as int));
            assert((a + b).take(a.len() as int) =~= a);
        }
    }
}

proof fn lemma_occurs_at_end(s: Seq<char>, needle: Seq<char>)
    ensures
        ends_in(s, needle) <==> occurs_at(s, needle, s.len() - needle.len()),
{
    if s.len() >= needle.len() {
        assert(s.skip(s.len() - needle.len()) =~= s.subrange(
            s.len() - needle.len(),
            s.len() as int,
        ));
    }
}

proof fn lemma_rfind_from(s: Seq<char>, needle: Seq<char>, from: int)
    ensures
        match rfind_from(s, needle, from) {
            Some(i) => 0 <= i <= from && occurs_at(s, needle, i) && forall|j: int|
                i < j <= from ==> !occurs_at(s, needle, j),
            None => forall|j: int| 0 <= j <= from ==> !occurs_at(s, needle, j),
        },
    decreases from + 1,
{
    if from >= 0 && !occurs_at(s, needle, from) {
        lemma_rfind_from(s, needle, from - 1);
    }
}

proof fn lemma_behind(stem: Seq<char>, marker: Seq<char>, end: Seq<char>)
    requires
        marker.len() > 0,
        marker.last() == '-',
        forall|k: int| 0 <= k < end.len() ==> end[k] != '-',
    ensures
        after_last(stem, marker) == Some(end) <==> ends_in(stem, marker + end),
{
    let from = stem.len() - marker.len();
    lemma_rfind_from(stem, marker, from);
    if let Some(i) = rfind_from(stem, marker, from) {
        if stem.skip(i + marker.len()) == end {
            assert(stem.skip(i) =~= stem.subrange(i, i + marker.len()) + stem.skip(
                i + marker.len(),
            ));
            assert(stem.len() - (marker + end).len() == i);
        }
    }
    if ends_in(stem, marker + end) {
        let at = stem.len() - (marker + end).len();
        let tail = stem.skip(at);
        assert(stem.subrange(at, at + marker.len()) =~= tail.take(marker.len() as int));
        assert((marker + end).take(marker.len() as int) =~= marker);
        assert(occurs_at(stem, marker, at));
        let i = rfind_from(stem, marker, from)->0;
        assert(rfind_from(stem, marker, from) is Some);
        assert(i >= at);
        if i > at {
            let last = i + marker.len() - 1;
            assert(stem.subrange(i, i + marker.len())[marker.len() - 1] == stem[last]);
            assert(stem[last] == '-');
            assert(tail[last - at] == stem[last]);
            assert(tail[last - at] == end[last - at - marker.len()]);
        }
        assert(stem.skip(at + marker.len()) =~= tail.skip(marker.len() as int));
        assert((marker + end).skip(marker.len() as int) =~= end);
    }
}

proof fn lemma_named(
    name: Seq<char>,
    suffix: Seq<char>,
    marker: Seq<char>,
    end: Seq<char>,
    whole: Seq<char>,
)
    requires
        marker.len() > 0,
        marker.last() == '-',
        forall|k: int| 0 <= k < end.len() ==> end[k] != '-',
        whole == marker + end + suffix,
    ensures
        ends_in(name, whole) <==> (crate::text::strip_suffix(name, suffix) matches Some(stem)
            && after_last(stem, marker) == Some(end)),
{
    lemma_ends_in(name, marker + end, suffix);
    lemma_occurs_at_end(name, suffix);
    lemma_behind(name.take(name.len() - suffix.len()), marker, end);
}

/// What an artifact is can be told from the end of its name, and from nothing else.
pub proof fn names_tell_what_artifacts_are(name: &str, out: Option<(ArtifactKind, Arch)>)
    requires
        call_ensures(classify, (name,), out),
    ensures
        out == Some((ArtifactKind::Dmg, Arch::Arm64)) <==> ends_in(name@, "-macos-arm64.dmg"@),
        out == Some((ArtifactKind::Dmg, Arch::X86_64)) <==> ends_in(name@, "-macos-x86_64.dmg"@),
        out == Some((ArtifactKind::Msi, Arch::Arm64)) <==> ends_in(name@, "-windows-arm64.msi"@),
        out == Some((ArtifactKind::Msi, Arch::X86_64)) <==> ends_in(
            name@,
            "-windows-x86_64.msi"@,
        ),
        out == Some((ArtifactKind::Zip, Arch::Arm64)) <==> ends_in(name@, "-windows-arm64.zip"@),
        out == Some((ArtifactKind::Zip, Arch::X86_64)) <==> ends_in(
            name@,
            "-windows-x86_64.zip"@,
        ),
{
    lemma_classes(name@);
}

proof fn lemma_classes(name: Seq<char>)
    ensures
        classification(name) == Some((ArtifactKind::Dmg, Arch::Arm64)) <==> ends_in(
            name,
            "-macos-arm64.dmg"@,
        ),
        classification(name) == Some((ArtifactKind::Dmg, Arch::X86_64)) <==> ends_in(
            name,
            "-macos-x86_64.dmg"@,
        ),
        classification(name) == Some((ArtifactKind::Msi, Arch::Arm64)) <==> ends_in(
            name,
            "-windows-arm64.msi"@,
        ),
        classification(name) == Some((ArtifactKind::Msi, Arch::X86_64)) <==> ends_in(
            name,
            "-windows-x86_64.msi"@,
        ),
        classification(name) == Some((ArtifactKind::Zip, Arch::Arm64)) <==> ends_in(
            name,
            "-windows-arm64.zip"@,
        ),
        classification(name) == Some((ArtifactKind::Zip, Arch::X86_64)) <==> ends_in(
            name,
            "-windows-x86_64.zip"@,
        ),
{
    reveal_strlit("arm64");
    reveal_strlit("x86_64");
    reveal_strlit("-macos-");
    reveal_strlit("-windows-");
    reveal_strlit(".dmg");
    reveal_strlit(".msi");
    reveal_strlit(".zip");
    reveal_strlit("-macos-arm64.dmg");
    reveal_strlit("-macos-x86_64.dmg");
    reveal_strlit("-windows-arm64.msi");
    reveal_strlit("-windows-x86_64.msi");
    reveal_strlit("-windows-arm64.zip");
    reveal_strlit("-windows-x86_64.zip");
    assert("-macos-arm64.dmg"@ =~= "-macos-"@ + "arm64"@ + ".dmg"@);
    assert("-macos-x86_64.dmg"@ =~= "-macos-"@ + "x86_64"@ + ".dmg"@);
    assert("-windows-arm64.msi"@ =~= "-windows-"@ + "arm64"@ + ".msi"@);
    assert("-windows-x86_64.msi"@ =~= "-windows-"@ + "x86_64"@ + ".msi"@);
    assert("-windows-arm64.zip"@ =~= "-windows-"@ + "arm64"@ + ".zip"@);
    assert("-windows-x86_64.zip"@ =~= "-windows-"@ + "x86_64"@ + ".zip"@);
    lemma_named(name, ".dmg"@, "-macos-"@, "arm64"@, "-macos-arm64.dmg"@);
    lemma_named(name, ".dmg"@, "-macos-"@, "x86_64"@, "-macos-x86_64.dmg"@);
    lemma_named(name, ".msi"@, "-windows-"@, "arm64"@, "-windows-arm64.msi"@);
    lemma_named(name, ".msi"@, "-windows-"@, "x86_64"@, "-windows-x86_64.msi"@);
    lemma_named(name, ".zip"@, "-windows-"@, "arm64"@, "-windows-arm64.zip"@);
    lemma_named(name, ".zip"@, "-windows-"@, "x86_64"@, "-windows-x86_64.zip"@);
    assert("arm64"@.len() != "x86_64"@.len());
    lemma_occurs_at_end(name, ".dmg"@);
    lemma_occurs_at_end(name, ".msi"@);
    lemma_occurs_at_end(name, ".zip"@);
    let tail = name.skip(name.len() - 4);
    assert(".dmg"@[1] != ".msi"@[1]);
    assert(".dmg"@[1] != ".zip"@[1]);
    assert(".msi"@[1] != ".zip"@[1]);
}

/// Only disk images have the architecture of a disk image.
pub proof fn disk_images_are_told_by_their_name(name: &str, arch: Option<Arch>)
    requires
        call_ensures(dmg_arch, (name,), arch),
    ensures
        arch == Some(Arch::Arm64) <==> ends_in(name@, "-macos-arm64.dmg"@),
        arch == Some(Arch::X86_64) <==> ends_in(name@, "-macos-x86_64.dmg"@),
{
    lemma_classes(name@);
}

// ── What is published ───────────────────────────────────────────────────────

/// The artifact is one that the manifest is to list.
pub open spec fn is_wanted(artifact: Artifact, selection: Selection) -> bool {
    match artifact.name {
        Some(name) => {
            ||| ends_in(name@, "-macos-arm64.dmg"@)
            ||| ends_in(name@, "-macos-x86_64.dmg"@)
            ||| selection == (Selection::Platforms { include_windows: true }) && {
                ||| ends_in(name@, "-windows-arm64.msi"@)
                ||| ends_in(name@, "-windows-x86_64.msi"@)
                ||| ends_in(name@, "-windows-arm64.zip"@)
                ||| ends_in(name@, "-windows-x86_64.zip"@)
            }
        },
        None => false,
    }
}

proof fn lemma_wanted(artifact: Artifact, selection: Selection)
    ensures
        is_wanted(artifact, selection) <==> listing(artifact, selection) is Some,
{
    if let Some(name) = artifact.name {
        lemma_classes(name@);
    }
}

/// `asset` tells the truth about `artifact`: its name, its size and its checksum.
pub open spec fn tells(asset: Asset, artifact: Artifact) -> bool {
    &&& artifact.name == Some(asset.name)
    &&& artifact.sha256 == Some(asset.sha256)
    &&& artifact.size == Some(asset.size)
}

/// Every published asset comes from an artifact that was found, wanted and signed, under its
/// name and with its size and checksum.
pub proof fn assets_tell_of_their_artifact(
    artifacts: &[Artifact],
    selection: Selection,
    base: &str,
    assets: Vec<Asset>,
    j: int,
) -> (i: int)
    requires
        call_ensures(collect, (artifacts, selection, base), Ok::<Vec<Asset>, AssetError>(assets)),
        0 <= j < assets@.len(),
    ensures
        0 <= i < artifacts@.len(),
        artifacts@[i].name == Some(assets@[j].name),
        artifacts@[i].sha256 == Some(assets@[j].sha256),
        artifacts@[i].size == Some(assets@[j].size),
        artifacts@[i].signed,
        is_wanted(artifacts@[i], selection),
{
    published_artifacts_are_signed(artifacts@, selection, base@, assets, j);
    let i = choose|i: int|
        0 <= i < artifacts@.len() && #[trigger] is_asset(
            assets@[j],
            artifacts@[i],
            selection,
            base@,
        ) && artifacts@[i].signed;
    lemma_wanted(artifacts@[i], selection);
    i
}

/// Every published asset is to be had under the base address by its name, with its
/// signature beside it.
pub proof fn assets_are_at_their_address(
    artifacts: &[Artifact],
    selection: Selection,
    base: &str,
    assets: Vec<Asset>,
    j: int,
)
    requires
        call_ensures(collect, (artifacts, selection, base), Ok::<Vec<Asset>, AssetError>(assets)),
        0 <= j < assets@.len(),
    ensures
        assets@[j].url@ == base@ + "/"@ + assets@[j].name@,
        assets@[j].signature_url@ == assets@[j].url@ + ".minisig"@,
{
    published_artifacts_are_signed(artifacts@, selection, base@, assets, j);
}

/// What an asset is told to be for is what its name says: a disk image for macOS, an
/// installer or an archive for Windows, and the processor that the name ends in.
pub proof fn assets_are_what_their_name_says(
    artifacts: &[Artifact],
    selection: Selection,
    base: &str,
    assets: Vec<Asset>,
    j: int,
)
    requires
        call_ensures(collect, (artifacts, selection, base), Ok::<Vec<Asset>, AssetError>(assets)),
        0 <= j < assets@.len(),
    ensures
        ends_in(assets@[j].name@, ".dmg"@) ==> assets@[j].os@ == "macos"@ && assets@[j].format@
            == "dmg"@ && assets@[j].content_type@ == "application/x-apple-diskimage"@
            && assets@[j].minimum_os_version@ == "13.0"@,
        ends_in(assets@[j].name@, ".msi"@) ==> assets@[j].os@ == "windows"@ && assets@[j].format@
            == "msi"@ && assets@[j].content_type@ == "application/x-msi"@
            && assets@[j].minimum_os_version@ == "10.0"@,
        ends_in(assets@[j].name@, ".zip"@) ==> assets@[j].os@ == "windows"@ && assets@[j].format@
            == "zip"@ && assets@[j].content_type@ == "application/zip"@
            && assets@[j].minimum_os_version@ == "10.0"@,
        ends_in(assets@[j].name@, "-macos-arm64.dmg"@) || ends_in(
            assets@[j].name@,
            "-windows-arm64.msi"@,
        ) || ends_in(assets@[j].name@, "-windows-arm64.zip"@) <==> assets@[j].arch@ == "arm64"@,
        ends_in(assets@[j].name@, "-macos-x86_64.dmg"@) || ends_in(
            assets@[j].name@,
            "-windows-x86_64.msi"@,
        ) || ends_in(assets@[j].name@, "-windows-x86_64.zip"@) <==> assets@[j].arch@ == "x86_64"@,
{
    published_artifacts_are_signed(artifacts@, selection, base@, assets, j);
    let name = assets@[j].name@;
    lemma_classes(name);
    reveal_strlit(".dmg");
    reveal_strlit(".msi");
    reveal_strlit(".zip");
    reveal_strlit("arm64");
    reveal_strlit("x86_64");
    lemma_occurs_at_end(name, ".dmg"@);
    lemma_occurs_at_end(name, ".msi"@);
    lemma_occurs_at_end(name, ".zip"@);
    assert(".dmg"@[1] != ".msi"@[1]);
    assert(".dmg"@[1] != ".zip"@[1]);
    assert(".msi"@[1] != ".zip"@[1]);
    assert("arm64"@.len() != "x86_64"@.len());
}

/// Every wanted artifact is published, with its own checksum and size.
pub proof fn wanted_artifacts_reach_the_updater(
    artifacts: &[Artifact],
    selection: Selection,
    base: &str,
    assets: Vec<Asset>,
    i: int,
) -> (j: int)
    requires
        call_ensures(collect, (artifacts, selection, base), Ok::<Vec<Asset>, AssetError>(assets)),
        0 <= i < artifacts@.len(),
        is_wanted(artifacts@[i], selection),
    ensures
        0 <= j < assets@.len(),
        tells(assets@[j], artifacts@[i]),
{
    lemma_wanted(artifacts@[i], selection);
    wanted_artifacts_are_published(artifacts@, selection, base@, assets, i);
    choose|j: int|
        0 <= j < assets@.len() && is_asset(
            #[trigger] assets@[j],
            artifacts@[i],
            selection,
            base@,
        )
}

/// The assets stand in the order of their names.
pub proof fn assets_stand_by_name(
    artifacts: &[Artifact],
    selection: Selection,
    base: &str,
    assets: Vec<Asset>,
    j: int,
    k: int,
)
    requires
        call_ensures(collect, (artifacts, selection, base), Ok::<Vec<Asset>, AssetError>(assets)),
        0 <= j < k < assets@.len(),
    ensures
        text_lt(assets@[j].name@, assets@[k].name@) || assets@[j].name@ == assets@[k].name@,
{
    let list = listed(artifacts@, selection);
    let unsorted = choose|unsorted: Seq<Asset>| #[trigger]
        are_assets(unsorted, list, selection, base@) && sorted_assets(unsorted, assets@);
    let keys = asset_keys(unsorted);
    let perm = choose|perm: Seq<usize>| #[trigger]
        stable_order(keys, perm) && assets@ == Seq::new(
            perm.len(),
            |i: int| unsorted[perm[i] as int],
        );
    let (a, b) = (perm[j] as int, perm[k] as int);
    assert(crate::order::before(keys, a, b));
    let (x, y) = (unsorted[a].name@, unsorted[b].name@);
    lemma_text_key_order(x, Seq::empty(), y, Seq::empty());
    assert(text_key(x) + Seq::<u32>::empty() =~= text_key(x));
    assert(text_key(y) + Seq::<u32>::empty() =~= text_key(y));
    if keys[a] == keys[b] {
        lemma_text_key_order(y, Seq::empty(), x, Seq::empty());
        crate::order::lemma_lex_irreflexive(keys[a]);
        crate::table::lemma_text_total(x, y);
    }
}

/// The artifact lacks something that a wanted one needs.
pub open spec fn lacks_something(artifact: Artifact) -> bool {
    !artifact.signed || artifact.size is None || artifact.sha256 is None
}

/// Nothing is published at all when a wanted artifact lacks its signature, its size or its
/// checksum; the first such artifact is named, with what it lacks.
pub proof fn incomplete_releases_are_refused(
    artifacts: &[Artifact],
    selection: Selection,
    base: &str,
    out: Result<Vec<Asset>, AssetError>,
)
    requires
        call_ensures(collect, (artifacts, selection, base), out),
    ensures
        out is Ok <==> forall|i: int|
            0 <= i < artifacts@.len() && is_wanted(#[trigger] artifacts@[i], selection)
                ==> !lacks_something(artifacts@[i]),
        out matches Err(e) ==> exists|i: int|
            {
                &&& 0 <= i < artifacts@.len()
                &&& is_wanted(#[trigger] artifacts@[i], selection)
                &&& names_the_lack(e, artifacts@[i])
                &&& forall|j: int|
                    0 <= j < i && is_wanted(#[trigger] artifacts@[j], selection)
                        ==> !lacks_something(artifacts@[j])
            },
{
    assert forall|i: int| 0 <= i < artifacts@.len() implies is_broken(
        #[trigger] artifacts@[i],
        selection,
    ) == (is_wanted(artifacts@[i], selection) && lacks_something(artifacts@[i])) by {
        lemma_wanted(artifacts@[i], selection);
    }
    if let Err(e) = out {
        let i = choose|i: int|
            0 <= i < artifacts@.len() && is_broken(#[trigger] artifacts@[i], selection)
                && crate::release::is_complaint(e, artifacts@[i]) && forall|j: int|
                0 <= j < i ==> !is_broken(#[trigger] artifacts@[j], selection);
        assert(is_wanted(artifacts@[i], selection));
        assert(names_the_lack(e, artifacts@[i]));
        assert forall|j: int|
            0 <= j < i && is_wanted(#[trigger] artifacts@[j], selection) implies !lacks_something(
            artifacts@[j],
        ) by {
            assert(!is_broken(artifacts@[j], selection));
        }
    }
}

/// `e` names the artifact and what it lacks.
pub open spec fn names_the_lack(e: AssetError, artifact: Artifact) -> bool {
    match e {
        AssetError::MissingSignature { name } => artifact.name == Some(name) && !artifact.signed,
        AssetError::Unreadable { name } => artifact.name == Some(name) && artifact.signed
            && artifact.size is None,
        AssetError::Unhashed { name } => artifact.name == Some(name) && artifact.signed
            && artifact.size is Some && artifact.sha256 is None,
    }
}

/// What could not be published is told with the file that it is about.
pub proof fn refusals_name_the_file(e: AssetError, dir: &str, text: String)
    requires
        call_ensures(AssetError::message, (&e, dir), text),
    ensures
        e matches AssetError::MissingSignature { name } ==> text@ == "missing minisign signature "@
            + dir@ + name@ + ".minisig for updater artifact "@ + dir@ + name@,
        e matches AssetError::Unreadable { name } ==> text@ == "could not stat "@ + dir@ + name@,
        e matches AssetError::Unhashed { name } ==> text@ == "could not hash artifact "@ + dir@
            + name@,
{
}

// ── The manifest ────────────────────────────────────────────────────────────

/// A manifest tells of the release that its tag names, with the assets as they were
/// collected, and only where a disk image is among them.
pub proof fn manifests_tell_of_the_release(
    tag: &str,
    assets: Vec<Asset>,
    published_at: String,
    version: String,
    out: Result<Manifest, ManifestError>,
)
    requires
        call_ensures(build_manifest, (tag, Ok(assets), Some(published_at)), out),
        call_ensures(release_version, (tag,), version),
    ensures
        out is Ok <==> exists|i: int|
            0 <= i < assets@.len() && (#[trigger] assets@[i]).os@ == "macos"@,
        out matches Err(e) ==> e == ManifestError::NoDiskImage,
        out matches Ok(m) ==> {
            &&& m.schema_version == 1
            &&& m.app_id@ == "org.openlogi.openlogi"@
            &&& m.version@ == version@
            &&& m.tag@ == tag@
            &&& m.channel@ == "stable"@
            &&& m.published_at == published_at
            &&& m.release_url@ == "https://github.com/AprilNEA/OpenLogi/releases/tag/"@ + tag@
            &&& m.assets == assets
        },
{
}

/// Without assets, or without the time, there is no manifest, and the reason is told.
pub proof fn manifests_need_their_parts(
    tag: &str,
    assets: Result<Vec<Asset>, AssetError>,
    published_at: Option<String>,
    out: Result<Manifest, ManifestError>,
)
    requires
        call_ensures(build_manifest, (tag, assets, published_at), out),
    ensures
        assets matches Err(e) ==> out == Err::<Manifest, ManifestError>(ManifestError::Assets(e)),
        published_at is None ==> out is Err,
        out == Err::<Manifest, ManifestError>(ManifestError::Timestamp) ==> published_at is None
            && assets is Ok,
{
}

/// Why there is no manifest can be read.
pub proof fn missing_manifests_are_explained(e: ManifestError, dir: &str, text: String)
    requires
        call_ensures(ManifestError::message, (&e, dir), text),
    ensures
        e is NoDiskImage ==> text@ == "no architecture-specific DMG assets found for manifest"@,
        e is Timestamp ==> text@ == "could not format current timestamp"@,
        e matches ManifestError::Assets(AssetError::Unreadable { name }) ==> text@
            == "could not stat "@ + dir@ + name@,
{
}

/// The version is the tag without a leading `v`.
pub proof fn versions_are_tags_without_v(tag: &str, version: String)
    requires
        call_ensures(release_version, (tag,), version),
    ensures
        tag@.len() > 0 && tag@[0] == 'v' ==> version@ == tag@.skip(1),
        tag@.len() == 0 || tag@[0] != 'v' ==> version@ == tag@,
{
    reveal_strlit("v");
    if tag@.len() > 0 {
        assert(tag@.subrange(0, 1)[0] == tag@[0]);
        if tag@[0] == 'v' {
            assert(tag@.subrange(0, 1) =~= "v"@);
        }
    }
}

/// The release lies under the base address, however many slashes that ends in.
pub proof fn releases_lie_under_the_base(base_url: &str, tag: &str, base: String) -> (n: int)
    requires
        call_ensures(release_base, (base_url, tag), base),
    ensures
        0 <= n <= base_url@.len(),
        n == 0 || base_url@[n - 1] != '/',
        forall|i: int| n <= i < base_url@.len() ==> base_url@[i] == '/',
        base@ == base_url@.take(n) + "/releases/"@ + tag@,
{
    lemma_without_slashes(base_url@)
}

proof fn lemma_without_slashes(s: Seq<char>) -> (n: int)
    ensures
        0 <= n <= s.len(),
        n == 0 || s[n - 1] != '/',
        forall|i: int| n <= i < s.len() ==> s[i] == '/',
        without_slashes(s) == s.take(n),
    decreases s.len(),
{
    if s.len() > 0 && s.last() == '/' {
        let n = lemma_without_slashes(s.drop_last());
        assert(s.drop_last().take(n) =~= s.take(n));
        assert forall|i: int| n <= i < s.len() implies s[i] == '/' by {
            if i < s.len() - 1 {
                assert(s.drop_last()[i] == s[i]);
            }
        }
        n
    } else {
        assert(s.take(s.len() as int) =~= s);
        s.len() as int
    }
}

/// Texts are ordered by the first character in which they differ, and a text comes after
/// every beginning of it.
pub proof fn texts_stand_by_their_first_difference(
    common: Seq<char>,
    a: Seq<char>,
    b: Seq<char>,
)
    ensures
        a.len() > 0 && b.len() > 0 && a[0] < b[0] ==> text_lt(common + a, common + b) && !text_lt(
            common + b,
            common + a,
        ),
        b.len() > 0 ==> text_lt(common, common + b) && !text_lt(common + b, common),
    decreases common.len(),
{
    if common.len() == 0 {
        assert(common + a =~= a);
        assert(common + b =~= b);
    } else {
        assert((common + a).skip(1) =~= common.skip(1) + a);
        assert((common + b).skip(1) =~= common.skip(1) + b);
        texts_stand_by_their_first_difference(common.skip(1), a, b);
    }
}

// ── Whole releases ──────────────────────────────────────────────────────────

/// The manifest tells of artifacts of this release: each with its own name, size and
/// checksum, under the address of the release.
pub open spec fn tells_of_release(
    manifest: Manifest,
    artifacts: Seq<Artifact>,
    selection: Selection,
    tag: Seq<char>,
    root: Seq<char>,
) -> bool {
    &&& manifest.tag@ == tag
    &&& manifest.schema_version == 1
    &&& manifest.release_url@ == "https://github.com/AprilNEA/OpenLogi/releases/tag/"@ + tag
    &&& forall|j: int|
        0 <= j < manifest.assets@.len() ==> {
            &&& (#[trigger] manifest.assets@[j]).url@ == root + "/releases/"@ + tag + "/"@
                + manifest.assets@[j].name@
            &&& manifest.assets@[j].signature_url@ == manifest.assets@[j].url@ + ".minisig"@
            &&& exists|i: int|
                0 <= i < artifacts.len() && #[trigger] tells(manifest.assets@[j], artifacts[i])
                    && artifacts[i].signed && is_wanted(artifacts[i], selection)
        }
    &&& forall|i: int|
        0 <= i < artifacts.len() && is_wanted(#[trigger] artifacts[i], selection) ==> exists|
            j: int,
        |
            0 <= j < manifest.assets@.len() && #[trigger] tells(manifest.assets@[j], artifacts[i])
}

proof fn lemma_release(
    artifacts: Seq<Artifact>,
    selection: Selection,
    tag: Seq<char>,
    root: Seq<char>,
    assets: Vec<Asset>,
    time: Option<String>,
    manifest: Manifest,
)
    requires
        crate::release::is_collection(
            artifacts,
            selection,
            root + "/releases/"@ + tag,
            Ok(assets),
        ),
        crate::release::is_manifest(tag, Ok(assets), time, Ok(manifest)),
    ensures
        tells_of_release(manifest, artifacts, selection, tag, root),
{
    let base = root + "/releases/"@ + tag;
    assert forall|j: int| 0 <= j < assets@.len() implies {
        &&& (#[trigger] assets@[j]).url@ == base + "/"@ + assets@[j].name@
        &&& assets@[j].signature_url@ == assets@[j].url@ + ".minisig"@
        &&& exists|i: int|
            0 <= i < artifacts.len() && #[trigger] tells(assets@[j], artifacts[i])
                && artifacts[i].signed && is_wanted(artifacts[i], selection)
    } by {
        published_artifacts_are_signed(artifacts, selection, base, assets, j);
        let i = choose|i: int|
            0 <= i < artifacts.len() && #[trigger] is_asset(
                assets@[j],
                artifacts[i],
                selection,
                base,
            ) && artifacts[i].signed;
        lemma_wanted(artifacts[i], selection);
        assert(tells(assets@[j], artifacts[i]));
    }
    assert forall|i: int|
        0 <= i < artifacts.len() && is_wanted(#[trigger] artifacts[i], selection) implies exists|
        j: int,
    |
        0 <= j < assets@.len() && #[trigger] tells(assets@[j], artifacts[i]) by {
        lemma_wanted(artifacts[i], selection);
        wanted_artifacts_are_published(artifacts, selection, base, assets, i);
        let j = choose|j: int|
            0 <= j < assets@.len()
                && is_asset(#[trigger] assets@[j], artifacts[i], selection, base);
        assert(tells(assets@[j], artifacts[i]));
    }
}

/// A release with its Windows artifacts, where they are wanted, is told of as it was found.
pub proof fn releases_are_told_as_found(
    artifacts: &[Artifact],
    tag: &str,
    base_url: &str,
    include_windows: bool,
    nanos: i128,
    out: Result<Manifest, ManifestError>,
)
    requires
        call_ensures(
            crate::latest_json::run,
            (artifacts, tag, base_url, include_windows, nanos),
            out,
        ),
    ensures
        out matches Ok(m) ==> tells_of_release(
            m,
            artifacts@,
            Selection::Platforms { include_windows },
            tag@,
            without_slashes(base_url@),
        ),
{
    let selection = Selection::Platforms { include_windows };
    let base = without_slashes(base_url@) + "/releases/"@ + tag@;
    let (assets, time) = choose|
        assets: Result<Vec<Asset>, AssetError>,
        time: Option<String>,
    |
        #![trigger crate::release::is_manifest(tag@, assets, time, out)]
        crate::release::is_collection(artifacts@, selection, base, assets)
            && crate::text::optional_text(time) == crate::release::rfc3339(nanos)
            && crate::release::is_manifest(tag@, assets, time, out);
    if let Ok(m) = out {
        lemma_release(
            artifacts@,
            selection,
            tag@,
            without_slashes(base_url@),
            assets->Ok_0,
            time,
            m,
        );
    }
}

/// The updater's manifest tells of the disk images of the release, as they were found.
pub proof fn updater_manifests_tell_of_disk_images(
    artifacts: &[Artifact],
    tag: &str,
    base_url: &str,
    nanos: i128,
    out: Result<Manifest, ManifestError>,
)
    requires
        call_ensures(
            crate::manifest::generate_updater_manifest,
            (artifacts, tag, base_url, nanos),
            out,
        ),
    ensures
        out matches Ok(m) ==> tells_of_release(
            m,
            artifacts@,
            Selection::DmgOnly,
            tag@,
            without_slashes(base_url@),
        ),
{
    let selection = Selection::DmgOnly;
    let base = without_slashes(base_url@) + "/releases/"@ + tag@;
    let (assets, time) = choose|
        assets: Result<Vec<Asset>, AssetError>,
        time: Option<String>,
    |
        #![trigger crate::release::is_manifest(tag@, assets, time, out)]
        crate::release::is_collection(artifacts@, selection, base, assets)
            && crate::text::optional_text(time) == crate::release::rfc3339(nanos)
            && crate::release::is_manifest(tag@, assets, time, out);
    if let Ok(m) = out {
        lemma_release(
            artifacts@,
            selection,
            tag@,
            without_slashes(base_url@),
            assets->Ok_0,
            time,
            m,
        );
    }
}

/// What is collected for the two manifests: disk images for the updater, and Windows
/// artifacts beside them where they are asked for.
pub proof fn manifests_collect_their_platforms(
    artifacts: &[Artifact],
    base: &str,
    include_windows: bool,
    all: Vec<Asset>,
    images: Vec<Asset>,
    i: int,
) -> (at: (int, int))
    requires
        call_ensures(
            crate::latest_json::collect_assets,
            (artifacts, base, include_windows),
            Ok::<Vec<Asset>, AssetError>(all),
        ),
        call_ensures(
            crate::manifest::collect_assets,
            (artifacts, base),
            Ok::<Vec<Asset>, AssetError>(images),
        ),
        0 <= i < artifacts@.len(),
    ensures
        is_wanted(artifacts@[i], Selection::Platforms { include_windows }) ==> 0 <= at.0
            < all@.len() && tells(all@[at.0], artifacts@[i]),
        is_wanted(artifacts@[i], Selection::DmgOnly) ==> 0 <= at.1 < images@.len() && tells(
            images@[at.1],
            artifacts@[i],
        ),
{
    let platforms = Selection::Platforms { include_windows };
    lemma_wanted(artifacts@[i], platforms);
    lemma_wanted(artifacts@[i], Selection::DmgOnly);
    let a = if is_wanted(artifacts@[i], platforms) {
        wanted_artifacts_are_published(artifacts@, platforms, base@, all, i);
        choose|j: int|
            0 <= j < all@.len() && is_asset(#[trigger] all@[j], artifacts@[i], platforms, base@)
    } else {
        0
    };
    let b = if is_wanted(artifacts@[i], Selection::DmgOnly) {
        wanted_artifacts_are_published(artifacts@, Selection::DmgOnly, base@, images, i);
        choose|j: int|
            0 <= j < images@.len() && is_asset(
                #[trigger] images@[j],
                artifacts@[i],
                Selection::DmgOnly,
                base@,
            )
    } else {
        0
    };
    (a, b)
}

/// The words for platforms, formats and processors are those that updaters know.
pub proof fn artifacts_go_by_known_words(
    kind: ArtifactKind,
    arch: Arch,
    os: &'static str,
    format: &'static str,
    content: &'static str,
    oldest: &'static str,
    processor: &'static str,
)
    requires
        call_ensures(ArtifactKind::os, (kind,), os),
        call_ensures(ArtifactKind::format, (kind,), format),
        call_ensures(ArtifactKind::content_type, (kind,), content),
        call_ensures(ArtifactKind::minimum_os_version, (kind,), oldest),
        call_ensures(Arch::name, (arch,), processor),
    ensures
        kind == ArtifactKind::Dmg ==> os@ == "macos"@ && format@ == "dmg"@ && content@
            == "application/x-apple-diskimage"@ && oldest@ == "13.0"@,
        kind == ArtifactKind::Msi ==> os@ == "windows"@ && format@ == "msi"@ && content@
            == "application/x-msi"@ && oldest@ == "10.0"@,
        kind == ArtifactKind::Zip ==> os@ == "windows"@ && format@ == "zip"@ && content@
            == "application/zip"@ && oldest@ == "10.0"@,
        arch == Arch::Arm64 ==> processor@ == "arm64"@,
        arch == Arch::X86_64 ==> processor@ == "x86_64"@,
{
}

/// A release whose wanted artifacts are all complete, with a disk image among them and a time
/// that can be written, has a manifest.
pub proof fn complete_releases_have_a_manifest(
    artifacts: &[Artifact],
    tag: &str,
    base_url: &str,
    include_windows: bool,
    nanos: i128,
    out: Result<Manifest, ManifestError>,
    i: int,
)
    requires
        call_ensures(
            crate::latest_json::run,
            (artifacts, tag, base_url, include_windows, nanos),
            out,
        ),
        forall|k: int|
            0 <= k < artifacts@.len() && is_wanted(
                #[trigger] artifacts@[k],
                Selection::Platforms { include_windows },
            ) ==> !lacks_something(artifacts@[k]),
        0 <= i < artifacts@.len(),
        artifacts@[i].name is Some,
        ends_in(artifacts@[i].name->0@, "-macos-arm64.dmg"@) || ends_in(
            artifacts@[i].name->0@,
            "-macos-x86_64.dmg"@,
        ),
        crate::release::rfc3339(nanos) is Some,
    ensures
        out matches Ok(m) && m.published_at@ == crate::release::rfc3339(nanos)->0,
{
    let selection = Selection::Platforms { include_windows };
    let base = without_slashes(base_url@) + "/releases/"@ + tag@;
    let (assets, time) = choose|
        assets: Result<Vec<Asset>, AssetError>,
        time: Option<String>,
    |
        #![trigger crate::release::is_manifest(tag@, assets, time, out)]
        crate::release::is_collection(artifacts@, selection, base, assets)
            && crate::text::optional_text(time) == crate::release::rfc3339(nanos)
            && crate::release::is_manifest(tag@, assets, time, out);
    assert forall|k: int| 0 <= k < artifacts@.len() implies !is_broken(
        #[trigger] artifacts@[k],
        selection,
    ) by {
        lemma_wanted(artifacts@[k], selection);
    }
    let list = assets->Ok_0;
    lemma_wanted(artifacts@[i], selection);
    wanted_artifacts_are_published(artifacts@, selection, base, list, i);
    let j = choose|j: int|
        0 <= j < list@.len() && is_asset(#[trigger] list@[j], artifacts@[i], selection, base);
    lemma_classes(artifacts@[i].name->0@);
    assert(list@[j].os@ == "macos"@);
}

/// How many of the artifacts are wanted.
pub open spec fn wanted_count(artifacts: Seq<Artifact>, selection: Selection) -> nat
    decreases artifacts.len(),
{
    if artifacts.len() == 0 {
        0
    } else {
        wanted_count(artifacts.drop_last(), selection) + if is_wanted(artifacts.last(), selection) {
            1nat
        } else {
            0nat
        }
    }
}

proof fn lemma_wanted_count(artifacts: Seq<Artifact>, selection: Selection)
    ensures
        listed(artifacts, selection).len() == wanted_count(artifacts, selection),
    decreases artifacts.len(),
{
    reveal(Seq::filter);
    if artifacts.len() > 0 {
        lemma_wanted_count(artifacts.drop_last(), selection);
        lemma_wanted(artifacts.last(), selection);
    }
}

/// As many assets are published as artifacts are wanted: none is left out and none is
/// published twice.
pub proof fn wanted_artifacts_are_published_once(
    artifacts: &[Artifact],
    selection: Selection,
    base: &str,
    assets: Vec<Asset>,
)
    requires
        call_ensures(collect, (artifacts, selection, base), Ok::<Vec<Asset>, AssetError>(assets)),
    ensures
        assets@.len() == wanted_count(artifacts@, selection),
{
    lemma_wanted_count(artifacts@, selection);
    let list = listed(artifacts@, selection);
    let unsorted = choose|unsorted: Seq<Asset>| #[trigger]
        are_assets(unsorted, list, selection, base@) && sorted_assets(unsorted, assets@);
    let perm = choose|perm: Seq<usize>| #[trigger]
        stable_order(asset_keys(unsorted), perm) && assets@ == Seq::new(
            perm.len(),
            |i: int| unsorted[perm[i] as int],
        );
    assert(asset_keys(unsorted).len() == unsorted.len());
}

} // verus!
