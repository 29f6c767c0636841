//! What the updater is told of a release: its artifacts and where they are.

use vstd::prelude::*;
use vstd::string::*;

use crate::order::{key_views, push_text_key, sorted_positions, stable_order, text_key};
use crate::text::{
    after_last, chars_of, following_last, head, same_chars, string_of, strip_prefix, strip_suffix,
    without_prefix, without_suffix,
};

verus! {

/// A processor architecture.
#[derive(Debug, Clone, Copy, PartialEq, Eq, Structural)]
pub enum Arch {
    /// 64-bit ARM.
    Arm64,
    /// 64-bit x86.
    X86_64,
}

impl Arch {
    /// The name as characters.
    pub open spec fn name_text(self) -> Seq<char> {
        match self {
            Arch::Arm64 => "arm64"@,
            Arch::X86_64 => "x86_64"@,
        }
    }

    /// The name in artifact names.
    pub fn name(self) -> (name: &'static str)
        ensures
            name@ == self.name_text(),
    {
        match self {
            Arch::Arm64 => "arm64",
            Arch::X86_64 => "x86_64",
        }
    }
}

/// A kind of artifact that the updater can use.
#[derive(Debug, Clone, Copy, PartialEq, Eq, Structural)]
pub enum ArtifactKind {
    /// A macOS disk image.
    Dmg,
    /// A Windows installer.
    Msi,
    /// A Windows archive.
    Zip,
}

impl ArtifactKind {
    /// The platform as characters.
    pub open spec fn os_text(self) -> Seq<char> {
        match self {
            ArtifactKind::Dmg => "macos"@,
            _ => "windows"@,
        }
    }

    /// The format as characters.
    pub open spec fn format_text(self) -> Seq<char> {
        match self {
            ArtifactKind::Dmg => "dmg"@,
            ArtifactKind::Msi => "msi"@,
            ArtifactKind::Zip => "zip"@,
        }
    }

    /// The content type as characters.
    pub open spec fn content_type_text(self) -> Seq<char> {
        match self {
            ArtifactKind::Dmg => "application/x-apple-diskimage"@,
            ArtifactKind::Msi => "application/x-msi"@,
            ArtifactKind::Zip => "application/zip"@,
        }
    }

    /// The oldest supported system as characters.
    pub open spec fn minimum_os_text(self) -> Seq<char> {
        match self {
            ArtifactKind::Dmg => "13.0"@,
            _ => "10.0"@,
        }
    }

    /// The platform.
    pub fn os(self) -> (text: &'static str)
        ensures
            text@ == self.os_text(),
    {
        match self {
            ArtifactKind::Dmg => "macos",
            _ => "windows",
        }
    }

    /// The format.
    pub fn format(self) -> (text: &'static str)
        ensures
            text@ == self.format_text(),
    {
        match self {
            ArtifactKind::Dmg => "dmg",
            ArtifactKind::Msi => "msi",
            ArtifactKind::Zip => "zip",
        }
    }

    /// The content type.
    pub fn content_type(self) -> (text: &'static str)
        ensures
            text@ == self.content_type_text(),
    {
        match self {
            ArtifactKind::Dmg => "application/x-apple-diskimage",
            ArtifactKind::Msi => "application/x-msi",
            ArtifactKind::Zip => "application/zip",
        }
    }

    /// The oldest supported system.
    pub fn minimum_os_version(self) -> (text: &'static str)
        ensures
            text@ == self.minimum_os_text(),
    {
        match self {
            ArtifactKind::Dmg => "13.0",
            _ => "10.0",
        }
    }
}

/// The architecture that stands behind the last `marker` of a stem.
pub open spec fn arch_behind(stem: Seq<char>, marker: Seq<char>) -> Option<Arch> {
    match after_last(stem, marker) {
        Some(rest) => if rest == "arm64"@ {
            Some(Arch::Arm64)
        } else if rest == "x86_64"@ {
            Some(Arch::X86_64)
        } else {
            None
        },
        None => None,
    }
}

/// The architecture that stands behind the last `marker` of a stem. A stem
/// without one is no artifact.
pub fn platform_arch(stem: &[char], marker: &str) -> (arch: Option<Arch>)
    ensures
        arch == arch_behind(stem@, marker@),
{
    let mark: Vec<char> = chars_of(marker);
    match following_last(stem, mark.as_slice()) {
        Some(rest) => {
            let arm: Vec<char> = chars_of("arm64");
            let intel: Vec<char> = chars_of("x86_64");
            if same_chars(rest, arm.as_slice()) {
                Some(Arch::Arm64)
            } else if same_chars(rest, intel.as_slice()) {
                Some(Arch::X86_64)
            } else {
                None
            }
        },
        None => None,
    }
}

/// What the artifact with this name is. Linux packages update through their
/// package manager and are not among these, nor are checksums and signatures.
pub open spec fn classification(name: Seq<char>) -> Option<(ArtifactKind, Arch)> {
    match strip_suffix(name, ".dmg"@) {
        Some(stem) => match arch_behind(stem, "-macos-"@) {
            Some(arch) => Some((ArtifactKind::Dmg, arch)),
            None => None,
        },
        None => match strip_suffix(name, ".msi"@) {
            Some(stem) => match arch_behind(stem, "-windows-"@) {
                Some(arch) => Some((ArtifactKind::Msi, arch)),
                None => None,
            },
            None => match strip_suffix(name, ".zip"@) {
                Some(stem) => match arch_behind(stem, "-windows-"@) {
                    Some(arch) => Some((ArtifactKind::Zip, arch)),
                    None => None,
                },
                None => None,
            },
        },
    }
}

/// What the artifact with this name is; `None` for anything that the updater
/// cannot use.
pub fn classify(name: &str) -> (out: Option<(ArtifactKind, Arch)>)
    ensures
        out == classification(name@),
{
    let chars: Vec<char> = chars_of(name);
    let dmg: Vec<char> = chars_of(".dmg");
    match without_suffix(chars.as_slice(), dmg.as_slice()) {
        Some(stem) => {
            return match platform_arch(stem, "-macos-") {
                Some(arch) => Some((ArtifactKind::Dmg, arch)),
                None => None,
            };
        },
        None => {},
    }
    let msi: Vec<char> = chars_of(".msi");
    match without_suffix(chars.as_slice(), msi.as_slice()) {
        Some(stem) => {
            return match platform_arch(stem, "-windows-") {
                Some(arch) => Some((ArtifactKind::Msi, arch)),
                None => None,
            };
        },
        None => {},
    }
    let zip: Vec<char> = chars_of(".zip");
    match without_suffix(chars.as_slice(), zip.as_slice()) {
        Some(stem) => match platform_arch(stem, "-windows-") {
            Some(arch) => Some((ArtifactKind::Zip, arch)),
            None => None,
        },
        None => None,
    }
}

/// The architecture of the disk image with this name.
pub open spec fn dmg_arch_of(name: Seq<char>) -> Option<Arch> {
    match classification(name) {
        Some((ArtifactKind::Dmg, arch)) => Some(arch),
        _ => None,
    }
}

/// The architecture of the disk image with this name; `None` for anything else.
pub fn dmg_arch(name: &str) -> (arch: Option<Arch>)
    ensures
        arch == dmg_arch_of(name@),
{
    match classify(name) {
        Some((ArtifactKind::Dmg, arch)) => Some(arch),
        _ => None,
    }
}

// ── Collecting artifacts ────────────────────────────────────────────────────

/// What was found in the directory of artifacts.
#[derive(Debug)]
pub struct Artifact {
    /// The file name, where it is text.
    pub name: Option<String>,
    /// Whether its signature lies beside it.
    pub signed: bool,
    /// Its size, where it could be told.
    pub size: Option<u64>,
    /// Its checksum, where it could be computed.
    pub sha256: Option<String>,
}

/// Which artifacts a manifest lists.
#[derive(Debug, Clone, Copy, PartialEq, Eq, Structural)]
pub enum Selection {
    /// Disk images only.
    DmgOnly,
    /// Disk images and, where wanted, Windows artifacts.
    Platforms {
        /// Whether Windows artifacts are wanted.
        include_windows: bool,
    },
}

/// What an artifact is, if the manifest lists it.
pub open spec fn listing(artifact: Artifact, selection: Selection) -> Option<(ArtifactKind, Arch)> {
    match artifact.name {
        Some(name) => match classification(name@) {
            Some(class) => match selection {
                Selection::DmgOnly => if class.0 == ArtifactKind::Dmg {
                    Some(class)
                } else {
                    None
                },
                Selection::Platforms { include_windows } => if class.0 == ArtifactKind::Dmg
                    || include_windows {
                    Some(class)
                } else {
                    None
                },
            },
            None => None,
        },
        None => None,
    }
}

fn listed_as(artifact: &Artifact, selection: Selection) -> (out: Option<(ArtifactKind, Arch)>)
    ensures
        out == listing(*artifact, selection),
{
    let class: (ArtifactKind, Arch) = match &artifact.name {
        Some(name) => match classify(name.as_str()) {
            Some(class) => class,
            None => {
                return None;
            },
        },
        None => {
            return None;
        },
    };
    match selection {
        Selection::DmgOnly => if class.0 == ArtifactKind::Dmg {
            Some(class)
        } else {
            None
        },
        Selection::Platforms { include_windows } => if class.0 == ArtifactKind::Dmg
            || include_windows {
            Some(class)
        } else {
            None
        },
    }
}

/// One artifact in a manifest.
#[derive(Debug)]
pub struct Asset {
    /// The file name.
    pub name: String,
    /// Where it is.
    pub url: String,
    /// Where its signature is.
    pub signature_url: String,
    /// The platform.
    pub os: &'static str,
    /// The architecture.
    pub arch: String,
    /// The format.
    pub format: &'static str,
    /// The content type.
    pub content_type: &'static str,
    /// The size in bytes.
    pub size: u64,
    /// The checksum.
    pub sha256: String,
    /// The oldest supported system.
    pub minimum_os_version: &'static str,
}

impl Clone for Asset {
    fn clone(&self) -> (out: Self)
        ensures
            out == *self,
    {
        Asset {
            name: self.name.clone(),
            url: self.url.clone(),
            signature_url: self.signature_url.clone(),
            os: self.os,
            arch: self.arch.clone(),
            format: self.format,
            content_type: self.content_type,
            size: self.size,
            sha256: self.sha256.clone(),
            minimum_os_version: self.minimum_os_version,
        }
    }
}

/// Why artifacts could not be collected.
#[derive(Debug, PartialEq, Eq)]
pub enum AssetError {
    /// An artifact has no signature.
    MissingSignature {
        /// The artifact.
        name: String,
    },
    /// The size of an artifact could not be told.
    Unreadable {
        /// The artifact.
        name: String,
    },
    /// The checksum of an artifact could not be computed.
    Unhashed {
        /// The artifact.
        name: String,
    },
}

impl AssetError {
    /// The message as characters, with `dir` before every file name.
    pub open spec fn message_text(self, dir: Seq<char>) -> Seq<char> {
        match self {
            AssetError::MissingSignature { name } => "missing minisign signature "@ + dir + name@
                + ".minisig for updater artifact "@ + dir + name@,
            AssetError::Unreadable { name } => "could not stat "@ + dir + name@,
            AssetError::Unhashed { name } => "could not hash artifact "@ + dir + name@,
        }
    }

    /// The message for the user. `dir` is the directory of the artifacts as it stands
    /// before a file name.
    pub fn message(&self, dir: &str) -> (out: String)
        ensures
            out@ == self.message_text(dir@),
    {
        let mut out: String = String::new();
        match self {
            AssetError::MissingSignature { name } => {
                out.append("missing minisign signature ");
                out.append(dir);
                out.append(name.as_str());
                out.append(".minisig for updater artifact ");
                out.append(dir);
                out.append(name.as_str());
            },
            AssetError::Unreadable { name } => {
                out.append("could not stat ");
                out.append(dir);
                out.append(name.as_str());
            },
            AssetError::Unhashed { name } => {
                out.append("could not hash artifact ");
                out.append(dir);
                out.append(name.as_str());
            },
        }
        assert(out@ =~= self.message_text(dir@));
        out
    }
}

/// `asset` lists `artifact`, which is published under `base`.
pub open spec fn is_asset(asset: Asset, artifact: Artifact, selection: Selection, base: Seq<char>) -> bool {
    match (artifact.name, listing(artifact, selection)) {
        (Some(name), Some(class)) => {
            &&& asset.name == name
            &&& asset.url@ == base + "/"@ + name@
            &&& asset.signature_url@ == base + "/"@ + name@ + ".minisig"@
            &&& asset.os@ == class.0.os_text()
            &&& asset.arch@ == class.1.name_text()
            &&& asset.format@ == class.0.format_text()
            &&& asset.content_type@ == class.0.content_type_text()
            &&& Some(asset.size) == artifact.size
            &&& Some(asset.sha256) == artifact.sha256
            &&& asset.minimum_os_version@ == class.0.minimum_os_text()
        },
        _ => false,
    }
}

/// The artifact is listed and has everything that a listing needs.
pub open spec fn is_complete(artifact: Artifact, selection: Selection) -> bool {
    listing(artifact, selection) is Some && artifact.signed && artifact.size is Some
        && artifact.sha256 is Some
}

/// The artifact is listed and lacks something.
pub open spec fn is_broken(artifact: Artifact, selection: Selection) -> bool {
    listing(artifact, selection) is Some && !is_complete(artifact, selection)
}

/// `e` says what `artifact` lacks first: its signature, its size, its checksum.
pub open spec fn is_complaint(e: AssetError, artifact: Artifact) -> bool {
    match artifact.name {
        Some(name) => if !artifact.signed {
            e == AssetError::MissingSignature { name }
        } else if artifact.size is None {
            e == AssetError::Unreadable { name }
        } else {
            e == AssetError::Unhashed { name }
        },
        None => false,
    }
}

/// The listed ones among the artifacts, in order.
pub open spec fn listed(artifacts: Seq<Artifact>, selection: Selection) -> Seq<Artifact> {
    artifacts.filter(|a: Artifact| listing(a, selection) is Some)
}

/// `assets` lists `artifacts`, one for one.
pub open spec fn are_assets(
    assets: Seq<Asset>,
    artifacts: Seq<Artifact>,
    selection: Selection,
    base: Seq<char>,
) -> bool {
    &&& assets.len() == artifacts.len()
    &&& forall|i: int|
        0 <= i < assets.len() ==> is_asset(#[trigger] assets[i], artifacts[i], selection, base)
}

/// The sort keys of assets: their names.
pub open spec fn asset_keys(assets: Seq<Asset>) -> Seq<Seq<u32>> {
    assets.map_values(|a: Asset| text_key(a.name@))
}

/// `sorted` is `assets` in the order of their names.
pub open spec fn sorted_assets(assets: Seq<Asset>, sorted: Seq<Asset>) -> bool {
    exists|perm: Seq<usize>| #[trigger]
        stable_order(asset_keys(assets), perm) && sorted == Seq::new(
            perm.len(),
            |i: int| assets[perm[i] as int],
        )
}

/// `out` is what collecting gives: the complaint about the first listed artifact
/// that lacks something, or the listed artifacts in the order of their names.
pub open spec fn is_collection(
    artifacts: Seq<Artifact>,
    selection: Selection,
    base: Seq<char>,
    out: Result<Vec<Asset>, AssetError>,
) -> bool {
    match out {
        Ok(assets) => {
            &&& forall|i: int|
                0 <= i < artifacts.len() ==> !is_broken(#[trigger] artifacts[i], selection)
            &&& exists|unsorted: Seq<Asset>| #[trigger]
                are_assets(unsorted, listed(artifacts, selection), selection, base)
                    && sorted_assets(unsorted, assets@)
        },
        Err(e) => exists|i: int|
            0 <= i < artifacts.len() && is_broken(#[trigger] artifacts[i], selection)
                && is_complaint(e, artifacts[i]) && forall|j: int|
                0 <= j < i ==> !is_broken(#[trigger] artifacts[j], selection),
    }
}

fn asset_for(
    artifact: &Artifact,
    class: (ArtifactKind, Arch),
    selection: Selection,
    base: &str,
) -> (out: Result<Asset, AssetError>)
    requires
        listing(*artifact, selection) == Some(class),
    ensures
        match out {
            Ok(asset) => is_complete(*artifact, selection) && is_asset(
                asset,
                *artifact,
                selection,
                base@,
            ),
            Err(e) => is_broken(*artifact, selection) && is_complaint(e, *artifact),
        },
{
    let name: String = match &artifact.name {
        Some(name) => name.clone(),
        None => String::new(),
    };
    if !artifact.signed {
        return Err(AssetError::MissingSignature { name });
    }
    let size: u64 = match artifact.size {
        Some(size) => size,
        None => {
            return Err(AssetError::Unreadable { name });
        },
    };
    let sha256: String = match &artifact.sha256 {
        Some(sum) => sum.clone(),
        None => {
            return Err(AssetError::Unhashed { name });
        },
    };
    let mut url: String = base.to_string();
    url.append("/");
    url.append(name.as_str());
    let mut signature_url: String = url.clone();
    signature_url.append(".minisig");
    Ok(
        Asset {
            name,
            url,
            signature_url,
            os: class.0.os(),
            arch: class.1.name().to_string(),
            format: class.0.format(),
            content_type: class.0.content_type(),
            size,
            sha256,
            minimum_os_version: class.0.minimum_os_version(),
        },
    )
}

fn sort_assets(assets: Vec<Asset>) -> (sorted: Vec<Asset>)
    ensures
        sorted_assets(assets@, sorted@),
{
    let n: usize = assets.len();
    let mut keys: Vec<Vec<u32>> = Vec::new();
    let mut k: usize = 0;
    while k < n
        invariant
            k <= n,
            n == assets@.len(),
            keys@.len() == k,
            forall|j: int| 0 <= j < k ==> (#[trigger] keys@[j])@ == text_key(assets@[j].name@),
        decreases n - k,
    {
        let mut key: Vec<u32> = Vec::new();
        push_text_key(&mut key, assets[k].name.as_str());
        assert(key@ =~= text_key(assets@[k as int].name@));
        keys.push(key);
        k = k + 1;
    }
    let perm: Vec<usize> = sorted_positions(&keys);
    assert(key_views(keys@) =~= asset_keys(assets@));
    let mut sorted: Vec<Asset> = Vec::new();
    let mut i: usize = 0;
    while i < n
        invariant
            i <= n,
            n == assets@.len(),
            n == perm@.len(),
            forall|j: int| 0 <= j < n ==> 0 <= #[trigger] perm@[j] < n,
            sorted@.len() == i,
            forall|j: int| 0 <= j < i ==> #[trigger] sorted@[j] == assets@[perm@[j] as int],
        decreases n - i,
    {
        sorted.push(assets[perm[i]].clone());
        i = i + 1;
    }
    assert(sorted@ =~= Seq::new(perm@.len(), |i: int| assets@[perm@[i] as int]));
    sorted
}

/// Collect the artifacts that a manifest lists. Every listed artifact needs a
/// signature beside it, without which nothing is published.
pub fn collect(artifacts: &[Artifact], selection: Selection, base: &str) -> (out: Result<
    Vec<Asset>,
    AssetError,
>)
    ensures
        is_collection(artifacts@, selection, base@, out),
{
    let mut assets: Vec<Asset> = Vec::new();
    let n: usize = artifacts.len();
    let mut i: usize = 0;
    proof {
        reveal(Seq::filter);
    }
    while i < n
        invariant
            i <= n,
            n == artifacts@.len(),
            forall|j: int| 0 <= j < i ==> !is_broken(#[trigger] artifacts@[j], selection),
            are_assets(
                assets@,
                listed(artifacts@.take(i as int), selection),
                selection,
                base@,
            ),
        decreases n - i,
    {
        proof {
            reveal(Seq::filter);
            assert(artifacts@.take(i as int + 1).drop_last() =~= artifacts@.take(i as int));
        }
        let artifact: &Artifact = &artifacts[i];
        match listed_as(artifact, selection) {
            Some(class) => match asset_for(artifact, class, selection, base) {
                Ok(asset) => {
                    assets.push(asset);
                },
                Err(e) => {
                    assert(is_broken(artifacts@[i as int], selection));
                    return Err(e);
                },
            },
            None => {},
        }
        i = i + 1;
    }
    assert(artifacts@.take(n as int) =~= artifacts@);
    Ok(sort_assets(assets))
}

// ── The manifest ────────────────────────────────────────────────────────────

/// The update manifest.
#[derive(Debug)]
pub struct Manifest {
    /// The version of the manifest's layout.
    pub schema_version: u8,
    /// The application.
    pub app_id: &'static str,
    /// The released version.
    pub version: String,
    /// The release tag.
    pub tag: String,
    /// The release channel.
    pub channel: &'static str,
    /// When the manifest was made.
    pub published_at: String,
    /// The release page.
    pub release_url: String,
    /// The artifacts.
    pub assets: Vec<Asset>,
}

/// Why there is no manifest.
#[derive(Debug, PartialEq, Eq)]
pub enum ManifestError {
    /// Artifacts could not be collected.
    Assets(AssetError),
    /// There is no disk image.
    NoDiskImage,
    /// The time could not be put into text.
    Timestamp,
}

impl ManifestError {
    /// The message as characters.
    pub open spec fn message_text(self, dir: Seq<char>) -> Seq<char> {
        match self {
            ManifestError::Assets(e) => e.message_text(dir),
            ManifestError::NoDiskImage =>
                "no architecture-specific DMG assets found for manifest"@,
            ManifestError::Timestamp => "could not format current timestamp"@,
        }
    }

    /// The message for the user.
    pub fn message(&self, dir: &str) -> (out: String)
        ensures
            out@ == self.message_text(dir@),
    {
        match self {
            ManifestError::Assets(e) => e.message(dir),
            ManifestError::NoDiskImage =>
                "no architecture-specific DMG assets found for manifest".to_string(),
            ManifestError::Timestamp => "could not format current timestamp".to_string(),
        }
    }
}

/// The version that a tag names: the tag without a leading `v`.
pub open spec fn version_of(tag: Seq<char>) -> Seq<char> {
    match strip_prefix(tag, "v"@) {
        Some(rest) => rest,
        None => tag,
    }
}

/// The version that a tag names.
pub fn release_version(tag: &str) -> (version: String)
    ensures
        version@ == version_of(tag@),
{
    let chars: Vec<char> = chars_of(tag);
    let v: Vec<char> = chars_of("v");
    match without_prefix(chars.as_slice(), v.as_slice()) {
        Some(rest) => string_of(rest),
        None => tag.to_string(),
    }
}

/// `s` without the slashes at its end.
pub open spec fn without_slashes(s: Seq<char>) -> Seq<char>
    decreases s.len(),
{
    if s.len() > 0 && s.last() == '/' {
        without_slashes(s.drop_last())
    } else {
        s
    }
}

/// The address under which a release's artifacts are published.
pub fn release_base(base_url: &str, tag: &str) -> (base: String)
    ensures
        base@ == without_slashes(base_url@) + "/releases/"@ + tag@,
{
    let chars: Vec<char> = chars_of(base_url);
    let mut n: usize = chars.len();
    assert(chars@.take(n as int) =~= base_url@);
    while n > 0 && chars[n - 1] == '/'
        invariant
            n <= chars@.len(),
            without_slashes(base_url@) == without_slashes(chars@.take(n as int)),
        decreases n,
    {
        assert(chars@.take(n as int).drop_last() =~= chars@.take(n as int - 1));
        n = n - 1;
    }
    let mut base: String = string_of(head(chars.as_slice(), n));
    base.append("/releases/");
    base.append(tag);
    base
}

/// A disk image is among the assets.
pub open spec fn has_disk_image(assets: Seq<Asset>) -> bool {
    exists|i: int| 0 <= i < assets.len() && (#[trigger] assets[i]).os@ == "macos"@
}

fn any_disk_image(assets: &Vec<Asset>) -> (yes: bool)
    ensures
        yes == has_disk_image(assets@),
{
    let n: usize = assets.len();
    let mut i: usize = 0;
    while i < n
        invariant
            i <= n,
            n == assets@.len(),
            forall|j: int| 0 <= j < i ==> (#[trigger] assets@[j]).os@ != "macos"@,
        decreases n - i,
    {
        if crate::text::same_text(assets[i].os, "macos") {
            assert(assets@[i as int].os@ == "macos"@);
            return true;
        }
        i = i + 1;
    }
    false
}

/// `out` is the manifest of these assets, or the first failure: of collecting
/// them, no disk image among them, or no time stamp.
pub open spec fn is_manifest(
    tag: Seq<char>,
    assets: Result<Vec<Asset>, AssetError>,
    published_at: Option<String>,
    out: Result<Manifest, ManifestError>,
) -> bool {
    match assets {
        Err(e) => out == Err::<Manifest, ManifestError>(ManifestError::Assets(e)),
        Ok(list) => if !has_disk_image(list@) {
            out == Err::<Manifest, ManifestError>(ManifestError::NoDiskImage)
        } else {
            match published_at {
                None => out == Err::<Manifest, ManifestError>(ManifestError::Timestamp),
                Some(time) => {
                    &&& out matches Ok(m)
                    &&& m.schema_version == 1
                    &&& m.app_id@ == "org.openlogi.openlogi"@
                    &&& m.version@ == version_of(tag)
                    &&& m.tag@ == tag
                    &&& m.channel@ == "stable"@
                    &&& m.published_at == time
                    &&& m.release_url@
                        == "https://github.com/AprilNEA/OpenLogi/releases/tag/"@ + tag
                    &&& m.assets == list
                },
            }
        },
    }
}

/// The manifest of these assets. Disk images are always published; without one
/// there is no manifest, while Windows artifacts may be missing.
pub fn build_manifest(
    tag: &str,
    assets: Result<Vec<Asset>, AssetError>,
    published_at: Option<String>,
) -> (out: Result<Manifest, ManifestError>)
    ensures
        is_manifest(tag@, assets, published_at, out),
{
    let list: Vec<Asset> = match assets {
        Err(e) => {
            return Err(ManifestError::Assets(e));
        },
        Ok(list) => list,
    };
    if !any_disk_image(&list) {
        return Err(ManifestError::NoDiskImage);
    }
    let time: String = match published_at {
        None => {
            return Err(ManifestError::Timestamp);
        },
        Some(time) => time,
    };
    let mut release_url: String =
        "https://github.com/AprilNEA/OpenLogi/releases/tag/".to_string();
    release_url.append(tag);
    Ok(
        Manifest {
            schema_version: 1,
            app_id: "org.openlogi.openlogi",
            version: release_version(tag),
            tag: tag.to_string(),
            channel: "stable",
            published_at: time,
            release_url,
            assets: list,
        },
    )
}

/// A moment, in nanoseconds since the Unix epoch, as an RFC 3339 text; none for a
/// moment that has no such text.
pub uninterp spec fn rfc3339(nanos: i128) -> Option<Seq<char>>;

/// `OffsetDateTime::format` of the `time` crate with the well-known description
/// `Rfc3339` gives the RFC 3339 text of a moment, which is built here from its
/// nanoseconds since the Unix epoch. It fails for moments out of the range of the
/// type or of the format.
#[verifier::external_body]
fn rfc3339_text(nanos: i128) -> (out: Option<String>)
    ensures
        crate::text::optional_text(out) == rfc3339(nanos),
{
    let moment = time::OffsetDateTime::from_unix_timestamp_nanos(nanos).ok()?;
    moment.format(&time::format_description::well_known::Rfc3339).ok()
}

/// When the manifest was made, as text.
pub fn published_at(nanos: i128) -> (out: Option<String>)
    ensures
        crate::text::optional_text(out) == rfc3339(nanos),
{
    rfc3339_text(nanos)
}

// ── Laws ────────────────────────────────────────────────────────────────────

proof fn lemma_listed(artifacts: Seq<Artifact>, selection: Selection)
    ensures
        forall|k: int|
            0 <= k < listed(artifacts, selection).len() ==> listing(
                #[trigger] listed(artifacts, selection)[k],
                selection,
            ) is Some && artifacts.contains(listed(artifacts, selection)[k]),
        forall|i: int|
            0 <= i < artifacts.len() && listing(#[trigger] artifacts[i], selection) is Some
                ==> listed(artifacts, selection).contains(artifacts[i]),
    decreases artifacts.len(),
{
    reveal(Seq::filter);
    if artifacts.len() > 0 {
        let rest = artifacts.drop_last();
        let found = listed(rest, selection);
        lemma_listed(rest, selection);
        let all = listed(artifacts, selection);
        assert(all == if listing(artifacts.last(), selection) is Some {
            found.push(artifacts.last())
        } else {
            found
        });
        assert forall|k: int| 0 <= k < all.len() implies listing(
            #[trigger] all[k],
            selection,
        ) is Some && artifacts.contains(all[k]) by {
            if k < found.len() {
                assert(rest.contains(found[k]));
                let i = choose|i: int| 0 <= i < rest.len() && rest[i] == found[k];
                assert(artifacts[i] == all[k]);
            } else {
                assert(artifacts[artifacts.len() - 1] == all[k]);
            }
        }
        assert forall|i: int|
            0 <= i < artifacts.len() && listing(
                #[trigger] artifacts[i],
                selection,
            ) is Some implies all.contains(artifacts[i]) by {
            if i < rest.len() {
                assert(found.contains(rest[i]));
                let k = choose|k: int| 0 <= k < found.len() && found[k] == rest[i];
                assert(all[k] == artifacts[i]);
            } else {
                assert(all[found.len() as int] == artifacts[i]);
            }
        }
    }
}

/// Whatever is published was found among the artifacts with its signature.
pub proof fn published_artifacts_are_signed(
    artifacts: Seq<Artifact>,
    selection: Selection,
    base: Seq<char>,
    assets: Vec<Asset>,
    j: int,
)
    requires
        is_collection(artifacts, selection, base, Ok(assets)),
        0 <= j < assets@.len(),
    ensures
        exists|i: int|
            0 <= i < artifacts.len() && #[trigger] is_asset(
                assets@[j],
                artifacts[i],
                selection,
                base,
            ) && artifacts[i].signed,
{
    let list = listed(artifacts, selection);
    let unsorted = choose|unsorted: Seq<Asset>| #[trigger]
        are_assets(unsorted, list, selection, base) && sorted_assets(unsorted, assets@);
    let perm = choose|perm: Seq<usize>| #[trigger]
        stable_order(asset_keys(unsorted), perm) && assets@ == Seq::new(
            perm.len(),
            |i: int| unsorted[perm[i] as int],
        );
    lemma_listed(artifacts, selection);
    let k = perm[j] as int;
    assert(is_asset(unsorted[k], list[k], selection, base));
    assert(artifacts.contains(list[k]));
    let i = choose|i: int| 0 <= i < artifacts.len() && artifacts[i] == list[k];
    assert(!is_broken(artifacts[i], selection));
    assert(is_asset(assets@[j], artifacts[i], selection, base));
}

/// Every artifact that the manifest is to list is published.
pub proof fn wanted_artifacts_are_published(
    artifacts: Seq<Artifact>,
    selection: Selection,
    base: Seq<char>,
    assets: Vec<Asset>,
    i: int,
)
    requires
        is_collection(artifacts, selection, base, Ok(assets)),
        0 <= i < artifacts.len(),
        listing(artifacts[i], selection) is Some,
    ensures
        exists|j: int|
            0 <= j < assets@.len() && is_asset(
                #[trigger] assets@[j],
                artifacts[i],
                selection,
                base,
            ),
{
    let list = listed(artifacts, selection);
    let unsorted = choose|unsorted: Seq<Asset>| #[trigger]
        are_assets(unsorted, list, selection, base) && sorted_assets(unsorted, assets@);
    let perm = choose|perm: Seq<usize>| #[trigger]
        stable_order(asset_keys(unsorted), perm) && assets@ == Seq::new(
            perm.len(),
            |i: int| unsorted[perm[i] as int],
        );
    lemma_listed(artifacts, selection);
    assert(list.contains(artifacts[i]));
    let k = choose|k: int| 0 <= k < list.len() && list[k] == artifacts[i];
    assert(is_asset(unsorted[k], list[k], selection, base));
    assert(asset_keys(unsorted).len() == unsorted.len());
    assert(k < assets.len());
    assert(perm.contains(k as usize));
    let j = choose|j: int| 0 <= j < perm.len() && perm[j] == k as usize;
    assert(assets@[j] == unsorted[perm[j] as int]);
}

/// Nothing for Windows is published unless it was asked for.
pub proof fn windows_must_be_asked_for(
    artifacts: Seq<Artifact>,
    base: Seq<char>,
    assets: Vec<Asset>,
    j: int,
)
    requires
        is_collection(artifacts, Selection::Platforms { include_windows: false }, base, Ok(assets)),
        0 <= j < assets@.len(),
    ensures
        assets@[j].os@ == "macos"@,
{
    published_artifacts_are_signed(
        artifacts,
        Selection::Platforms { include_windows: false },
        base,
        assets,
        j,
    );
}

} // verus!
