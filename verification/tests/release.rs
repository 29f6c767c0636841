use openlogi::latest_json;
use openlogi::manifest;
use openlogi::packaging::{
    bundle_macos, dmg_macos, package_linux, sign_app, Bundle, Step,
};
use openlogi::release::{
    build_manifest, classify, dmg_arch, published_at, release_base, release_version, Arch,
    Artifact, ArtifactKind, AssetError, ManifestError,
};

const BASE: &str = "https://updates.example/releases/v1.2.3";

fn artifact(name: &str, signed: bool) -> Artifact {
    Artifact {
        name: Some(name.to_string()),
        signed,
        size: Some(8),
        sha256: Some("c0ffee".to_string()),
    }
}

#[test]
fn latest_json_collect_assets_requires_minisign_signature_for_each_dmg() {
    let dist = [artifact("OpenLogi-v1.2.3-macos-arm64.dmg", false)];

    assert!(latest_json::collect_assets(&dist, BASE, false).is_err());
}

#[test]
fn latest_json_collect_assets_publishes_signature_url() {
    let dist = [
        artifact("OpenLogi-v1.2.3-macos-arm64.dmg", true),
        artifact("OpenLogi-v1.2.3-macos-arm64.dmg.minisig", false),
    ];

    let assets = latest_json::collect_assets(&dist, BASE, false).expect("assets");

    assert_eq!(
        assets[0].signature_url,
        "https://updates.example/releases/v1.2.3/OpenLogi-v1.2.3-macos-arm64.dmg.minisig"
    );
}

#[test]
fn collect_assets_skips_windows_artifacts_unless_opted_in() {
    let dist = [
        artifact("OpenLogi-v1.2.3-windows-x86_64.msi", true),
        artifact("OpenLogi-v1.2.3-windows-x86_64.msi.minisig", false),
        artifact("OpenLogi-v1.2.3-windows-x86_64.zip", true),
        artifact("OpenLogi-v1.2.3-windows-x86_64.zip.minisig", false),
    ];

    let assets = latest_json::collect_assets(&dist, BASE, false).expect("assets");

    assert!(assets.is_empty());
}

#[test]
fn collect_assets_includes_windows_msi_and_zip_per_arch() {
    let mut dist = Vec::new();
    for name in [
        "OpenLogi-v1.2.3-windows-x86_64.msi",
        "OpenLogi-v1.2.3-windows-arm64.msi",
        "OpenLogi-v1.2.3-windows-x86_64.zip",
    ] {
        dist.push(artifact(name, true));
        dist.push(artifact(&format!("{name}.minisig"), false));
    }

    let assets = latest_json::collect_assets(&dist, BASE, true).expect("assets");

    assert_eq!(assets.len(), 3);
    assert!(assets.iter().all(|a| a.os == "windows"));
    let msi = assets
        .iter()
        .find(|a| a.name.ends_with("x86_64.msi"))
        .expect("msi");
    assert_eq!((msi.arch.as_str(), msi.format), ("x86_64", "msi"));
    let zip = assets
        .iter()
        .find(|a| a.name.ends_with("x86_64.zip"))
        .expect("zip");
    assert_eq!((zip.arch.as_str(), zip.format), ("x86_64", "zip"));
    assert!(assets.iter().any(|a| a.arch == "arm64"));
}

#[test]
fn collect_assets_skips_linux_packages_and_foreign_archives() {
    let mut dist = Vec::new();
    for name in [
        "openlogi-v1.2.3-linux-amd64.deb",
        "openlogi-v1.2.3-linux-amd64.rpm",
        "not-an-artifact.zip",
        "SHA256SUMS",
    ] {
        dist.push(artifact(name, true));
        dist.push(artifact(&format!("{name}.minisig"), false));
    }

    let assets = latest_json::collect_assets(&dist, BASE, true).expect("assets");

    assert!(assets.is_empty());
}

#[test]
fn manifest_collect_assets_requires_minisign_signature_for_each_dmg() {
    let dist = [artifact("OpenLogi-v1.2.3-macos-arm64.dmg", false)];

    assert!(manifest::collect_assets(&dist, BASE).is_err());
}

#[test]
fn manifest_collect_assets_publishes_signature_url() {
    let dist = [
        artifact("OpenLogi-v1.2.3-macos-arm64.dmg", true),
        artifact("OpenLogi-v1.2.3-macos-arm64.dmg.minisig", false),
    ];

    let assets = manifest::collect_assets(&dist, BASE).expect("assets");

    assert_eq!(
        assets[0].signature_url,
        "https://updates.example/releases/v1.2.3/OpenLogi-v1.2.3-macos-arm64.dmg.minisig"
    );
}

#[test]
fn artifacts_are_known_by_their_names() {
    assert_eq!(
        classify("OpenLogi-v1.2.3-macos-arm64.dmg"),
        Some((ArtifactKind::Dmg, Arch::Arm64))
    );
    assert_eq!(classify("OpenLogi-v1.2.3-macos-mips.dmg"), None);
    assert_eq!(classify("OpenLogi-v1.2.3-windows-arm64.dmg"), None);
    assert_eq!(dmg_arch("OpenLogi-macos-x86_64.dmg"), Some(Arch::X86_64));
    assert_eq!(dmg_arch("OpenLogi-windows-x86_64.msi"), None);
}

#[test]
fn assets_come_in_the_order_of_their_names() {
    let dist = [
        artifact("b-macos-x86_64.dmg", true),
        artifact("a-macos-arm64.dmg", true),
    ];
    let assets = manifest::collect_assets(&dist, BASE).expect("assets");
    assert_eq!(assets[0].name, "a-macos-arm64.dmg");
    assert_eq!(assets[1].name, "b-macos-x86_64.dmg");
    assert_eq!(assets[0].content_type, "application/x-apple-diskimage");
    assert_eq!(assets[0].minimum_os_version, "13.0");
    assert_eq!(assets[0].size, 8);
}

#[test]
fn the_first_broken_artifact_is_reported() {
    let mut unread = artifact("a-macos-arm64.dmg", true);
    unread.size = None;
    let mut unhashed = artifact("b-macos-arm64.dmg", true);
    unhashed.sha256 = None;
    let e = manifest::collect_assets(&[unread, unhashed], BASE).expect_err("broken");
    assert_eq!(
        e,
        AssetError::Unreadable {
            name: "a-macos-arm64.dmg".to_string()
        }
    );
    assert_eq!(e.message("dist/"), "could not stat dist/a-macos-arm64.dmg");
    let mut unhashed = artifact("b-macos-arm64.dmg", true);
    unhashed.sha256 = None;
    let e = manifest::collect_assets(&[unhashed], BASE).expect_err("unhashed");
    assert_eq!(e.message("dist/"), "could not hash artifact dist/b-macos-arm64.dmg");
    let e = manifest::collect_assets(&[artifact("c-macos-arm64.dmg", false)], BASE)
        .expect_err("unsigned");
    assert_eq!(
        e.message("dist/"),
        "missing minisign signature dist/c-macos-arm64.dmg.minisig for updater artifact \
         dist/c-macos-arm64.dmg"
    );
}

#[test]
fn a_manifest_names_the_release() {
    let dist = [artifact("OpenLogi-v1.2.3-macos-arm64.dmg", true)];
    let made = latest_json::run(
        &dist,
        "v1.2.3",
        "https://updates.example/",
        false,
        1_700_000_000_500_000_000,
    )
    .expect("manifest");
    assert_eq!(made.schema_version, 1);
    assert_eq!(made.app_id, "org.openlogi.openlogi");
    assert_eq!(made.version, "1.2.3");
    assert_eq!(made.tag, "v1.2.3");
    assert_eq!(made.channel, "stable");
    assert_eq!(made.published_at, "2023-11-14T22:13:20.5Z");
    assert_eq!(
        made.release_url,
        "https://github.com/AprilNEA/OpenLogi/releases/tag/v1.2.3"
    );
    assert_eq!(
        made.assets[0].url,
        "https://updates.example/releases/v1.2.3/OpenLogi-v1.2.3-macos-arm64.dmg"
    );
    let plain = manifest::generate_updater_manifest(&dist, "1.2.3", "https://updates.example", 0)
        .expect("manifest");
    assert_eq!(plain.version, "1.2.3");
    assert_eq!(plain.published_at, "1970-01-01T00:00:00Z");
}

#[test]
fn a_manifest_needs_a_disk_image_and_a_time() {
    let windows = [artifact("OpenLogi-v1.2.3-windows-arm64.msi", true)];
    let e = latest_json::run(&windows, "v1.2.3", "https://u", true, 0).expect_err("no image");
    assert_eq!(e, ManifestError::NoDiskImage);
    assert_eq!(
        e.message("dist/"),
        "no architecture-specific DMG assets found for manifest"
    );
    assert_eq!(published_at(i128::MAX), None);
    let dist = [artifact("OpenLogi-v1.2.3-macos-arm64.dmg", true)];
    let e = latest_json::run(&dist, "v1", "https://u", true, i128::MAX).expect_err("no time");
    assert_eq!(e.message("dist/"), "could not format current timestamp");
    let e = build_manifest(
        "v1",
        Err(AssetError::Unreadable {
            name: "x".to_string(),
        }),
        None,
    )
    .expect_err("assets");
    assert_eq!(e.message("dist/"), "could not stat dist/x");
}

#[test]
fn addresses_of_releases() {
    assert_eq!(
        release_base("https://u.example//", "v2"),
        "https://u.example/releases/v2"
    );
    assert_eq!(release_version("v2.0.0"), "2.0.0");
    assert_eq!(release_version("nightly"), "nightly");
}

#[test]
fn the_helper_is_signed_before_the_application() {
    assert_eq!(
        sign_app(true),
        [
            Step::SignRuntime(Bundle::Helper),
            Step::SignRuntime(Bundle::App),
            Step::Verify(Bundle::App),
            Step::Verify(Bundle::Helper),
        ]
    );
    assert_eq!(
        sign_app(false),
        [Step::SignRuntime(Bundle::App), Step::Verify(Bundle::App)]
    );
}

#[test]
fn packages_are_made_step_by_step() {
    assert_eq!(
        bundle_macos(false, true, true),
        [
            Step::Icon,
            Step::RemoveAssets,
            Step::CreateAssets,
            Step::Bundle,
            Step::Ensure(Bundle::App),
            Step::EmbedHelper,
        ]
    );
    assert_eq!(
        dmg_macos(true, true),
        [
            Step::Ensure(Bundle::App),
            Step::EnsureImager,
            Step::FetchBackground,
            Step::RemoveDmg,
            Step::CreateDmg,
            Step::Sign(Bundle::Dmg),
            Step::Verify(Bundle::Dmg),
        ]
    );
    assert_eq!(package_linux(false)[0], Step::BuildPrograms);
    assert_eq!(package_linux(true).len(), 4);
}
