//! The steps that build, sign and package a release.

use vstd::prelude::*;

verus! {

/// A bundle that can be signed.
#[derive(Debug, Clone, Copy, PartialEq, Eq, Structural)]
pub enum Bundle {
    /// The application.
    App,
    /// The agent inside it.
    Helper,
    /// The disk image.
    Dmg,
}

/// A step of packaging.
#[derive(Debug, Clone, Copy, PartialEq, Eq, Structural)]
pub enum Step {
    /// Draw the application icon.
    Icon,
    /// Fetch the device assets into the bundle.
    SyncAssets,
    /// Remove the device assets of an earlier build.
    RemoveAssets,
    /// Make the directory of device assets, which is empty.
    CreateAssets,
    /// Install the bundling tool.
    InstallBundler,
    /// Make the bundle.
    Bundle,
    /// Make sure that a bundle is there.
    Ensure(Bundle),
    /// Build the agent and put it into the bundle.
    EmbedHelper,
    /// Sign with the hardened runtime and a timestamp.
    SignRuntime(Bundle),
    /// Sign with a timestamp.
    Sign(Bundle),
    /// Verify a signature.
    Verify(Bundle),
    /// Make sure that the tool for disk images is there.
    EnsureImager,
    /// Fetch the background of the disk image.
    FetchBackground,
    /// Remove the disk image of an earlier build.
    RemoveDmg,
    /// Make the disk image.
    CreateDmg,
    /// Build the programs.
    BuildPrograms,
    /// Make sure that the programs are there.
    EnsurePrograms,
    /// Make sure that the packaging tool is there.
    EnsurePackager,
    /// Make the Debian package.
    PackageDeb,
    /// Make the RPM package.
    PackageRpm,
}

/// The steps that sign the application.
pub open spec fn signing(helper_exists: bool) -> Seq<Step> {
    if helper_exists {
        seq![
            Step::SignRuntime(Bundle::Helper),
            Step::SignRuntime(Bundle::App),
            Step::Verify(Bundle::App),
            Step::Verify(Bundle::Helper),
        ]
    } else {
        seq![Step::SignRuntime(Bundle::App), Step::Verify(Bundle::App)]
    }
}

/// Sign the application from the inside out: the helper gets a signature of its own
/// first, which the application's then seals.
pub fn sign_app(helper_exists: bool) -> (steps: Vec<Step>)
    ensures
        steps@ == signing(helper_exists),
{
    let mut steps: Vec<Step> = Vec::new();
    if helper_exists {
        steps.push(Step::SignRuntime(Bundle::Helper));
    }
    steps.push(Step::SignRuntime(Bundle::App));
    steps.push(Step::Verify(Bundle::App));
    if helper_exists {
        steps.push(Step::Verify(Bundle::Helper));
    }
    assert(steps@ =~= signing(helper_exists));
    steps
}

/// The helper is signed before the application that seals it, and every signature
/// is verified after it was made.
pub proof fn helpers_are_signed_first(helper_exists: bool, i: int, j: int)
    requires
        0 <= i < signing(helper_exists).len(),
        0 <= j < signing(helper_exists).len(),
    ensures
        signing(helper_exists)[i] == Step::SignRuntime(Bundle::Helper) && signing(helper_exists)[j]
            == Step::SignRuntime(Bundle::App) ==> i < j,
        signing(helper_exists)[i] == Step::SignRuntime(Bundle::App) && signing(helper_exists)[j]
            == Step::Verify(Bundle::App) ==> i < j,
        signing(helper_exists)[i] == Step::SignRuntime(Bundle::Helper) && signing(helper_exists)[j]
            == Step::Verify(Bundle::Helper) ==> i < j,
{
}

/// The steps that make the bundle.
pub open spec fn bundling(bundle_assets: bool, assets_exist: bool, has_bundler: bool) -> Seq<
    Step,
> {
    seq![Step::Icon] + (if bundle_assets {
        seq![Step::SyncAssets]
    } else if assets_exist {
        seq![Step::RemoveAssets, Step::CreateAssets]
    } else {
        seq![Step::CreateAssets]
    }) + (if has_bundler {
        Seq::<Step>::empty()
    } else {
        seq![Step::InstallBundler]
    }) + seq![Step::Bundle, Step::Ensure(Bundle::App), Step::EmbedHelper]
}

/// The steps that make the bundle. The device assets are fetched at first launch
/// unless they are to be bundled.
pub fn bundle_macos(bundle_assets: bool, assets_exist: bool, has_bundler: bool) -> (steps: Vec<
    Step,
>)
    ensures
        steps@ == bundling(bundle_assets, assets_exist, has_bundler),
{
    let mut steps: Vec<Step> = Vec::new();
    steps.push(Step::Icon);
    if bundle_assets {
        steps.push(Step::SyncAssets);
    } else {
        if assets_exist {
            steps.push(Step::RemoveAssets);
        }
        steps.push(Step::CreateAssets);
    }
    if !has_bundler {
        steps.push(Step::InstallBundler);
    }
    steps.push(Step::Bundle);
    steps.push(Step::Ensure(Bundle::App));
    steps.push(Step::EmbedHelper);
    assert(steps@ =~= bundling(bundle_assets, assets_exist, has_bundler));
    steps
}

/// The steps that make the disk image.
pub open spec fn imaging(dmg_exists: bool, signed: bool) -> Seq<Step> {
    seq![Step::Ensure(Bundle::App), Step::EnsureImager, Step::FetchBackground] + (if dmg_exists {
        seq![Step::RemoveDmg]
    } else {
        Seq::<Step>::empty()
    }) + seq![Step::CreateDmg] + (if signed {
        seq![Step::Sign(Bundle::Dmg), Step::Verify(Bundle::Dmg)]
    } else {
        Seq::<Step>::empty()
    })
}

/// The steps that make the disk image, in place of an earlier one.
pub fn dmg_macos(dmg_exists: bool, signed: bool) -> (steps: Vec<Step>)
    ensures
        steps@ == imaging(dmg_exists, signed),
{
    let mut steps: Vec<Step> = Vec::new();
    steps.push(Step::Ensure(Bundle::App));
    steps.push(Step::EnsureImager);
    steps.push(Step::FetchBackground);
    if dmg_exists {
        steps.push(Step::RemoveDmg);
    }
    steps.push(Step::CreateDmg);
    if signed {
        steps.push(Step::Sign(Bundle::Dmg));
        steps.push(Step::Verify(Bundle::Dmg));
    }
    assert(steps@ =~= imaging(dmg_exists, signed));
    steps
}

/// The steps that make the Linux packages.
pub open spec fn linux_packaging(no_build: bool) -> Seq<Step> {
    (if no_build {
        Seq::<Step>::empty()
    } else {
        seq![Step::BuildPrograms]
    }) + seq![Step::EnsurePrograms, Step::EnsurePackager, Step::PackageDeb, Step::PackageRpm]
}

/// The steps that make the Linux packages.
pub fn package_linux(no_build: bool) -> (steps: Vec<Step>)
    ensures
        steps@ == linux_packaging(no_build),
{
    let mut steps: Vec<Step> = Vec::new();
    if !no_build {
        steps.push(Step::BuildPrograms);
    }
    steps.push(Step::EnsurePrograms);
    steps.push(Step::EnsurePackager);
    steps.push(Step::PackageDeb);
    steps.push(Step::PackageRpm);
    assert(steps@ =~= linux_packaging(no_build));
    steps
}

} // verus!
