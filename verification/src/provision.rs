//! Planning a download from the remote release source.
//!
//! Given the latest release's metadata and the host platform, provisioning
//! picks the asset named for the platform, computes the version directory
//! and the binary path inside it, skips the download when the binary is
//! already on disk, and names the sibling directory entries a cleanup pass
//! removes afterwards. The host performs the fetch, the download and the
//! removals.

use crate::platform::{spec_asset_name, asset_name, Arch, Os};
use vstd::prelude::*;
use vstd::string::StringExecFns;

verus! {

/// One downloadable file attached to a release.
pub struct ReleaseAsset {
    pub name: String,
    pub download_url: String,
}

/// The metadata of a release: its version tag and its assets.
pub struct GithubRelease {
    pub version: String,
    pub assets: Vec<ReleaseAsset>,
}

/// Everything a download needs: where to fetch from, which directory to
/// extract into, and where the binary then lies.
pub struct ProvisionPlan {
    pub download_url: String,
    pub version_dir: String,
    pub binary_path: String,
}

/// The install directory for one release: `lume-lsp-<version>`.
pub open spec fn spec_version_dir(version: Seq<char>) -> Seq<char> {
    "lume-lsp-"@ + version
}

/// The binary inside a version directory, at the fixed relative path
/// `<version-dir>/lume-lsp`.
pub open spec fn spec_binary_path(version: Seq<char>) -> Seq<char> {
    spec_version_dir(version) + "/lume-lsp"@
}

/// The error reported when no asset carries the expected name.
pub open spec fn spec_missing_asset_error(name: Seq<char>) -> Seq<char> {
    "no asset found matching \""@ + name + "\""@
}

/// The fatal error wrapping a failed download.
pub open spec fn spec_download_error(cause: Seq<char>) -> Seq<char> {
    "failed to download file: "@ + cause
}

/// The fatal error when the working directory cannot be listed.
pub open spec fn spec_list_dir_error(cause: Seq<char>) -> Seq<char> {
    "failed to list working directory "@ + cause
}

/// The fatal error when a directory entry cannot be loaded.
pub open spec fn spec_entry_error(cause: Seq<char>) -> Seq<char> {
    "failed to load directory entry "@ + cause
}

/// Wraps the cause of a failed download; the failure is fatal.
pub fn download_error(cause: &String) -> (msg: String)
    ensures
        msg@ == spec_download_error(cause@),
{
    String::from_str("failed to download file: ").concat(cause.as_str())
}

/// Wraps the cause of an unreadable working directory; the failure is
/// fatal, unlike the removal of any one entry.
pub fn list_dir_error(cause: &String) -> (msg: String)
    ensures
        msg@ == spec_list_dir_error(cause@),
{
    String::from_str("failed to list working directory ").concat(cause.as_str())
}

/// Wraps the cause of a directory entry that could not be loaded; the
/// failure is fatal.
pub fn entry_error(cause: &String) -> (msg: String)
    ensures
        msg@ == spec_entry_error(cause@),
{
    String::from_str("failed to load directory entry ").concat(cause.as_str())
}

/// The index of the first asset bearing the given name, if any.
pub fn find_asset(assets: &Vec<ReleaseAsset>, name: &String) -> (found: Option<usize>)
    ensures
        match found {
            Some(i) => i < assets.len() && assets@[i as int].name@ == name@ && (forall|j: int|
                0 <= j < i ==> assets@[j].name@ != name@),
            None => forall|j: int| 0 <= j < assets@.len() ==> assets@[j].name@ != name@,
        },
{
    let mut i: usize = 0;
    while i < assets.len()
        invariant
            i <= assets.len(),
            forall|j: int| 0 <= j < i ==> assets@[j].name@ != name@,
        decreases assets.len() - i,
    {
        if assets[i].name == *name {
            return Some(i);
        }
        i += 1;
    }
    None
}

/// Plans provisioning from a release. The asset whose name is exactly the
/// platform's asset name is selected (the first such, as listed); its
/// absence is a fatal error naming the expected asset. On success the plan
/// carries that asset's URL, the version directory derived from the
/// release's version, and the binary path inside it.
pub fn plan_provision(release: &GithubRelease, arch: Arch, os: Os) -> (plan: Result<
    ProvisionPlan,
    String,
>)
    ensures
        plan is Ok <==> exists|j: int|
            0 <= j < release.assets@.len() && release.assets@[j].name@ == spec_asset_name(
                arch,
                os,
            ),
        plan matches Ok(p) ==> {
            &&& exists|j: int|
                #![auto]
                {
                    &&& 0 <= j < release.assets@.len()
                    &&& release.assets@[j].name@ == spec_asset_name(arch, os)
                    &&& p.download_url@ == release.assets@[j].download_url@
                    &&& forall|k: int|
                        0 <= k < j ==> release.assets@[k].name@ != spec_asset_name(arch, os)
                }
            &&& p.version_dir@ == spec_version_dir(release.version@)
            &&& p.binary_path@ == spec_binary_path(release.version@)
        },
        plan matches Err(msg) ==> msg@ == spec_missing_asset_error(spec_asset_name(arch, os)),
{
    let name = asset_name(arch, os);
    match find_asset(&release.assets, &name) {
        Some(i) => {
            let version_dir = String::from_str("lume-lsp-").concat(release.version.as_str());
            let binary_path = version_dir.clone().concat("/lume-lsp");
            Ok(
                ProvisionPlan {
                    download_url: release.assets[i].download_url.clone(),
                    version_dir,
                    binary_path,
                },
            )
        },
        None => Err(
            String::from_str("no asset found matching \"").concat(name.as_str()).concat("\""),
        ),
    }
}

/// What the install phase does for a plan.
pub enum InstallStep {
    /// The binary already lies at its path: no download at all.
    AlreadyInstalled,
    /// Download the archive at `url` and extract it into `version_dir`.
    Download { url: String, version_dir: String },
}

/// The idempotence gate: download exactly when the planned binary path does
/// not already name a regular file. A file already there is reused as it
/// stands; its content is not inspected.
pub fn install_step(plan: &ProvisionPlan, binary_is_regular_file: bool) -> (step: InstallStep)
    ensures
        binary_is_regular_file <==> step is AlreadyInstalled,
        step matches InstallStep::Download { url, version_dir } ==> (url@ == plan.download_url@
            && version_dir@ == plan.version_dir@),
{
    if binary_is_regular_file {
        InstallStep::AlreadyInstalled
    } else {
        InstallStep::Download {
            url: plan.download_url.clone(),
            version_dir: plan.version_dir.clone(),
        }
    }
}

/// The working-directory entries a cleanup pass removes: every one whose
/// name is not the new version directory's name.
pub open spec fn spec_stale(entries: Seq<Seq<char>>, version_dir: Seq<char>) -> Seq<Seq<char>> {
    entries.filter(|e: Seq<char>| e != version_dir)
}

/// Names of the entries to remove after a fresh download: all listed
/// entries except the new version directory itself, in listing order. The
/// new version directory is never among them.
pub fn stale_entries(entries: &Vec<String>, version_dir: &String) -> (stale: Vec<String>)
    ensures
        stale.deep_view() == spec_stale(entries.deep_view(), version_dir@),
{
    let ghost all = entries.deep_view();
    let mut stale: Vec<String> = Vec::new();
    let mut i: usize = 0;
    proof {
        reveal(Seq::filter);
        assert(all.take(0) =~= Seq::<Seq<char>>::empty());
    }
    while i < entries.len()
        invariant
            i <= entries.len(),
            all == entries.deep_view(),
            stale.deep_view() == spec_stale(all.take(i as int), version_dir@),
        decreases entries.len() - i,
    {
        let ghost prev = stale.deep_view();
        if !(entries[i] == *version_dir) {
            let entry = entries[i].clone();
            stale.push(entry);
        }
        proof {
            reveal(Seq::filter);
            let pred = |e: Seq<char>| e != version_dir@;
            let prefix = all.take(i as int + 1);
            assert(prefix.drop_last() =~= all.take(i as int));
            assert(prefix.last() == all[i as int]);
            if all[i as int] != version_dir@ {
                assert(stale.deep_view() =~= prev.push(all[i as int]));
                assert(prefix.filter(pred) == prefix.drop_last().filter(pred).push(prefix.last()));
            } else {
                assert(stale.deep_view() =~= prev);
                assert(prefix.filter(pred) == prefix.drop_last().filter(pred));
            }
        }
        i += 1;
    }
    proof {
        assert(all.take(entries.len() as int) =~= all);
    }
    stale
}

} // verus!
