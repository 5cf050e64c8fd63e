use lume_lsp_resolver::platform::{asset_name, Arch, Os};
use lume_lsp_resolver::provision::{
    download_error, entry_error, find_asset, install_step, list_dir_error, plan_provision,
    stale_entries, GithubRelease, InstallStep, ProvisionPlan, ReleaseAsset,
};
use lume_lsp_resolver::resolver::{LocalStep, Resolver};

fn asset(name: &str, url: &str) -> ReleaseAsset {
    ReleaseAsset {
        name: name.to_string(),
        download_url: url.to_string(),
    }
}

#[test]
fn platform_mapping_is_total_and_collision_free() {
    let archs = [Arch::X8664, Arch::X86, Arch::Aarch64];
    let oses = [Os::Windows, Os::Mac, Os::Linux];
    let expected = [
        "lume-lsp-x86_64-windows-msvc.tar.gz",
        "lume-lsp-x86_64-apple-darwin.tar.gz",
        "lume-lsp-x86_64-unknown-linux-gnu.tar.gz",
        "lume-lsp-x86-windows-msvc.tar.gz",
        "lume-lsp-x86-apple-darwin.tar.gz",
        "lume-lsp-x86-unknown-linux-gnu.tar.gz",
        "lume-lsp-aarch64-windows-msvc.tar.gz",
        "lume-lsp-aarch64-apple-darwin.tar.gz",
        "lume-lsp-aarch64-unknown-linux-gnu.tar.gz",
    ];
    let mut produced: Vec<String> = Vec::new();
    for (i, arch) in archs.iter().enumerate() {
        for (j, os) in oses.iter().enumerate() {
            let name = asset_name(*arch, *os);
            assert_eq!(name, expected[i * 3 + j]);
            produced.push(name);
        }
    }
    for a in 0..produced.len() {
        for b in 0..produced.len() {
            if a != b {
                assert_ne!(produced[a], produced[b]);
            }
        }
    }
}

#[test]
fn missing_asset_is_a_fatal_error_naming_the_expected_asset() {
    let release = GithubRelease {
        version: "v2.0.0".to_string(),
        assets: vec![
            asset("lume-lsp-x86_64-windows-msvc.tar.gz", "https://example.com/w"),
            asset("README.md", "https://example.com/r"),
        ],
    };
    let planned = plan_provision(&release, Arch::X8664, Os::Linux);
    match planned {
        Err(message) => assert_eq!(
            message,
            "no asset found matching \"lume-lsp-x86_64-unknown-linux-gnu.tar.gz\""
        ),
        Ok(_) => panic!("a release without the platform's asset must fail"),
    }
}

#[test]
fn matching_asset_is_selected_among_others() {
    let release = GithubRelease {
        version: "v1.4.0".to_string(),
        assets: vec![
            asset("lume-lsp-x86_64-windows-msvc.tar.gz", "https://example.com/w"),
            asset("lume-lsp-aarch64-apple-darwin.tar.gz", "https://example.com/m"),
            asset("lume-lsp-x86_64-unknown-linux-gnu.tar.gz", "https://example.com/l"),
        ],
    };
    let plan = plan_provision(&release, Arch::X8664, Os::Linux).expect("the asset is listed");
    assert_eq!(plan.download_url, "https://example.com/l");
    assert_eq!(plan.version_dir, "lume-lsp-v1.4.0");
    assert_eq!(plan.binary_path, "lume-lsp-v1.4.0/lume-lsp");
}

#[test]
fn first_of_equally_named_assets_wins() {
    let assets = vec![
        asset("other.tar.gz", "https://example.com/0"),
        asset("lume-lsp-x86-windows-msvc.tar.gz", "https://example.com/1"),
        asset("lume-lsp-x86-windows-msvc.tar.gz", "https://example.com/2"),
    ];
    let found = find_asset(&assets, &"lume-lsp-x86-windows-msvc.tar.gz".to_string());
    assert_eq!(found, Some(1));
    let missing = find_asset(&assets, &"lume-lsp-x86-apple-darwin.tar.gz".to_string());
    assert_eq!(missing, None);
}

#[test]
fn fatal_errors_carry_their_cause() {
    assert_eq!(
        download_error(&"connection reset".to_string()),
        "failed to download file: connection reset"
    );
    assert_eq!(
        list_dir_error(&"permission denied".to_string()),
        "failed to list working directory permission denied"
    );
    assert_eq!(
        entry_error(&"stale handle".to_string()),
        "failed to load directory entry stale handle"
    );
}

#[test]
fn existing_binary_skips_the_download() {
    let plan = ProvisionPlan {
        download_url: "https://example.com/l".to_string(),
        version_dir: "lume-lsp-v1.2.3".to_string(),
        binary_path: "lume-lsp-v1.2.3/lume-lsp".to_string(),
    };
    assert!(matches!(
        install_step(&plan, true),
        InstallStep::AlreadyInstalled
    ));
    match install_step(&plan, false) {
        InstallStep::Download { url, version_dir } => {
            assert_eq!(url, "https://example.com/l");
            assert_eq!(version_dir, "lume-lsp-v1.2.3");
        }
        InstallStep::AlreadyInstalled => panic!("an absent binary must be downloaded"),
    }
}

#[test]
fn cleanup_removes_every_sibling_but_the_new_version_directory() {
    let entries = vec![
        "lume-lsp-v1.0.0".to_string(),
        "lume-lsp-v1.2.3".to_string(),
        "stray-file.txt".to_string(),
        "lume-lsp-v1.1.0".to_string(),
    ];
    let stale = stale_entries(&entries, &"lume-lsp-v1.2.3".to_string());
    assert_eq!(
        stale,
        vec![
            "lume-lsp-v1.0.0".to_string(),
            "stray-file.txt".to_string(),
            "lume-lsp-v1.1.0".to_string(),
        ]
    );
}

#[test]
fn cleanup_of_only_the_new_directory_removes_nothing() {
    let entries = vec!["lume-lsp-v1.2.3".to_string()];
    let stale = stale_entries(&entries, &"lume-lsp-v1.2.3".to_string());
    assert!(stale.is_empty());
}

#[test]
fn fresh_provisioning_downloads_and_caches() {
    let mut resolver = Resolver::new();
    let step = resolver.local_step(&None, None);
    let args = match step {
        LocalStep::Provision { args } => args,
        _ => panic!("with no local source, resolution must provision"),
    };
    let release = GithubRelease {
        version: "v1.2.3".to_string(),
        assets: vec![asset(
            "lume-lsp-x86_64-unknown-linux-gnu.tar.gz",
            "https://example.com/l",
        )],
    };
    let plan = plan_provision(&release, Arch::X8664, Os::Linux).expect("the asset is listed");
    assert_eq!(plan.version_dir, "lume-lsp-v1.2.3");
    match install_step(&plan, false) {
        InstallStep::Download { url, version_dir } => {
            assert_eq!(url, "https://example.com/l");
            assert_eq!(version_dir, "lume-lsp-v1.2.3");
        }
        InstallStep::AlreadyInstalled => panic!("a fresh install must download"),
    }
    let binary = resolver.finish_provision(plan.binary_path, args);
    assert_eq!(binary.path, "lume-lsp-v1.2.3/lume-lsp");
    assert!(binary.args.is_empty());
    assert_eq!(
        resolver.cached_binary_path,
        Some("lume-lsp-v1.2.3/lume-lsp".to_string())
    );
}

#[test]
fn provisioning_an_already_installed_binary_downloads_nothing() {
    let mut resolver = Resolver::new();
    let args = match resolver.local_step(&None, None) {
        LocalStep::Provision { args } => args,
        _ => panic!("with no local source, resolution must provision"),
    };
    let release = GithubRelease {
        version: "v1.2.3".to_string(),
        assets: vec![asset(
            "lume-lsp-x86_64-unknown-linux-gnu.tar.gz",
            "https://example.com/l",
        )],
    };
    let plan = plan_provision(&release, Arch::X8664, Os::Linux).expect("the asset is listed");
    assert!(matches!(
        install_step(&plan, true),
        InstallStep::AlreadyInstalled
    ));
    let binary = resolver.finish_provision(plan.binary_path, args);
    assert_eq!(binary.path, "lume-lsp-v1.2.3/lume-lsp");
    assert!(binary.args.is_empty());
}
