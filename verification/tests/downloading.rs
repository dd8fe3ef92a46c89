use mdbook_typst::download::{
    archive_file, compressed_file, custom_result, download_url, package_archive, AutoDownload,
    BuiltinAction, BuiltinDownload, BuiltinStage, CommandOutcome, DownloadPlan, StepOutcome,
};
use mdbook_typst::license::{is_allowed, validate_license};
use mdbook_typst::package::{PackageSpec, PackageVersion};

fn lilaq() -> PackageSpec {
    PackageSpec::new(
        "preview".to_string(),
        "lilaq".to_string(),
        PackageVersion { major: 0, minor: 6, patch: 0 },
    )
}

fn allowed() -> Vec<String> {
    vec!["MIT".to_string(), "MIT OR Apache-2.0".to_string()]
}

fn failed(a: BuiltinAction) -> String {
    match a {
        BuiltinAction::Failed(e) => e,
        _ => panic!("expected a failure"),
    }
}

#[test]
fn builtin_names_and_url_follow_the_typst_universe() {
    assert_eq!(archive_file(&lilaq()), "lilaq-0.6.0.tar");
    assert_eq!(compressed_file(&lilaq()), "lilaq-0.6.0.tar.gz");
    assert_eq!(download_url(&lilaq()), "https://packages.typst.org/preview/lilaq-0.6.0.tar.gz");
}

#[test]
fn archives_live_in_the_package_root() {
    assert_eq!(
        package_archive("/path/to/book/typst-pkgs", &lilaq()),
        "/path/to/book/typst-pkgs/lilaq-0.6.0.tar"
    );
}

#[test]
fn present_archive_needs_nothing() {
    let plan = AutoDownload::BuiltIn.download_if_absent(true, "x.tar", &lilaq(), &allowed());
    assert!(matches!(plan, DownloadPlan::Present));
    let plan = AutoDownload::Custom("fetch.sh".to_string()).download_if_absent(true, "x.tar", &lilaq(), &allowed());
    assert!(matches!(plan, DownloadPlan::Present));
}

#[test]
fn missing_archive_uses_the_chosen_downloader() {
    let plan = AutoDownload::BuiltIn.download_if_absent(false, "x.tar", &lilaq(), &allowed());
    assert!(matches!(plan, DownloadPlan::Builtin));
}

#[test]
fn custom_command_gets_path_spec_and_licenses() {
    let plan = AutoDownload::Custom("my-custom-command.sh".to_string()).download_if_absent(
        false,
        "/path/to/book/typst-pkgs/lilaq-0.6.0.tar",
        &lilaq(),
        &allowed(),
    );
    match plan {
        DownloadPlan::Custom { program, args } => {
            assert_eq!(program, "my-custom-command.sh");
            assert_eq!(
                args,
                vec![
                    "/path/to/book/typst-pkgs/lilaq-0.6.0.tar".to_string(),
                    "@preview/lilaq:0.6.0".to_string(),
                    "MIT".to_string(),
                    "MIT OR Apache-2.0".to_string(),
                ]
            );
        }
        _ => panic!("expected a custom command"),
    }
}

#[test]
fn custom_command_outcomes() {
    assert_eq!(custom_result("get.sh", CommandOutcome::Exited(true)), Ok(()));
    assert_eq!(
        custom_result("get.sh", CommandOutcome::Exited(false)),
        Err("Custom command 'get.sh' exited with non-success status code.".to_string())
    );
    assert_eq!(
        custom_result("get.sh", CommandOutcome::NotRun("No such file".to_string())),
        Err("Failed to execute custom command 'get.sh'. Error: No such file".to_string())
    );
}

#[test]
fn builtin_download_runs_to_installation() {
    let (mut dl, first) = BuiltinDownload::start(lilaq(), "pkgs/lilaq-0.6.0.tar".to_string());
    match first {
        BuiltinAction::Fetch { url, notice } => {
            assert_eq!(url, "https://packages.typst.org/preview/lilaq-0.6.0.tar.gz");
            assert_eq!(
                notice,
                "Downloading 'https://packages.typst.org/preview/lilaq-0.6.0.tar.gz' to 'lilaq-0.6.0.tar.gz'..."
            );
        }
        _ => panic!("expected a fetch"),
    }
    match dl.step(StepOutcome::Exited(true)) {
        BuiltinAction::Decompress { archive } => assert_eq!(archive, "lilaq-0.6.0.tar.gz"),
        _ => panic!("expected decompression"),
    }
    match dl.step(StepOutcome::Exited(true)) {
        BuiltinAction::CheckLicense { tar } => assert_eq!(tar, "lilaq-0.6.0.tar"),
        _ => panic!("expected a license check"),
    }
    assert!(matches!(dl.step(StepOutcome::Succeeded), BuiltinAction::PrepareTarget));
    match dl.step(StepOutcome::Succeeded) {
        BuiltinAction::Install { from } => assert_eq!(from, "lilaq-0.6.0.tar"),
        _ => panic!("expected installation"),
    }
    match dl.step(StepOutcome::Succeeded) {
        BuiltinAction::Finished { notice } => assert_eq!(
            notice,
            "Succesfully downloaded & installed @preview/lilaq:0.6.0 to pkgs/lilaq-0.6.0.tar"
        ),
        _ => panic!("expected the end"),
    }
    assert!(matches!(dl.stage, BuiltinStage::Done));
}

#[test]
fn builtin_download_failures() {
    let (mut dl, _) = BuiltinDownload::start(lilaq(), "t.tar".to_string());
    assert_eq!(
        failed(dl.step(StepOutcome::Exited(false))),
        "Downloading 'https://packages.typst.org/preview/lilaq-0.6.0.tar.gz' failed."
    );
    let (mut dl, _) = BuiltinDownload::start(lilaq(), "t.tar".to_string());
    assert_eq!(failed(dl.step(StepOutcome::NotRun("nope".to_string()))), "Failed to run download command: nope");
    let (mut dl, _) = BuiltinDownload::start(lilaq(), "t.tar".to_string());
    dl.step(StepOutcome::Exited(true));
    assert_eq!(failed(dl.step(StepOutcome::Exited(false))), "Decompressing 'lilaq-0.6.0.tar.gz' failed.");
    let (mut dl, _) = BuiltinDownload::start(lilaq(), "t.tar".to_string());
    dl.step(StepOutcome::Exited(true));
    assert_eq!(failed(dl.step(StepOutcome::NotRun("gone".to_string()))), "Failed to run gunzip command: gone");
}

#[test]
fn rejected_license_is_removed_and_never_installed() {
    let (mut dl, _) = BuiltinDownload::start(lilaq(), "t.tar".to_string());
    dl.step(StepOutcome::Exited(true));
    dl.step(StepOutcome::Exited(true));
    match dl.step(StepOutcome::Failed("License 'GPL' is not allowed.".to_string())) {
        BuiltinAction::Remove { tar } => assert_eq!(tar, "lilaq-0.6.0.tar"),
        _ => panic!("expected removal"),
    }
    assert_eq!(
        failed(dl.step(StepOutcome::Succeeded)),
        "failed to validate license for downloaded package 'lilaq-0.6.0.tar'. Error: License 'GPL' is not allowed."
    );
    let (mut dl, _) = BuiltinDownload::start(lilaq(), "t.tar".to_string());
    dl.step(StepOutcome::Exited(true));
    dl.step(StepOutcome::Exited(true));
    dl.step(StepOutcome::Failed("bad".to_string()));
    assert_eq!(
        failed(dl.step(StepOutcome::Failed("busy".to_string()))),
        "failed to remove invalidly-licensed package 'lilaq-0.6.0.tar'. Error: busy"
    );
}

#[test]
fn target_preparation_and_move_failures() {
    let (mut dl, _) = BuiltinDownload::start(lilaq(), "t.tar".to_string());
    dl.step(StepOutcome::Exited(true));
    dl.step(StepOutcome::Exited(true));
    dl.step(StepOutcome::Succeeded);
    assert_eq!(
        failed(dl.step(StepOutcome::Failed("denied".to_string()))),
        "Failed to create target directories. Error: denied"
    );
    let (mut dl, _) = BuiltinDownload::start(lilaq(), "t.tar".to_string());
    dl.step(StepOutcome::Exited(true));
    dl.step(StepOutcome::Exited(true));
    dl.step(StepOutcome::Succeeded);
    dl.step(StepOutcome::Succeeded);
    assert_eq!(
        failed(dl.step(StepOutcome::Failed("cross-device".to_string()))),
        "Failed to move downloaded file lilaq-0.6.0.tar to target t.tar. Error: cross-device"
    );
}

#[test]
fn allowed_licenses_are_accepted() {
    let manifest = "[package]\nname = \"lilaq\"\nlicense = \"MIT\"\n";
    assert_eq!(validate_license(Some(manifest), &allowed()), Ok(()));
    let manifest = "[package]\nlicense = \"MIT OR Apache-2.0\"\n";
    assert_eq!(validate_license(Some(manifest), &allowed()), Ok(()));
    assert!(is_allowed("MIT", &allowed()));
    assert!(!is_allowed("mit", &allowed()));
}

#[test]
fn other_licenses_are_refused() {
    let manifest = "[package]\nlicense = \"GPL-3.0\"\n";
    assert_eq!(
        validate_license(Some(manifest), &allowed()),
        Err("License 'GPL-3.0' is not allowed.".to_string())
    );
    assert_eq!(
        validate_license(Some("[package]\nlicense = \"MIT\"\n"), &Vec::new()),
        Err("License 'MIT' is not allowed.".to_string())
    );
}

#[test]
fn malformed_manifests_are_refused() {
    assert_eq!(
        validate_license(None, &allowed()),
        Err("Could not find `typst.toml` in downloaded package".to_string())
    );
    assert_eq!(validate_license(Some("[package"), &allowed()), Err("typst.toml was not valid toml".to_string()));
    assert_eq!(validate_license(Some("name = 1\n"), &allowed()), Err("typst.toml has no package table".to_string()));
    assert_eq!(validate_license(Some("package = 3\n"), &allowed()), Err("typst.toml has no package table".to_string()));
    assert_eq!(validate_license(Some("[package]\nname = \"x\"\n"), &allowed()), Err("package defines no license".to_string()));
    assert_eq!(validate_license(Some("[package]\nlicense = 1\n"), &allowed()), Err("package defines no license".to_string()));
}
