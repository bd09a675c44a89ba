use tika_build::install::{first_install_step, is_final, next_step, plan_zip_entry, InstallStep, ZipEntryPlan};

/// Runs the installation steps, answering the probes and the download from
/// `probes` in turn.
fn run(mut probes: Vec<bool>) -> Vec<InstallStep> {
    probes.reverse();
    let mut step = first_install_step();
    let mut trace = vec![step];
    while !is_final(step) {
        let observed = match step {
            InstallStep::ProbeHome
            | InstallStep::ProbeArchive
            | InstallStep::Download
            | InstallStep::ProbeDownloaded => {
                probes.pop().unwrap()
            }
            _ => false,
        };
        step = next_step(step, observed);
        trace.push(step);
    }
    trace
}

#[test]
fn existing_home_is_left_alone() {
    assert_eq!(run(vec![true]), vec![InstallStep::ProbeHome, InstallStep::Installed]);
}

#[test]
fn missing_archive_is_downloaded_then_unpacked() {
    assert_eq!(
        run(vec![false, false, true, true]),
        vec![
            InstallStep::ProbeHome,
            InstallStep::CreateInstallDir,
            InstallStep::ProbeArchive,
            InstallStep::Download,
            InstallStep::ProbeDownloaded,
            InstallStep::Extract,
            InstallStep::Installed,
        ]
    );
}

#[test]
fn archive_left_by_earlier_run_is_not_downloaded_again() {
    assert_eq!(
        run(vec![false, true, true]),
        vec![
            InstallStep::ProbeHome,
            InstallStep::CreateInstallDir,
            InstallStep::ProbeArchive,
            InstallStep::ProbeDownloaded,
            InstallStep::Extract,
            InstallStep::Installed,
        ]
    );
}

#[test]
fn failed_download_ends_the_installation() {
    assert_eq!(
        run(vec![false, false, false]),
        vec![
            InstallStep::ProbeHome,
            InstallStep::CreateInstallDir,
            InstallStep::ProbeArchive,
            InstallStep::Download,
            InstallStep::DownloadFailed,
        ]
    );
}

#[test]
fn stored_archive_missing_on_disk_ends_the_installation() {
    assert_eq!(
        run(vec![false, false, true, false]),
        vec![
            InstallStep::ProbeHome,
            InstallStep::CreateInstallDir,
            InstallStep::ProbeArchive,
            InstallStep::Download,
            InstallStep::ProbeDownloaded,
            InstallStep::DownloadFailed,
        ]
    );
}

#[test]
fn final_steps_stay_put() {
    assert_eq!(next_step(InstallStep::Installed, false), InstallStep::Installed);
    assert_eq!(next_step(InstallStep::DownloadFailed, true), InstallStep::DownloadFailed);
    assert!(!is_final(InstallStep::Extract));
}

#[test]
fn zip_entries_are_planned() {
    assert_eq!(plan_zip_entry(true, Some(false)), ZipEntryPlan::CreateDir);
    assert_eq!(plan_zip_entry(false, Some(false)), ZipEntryPlan::WriteFile { create_parent: true });
    assert_eq!(plan_zip_entry(false, Some(true)), ZipEntryPlan::WriteFile { create_parent: false });
    assert_eq!(plan_zip_entry(false, None), ZipEntryPlan::WriteFile { create_parent: false });
}
