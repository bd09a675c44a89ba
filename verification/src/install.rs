use vstd::prelude::*;

verus! {

/// The steps of installing a GraalVM JDK into an install directory.
///
/// The caller performs each step and feeds back what it observed: probes
/// report whether the file or directory exists, the download reports whether
/// the archive was stored (see `store_download`), the other steps report nothing.
#[derive(Clone, Copy, Debug, PartialEq, Eq, Structural)]
pub enum InstallStep {
    /// Probe whether the JDK home already exists.
    ProbeHome,
    /// Create the install directory (and its parents).
    CreateInstallDir,
    /// Probe whether the archive was downloaded by an earlier run.
    ProbeArchive,
    /// Download the archive and store it in the install directory, unless the
    /// download failed.
    Download,
    /// Probe whether the archive is now on disk.
    ProbeDownloaded,
    /// Unpack the archive into the install directory.
    Extract,
    /// The JDK home is in place.
    Installed,
    /// No archive could be obtained: the download failed, or left nothing on disk.
    DownloadFailed,
}

/// The step that follows `step` when it observed `outcome`.
pub open spec fn spec_next_step(step: InstallStep, outcome: bool) -> InstallStep {
    match step {
        InstallStep::ProbeHome => if outcome {
            InstallStep::Installed
        } else {
            InstallStep::CreateInstallDir
        },
        InstallStep::CreateInstallDir => InstallStep::ProbeArchive,
        InstallStep::ProbeArchive => if outcome {
            InstallStep::ProbeDownloaded
        } else {
            InstallStep::Download
        },
        InstallStep::Download => if outcome {
            InstallStep::ProbeDownloaded
        } else {
            InstallStep::DownloadFailed
        },
        InstallStep::ProbeDownloaded => if outcome {
            InstallStep::Extract
        } else {
            InstallStep::DownloadFailed
        },
        InstallStep::Extract => InstallStep::Installed,
        InstallStep::Installed => InstallStep::Installed,
        InstallStep::DownloadFailed => InstallStep::DownloadFailed,
    }
}

/// The installation has ended, successfully or not.
pub open spec fn spec_is_final(step: InstallStep) -> bool {
    step == InstallStep::Installed || step == InstallStep::DownloadFailed
}

/// An upper bound on the number of steps left from `step`.
pub open spec fn spec_steps_left(step: InstallStep) -> nat {
    match step {
        InstallStep::ProbeHome => 6,
        InstallStep::CreateInstallDir => 5,
        InstallStep::ProbeArchive => 4,
        InstallStep::Download => 3,
        InstallStep::ProbeDownloaded => 2,
        InstallStep::Extract => 1,
        InstallStep::Installed => 0,
        InstallStep::DownloadFailed => 0,
    }
}

/// Every installation starts by probing the JDK home.
pub fn first_install_step() -> (step: InstallStep)
    ensures
        step == InstallStep::ProbeHome,
{
    InstallStep::ProbeHome
}

/// Whether the installation has ended.
pub fn is_final(step: InstallStep) -> (done: bool)
    ensures
        done == spec_is_final(step),
{
    match step {
        InstallStep::Installed | InstallStep::DownloadFailed => true,
        _ => false,
    }
}

/// Decides the next step from the one just performed and what it observed.
///
/// A JDK home that exists is left as it is; otherwise the install directory is
/// created, the archive is downloaded unless an earlier run left it on disk,
/// a failed download ends the installation, and the archive is unpacked if it
/// is then on disk.
pub fn next_step(step: InstallStep, outcome: bool) -> (next: InstallStep)
    ensures
        next == spec_next_step(step, outcome),
        !spec_is_final(step) ==> spec_steps_left(next) < spec_steps_left(step),
        spec_is_final(step) ==> next == step,
{
    match step {
        InstallStep::ProbeHome => if outcome {
            InstallStep::Installed
        } else {
            InstallStep::CreateInstallDir
        },
        InstallStep::CreateInstallDir => InstallStep::ProbeArchive,
        InstallStep::ProbeArchive => if outcome {
            InstallStep::ProbeDownloaded
        } else {
            InstallStep::Download
        },
        InstallStep::Download => if outcome {
            InstallStep::ProbeDownloaded
        } else {
            InstallStep::DownloadFailed
        },
        InstallStep::ProbeDownloaded => if outcome {
            InstallStep::Extract
        } else {
            InstallStep::DownloadFailed
        },
        InstallStep::Extract => InstallStep::Installed,
        InstallStep::Installed => InstallStep::Installed,
        InstallStep::DownloadFailed => InstallStep::DownloadFailed,
    }
}

/// The steps visited from `step` when the performed steps observe `outcomes`
/// in turn; the last element is the step reached after all of them.
pub open spec fn spec_run(step: InstallStep, outcomes: Seq<bool>) -> Seq<InstallStep>
    decreases outcomes.len(),
{
    if outcomes.len() == 0 {
        seq![step]
    } else {
        seq![step] + spec_run(spec_next_step(step, outcomes[0]), outcomes.drop_first())
    }
}

/// What to do with one entry of a zip archive that is being unpacked.
#[derive(Clone, Copy, Debug, PartialEq, Eq, Structural)]
pub enum ZipEntryPlan {
    /// The entry is a directory: create it (and its parents).
    CreateDir,
    /// The entry is a file: write its contents, first creating its parent
    /// directory when `create_parent` is set.
    WriteFile { create_parent: bool },
}

/// Plans the unpacking of a zip entry, given whether it is a directory and,
/// when its output path has a parent directory, whether that parent exists.
pub fn plan_zip_entry(is_dir: bool, parent_exists: Option<bool>) -> (plan: ZipEntryPlan)
    ensures
        is_dir ==> plan == ZipEntryPlan::CreateDir,
        !is_dir ==> plan == (ZipEntryPlan::WriteFile { create_parent: parent_exists == Some(false) }),
{
    if is_dir {
        ZipEntryPlan::CreateDir
    } else {
        let create_parent = match parent_exists {
            Some(exists) => !exists,
            None => false,
        };
        ZipEntryPlan::WriteFile { create_parent }
    }
}

proof fn lemma_run_shape(step: InstallStep, outcomes: Seq<bool>)
    ensures
        spec_run(step, outcomes).len() == outcomes.len() + 1,
        spec_run(step, outcomes)[0] == step,
        forall|i: int|
            0 <= i < outcomes.len() ==> #[trigger] spec_run(step, outcomes)[i + 1] == spec_next_step(
                spec_run(step, outcomes)[i],
                outcomes[i],
            ),
    decreases outcomes.len(),
{
    if outcomes.len() > 0 {
        let next = spec_next_step(step, outcomes[0]);
        let rest = outcomes.drop_first();
        lemma_run_shape(next, rest);
        let r = spec_run(step, outcomes);
        let t = spec_run(next, rest);
        assert(r =~= seq![step] + t);
        assert forall|i: int| 0 <= i < outcomes.len() implies #[trigger] r[i + 1] == spec_next_step(
            r[i],
            outcomes[i],
        ) by {
            if i > 0 {
                assert(r[i + 1] == t[i]);
                assert(r[i] == t[i - 1]);
                assert(rest[i - 1] == outcomes[i]);
                assert(t[(i - 1) + 1] == spec_next_step(t[i - 1], rest[i - 1]));
            }
        }
    }
}

/// Every installation ends: after six performed steps, whatever they
/// observed, the run has reached `Installed` or `DownloadFailed`.
pub proof fn lemma_install_ends(outcomes: Seq<bool>)
    requires
        outcomes.len() >= 6,
    ensures
        spec_is_final(spec_run(InstallStep::ProbeHome, outcomes).last()),
{
    lemma_run_shape(InstallStep::ProbeHome, outcomes);
    lemma_steps_left_bound(outcomes, outcomes.len() as int);
    // `last()` is the element at index `outcomes.len()`.
    assert(spec_run(InstallStep::ProbeHome, outcomes).last() == spec_run(
        InstallStep::ProbeHome,
        outcomes,
    )[outcomes.len() as int]);
}

proof fn lemma_steps_left_decrease(outcomes: Seq<bool>, i: int, j: int)
    requires
        0 <= i < j <= outcomes.len(),
        !spec_is_final(spec_run(InstallStep::ProbeHome, outcomes)[i]),
    ensures
        spec_steps_left(spec_run(InstallStep::ProbeHome, outcomes)[j]) < spec_steps_left(
            spec_run(InstallStep::ProbeHome, outcomes)[i],
        ),
    decreases j - i,
{
    lemma_run_shape(InstallStep::ProbeHome, outcomes);
    let r = spec_run(InstallStep::ProbeHome, outcomes);
    assert(r[i + 1] == spec_next_step(r[i], outcomes[i]));
    if j > i + 1 {
        if spec_is_final(r[i + 1]) {
            lemma_final_stays(outcomes, i + 1, j);
        } else {
            lemma_steps_left_decrease(outcomes, i + 1, j);
        }
    }
}

proof fn lemma_final_stays(outcomes: Seq<bool>, i: int, j: int)
    requires
        0 <= i <= j <= outcomes.len(),
        spec_is_final(spec_run(InstallStep::ProbeHome, outcomes)[i]),
    ensures
        spec_run(InstallStep::ProbeHome, outcomes)[j] == spec_run(InstallStep::ProbeHome, outcomes)[i],
    decreases j - i,
{
    lemma_run_shape(InstallStep::ProbeHome, outcomes);
    let r = spec_run(InstallStep::ProbeHome, outcomes);
    if j > i {
        assert(r[i + 1] == spec_next_step(r[i], outcomes[i]));
        lemma_final_stays(outcomes, i + 1, j);
    }
}

/// No step is performed twice: in any run, two positions that hold the same
/// step hold a step at which the installation has ended. In particular the
/// archive is downloaded at most once and unpacked at most once.
pub proof fn lemma_no_step_repeats(outcomes: Seq<bool>, i: int, j: int)
    requires
        0 <= i < j <= outcomes.len(),
        spec_run(InstallStep::ProbeHome, outcomes)[i] == spec_run(InstallStep::ProbeHome, outcomes)[j],
    ensures
        spec_is_final(spec_run(InstallStep::ProbeHome, outcomes)[i]),
{
    if !spec_is_final(spec_run(InstallStep::ProbeHome, outcomes)[i]) {
        lemma_steps_left_decrease(outcomes, i, j);
    }
}

/// A JDK home that already exists is left alone: when the first probe finds
/// it, nothing is created, downloaded or unpacked, and the run ends installed.
pub proof fn lemma_existing_home_left_alone(outcomes: Seq<bool>, i: int)
    requires
        outcomes.len() > 0,
        outcomes[0],
        1 <= i <= outcomes.len(),
    ensures
        spec_run(InstallStep::ProbeHome, outcomes)[i] == InstallStep::Installed,
{
    lemma_run_shape(InstallStep::ProbeHome, outcomes);
    let r = spec_run(InstallStep::ProbeHome, outcomes);
    assert(r[0int + 1] == spec_next_step(r[0], outcomes[0]));
    lemma_final_stays(outcomes, 1, i);
}

/// The archive is downloaded only when neither the JDK home nor an archive
/// left by an earlier run was found, and it is the fourth step of the run.
pub proof fn lemma_download_only_when_missing(outcomes: Seq<bool>, i: int)
    requires
        0 <= i <= outcomes.len(),
        spec_run(InstallStep::ProbeHome, outcomes)[i] == InstallStep::Download,
    ensures
        i == 3,
        !outcomes[0],
        !outcomes[2],
{
    lemma_run_shape(InstallStep::ProbeHome, outcomes);
    let r = spec_run(InstallStep::ProbeHome, outcomes);
    if i >= 1 { assert(r[0int + 1] == spec_next_step(r[0], outcomes[0])); }
    if i >= 2 { assert(r[1int + 1] == spec_next_step(r[1], outcomes[1])); }
    if i >= 3 { assert(r[2int + 1] == spec_next_step(r[2], outcomes[2])); }
    if i >= 4 {
        assert(r[3int + 1] == spec_next_step(r[3], outcomes[3]));
        if spec_is_final(r[4]) {
            lemma_final_stays(outcomes, 4, i);
        } else {
            lemma_steps_left_decrease(outcomes, 4, i);
        }
    }
}

/// A failed download ends the installation: every later step of the run is
/// `DownloadFailed`, so nothing is unpacked and no archive is reused.
pub proof fn lemma_failed_download_ends_install(outcomes: Seq<bool>, i: int, j: int)
    requires
        0 <= i < j <= outcomes.len(),
        spec_run(InstallStep::ProbeHome, outcomes)[i] == InstallStep::Download,
        !outcomes[i],
    ensures
        spec_run(InstallStep::ProbeHome, outcomes)[j] == InstallStep::DownloadFailed,
{
    lemma_run_shape(InstallStep::ProbeHome, outcomes);
    let r = spec_run(InstallStep::ProbeHome, outcomes);
    assert(r[i + 1] == spec_next_step(r[i], outcomes[i]));
    lemma_final_stays(outcomes, i + 1, j);
}

/// Unpacking completes the installation: every step after `Extract` is
/// `Installed`.
pub proof fn lemma_extract_installs(outcomes: Seq<bool>, i: int, j: int)
    requires
        0 <= i < j <= outcomes.len(),
        spec_run(InstallStep::ProbeHome, outcomes)[i] == InstallStep::Extract,
    ensures
        spec_run(InstallStep::ProbeHome, outcomes)[j] == InstallStep::Installed,
{
    lemma_run_shape(InstallStep::ProbeHome, outcomes);
    let r = spec_run(InstallStep::ProbeHome, outcomes);
    assert(r[i + 1] == spec_next_step(r[i], outcomes[i]));
    lemma_final_stays(outcomes, i + 1, j);
}

/// A run is installed only if the JDK home was there from the start or the
/// archive was unpacked earlier in the run.
pub proof fn lemma_installed_only_with_home(outcomes: Seq<bool>, j: int)
    requires
        0 <= j <= outcomes.len(),
        spec_run(InstallStep::ProbeHome, outcomes)[j] == InstallStep::Installed,
    ensures
        j >= 1,
        outcomes[0] || exists|i: int|
            0 <= i < j && #[trigger] spec_run(InstallStep::ProbeHome, outcomes)[i]
                == InstallStep::Extract,
    decreases j,
{
    lemma_run_shape(InstallStep::ProbeHome, outcomes);
    let r = spec_run(InstallStep::ProbeHome, outcomes);
    assert(j >= 1);
    assert(r[(j - 1) + 1] == spec_next_step(r[j - 1], outcomes[j - 1]));
    if r[j - 1] == InstallStep::Extract {
        assert(r[j - 1] == InstallStep::Extract);
    } else if r[j - 1] == InstallStep::Installed {
        lemma_installed_only_with_home(outcomes, j - 1);
        if !outcomes[0] {
            let i = choose|i: int| 0 <= i < j - 1 && #[trigger] r[i] == InstallStep::Extract;
            assert(r[i] == InstallStep::Extract);
        }
    } else {
        assert(r[j - 1] == InstallStep::ProbeHome);
        assert(j - 1 == 0) by {
            if j - 1 > 0 {
                assert(r[(j - 2) + 1] == spec_next_step(r[j - 2], outcomes[j - 2]));
            }
        }
    }
}

/// The archive is unpacked only when the JDK home was missing and the probe
/// just before found the archive on disk.
pub proof fn lemma_extract_only_with_archive(outcomes: Seq<bool>, i: int)
    requires
        0 <= i <= outcomes.len(),
        spec_run(InstallStep::ProbeHome, outcomes)[i] == InstallStep::Extract,
    ensures
        i >= 1,
        !outcomes[0],
        spec_run(InstallStep::ProbeHome, outcomes)[i - 1] == InstallStep::ProbeDownloaded,
        outcomes[i - 1],
{
    lemma_run_shape(InstallStep::ProbeHome, outcomes);
    let r = spec_run(InstallStep::ProbeHome, outcomes);
    assert(i >= 1);
    assert(r[(i - 1) + 1] == spec_next_step(r[i - 1], outcomes[i - 1]));
    assert(r[0int + 1] == spec_next_step(r[0], outcomes[0]));
    if outcomes[0] {
        lemma_existing_home_left_alone(outcomes, i);
    }
}

proof fn lemma_steps_left_bound(outcomes: Seq<bool>, i: int)
    requires
        0 <= i <= outcomes.len(),
    ensures
        spec_steps_left(spec_run(InstallStep::ProbeHome, outcomes)[i]) + i <= 6 || spec_is_final(
            spec_run(InstallStep::ProbeHome, outcomes)[i],
        ),
    decreases i,
{
    lemma_run_shape(InstallStep::ProbeHome, outcomes);
    if i > 0 {
        lemma_steps_left_bound(outcomes, i - 1);
        let r = spec_run(InstallStep::ProbeHome, outcomes);
        assert(r[(i - 1) + 1] == spec_next_step(r[i - 1], outcomes[i - 1]));
    }
}

} // verus!
