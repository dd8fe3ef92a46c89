//! Fetching typst packages that are not installed yet: what to run, with
//! which arguments, and what every outcome means.

use vstd::prelude::*;
use crate::package::{PackageSpec, PackageSpecView, spec_text, version_text};
use crate::text::{concat2, concat3, concat4, concat5};
use crate::license::strings_view;
use crate::paths::{join_path, joined_path};

verus! {

/// How packages that are not installed are fetched.
pub enum AutoDownload {
    /// With `wget` and `gunzip` from the typst universe, vetting the license.
    BuiltIn,
    /// By running the named program.
    Custom(String),
}

impl Clone for AutoDownload {
    fn clone(&self) -> (r: Self)
        ensures
            r == *self,
    {
        match self {
            AutoDownload::BuiltIn => AutoDownload::BuiltIn,
            AutoDownload::Custom(program) => AutoDownload::Custom(program.clone()),
        }
    }
}

/// What to do to make a package archive present.
pub enum DownloadPlan {
    /// The archive is there already: nothing to do.
    Present,
    /// Run the built-in downloader (see `BuiltinDownload`).
    Builtin,
    /// Run `program` with `args`, its standard error shown to the user.
    Custom { program: String, args: Vec<String> },
}

/// The arguments of a custom download command: the archive's path, the
/// package specification, then each allowed license.
pub open spec fn custom_args(tar: Seq<char>, package: PackageSpecView, allowed: Seq<Seq<char>>) -> Seq<Seq<char>> {
    seq![tar, spec_text(package)] + allowed
}

impl AutoDownload {
    /// Decides how to make the archive `tar` of `package` present; whether
    /// it exists is what the caller found on disk.
    pub fn download_if_absent(
        &self,
        tar_exists: bool,
        tar: &str,
        package: &PackageSpec,
        allowed_licenses: &Vec<String>,
    ) -> (r: DownloadPlan)
        ensures
            tar_exists ==> r is Present,
            !tar_exists && self is BuiltIn ==> r is Builtin,
            !tar_exists && self is Custom ==> (r matches DownloadPlan::Custom { program, args } && program@
                == self->Custom_0@ && strings_view(args@) == custom_args(
                tar@,
                package@,
                strings_view(allowed_licenses@),
            )),
    {
        if tar_exists {
            return DownloadPlan::Present;
        }
        match self {
            AutoDownload::BuiltIn => DownloadPlan::Builtin,
            AutoDownload::Custom(command) => {
                let mut args: Vec<String> = Vec::new();
                args.push(crate::text::owned(tar));
                args.push(package.to_text());
                let mut i: usize = 0;
                while i < allowed_licenses.len()
                    invariant
                        i <= allowed_licenses.len(),
                        strings_view(args@) == seq![tar@, spec_text(package@)] + strings_view(
                            allowed_licenses@,
                        ).take(i as int),
                    decreases allowed_licenses.len() - i,
                {
                    let ghost old_args = args@;
                    let license = allowed_licenses[i].clone();
                    args.push(license);
                    assert(strings_view(args@) =~= strings_view(old_args).push(allowed_licenses@[i as int]@));
                    i = i + 1;
                    assert(strings_view(allowed_licenses@).take(i as int) =~= strings_view(
                        allowed_licenses@,
                    ).take(i - 1).push(allowed_licenses@[i - 1]@));
                    assert(strings_view(args@) =~= seq![tar@, spec_text(package@)] + strings_view(
                        allowed_licenses@,
                    ).take(i as int));
                }
                assert(strings_view(allowed_licenses@).take(i as int) =~= strings_view(allowed_licenses@));
                DownloadPlan::Custom { program: command.clone(), args }
            },
        }
    }
}

/// How a command that the library asked for went.
pub enum CommandOutcome {
    /// It could not be started; the error says why.
    NotRun(String),
    /// It ran, and exited with success or not.
    Exited(bool),
}

/// What a custom download command's outcome means.
pub open spec fn custom_verdict(command: Seq<char>, outcome: CommandOutcome) -> Result<(), Seq<char>> {
    match outcome {
        CommandOutcome::NotRun(e) => Err(
            "Failed to execute custom command '"@ + command + "'. Error: "@ + e@,
        ),
        CommandOutcome::Exited(true) => Ok(()),
        CommandOutcome::Exited(false) => Err(
            "Custom command '"@ + command + "' exited with non-success status code."@,
        ),
    }
}

/// The result of fetching a package with a custom command.
pub fn custom_result(command: &str, outcome: CommandOutcome) -> (r: Result<(), String>)
    ensures
        crate::license::result_view(r) == custom_verdict(command@, outcome),
{
    match outcome {
        CommandOutcome::NotRun(e) => Err(
            concat4("Failed to execute custom command '", command, "'. Error: ", e.as_str()),
        ),
        CommandOutcome::Exited(true) => Ok(()),
        CommandOutcome::Exited(false) => Err(
            concat3("Custom command '", command, "' exited with non-success status code."),
        ),
    }
}

/// `name-version.tar`: the archive that the built-in downloader unpacks.
pub open spec fn archive_name(p: PackageSpecView) -> Seq<char> {
    p.name + "-"@ + version_text(p.version) + ".tar"@
}

/// `name-version.tar.gz`: the compressed archive that it downloads.
pub open spec fn compressed_name(p: PackageSpecView) -> Seq<char> {
    archive_name(p) + ".gz"@
}

/// Where the typst universe serves a package.
pub open spec fn package_url(p: PackageSpecView) -> Seq<char> {
    "https://packages.typst.org/"@ + p.namespace + "/"@ + compressed_name(p)
}

/// The archive that the built-in downloader unpacks.
pub fn archive_file(package: &PackageSpec) -> (r: String)
    ensures
        r@ == archive_name(package@),
{
    let v = package.version.to_text();
    concat4(package.name.as_str(), "-", v.as_str(), ".tar")
}

/// Where the archive of `package` lives in the directory `dir`:
/// `dir/name-version.tar`.
pub fn package_archive(dir: &str, package: &PackageSpec) -> (r: String)
    ensures
        r@ == joined_path(dir@, archive_name(package@)),
{
    let name = archive_file(package);
    join_path(dir, name.as_str())
}

/// The compressed archive that the built-in downloader fetches.
pub fn compressed_file(package: &PackageSpec) -> (r: String)
    ensures
        r@ == compressed_name(package@),
{
    let tar = archive_file(package);
    concat2(tar.as_str(), ".gz")
}

/// The address from which the built-in downloader fetches a package.
pub fn download_url(package: &PackageSpec) -> (r: String)
    ensures
        r@ == package_url(package@),
{
    let gz = compressed_file(package);
    concat4("https://packages.typst.org/", package.namespace.as_str(), "/", gz.as_str())
}

/// The steps of the built-in downloader.
pub enum BuiltinStage {
    /// `wget <url>` was asked for.
    Fetching,
    /// `gunzip <name-version.tar.gz>` was asked for.
    Decompressing,
    /// The license check of `name-version.tar` was asked for.
    CheckingLicense,
    /// The license check failed with this error; removing the archive was
    /// asked for.
    Discarding(String),
    /// Creating the target's parent directory was asked for.
    PreparingTarget,
    /// Moving the archive to the target was asked for.
    Installing,
    /// Nothing is left to do.
    Done,
}

/// How a step of the built-in downloader went.
pub enum StepOutcome {
    /// A program could not be started; the error says why.
    NotRun(String),
    /// A program ran and exited with success or not.
    Exited(bool),
    /// A file-system step or the license check succeeded.
    Succeeded,
    /// A file-system step or the license check failed with this error.
    Failed(String),
}

/// What the built-in downloader asks the caller to do next.
pub enum BuiltinAction {
    /// Tell the user `notice`, then run `wget <url>`.
    Fetch { url: String, notice: String },
    /// Run `gunzip <archive>`.
    Decompress { archive: String },
    /// Check the license of the archive `tar` (see `validate_license`).
    CheckLicense { tar: String },
    /// Remove the file `tar`.
    Remove { tar: String },
    /// Create the parent directory of the target, if it has one.
    PrepareTarget,
    /// Move the file `from` to the target.
    Install { from: String },
    /// Tell the user `notice`: the package is installed.
    Finished { notice: String },
    /// Stop with this error.
    Failed(String),
}

pub enum BuiltinActionView {
    Fetch { url: Seq<char>, notice: Seq<char> },
    Decompress { archive: Seq<char> },
    CheckLicense { tar: Seq<char> },
    Remove { tar: Seq<char> },
    PrepareTarget,
    Install { from: Seq<char> },
    Finished { notice: Seq<char> },
    Failed(Seq<char>),
}

impl View for BuiltinAction {
    type V = BuiltinActionView;

    open spec fn view(&self) -> BuiltinActionView {
        match self {
            BuiltinAction::Fetch { url, notice } => BuiltinActionView::Fetch { url: url@, notice: notice@ },
            BuiltinAction::Decompress { archive } => BuiltinActionView::Decompress { archive: archive@ },
            BuiltinAction::CheckLicense { tar } => BuiltinActionView::CheckLicense { tar: tar@ },
            BuiltinAction::Remove { tar } => BuiltinActionView::Remove { tar: tar@ },
            BuiltinAction::PrepareTarget => BuiltinActionView::PrepareTarget,
            BuiltinAction::Install { from } => BuiltinActionView::Install { from: from@ },
            BuiltinAction::Finished { notice } => BuiltinActionView::Finished { notice: notice@ },
            BuiltinAction::Failed(e) => BuiltinActionView::Failed(e@),
        }
    }
}

pub enum BuiltinStageView {
    Fetching,
    Decompressing,
    CheckingLicense,
    Discarding(Seq<char>),
    PreparingTarget,
    Installing,
    Done,
}

impl View for BuiltinStage {
    type V = BuiltinStageView;

    open spec fn view(&self) -> BuiltinStageView {
        match self {
            BuiltinStage::Fetching => BuiltinStageView::Fetching,
            BuiltinStage::Decompressing => BuiltinStageView::Decompressing,
            BuiltinStage::CheckingLicense => BuiltinStageView::CheckingLicense,
            BuiltinStage::Discarding(e) => BuiltinStageView::Discarding(e@),
            BuiltinStage::PreparingTarget => BuiltinStageView::PreparingTarget,
            BuiltinStage::Installing => BuiltinStageView::Installing,
            BuiltinStage::Done => BuiltinStageView::Done,
        }
    }
}

/// Whether an outcome is one that the step of `stage` can have: programs
/// run while fetching and decompressing, the other steps succeed or fail.
pub open spec fn outcome_fits(stage: BuiltinStageView, outcome: StepOutcome) -> bool {
    match stage {
        BuiltinStageView::Fetching | BuiltinStageView::Decompressing => outcome is NotRun || outcome is Exited,
        BuiltinStageView::Done => false,
        _ => outcome is Succeeded || outcome is Failed,
    }
}

/// The downloader's next stage and request, after the step of `stage`
/// ended with `outcome`, for `package` and the target path `target`.
pub open spec fn builtin_transition(
    package: PackageSpecView,
    target: Seq<char>,
    stage: BuiltinStageView,
    outcome: StepOutcome,
) -> (BuiltinStageView, BuiltinActionView) {
    let tar = archive_name(package);
    let gz = compressed_name(package);
    let fail = |e: Seq<char>| (BuiltinStageView::Done, BuiltinActionView::Failed(e));
    match stage {
        BuiltinStageView::Fetching => match outcome {
            StepOutcome::NotRun(e) => fail("Failed to run download command: "@ + e@),
            StepOutcome::Exited(true) => (BuiltinStageView::Decompressing, BuiltinActionView::Decompress { archive: gz }),
            _ => fail("Downloading '"@ + package_url(package) + "' failed."@),
        },
        BuiltinStageView::Decompressing => match outcome {
            StepOutcome::NotRun(e) => fail("Failed to run gunzip command: "@ + e@),
            StepOutcome::Exited(true) => (BuiltinStageView::CheckingLicense, BuiltinActionView::CheckLicense { tar }),
            _ => fail("Decompressing '"@ + gz + "' failed."@),
        },
        BuiltinStageView::CheckingLicense => match outcome {
            StepOutcome::Failed(e) => (BuiltinStageView::Discarding(e@), BuiltinActionView::Remove { tar }),
            _ => (BuiltinStageView::PreparingTarget, BuiltinActionView::PrepareTarget),
        },
        BuiltinStageView::Discarding(why) => match outcome {
            StepOutcome::Failed(e) => fail(
                "failed to remove invalidly-licensed package '"@ + tar + "'. Error: "@ + e@,
            ),
            _ => fail("failed to validate license for downloaded package '"@ + tar + "'. Error: "@ + why),
        },
        BuiltinStageView::PreparingTarget => match outcome {
            StepOutcome::Failed(e) => fail("Failed to create target directories. Error: "@ + e@),
            _ => (BuiltinStageView::Installing, BuiltinActionView::Install { from: tar }),
        },
        _ => match outcome {
            StepOutcome::Failed(e) => fail(
                "Failed to move downloaded file "@ + tar + " to target "@ + target + ". Error: "@ + e@,
            ),
            _ => (
                BuiltinStageView::Done,
                BuiltinActionView::Finished {
                    notice: "Succesfully downloaded & installed "@ + spec_text(package) + " to "@ + target,
                },
            ),
        },
    }
}

/// The built-in downloader of one package: fetch the compressed archive
/// from the typst universe, decompress it, vet its license (removing it if
/// the license is not allowed), and move it to the target path.
pub struct BuiltinDownload {
    pub package: PackageSpec,
    pub target: String,
    pub stage: BuiltinStage,
}

impl BuiltinDownload {
    /// Starts downloading `package` to `target`: the first request is to
    /// fetch it.
    pub fn start(package: PackageSpec, target: String) -> (r: (Self, BuiltinAction))
        ensures
            r.0.package@ == package@,
            r.0.target@ == target@,
            r.0.stage@ == BuiltinStageView::Fetching,
            r.1@ == (BuiltinActionView::Fetch {
                url: package_url(package@),
                notice: "Downloading '"@ + package_url(package@) + "' to '"@ + compressed_name(package@) + "'..."@,
            }),
    {
        let url = download_url(&package);
        let gz = compressed_file(&package);
        let notice = concat5("Downloading '", url.as_str(), "' to '", gz.as_str(), "'...");
        (BuiltinDownload { package, target, stage: BuiltinStage::Fetching }, BuiltinAction::Fetch { url, notice })
    }

    /// Takes in how the last requested step went and says what to do next.
    pub fn step(&mut self, outcome: StepOutcome) -> (r: BuiltinAction)
        requires
            outcome_fits(old(self).stage@, outcome),
        ensures
            final(self).package@ == old(self).package@,
            final(self).target@ == old(self).target@,
            (final(self).stage@, r@) == builtin_transition(
                old(self).package@,
                old(self).target@,
                old(self).stage@,
                outcome,
            ),
    {
        let tar = archive_file(&self.package);
        let gz = compressed_file(&self.package);
        let mut stage = BuiltinStage::Done;
        std::mem::swap(&mut stage, &mut self.stage);
        match stage {
            BuiltinStage::Fetching => match outcome {
                StepOutcome::NotRun(e) => BuiltinAction::Failed(concat2("Failed to run download command: ", e.as_str())),
                StepOutcome::Exited(true) => {
                    self.stage = BuiltinStage::Decompressing;
                    BuiltinAction::Decompress { archive: gz }
                },
                _ => {
                    let url = download_url(&self.package);
                    BuiltinAction::Failed(concat3("Downloading '", url.as_str(), "' failed."))
                },
            },
            BuiltinStage::Decompressing => match outcome {
                StepOutcome::NotRun(e) => BuiltinAction::Failed(concat2("Failed to run gunzip command: ", e.as_str())),
                StepOutcome::Exited(true) => {
                    self.stage = BuiltinStage::CheckingLicense;
                    BuiltinAction::CheckLicense { tar }
                },
                _ => BuiltinAction::Failed(concat3("Decompressing '", gz.as_str(), "' failed.")),
            },
            BuiltinStage::CheckingLicense => match outcome {
                StepOutcome::Failed(e) => {
                    self.stage = BuiltinStage::Discarding(e);
                    BuiltinAction::Remove { tar }
                },
                _ => {
                    self.stage = BuiltinStage::PreparingTarget;
                    BuiltinAction::PrepareTarget
                },
            },
            BuiltinStage::Discarding(why) => match outcome {
                StepOutcome::Failed(e) => BuiltinAction::Failed(
                    concat4("failed to remove invalidly-licensed package '", tar.as_str(), "'. Error: ", e.as_str()),
                ),
                _ => BuiltinAction::Failed(
                    concat4("failed to validate license for downloaded package '", tar.as_str(), "'. Error: ", why.as_str()),
                ),
            },
            BuiltinStage::PreparingTarget => match outcome {
                StepOutcome::Failed(e) => BuiltinAction::Failed(
                    concat2("Failed to create target directories. Error: ", e.as_str()),
                ),
                _ => {
                    self.stage = BuiltinStage::Installing;
                    BuiltinAction::Install { from: tar }
                },
            },
            _ => match outcome {
                StepOutcome::Failed(e) => {
                    let mut m = concat4("Failed to move downloaded file ", tar.as_str(), " to target ", self.target.as_str());
                    m.append(". Error: ");
                    m.append(e.as_str());
                    BuiltinAction::Failed(m)
                },
                _ => {
                    let spec = self.package.to_text();
                    let notice = concat4("Succesfully downloaded & installed ", spec.as_str(), " to ", self.target.as_str());
                    BuiltinAction::Finished { notice }
                },
            },
        }
    }
}


/// A package whose license check failed is never installed: whatever the
/// removal of its archive gives, the downloader stops with an error.
pub proof fn lemma_rejected_license_never_installed(
    package: PackageSpecView,
    target: Seq<char>,
    why: Seq<char>,
    outcome: StepOutcome,
)
    requires
        outcome_fits(BuiltinStageView::Discarding(why), outcome),
    ensures
        builtin_transition(package, target, BuiltinStageView::Discarding(why), outcome).0 == BuiltinStageView::Done,
        builtin_transition(package, target, BuiltinStageView::Discarding(why), outcome).1 is Failed,
{
}

/// The downloader asks to move an archive into place only right after the
/// target directory was prepared, and it prepares the target only right
/// after the license check succeeded.
pub proof fn lemma_install_only_after_license_check(
    package: PackageSpecView,
    target: Seq<char>,
    stage: BuiltinStageView,
    outcome: StepOutcome,
)
    requires
        outcome_fits(stage, outcome),
    ensures
        builtin_transition(package, target, stage, outcome).1 is Install ==> stage == BuiltinStageView::PreparingTarget,
        builtin_transition(package, target, stage, outcome).1 is PrepareTarget ==> stage
            == BuiltinStageView::CheckingLicense && outcome is Succeeded,
{
}

/// The stages that a run of the built-in downloader passes through, from
/// `stage` on, when its steps end with `outcomes` in turn: the stage before
/// each step, then the stage after the last.
pub open spec fn builtin_trace(
    package: PackageSpecView,
    target: Seq<char>,
    stage: BuiltinStageView,
    outcomes: Seq<StepOutcome>,
) -> Seq<BuiltinStageView>
    decreases outcomes.len(),
{
    if outcomes.len() == 0 {
        seq![stage]
    } else {
        seq![stage] + builtin_trace(
            package,
            target,
            builtin_transition(package, target, stage, outcomes[0]).0,
            outcomes.drop_first(),
        )
    }
}

/// The request that the last of the steps asks for.
pub open spec fn builtin_last_action(
    package: PackageSpecView,
    target: Seq<char>,
    stage: BuiltinStageView,
    outcomes: Seq<StepOutcome>,
) -> BuiltinActionView
    recommends
        outcomes.len() > 0,
    decreases outcomes.len(),
{
    if outcomes.len() <= 1 {
        builtin_transition(package, target, stage, outcomes[0]).1
    } else {
        builtin_last_action(
            package,
            target,
            builtin_transition(package, target, stage, outcomes[0]).0,
            outcomes.drop_first(),
        )
    }
}

/// Whether every step of the run has an outcome that its stage can have.
pub open spec fn run_fits(
    package: PackageSpecView,
    target: Seq<char>,
    stage: BuiltinStageView,
    outcomes: Seq<StepOutcome>,
) -> bool {
    forall|i: int|
        0 <= i < outcomes.len() ==> outcome_fits(
            #[trigger] builtin_trace(package, target, stage, outcomes)[i],
            outcomes[i],
        )
}

proof fn lemma_trace_len(
    package: PackageSpecView,
    target: Seq<char>,
    stage: BuiltinStageView,
    outcomes: Seq<StepOutcome>,
)
    ensures
        builtin_trace(package, target, stage, outcomes).len() == outcomes.len() + 1,
    decreases outcomes.len(),
{
    if outcomes.len() > 0 {
        lemma_trace_len(
            package,
            target,
            builtin_transition(package, target, stage, outcomes[0]).0,
            outcomes.drop_first(),
        );
    }
}

proof fn lemma_finished_run_passed_check(
    package: PackageSpecView,
    target: Seq<char>,
    stage: BuiltinStageView,
    outcomes: Seq<StepOutcome>,
)
    requires
        outcomes.len() > 0,
        run_fits(package, target, stage, outcomes),
        builtin_last_action(package, target, stage, outcomes) is Finished,
    ensures
        stage == BuiltinStageView::PreparingTarget || stage == BuiltinStageView::Installing || exists|j: int|
            0 <= j < outcomes.len() && builtin_trace(package, target, stage, outcomes)[j]
                == BuiltinStageView::CheckingLicense && #[trigger] outcomes[j] is Succeeded,
    decreases outcomes.len(),
{
    let trace = builtin_trace(package, target, stage, outcomes);
    assert(trace[0] == stage);
    assert(outcome_fits(trace[0], outcomes[0]));
    let next = builtin_transition(package, target, stage, outcomes[0]).0;
    if outcomes.len() > 1 {
        let rest = outcomes.drop_first();
        let rest_trace = builtin_trace(package, target, next, rest);
        lemma_trace_len(package, target, next, rest);
        assert(trace == seq![stage] + rest_trace);
        assert forall|i: int| 0 <= i < rest.len() implies outcome_fits(
            #[trigger] rest_trace[i],
            rest[i],
        ) by {
            assert(trace[i + 1] == rest_trace[i]);
            assert(outcome_fits(trace[i + 1], outcomes[i + 1]));
        }
        lemma_finished_run_passed_check(package, target, next, rest);
        if next == BuiltinStageView::PreparingTarget {
            assert(stage == BuiltinStageView::CheckingLicense && outcomes[0] is Succeeded);
        } else if next == BuiltinStageView::Installing {
        } else {
            let j = choose|j: int|
                0 <= j < rest.len() && rest_trace[j] == BuiltinStageView::CheckingLicense
                    && #[trigger] rest[j] is Succeeded;
            assert(trace[j + 1] == rest_trace[j]);
            assert(outcomes[j + 1] == rest[j]);
        }
    }
}

/// A run of the built-in downloader that ends by reporting the package as
/// installed went through the license check, and that check succeeded.
pub proof fn lemma_installed_package_passed_license_check(
    package: PackageSpecView,
    target: Seq<char>,
    outcomes: Seq<StepOutcome>,
)
    requires
        outcomes.len() > 0,
        run_fits(package, target, BuiltinStageView::Fetching, outcomes),
        builtin_last_action(package, target, BuiltinStageView::Fetching, outcomes) is Finished,
    ensures
        exists|j: int|
            0 <= j < outcomes.len() && builtin_trace(package, target, BuiltinStageView::Fetching, outcomes)[j]
                == BuiltinStageView::CheckingLicense && #[trigger] outcomes[j] is Succeeded,
{
    lemma_finished_run_passed_check(package, target, BuiltinStageView::Fetching, outcomes);
}


/// A custom download command gets the archive path, then the package
/// specification, then every allowed license, in order and none left out.
pub proof fn lemma_custom_args_carry_every_license(
    tar: Seq<char>,
    package: PackageSpecView,
    allowed: Seq<Seq<char>>,
)
    ensures
        custom_args(tar, package, allowed).len() == 2 + allowed.len(),
        custom_args(tar, package, allowed)[0] == tar,
        custom_args(tar, package, allowed)[1] == spec_text(package),
        forall|i: int| 0 <= i < allowed.len() ==> #[trigger] custom_args(tar, package, allowed)[2 + i] == allowed[i],
        custom_args(tar, package, allowed).skip(2) == allowed,
{
    let a = custom_args(tar, package, allowed);
    assert(a.skip(2) =~= allowed);
}

} // verus!
