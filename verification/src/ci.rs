//! The continuous-integration job matrix: one test job per target platform
//! and toolchain channel (with one expensive combination pruned), a fixed
//! documentation job, and two fixed check jobs, over the buildable units
//! discovered in the repository.

use vstd::prelude::*;

use vstd::multiset::Multiset;

use crate::strutil::lex_le;
use crate::strutil::lemma_lex_le_total;
use crate::strutil::lemma_lex_le_trans;
use crate::strutil::str_eq;
use crate::strutil::str_le;

verus! {

/// A release track of the toolchain.
#[derive(Clone, Copy, Debug, PartialEq, Eq, Structural)]
pub enum RustToolchain {
    Stable,
    Beta,
    Nightly,
}

impl RustToolchain {
    /// The channel's name as it appears in job identifiers.
    pub open spec fn spec_name(self) -> Seq<char> {
        match self {
            RustToolchain::Stable => "stable"@,
            RustToolchain::Beta => "beta"@,
            RustToolchain::Nightly => "nightly"@,
        }
    }

    /// The channel's name as it appears in job identifiers.
    pub fn name(self) -> (r: &'static str)
        ensures
            r@ == self.spec_name(),
    {
        match self {
            RustToolchain::Stable => "stable",
            RustToolchain::Beta => "beta",
            RustToolchain::Nightly => "nightly",
        }
    }
}

/// The runner environment a job is scheduled on.
#[derive(Clone, Copy, Debug, PartialEq, Eq, Structural)]
pub enum Env {
    UbuntuLatest,
    MacosLatest,
    WindowsLatest,
}

/// A target operating system of the matrix.
#[derive(Clone, Copy, Debug, PartialEq, Eq, Structural)]
pub enum Os {
    Linux,
    Macos,
    Windows,
}

impl Os {
    /// The operating system's name as it appears in job identifiers.
    pub open spec fn spec_name(self) -> Seq<char> {
        match self {
            Os::Linux => "linux"@,
            Os::Macos => "macos"@,
            Os::Windows => "windows"@,
        }
    }

    /// The operating system's name as it appears in job identifiers.
    pub fn name(self) -> (r: &'static str)
        ensures
            r@ == self.spec_name(),
    {
        match self {
            Os::Linux => "linux",
            Os::Macos => "macos",
            Os::Windows => "windows",
        }
    }

    /// The runner environment that serves this operating system.
    pub open spec fn spec_ghwf(self) -> Env {
        match self {
            Os::Linux => Env::UbuntuLatest,
            Os::Macos => Env::MacosLatest,
            Os::Windows => Env::WindowsLatest,
        }
    }

    /// The runner environment that serves this operating system.
    pub fn ghwf(self) -> (r: Env)
        ensures
            r == self.spec_ghwf(),
    {
        match self {
            Os::Linux => Env::UbuntuLatest,
            Os::Macos => Env::MacosLatest,
            Os::Windows => Env::WindowsLatest,
        }
    }
}

/// One step of a job.
#[derive(Debug)]
pub enum Step {
    CargoCache,
    CheckoutSources,
    RustInstallToolchain { channel: RustToolchain },
    CargoTest { name: String, args: String, timeout_minutes: Option<u64> },
    CargoDoc { name: String, args: String },
}

/// One job of the workflow, built by this generator.
#[derive(Debug)]
pub struct Job {
    pub id: String,
    pub name: String,
    pub runs_on: Env,
    pub env: Vec<(String, String)>,
    pub steps: Vec<Step>,
}

/// One entry of the emitted workflow: a job built here, or one of the two
/// fixed check jobs taken over as a whole.
#[derive(Debug)]
pub enum WorkflowJob {
    Generated(Job),
    RustfmtCheck,
    MegaLinter,
}

/// The directory that looks like a buildable unit but is only a template.
pub open spec fn excluded_name() -> Seq<char> {
    "protoc-bin-vendored-arch-template"@
}

/// The units that get a test step: all of them but the template directory,
/// in their given order.
pub open spec fn kept_crates(crates: Seq<String>) -> Seq<String>
    decreases crates.len(),
{
    if crates.len() == 0 {
        Seq::empty()
    } else if crates[0]@ == excluded_name() {
        kept_crates(crates.drop_first())
    } else {
        seq![crates[0]] + kept_crates(crates.drop_first())
    }
}

/// Appending one unit extends the kept units by that unit, unless it is
/// the template directory.
proof fn lemma_kept_crates_push(crates: Seq<String>, x: String)
    ensures
        kept_crates(crates.push(x)) == if x@ == excluded_name() {
            kept_crates(crates)
        } else {
            kept_crates(crates) + seq![x]
        },
    decreases crates.len(),
{
    reveal_with_fuel(kept_crates, 3);
    if crates.len() == 0 {
        assert(crates.push(x).drop_first() =~= crates);
        assert(crates.push(x)[0] == x);
        if x@ == excluded_name() {
            assert(kept_crates(crates.push(x)) =~= kept_crates(crates));
        } else {
            assert(kept_crates(crates.push(x)) =~= kept_crates(crates) + seq![x]);
        }
    } else {
        assert(crates.push(x).drop_first() =~= crates.drop_first().push(x));
        assert(crates.push(x)[0] == crates[0]);
        lemma_kept_crates_push(crates.drop_first(), x);
        if x@ == excluded_name() {
            assert(kept_crates(crates.push(x)) =~= kept_crates(crates));
        } else {
            assert(kept_crates(crates.push(x)) =~= kept_crates(crates) + seq![x]);
        }
    }
}

/// The units' names stand in lexicographic order.
pub open spec fn sorted_lex(s: Seq<String>) -> bool {
    forall|i: int, j: int| 0 <= i <= j < s.len() ==> lex_le(s[i]@, s[j]@)
}

/// Order the discovered units for reproducible output: the same names,
/// sorted lexicographically.
pub fn crates_list(names: Vec<String>) -> (r: Vec<String>)
    requires
        names@.len() > 0,
    ensures
        r@.len() == names@.len(),
        r@.to_multiset() == names@.to_multiset(),
        sorted_lex(r@),
{
    let mut work = names;
    let mut r: Vec<String> = Vec::new();
    proof {
        broadcast use vstd::seq_lib::group_to_multiset_ensures;
        broadcast use vstd::multiset::group_multiset_axioms;

    }
    while work.len() > 0
        invariant
            r@.len() + work@.len() == names@.len(),
            r@.to_multiset().add(work@.to_multiset()) == names@.to_multiset(),
            sorted_lex(r@),
            forall|i: int, j: int|
                0 <= i < r@.len() && 0 <= j < work@.len() ==> lex_le(
                    #[trigger] r@[i]@,
                    #[trigger] work@[j]@,
                ),
        decreases work@.len(),
    {
        proof {
            lemma_lex_le_total(work@[0]@, work@[0]@);
        }
        let mut m: usize = 0;
        let mut k: usize = 1;
        while k < work.len()
            invariant
                work@.len() > 0,
                m < work@.len(),
                k <= work@.len(),
                forall|j: int| 0 <= j < k ==> lex_le(work@[m as int]@, #[trigger] work@[j]@),
            decreases work@.len() - k,
        {
            if !str_le(work[m].as_str(), work[k].as_str()) {
                proof {
                    lemma_lex_le_total(work@[m as int]@, work@[k as int]@);
                    assert forall|j: int| 0 <= j < k implies lex_le(
                        work@[k as int]@,
                        #[trigger] work@[j]@,
                    ) by {
                        lemma_lex_le_trans(work@[k as int]@, work@[m as int]@, work@[j]@);
                    }
                    lemma_lex_le_total(work@[k as int]@, work@[k as int]@);
                }
                m = k;
            }
            k += 1;
        }
        let ghost prev_work = work@;
        let ghost prev_r = r@;
        let x = work.remove(m);
        r.push(x);
        proof {
            broadcast use vstd::seq_lib::group_to_multiset_ensures;
            broadcast use vstd::multiset::group_multiset_axioms;

            prev_work.remove_ensures(m as int);
            assert(x == prev_work[m as int]);
            assert(prev_work.contains(x));
            assert(prev_work.to_multiset().count(x) > 0);
            assert(r@ == prev_r.push(x));
            assert(r@.to_multiset() =~= prev_r.to_multiset().insert(x));
            assert(work@.to_multiset() =~= prev_work.to_multiset().remove(x));
            assert(r@.to_multiset().add(work@.to_multiset()) =~= prev_r.to_multiset().add(
                prev_work.to_multiset(),
            ));
            assert forall|i: int, j: int|
                0 <= i < r@.len() && 0 <= j < work@.len() implies lex_le(
                #[trigger] r@[i]@,
                #[trigger] work@[j]@,
            ) by {
                if i < prev_r.len() {
                    if j < m {
                        assert(work@[j] == prev_work[j]);
                    } else {
                        assert(work@[j] == prev_work[j + 1]);
                    }
                } else {
                    assert(r@[i] == x);
                    if j < m {
                        assert(work@[j] == prev_work[j]);
                        assert(lex_le(prev_work[m as int]@, prev_work[j]@));
                    } else {
                        assert(work@[j] == prev_work[j + 1]);
                        assert(lex_le(prev_work[m as int]@, prev_work[j + 1]@));
                    }
                }
            }
            assert forall|i: int, j: int| 0 <= i <= j < r@.len() implies lex_le(
                r@[i]@,
                r@[j]@,
            ) by {
                if j < prev_r.len() {
                    assert(lex_le(prev_r[i]@, prev_r[j]@));
                } else if i < prev_r.len() {
                    assert(lex_le(prev_r[i]@, prev_work[m as int]@));
                } else {
                    assert(r@[i] == x);
                    lemma_lex_le_total(x@, x@);
                }
            }
        }
    }
    proof {
        broadcast use vstd::seq_lib::group_to_multiset_ensures;
        broadcast use vstd::multiset::group_multiset_axioms;

        assert(work@.to_multiset() =~= Multiset::<String>::empty());
        assert(r@.to_multiset() =~= names@.to_multiset());
    }
    r
}

/// The test step for one unit: a `cargo test` invocation against the
/// unit's manifest, with the fixed timeout.
pub open spec fn is_cargo_test_step(s: Step, c: Seq<char>) -> bool {
    s matches Step::CargoTest { name, args, timeout_minutes }
        && name@ == "cargo test "@ + c
        && args@ == "--manifest-path="@ + c + "/Cargo.toml"@
        && timeout_minutes == Some(5u64)
}

/// The steps of one matrix job: the three fixed setup steps in order, then
/// one test step per kept unit, in the units' order.
pub open spec fn steps_ok(s: Seq<Step>, channel: RustToolchain, crates: Seq<String>) -> bool {
    let k = kept_crates(crates);
    &&& s.len() == 3 + k.len()
    &&& s[0] is CargoCache
    &&& s[1] is CheckoutSources
    &&& (s[2] matches Step::RustInstallToolchain { channel: ch } && ch == channel)
    &&& forall|i: int| 0 <= i < k.len() ==> is_cargo_test_step(#[trigger] s[3 + i], k[i]@)
}

/// Build the steps of one matrix job: cache restore, source checkout and
/// toolchain install, then one test step per unit that is not the template
/// directory.
pub fn steps(os: Os, channel: RustToolchain, crates: &Vec<String>) -> (r: Vec<Step>)
    ensures
        steps_ok(r@, channel, crates@),
{
    let mut r: Vec<Step> = Vec::new();
    r.push(Step::CargoCache);
    r.push(Step::CheckoutSources);
    r.push(Step::RustInstallToolchain { channel });
    let mut i: usize = 0;
    while i < crates.len()
        invariant
            i <= crates@.len(),
            r@.len() == 3 + kept_crates(crates@.take(i as int)).len(),
            r@[0] is CargoCache,
            r@[1] is CheckoutSources,
            (r@[2] matches Step::RustInstallToolchain { channel: ch } && ch == channel),
            forall|j: int|
                0 <= j < kept_crates(crates@.take(i as int)).len()
                    ==> is_cargo_test_step(
                    #[trigger] r@[3 + j],
                    kept_crates(crates@.take(i as int))[j]@,
                ),
        decreases crates@.len() - i,
    {
        let c: &String = &crates[i];
        proof {
            assert(crates@.take(i as int + 1) =~= crates@.take(i as int).push(crates@[i as int]));
            lemma_kept_crates_push(crates@.take(i as int), crates@[i as int]);
        }
        if !str_eq(c.as_str(), "protoc-bin-vendored-arch-template") {
            let mut name = "cargo test ".to_owned();
            name.append(c.as_str());
            let mut args = "--manifest-path=".to_owned();
            args.append(c.as_str());
            args.append("/Cargo.toml");
            r.push(Step::CargoTest { name, args, timeout_minutes: Some(5) });
        }
        i += 1;
    }
    proof {
        assert(crates@.take(i as int) =~= crates@);
    }
    r
}

/// One matrix job as a whole: identifier, display name, runner, the
/// backtrace environment entry, and the steps for its channel.
pub open spec fn matrix_job_ok(j: Job, os: Os, channel: RustToolchain, crates: Seq<String>) -> bool {
    &&& j.id@ == os.spec_name() + "-"@ + channel.spec_name()
    &&& j.name@ == os.spec_name() + " "@ + channel.spec_name()
    &&& j.runs_on == os.spec_ghwf()
    &&& j.env@.len() == 1
    &&& j.env@[0].0@ == "RUST_BACKTRACE"@
    &&& j.env@[0].1@ == "1"@
    &&& steps_ok(j.steps@, channel, crates)
}

/// Build one matrix job for an operating system and a channel.
pub fn matrix_job(os: Os, channel: RustToolchain, crates: &Vec<String>) -> (j: Job)
    ensures
        matrix_job_ok(j, os, channel, crates@),
{
    let mut id = os.name().to_owned();
    id.append("-");
    id.append(channel.name());
    let mut name = os.name().to_owned();
    name.append(" ");
    name.append(channel.name());
    let mut env: Vec<(String, String)> = Vec::new();
    env.push(("RUST_BACKTRACE".to_owned(), "1".to_owned()));
    Job { id, name, runs_on: os.ghwf(), env, steps: steps(os, channel, crates) }
}

/// The fixed documentation job: runs on the Linux runner with the stable
/// channel and ends in a `cargo doc` step.
pub open spec fn doc_job_ok(j: Job) -> bool {
    &&& j.id@ == "cargo-doc"@
    &&& j.name@ == "cargo doc"@
    &&& j.runs_on == Env::UbuntuLatest
    &&& j.env@.len() == 0
    &&& j.steps@.len() == 4
    &&& j.steps@[0] is CargoCache
    &&& j.steps@[1] is CheckoutSources
    &&& (j.steps@[2] matches Step::RustInstallToolchain { channel } && channel
        == RustToolchain::Stable)
    &&& (j.steps@[3] matches Step::CargoDoc { name, args } && name@ == "cargo doc"@ && args@
        == ""@)
}

/// Build the fixed documentation job.
pub fn cargo_doc_job() -> (j: Job)
    ensures
        doc_job_ok(j),
{
    let mut steps: Vec<Step> = Vec::new();
    steps.push(Step::CargoCache);
    steps.push(Step::CheckoutSources);
    steps.push(Step::RustInstallToolchain { channel: RustToolchain::Stable });
    steps.push(Step::CargoDoc { name: "cargo doc".to_owned(), args: "".to_owned() });
    Job {
        id: "cargo-doc".to_owned(),
        name: "cargo doc".to_owned(),
        runs_on: Env::UbuntuLatest,
        env: Vec::new(),
        steps,
    }
}

/// Build the whole workflow: for each channel and operating system of the
/// fixed cross product one matrix job, with the beta channel pruned on the
/// expensive macOS and Windows runners; then the documentation job and the
/// two fixed check jobs, appended unconditionally in that order.
pub fn jobs(crates: &Vec<String>) -> (r: Vec<WorkflowJob>)
    ensures
        r@.len() == 10,
        (r@[0] matches WorkflowJob::Generated(j) && matrix_job_ok(
            j,
            Os::Linux,
            RustToolchain::Stable,
            crates@,
        )),
        (r@[1] matches WorkflowJob::Generated(j) && matrix_job_ok(
            j,
            Os::Macos,
            RustToolchain::Stable,
            crates@,
        )),
        (r@[2] matches WorkflowJob::Generated(j) && matrix_job_ok(
            j,
            Os::Windows,
            RustToolchain::Stable,
            crates@,
        )),
        (r@[3] matches WorkflowJob::Generated(j) && matrix_job_ok(
            j,
            Os::Linux,
            RustToolchain::Beta,
            crates@,
        )),
        (r@[4] matches WorkflowJob::Generated(j) && matrix_job_ok(
            j,
            Os::Linux,
            RustToolchain::Nightly,
            crates@,
        )),
        (r@[5] matches WorkflowJob::Generated(j) && matrix_job_ok(
            j,
            Os::Macos,
            RustToolchain::Nightly,
            crates@,
        )),
        (r@[6] matches WorkflowJob::Generated(j) && matrix_job_ok(
            j,
            Os::Windows,
            RustToolchain::Nightly,
            crates@,
        )),
        (r@[7] matches WorkflowJob::Generated(j) && doc_job_ok(j)),
        r@[8] is RustfmtCheck,
        r@[9] is MegaLinter,
{
    let mut r: Vec<WorkflowJob> = Vec::new();
    r.push(WorkflowJob::Generated(matrix_job(Os::Linux, RustToolchain::Stable, crates)));
    r.push(WorkflowJob::Generated(matrix_job(Os::Macos, RustToolchain::Stable, crates)));
    r.push(WorkflowJob::Generated(matrix_job(Os::Windows, RustToolchain::Stable, crates)));
    r.push(WorkflowJob::Generated(matrix_job(Os::Linux, RustToolchain::Beta, crates)));
    r.push(WorkflowJob::Generated(matrix_job(Os::Linux, RustToolchain::Nightly, crates)));
    r.push(WorkflowJob::Generated(matrix_job(Os::Macos, RustToolchain::Nightly, crates)));
    r.push(WorkflowJob::Generated(matrix_job(Os::Windows, RustToolchain::Nightly, crates)));
    r.push(WorkflowJob::Generated(cargo_doc_job()));
    r.push(WorkflowJob::RustfmtCheck);
    r.push(WorkflowJob::MegaLinter);
    r
}

} // verus!
