use protoc_bin_vendored::ci::cargo_doc_job;
use protoc_bin_vendored::ci::crates_list;
use protoc_bin_vendored::ci::jobs;
use protoc_bin_vendored::ci::steps;
use protoc_bin_vendored::ci::Env;
use protoc_bin_vendored::ci::Job;
use protoc_bin_vendored::ci::Os;
use protoc_bin_vendored::ci::RustToolchain;
use protoc_bin_vendored::ci::Step;
use protoc_bin_vendored::ci::WorkflowJob;

fn names(v: &[&str]) -> Vec<String> {
    v.iter().map(|s| s.to_string()).collect()
}

#[test]
fn crates_list_sorts_lexicographically() {
    let r = crates_list(names(&[
        "protoc-bin-vendored",
        "ci-gen",
        "protoc-bin-vendored-win32",
        "protoc-bin-vendored-linux-x86_64",
    ]));
    assert_eq!(
        r,
        names(&[
            "ci-gen",
            "protoc-bin-vendored",
            "protoc-bin-vendored-linux-x86_64",
            "protoc-bin-vendored-win32",
        ])
    );
}

#[test]
fn crates_list_keeps_duplicates() {
    let r = crates_list(names(&["b", "a", "b", "a"]));
    assert_eq!(r, names(&["a", "a", "b", "b"]));
}

fn expect_cargo_test(step: &Step, unit: &str) {
    match step {
        Step::CargoTest {
            name,
            args,
            timeout_minutes,
        } => {
            assert_eq!(name, &format!("cargo test {}", unit));
            assert_eq!(args, &format!("--manifest-path={}/Cargo.toml", unit));
            assert_eq!(*timeout_minutes, Some(5));
        }
        other => panic!("expected a cargo test step, got {:?}", other),
    }
}

#[test]
fn steps_have_setup_then_tests() {
    let crates = names(&["ci-gen", "protoc-bin-vendored"]);
    let r = steps(Os::Linux, RustToolchain::Nightly, &crates);
    assert_eq!(r.len(), 5);
    assert!(matches!(r[0], Step::CargoCache));
    assert!(matches!(r[1], Step::CheckoutSources));
    assert!(matches!(
        r[2],
        Step::RustInstallToolchain {
            channel: RustToolchain::Nightly
        }
    ));
    expect_cargo_test(&r[3], "ci-gen");
    expect_cargo_test(&r[4], "protoc-bin-vendored");
}

#[test]
fn steps_skip_the_template_directory() {
    let crates = names(&[
        "ci-gen",
        "protoc-bin-vendored-arch-template",
        "protoc-bin-vendored",
    ]);
    let r = steps(Os::Macos, RustToolchain::Stable, &crates);
    assert_eq!(r.len(), 5);
    expect_cargo_test(&r[3], "ci-gen");
    expect_cargo_test(&r[4], "protoc-bin-vendored");
}

fn expect_generated(entry: &WorkflowJob) -> &Job {
    match entry {
        WorkflowJob::Generated(j) => j,
        other => panic!("expected a generated job, got {:?}", other),
    }
}

#[test]
fn jobs_build_the_pruned_matrix() {
    let crates = names(&["ci-gen", "protoc-bin-vendored-arch-template", "x"]);
    let r = jobs(&crates);
    assert_eq!(r.len(), 10);
    let expected = [
        ("linux-stable", "linux stable", Env::UbuntuLatest),
        ("macos-stable", "macos stable", Env::MacosLatest),
        ("windows-stable", "windows stable", Env::WindowsLatest),
        ("linux-beta", "linux beta", Env::UbuntuLatest),
        ("linux-nightly", "linux nightly", Env::UbuntuLatest),
        ("macos-nightly", "macos nightly", Env::MacosLatest),
        ("windows-nightly", "windows nightly", Env::WindowsLatest),
    ];
    for (i, (id, name, runs_on)) in expected.iter().enumerate() {
        let j = expect_generated(&r[i]);
        assert_eq!(&j.id, id);
        assert_eq!(&j.name, name);
        assert_eq!(j.runs_on, *runs_on);
        assert_eq!(
            j.env,
            vec![("RUST_BACKTRACE".to_string(), "1".to_string())]
        );
        // two units survive the template pruning
        assert_eq!(j.steps.len(), 5);
        expect_cargo_test(&j.steps[3], "ci-gen");
        expect_cargo_test(&j.steps[4], "x");
    }
    let doc = expect_generated(&r[7]);
    assert_eq!(doc.id, "cargo-doc");
    assert!(matches!(r[8], WorkflowJob::RustfmtCheck));
    assert!(matches!(r[9], WorkflowJob::MegaLinter));
}

#[test]
fn doc_job_is_fixed() {
    let j = cargo_doc_job();
    assert_eq!(j.id, "cargo-doc");
    assert_eq!(j.name, "cargo doc");
    assert_eq!(j.runs_on, Env::UbuntuLatest);
    assert!(j.env.is_empty());
    assert_eq!(j.steps.len(), 4);
    assert!(matches!(j.steps[0], Step::CargoCache));
    assert!(matches!(j.steps[1], Step::CheckoutSources));
    assert!(matches!(
        j.steps[2],
        Step::RustInstallToolchain {
            channel: RustToolchain::Stable
        }
    ));
    match &j.steps[3] {
        Step::CargoDoc { name, args } => {
            assert_eq!(name, "cargo doc");
            assert_eq!(args, "");
        }
        other => panic!("expected a cargo doc step, got {:?}", other),
    }
}
