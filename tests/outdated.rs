use medic_rust::check_result::ProcessOutcome;
use medic_rust::outdated::{
    cargo_outdated_install, check_outdated, install_announcement, install_progress_line, maybe_install_cargo_outdated,
    outdated_invocation, outdated_line, outdated_output, split_dependency_name, Dependency,
    DependencyName, OutdatedInfo,
};
use medic_rust::outdated_cli::CliArgs;

fn s(x: &str) -> String {
    x.to_string()
}

fn dep(name: &str, project: &str, latest: &str) -> Dependency {
    Dependency { latest: s(latest), name: s(name), project: s(project) }
}

#[test]
fn transitive_name_is_split() {
    assert_eq!(
        split_dependency_name("parentA->childB"),
        Some(DependencyName { parent: Some(s("parentA")), name: s("childB") })
    );
}

#[test]
fn plain_name_has_no_parent() {
    assert_eq!(
        split_dependency_name("onlyname"),
        Some(DependencyName { parent: None, name: s("onlyname") })
    );
}

#[test]
fn split_at_last_arrow() {
    assert_eq!(
        split_dependency_name("a->b->c"),
        Some(DependencyName { parent: Some(s("a->b")), name: s("c") })
    );
    assert_eq!(
        split_dependency_name("x->y->"),
        Some(DependencyName { parent: Some(s("x")), name: s("y->") })
    );
    assert_eq!(
        split_dependency_name("->y"),
        Some(DependencyName { parent: Some(s("")), name: s("y") })
    );
}

#[test]
fn unsplittable_names() {
    assert_eq!(split_dependency_name(""), None);
    assert_eq!(split_dependency_name("a\nb"), None);
}

#[test]
fn status_lines() {
    assert_eq!(
        outdated_line(&dep("serde", "1.0.0", "1.0.1")),
        Some(s("::outdated::name=serde::version=1.0.0::latest=1.0.1"))
    );
    assert_eq!(
        outdated_line(&dep("tokio->mio", "0.8.0", "1.0.0")),
        Some(s("::outdated::name=mio::version=0.8.0::latest=1.0.0::parent=tokio"))
    );
}

#[test]
fn report_over_all_lines_with_one_remedy() {
    let infos = vec![
        OutdatedInfo { dependencies: vec![dep("a", "1", "2")] },
        OutdatedInfo { dependencies: vec![] },
        OutdatedInfo { dependencies: vec![dep("p->b", "3", "4")] },
    ];
    assert_eq!(
        check_outdated(&infos),
        Ok(vec![
            s("::outdated::name=a::version=1::latest=2"),
            s("::outdated::name=b::version=3::latest=4::parent=p"),
            s("::remedy::cargo update --verbose"),
        ])
    );
}

#[test]
fn nothing_outdated_prints_nothing() {
    assert_eq!(check_outdated(&[OutdatedInfo { dependencies: vec![] }]), Ok(vec![]));
    assert_eq!(check_outdated(&[]), Ok(vec![]));
}

#[test]
fn bad_name_fails_whole_report() {
    let infos = vec![OutdatedInfo { dependencies: vec![dep("a", "1", "2"), dep("", "1", "2")] }];
    assert_eq!(
        check_outdated(&infos),
        Err(s("::failure::Unable to read the dependency name "))
    );
}

#[test]
fn install_reports() {
    let ok = maybe_install_cargo_outdated(&ProcessOutcome::Exited {
        success: true,
        stdout: s(""),
        stderr: s(""),
    });
    assert_eq!(ok.status, "::success::cargo-outdated-install::");
    assert_eq!(ok.error, None);
    let failed = maybe_install_cargo_outdated(&ProcessOutcome::Exited {
        success: false,
        stdout: s(""),
        stderr: s(""),
    });
    assert_eq!(failed.status, "::failure::cargo-outdated-install::");
    assert_eq!(failed.error, Some(s("Unable to install cargo outdated")));
    let unstarted = maybe_install_cargo_outdated(&ProcessOutcome::LaunchFailed { reason: s("x") });
    assert_eq!(unstarted.error, Some(s("Unable to install cargo outdated")));
}

#[test]
fn status_protocol_lines() {
    assert_eq!(
        install_announcement(),
        "::action::cargo-outdated-install::Installing cargo-outdated"
    );
    assert_eq!(install_progress_line("Compiling x"), "::info::cargo-outdated-install::Compiling x");
}

#[test]
fn outdated_run_outcomes() {
    let inv = outdated_invocation();
    assert_eq!(inv.program, "cargo");
    assert_eq!(inv.args, vec![s("outdated"), s("--format=json")]);
    assert_eq!(
        outdated_output(&ProcessOutcome::Exited { success: true, stdout: s("{}"), stderr: s("") }),
        Ok(s("{}"))
    );
    assert_eq!(
        outdated_output(&ProcessOutcome::LaunchFailed { reason: s("") }),
        Err(s("::failure::Unable to get outdated"))
    );
    let _ = CliArgs::new();
}

#[test]
fn install_only_when_absent() {
    assert_eq!(cargo_outdated_install(true), None);
    let inv = cargo_outdated_install(false).unwrap();
    assert_eq!(inv.program, "cargo");
    assert_eq!(inv.args, vec![s("install"), s("cargo-outdated"), s("--color=always")]);
}
