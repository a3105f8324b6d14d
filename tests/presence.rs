use medic_rust::presence::{
    crates_message, crates_remedy, find_missing_crates, find_missing_targets, join_wrapped,
    targets_message, targets_remedy,
};

fn strings(v: &[&str]) -> Vec<String> {
    v.iter().map(|s| s.to_string()).collect()
}

#[test]
fn find_missing_crates_returns_empty_when_all_installed() {
    let stdout =
        "cargo-audit v0.18.1:\n    cargo-audit\ncargo-outdated v0.13.1:\n    cargo-outdated\n";
    let names = vec!["cargo-audit".to_string(), "cargo-outdated".to_string()];
    assert_eq!(find_missing_crates(stdout, &names), Some(Vec::<String>::new()));
}

#[test]
fn find_missing_crates_returns_missing_crates() {
    let stdout = "cargo-audit v0.18.1:\n    cargo-audit\n";
    let names = vec!["cargo-audit".to_string(), "cargo-outdated".to_string()];
    assert_eq!(find_missing_crates(stdout, &names), Some(vec!["cargo-outdated".to_string()]));
}

#[test]
fn find_missing_crates_handles_crate_with_hyphen() {
    let stdout = "my-crate v1.0.0:\n    my-crate\n";
    let names = vec!["my-crate".to_string()];
    assert_eq!(find_missing_crates(stdout, &names), Some(Vec::<String>::new()));
}

#[test]
fn find_missing_targets_returns_empty_when_all_installed() {
    let stdout = "aarch64-apple-darwin (installed)\nx86_64-apple-darwin (installed)\n";
    let targets = vec!["aarch64-apple-darwin".to_string()];
    assert_eq!(find_missing_targets(stdout, &targets), Some(Vec::<String>::new()));
}

#[test]
fn find_missing_targets_returns_missing_targets() {
    let stdout = "aarch64-apple-darwin (installed)\nx86_64-apple-darwin\n";
    let targets = vec![
        "aarch64-apple-darwin".to_string(),
        "x86_64-apple-darwin".to_string(),
    ];
    assert_eq!(
        find_missing_targets(stdout, &targets),
        Some(vec!["x86_64-apple-darwin".to_string()])
    );
}

#[test]
fn find_missing_crates_not_fooled_by_prefix_match() {
    let stdout = "cargo-audit-extended v1.0.0:\n    cargo-audit-extended\n";
    let names = vec!["cargo-audit".to_string()];
    assert_eq!(find_missing_crates(stdout, &names), Some(vec!["cargo-audit".to_string()]));
}

#[test]
fn missing_keep_order_and_duplicates() {
    let stdout = "b v1.0.0:\n    b\nd v2.0.0:\n    d\n";
    let names = strings(&["c", "b", "a", "d", "c"]);
    assert_eq!(find_missing_crates(stdout, &names), Some(strings(&["c", "a", "c"])));
}

#[test]
fn present_and_absent_sets_split_exactly() {
    let stdout = "x v1:\ny v2:\n";
    let names = strings(&["p", "x", "q", "y"]);
    assert_eq!(find_missing_crates(stdout, &names), Some(strings(&["p", "q"])));
}

#[test]
fn matcher_is_idempotent() {
    let stdout = "a v1:\n    a\n";
    let names = strings(&["a", "b", "c"]);
    let first = find_missing_crates(stdout, &names).unwrap();
    assert_eq!(find_missing_crates(stdout, &names).unwrap(), first);
    assert_eq!(find_missing_crates(stdout, &first).unwrap(), first);
}

#[test]
fn names_are_literal_not_patterns() {
    let stdout = "abc v1:\n";
    assert_eq!(find_missing_crates(stdout, &strings(&["a.c"])), Some(strings(&["a.c"])));
    assert_eq!(find_missing_crates("a.c v1:\n", &strings(&["a.c"])), Some(vec![]));
}

#[test]
fn name_must_start_a_line() {
    let stdout = "  serde v1:\nxserde v1:\n";
    assert_eq!(find_missing_crates(stdout, &strings(&["serde"])), Some(strings(&["serde"])));
}

#[test]
fn target_needs_installed_marker() {
    let stdout = "wasm32-unknown-unknown\nwasm32-wasi (installed)\n";
    let targets = strings(&["wasm32-unknown-unknown", "wasm32-wasi"]);
    assert_eq!(
        find_missing_targets(stdout, &targets),
        Some(strings(&["wasm32-unknown-unknown"]))
    );
}

#[test]
fn empty_inputs() {
    assert_eq!(find_missing_crates("", &[]), Some(vec![]));
    assert_eq!(find_missing_crates("", &strings(&["a"])), Some(strings(&["a"])));
}

#[test]
fn remedy_for_two_crates() {
    assert_eq!(crates_remedy(&strings(&["a", "b"])), "cargo install --locked a b");
}

#[test]
fn remedy_for_targets() {
    assert_eq!(
        targets_remedy(&strings(&["x86_64-apple-darwin"])),
        "rustup target install x86_64-apple-darwin"
    );
}

#[test]
fn messages_quote_each_name() {
    assert_eq!(
        crates_message(&strings(&["a", "b"])),
        "Rust crates `a`, `b` do not appear to be installed"
    );
    assert_eq!(
        targets_message(&strings(&["t"])),
        "Rust target `t` does not appear to be installed"
    );
}

#[test]
fn join_wraps_and_separates() {
    assert_eq!(join_wrapped(&strings(&["x", "y", "z"]), "+", "'"), "'x'+'y'+'z'");
    assert_eq!(join_wrapped(&[], ", ", "`"), "");
}

#[test]
fn regex_metacharacters_are_plain_text() {
    let stdout = "a+b v1:\n(x)|y v2:\n";
    let names = strings(&["a+b", "(x)|y", "a*", "[z]"]);
    assert_eq!(find_missing_crates(stdout, &names), Some(strings(&["a*", "[z]"])));
}

#[test]
fn longest_searchable_name_is_searched() {
    let name = "n".repeat(4094);
    let stdout = format!("{name} v1:\n");
    assert_eq!(find_missing_crates(&stdout, &[name.clone()]), Some(vec![]));
    assert_eq!(find_missing_targets("", &[name.clone()]), Some(vec![name]));
}
