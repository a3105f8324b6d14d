use vstd::prelude::*;
use vstd::string::{StrSliceExecFns, StringExecFns};

use crate::check_result::{Invocation, ProcessOutcome};
use crate::presence::texts;

verus! {

/// One dependency that has a newer release.
#[derive(Debug, Clone, PartialEq, Eq)]
pub struct Dependency {
    /// The newest release.
    pub latest: String,
    /// The dependency's name; `parent->child` for one reached through `parent`.
    pub name: String,
    /// The release that the project uses.
    pub project: String,
}

/// What `cargo outdated --format=json` reports on one line.
#[derive(Debug, Clone, PartialEq, Eq)]
pub struct OutdatedInfo {
    pub dependencies: Vec<Dependency>,
}

/// A dependency's name taken apart: the leaf, and the path to it when the
/// dependency is reached through another.
#[derive(Debug, Clone, PartialEq, Eq)]
pub struct DependencyName {
    pub parent: Option<String>,
    pub name: String,
}

/// An arrow `->` stands at `k` and a non-empty leaf follows it.
pub open spec fn arrow_at(s: Seq<char>, k: int) -> bool {
    0 <= k && k + 2 < s.len() && s[k] == '-' && s[k + 1] == '>'
}

/// The last arrow at or before `k`, or -1.
pub open spec fn last_arrow_from(s: Seq<char>, k: int) -> int
    decreases k + 1,
{
    if k < 0 {
        -1
    } else if arrow_at(s, k) {
        k
    } else {
        last_arrow_from(s, k - 1)
    }
}

/// The last arrow of `s` that a non-empty leaf follows, or -1.
pub open spec fn last_arrow(s: Seq<char>) -> int {
    last_arrow_from(s, s.len() - 3)
}

/// The names that can be taken apart: not empty, on one line.
pub open spec fn splittable(s: Seq<char>) -> bool {
    s.len() > 0 && !s.contains('\n')
}

/// The part of the name before its last arrow, if any.
pub open spec fn parent_of(s: Seq<char>) -> Option<Seq<char>> {
    if last_arrow(s) >= 0 {
        Some(s.subrange(0, last_arrow(s)))
    } else {
        None
    }
}

/// The part of the name after its last arrow, or the whole name.
pub open spec fn leaf_of(s: Seq<char>) -> Seq<char> {
    if last_arrow(s) >= 0 {
        s.subrange(last_arrow(s) + 2, s.len() as int)
    } else {
        s
    }
}

/// Takes apart a dependency's name at its last `->` that a non-empty leaf
/// follows; `None` for an empty name or one that spans lines.
pub fn split_dependency_name(s: &str) -> (r: Option<DependencyName>)
    ensures
        r is Some <==> splittable(s@),
        r matches Some(d) ==> {
            &&& d.name@ == leaf_of(s@)
            &&& match d.parent {
                Some(p) => parent_of(s@) == Some(p@),
                None => parent_of(s@) is None,
            }
        },
{
    let n = s.unicode_len();
    if n == 0 {
        return None;
    }
    let mut i: usize = 0;
    while i < n
        invariant
            n == s@.len(),
            i <= n,
            forall|j: int| 0 <= j < i ==> s@[j] != '\n',
        decreases n - i,
    {
        if s.get_char(i) == '\n' {
            return None;
        }
        i = i + 1;
    }
    match last_arrow_index(s, n) {
        Some(p) => {
            let parent = String::from_str(s.substring_char(0, p));
            let name = String::from_str(s.substring_char(p + 2, n));
            Some(DependencyName { parent: Some(parent), name })
        },
        None => Some(DependencyName { parent: None, name: String::from_str(s) }),
    }
}

/// Where the last arrow of `s` stands, when there is one.
fn last_arrow_index(s: &str, n: usize) -> (r: Option<usize>)
    requires
        n == s@.len(),
    ensures
        r matches Some(p) ==> p == last_arrow(s@) && p + 2 < n,
        r is None ==> last_arrow(s@) == -1,
{
    let mut k: usize = if n >= 3 {
        n - 2
    } else {
        0
    };
    while k > 0
        invariant
            n == s@.len(),
            k + 2 <= n || k == 0,
            last_arrow(s@) == last_arrow_from(s@, k - 1),
        decreases k,
    {
        let p = k - 1;
        if s.get_char(p) == '-' && s.get_char(p + 1) == '>' {
            return Some(p);
        }
        k = p;
    }
    None
}

/// The status line for one outdated dependency whose name can be taken apart.
pub open spec fn outdated_line_text(d: Dependency) -> Seq<char> {
    "::outdated::name="@ + leaf_of(d.name@) + "::version="@ + d.project@ + "::latest="@ + d.latest@
        + match parent_of(d.name@) {
        Some(p) => "::parent="@ + p,
        None => Seq::empty(),
    }
}

/// The remedy line that follows the report of any outdated dependency.
pub open spec fn update_remedy_text() -> Seq<char> {
    "::remedy::cargo update --verbose"@
}

/// The failure reported for a dependency's name that cannot be taken apart.
pub open spec fn unreadable_name_text(name: Seq<char>) -> Seq<char> {
    "::failure::Unable to read the dependency name "@ + name
}

/// The dependencies of all the reports, in order.
pub open spec fn dependencies_of(infos: Seq<OutdatedInfo>) -> Seq<Dependency>
    decreases infos.len(),
{
    if infos.len() == 0 {
        Seq::empty()
    } else {
        dependencies_of(infos.drop_last()) + infos.last().dependencies@
    }
}

/// The status lines for a sequence of dependencies.
pub open spec fn outdated_lines(deps: Seq<Dependency>) -> Seq<Seq<char>> {
    deps.map_values(|d: Dependency| outdated_line_text(d))
}

/// Every dependency's name can be taken apart.
pub open spec fn all_splittable(deps: Seq<Dependency>) -> bool {
    forall|i: int| 0 <= i < deps.len() ==> splittable(#[trigger] deps[i].name@)
}

/// The status line for one dependency, or `None` when its name cannot be
/// taken apart.
pub fn outdated_line(d: &Dependency) -> (r: Option<String>)
    ensures
        r is Some <==> splittable(d.name@),
        r matches Some(l) ==> l@ == outdated_line_text(*d),
{
    match split_dependency_name(d.name.as_str()) {
        None => None,
        Some(parts) => {
            let mut line = String::from_str("::outdated::name=");
            line.append(parts.name.as_str());
            line.append("::version=");
            line.append(d.project.as_str());
            line.append("::latest=");
            line.append(d.latest.as_str());
            match &parts.parent {
                Some(p) => {
                    line.append("::parent=");
                    line.append(p.as_str());
                },
                None => {
                    assert(line@ + Seq::<char>::empty() == line@);
                },
            }
            Some(line)
        },
    }
}

/// The lines to print for the reports of `cargo outdated`: one status line
/// per dependency, in order, then one remedy line if there was any. The
/// first dependency whose name cannot be taken apart fails the whole report.
pub fn check_outdated(infos: &[OutdatedInfo]) -> (r: Result<Vec<String>, String>)
    ensures
        r is Ok <==> all_splittable(dependencies_of(infos@)),
        r matches Ok(lines) ==> {
            let deps = dependencies_of(infos@);
            &&& deps.len() == 0 ==> lines@.len() == 0
            &&& deps.len() > 0 ==> texts(lines@) == outdated_lines(deps).push(update_remedy_text())
        },
        r matches Err(e) ==> exists|i: int|
            0 <= i < dependencies_of(infos@).len() && !splittable(
                #[trigger] dependencies_of(infos@)[i].name@,
            ) && e@ == unreadable_name_text(dependencies_of(infos@)[i].name@),
{
    let mut lines: Vec<String> = Vec::new();
    let mut i: usize = 0;
    while i < infos.len()
        invariant
            i <= infos@.len(),
            texts(lines@) == outdated_lines(dependencies_of(infos@.take(i as int))),
            all_splittable(dependencies_of(infos@.take(i as int))),
        decreases infos@.len() - i,
    {
        let deps = &infos[i].dependencies;
        let ghost done = dependencies_of(infos@.take(i as int));
        proof {
            assert(infos@.take(i as int + 1).drop_last() == infos@.take(i as int));
            assert(infos@.take(i as int + 1).last() == infos@[i as int]);
        }
        let mut j: usize = 0;
        while j < deps.len()
            invariant
                j <= deps@.len(),
                i < infos@.len(),
                deps@ == infos@[i as int].dependencies@,
                done == dependencies_of(infos@.take(i as int)),
                texts(lines@) == outdated_lines(done + deps@.take(j as int)),
                all_splittable(done + deps@.take(j as int)),
            decreases deps@.len() - j,
        {
            let ghost before = lines@;
            let ghost seen = done + deps@.take(j as int);
            assert(done + deps@.take(j as int + 1) == seen.push(deps@[j as int]));
            match outdated_line(&deps[j]) {
                None => {
                    let mut e = String::from_str("::failure::Unable to read the dependency name ");
                    e.append(deps[j].name.as_str());
                    proof {
                        lemma_prefix_of_all(infos@, i as int);
                        let k = done.len() + j;
                        assert(dependencies_of(infos@)[k as int] == deps@[j as int]);
                    }
                    return Err(e);
                },
                Some(l) => {
                    lines.push(l);
                    assert(texts(lines@) == texts(before).push(l@));
                },
            }
            j = j + 1;
        }
        assert(deps@.take(deps@.len() as int) == deps@);
        i = i + 1;
    }
    assert(infos@.take(infos@.len() as int) == infos@);
    let ghost deps = dependencies_of(infos@);
    if lines.len() > 0 {
        let ghost before = lines@;
        lines.push(String::from_str("::remedy::cargo update --verbose"));
        assert(texts(lines@) == texts(before).push(update_remedy_text()));
    }
    Ok(lines)
}

/// The dependencies of the first reports come first among those of all.
proof fn lemma_prefix_of_all(infos: Seq<OutdatedInfo>, i: int)
    requires
        0 <= i < infos.len(),
    ensures
        dependencies_of(infos).len() >= dependencies_of(infos.take(i)).len() + infos[i].dependencies@.len(),
        forall|k: int|
            0 <= k < infos[i].dependencies@.len() ==> dependencies_of(infos)[dependencies_of(
                infos.take(i),
            ).len() + k] == #[trigger] infos[i].dependencies@[k],
    decreases infos.len(),
{
    if i == infos.len() - 1 {
        assert(infos.drop_last() == infos.take(i));
    } else {
        lemma_prefix_of_all(infos.drop_last(), i);
        assert(infos.drop_last().take(i) == infos.take(i));
        assert(infos.drop_last()[i] == infos[i]);
    }
}

/// The status line announcing that cargo-outdated is being installed.
pub fn install_announcement() -> (r: String)
    ensures
        r@ == "::action::cargo-outdated-install::Installing cargo-outdated"@,
{
    String::from_str("::action::cargo-outdated-install::Installing cargo-outdated")
}

/// The status line that forwards one line of the installer's output.
pub fn install_progress_line(line: &str) -> (r: String)
    ensures
        r@ == "::info::cargo-outdated-install::"@ + line@,
{
    String::from_str("::info::cargo-outdated-install::").concat(line)
}

/// The command that installs cargo-outdated.
pub fn install_cargo_outdated_invocation() -> (r: Invocation)
    ensures
        r.program@ == "cargo"@,
        texts(r.args@) == seq!["install"@, "cargo-outdated"@, "--color=always"@],
{
    let r = Invocation::new("cargo", &["install", "cargo-outdated", "--color=always"]);
    assert(texts(r.args@) =~= seq!["install"@, "cargo-outdated"@, "--color=always"@]);
    r
}

/// The command that reports outdated dependencies, one JSON object per line.
pub fn outdated_invocation() -> (r: Invocation)
    ensures
        r.program@ == "cargo"@,
        texts(r.args@) == seq!["outdated"@, "--format=json"@],
{
    let r = Invocation::new("cargo", &["outdated", "--format=json"]);
    assert(texts(r.args@) =~= seq!["outdated"@, "--format=json"@]);
    r
}

/// The installation to run before the report: none when cargo-outdated is
/// already on the search path, else the command that installs it.
pub fn cargo_outdated_install(found: bool) -> (r: Option<Invocation>)
    ensures
        found ==> r is None,
        !found ==> (r matches Some(inv) && inv.program@ == "cargo"@ && texts(inv.args@) == seq![
            "install"@,
            "cargo-outdated"@,
            "--color=always"@,
        ]),
{
    if found {
        None
    } else {
        Some(install_cargo_outdated_invocation())
    }
}

/// How an installation of cargo-outdated ended: the status line to print,
/// and the error that ends the run, if any.
#[derive(Debug, Clone, PartialEq, Eq)]
pub struct InstallReport {
    pub status: String,
    pub error: Option<String>,
}

/// Judges the installation of cargo-outdated: it succeeded only if the
/// installer ran and exited successfully.
pub fn maybe_install_cargo_outdated(outcome: &ProcessOutcome) -> (r: InstallReport)
    ensures
        (outcome matches ProcessOutcome::Exited { success: true, .. }) ==> {
            &&& r.status@ == "::success::cargo-outdated-install::"@
            &&& r.error is None
        },
        !(outcome matches ProcessOutcome::Exited { success: true, .. }) ==> {
            &&& r.status@ == "::failure::cargo-outdated-install::"@
            &&& r.error matches Some(e) && e@ == "Unable to install cargo outdated"@
        },
{
    match outcome {
        ProcessOutcome::Exited { success: true, .. } => InstallReport {
            status: String::from_str("::success::cargo-outdated-install::"),
            error: None,
        },
        _ => InstallReport {
            status: String::from_str("::failure::cargo-outdated-install::"),
            error: Some(String::from_str("Unable to install cargo outdated")),
        },
    }
}

/// The report of `cargo outdated` to read, or the failure when it could not
/// be started or failed.
pub fn outdated_output(outcome: &ProcessOutcome) -> (r: Result<String, String>)
    ensures
        match *outcome {
            ProcessOutcome::Exited { success: true, stdout, .. } => r matches Ok(s) && s@
                == stdout@,
            _ => r matches Err(e) && e@ == "::failure::Unable to get outdated"@,
        },
{
    match outcome {
        ProcessOutcome::Exited { success: true, stdout, .. } => Ok(stdout.clone()),
        _ => Err(String::from_str("::failure::Unable to get outdated")),
    }
}

} // verus!
