//! The package auditor: identifies the host's package-management family,
//! resolves the family's required package list (one entry depends on the
//! running kernel), decides from query output which packages are missing,
//! and decides whether to install them or fail the stage.
//!
//! Querying and installing are commands the caller runs; this module
//! builds the command text and interprets the output.

use vstd::prelude::*;
use vstd::string::StrSliceExecFns;
use vstd::string::StringExecFns;

use crate::errors::StageError;
use crate::prompt::affirmative;
use crate::text::contains_seq;
use crate::text::contains_sub;
use crate::text::join;
use crate::text::join_with;
use crate::text::str_eq;
use crate::text::trim;
use crate::text::trim_seq;

verus! {

/// A package-management family the auditor knows how to query.
#[derive(Debug, Clone, Copy, PartialEq, Eq, Structural)]
pub enum Family {
    /// apt-based hosts: one metadata query per package.
    Apt,
    /// pacman-based hosts: one batched query for the whole set.
    Pacman,
}

/// Which family a host-identity string names, if any.
pub open spec fn family_of(nodename: Seq<char>) -> Option<Family> {
    if nodename == "ubuntu"@ {
        Some(Family::Apt)
    } else if nodename == "archlinux"@ {
        Some(Family::Pacman)
    } else {
        None
    }
}

/// Identify the host's package-management family from its (already
/// trimmed) identity string.
pub fn detect_family(nodename: &str) -> (r: Option<Family>)
    ensures
        r == family_of(nodename@),
{
    if str_eq(nodename, "ubuntu") {
        Some(Family::Apt)
    } else if str_eq(nodename, "archlinux") {
        Some(Family::Pacman)
    } else {
        None
    }
}

pub open spec fn apt_packages() -> Seq<Seq<char>> {
    seq![
        "linux-tools-common"@,
        "linux-tools-generic"@,
        "ripgrep"@,
        "clang"@,
        "libbpf-dev"@,
    ]
}

pub open spec fn pacman_packages() -> Seq<Seq<char>> {
    seq!["bpf"@, "libbpf"@, "base"@, "base-devel"@, "ripgrep"@, "clang"@]
}

/// The family's fixed required package list, before kernel-specific
/// resolution.
pub open spec fn required_of(f: Family) -> Seq<Seq<char>> {
    match f {
        Family::Apt => apt_packages(),
        Family::Pacman => pacman_packages(),
    }
}

/// The family's fixed required package list.
pub fn required_packages(f: Family) -> (r: Vec<String>)
    ensures
        r.deep_view() == required_of(f),
{
    let mut v: Vec<String> = Vec::new();
    match f {
        Family::Apt => {
            v.push(String::from_str("linux-tools-common"));
            v.push(String::from_str("linux-tools-generic"));
            v.push(String::from_str("ripgrep"));
            v.push(String::from_str("clang"));
            v.push(String::from_str("libbpf-dev"));
        },
        Family::Pacman => {
            v.push(String::from_str("bpf"));
            v.push(String::from_str("libbpf"));
            v.push(String::from_str("base"));
            v.push(String::from_str("base-devel"));
            v.push(String::from_str("ripgrep"));
            v.push(String::from_str("clang"));
        },
    }
    proof {
        assert(v.deep_view() =~= required_of(f));
    }
    v
}

/// The placeholder entry whose real name depends on the running kernel.
pub open spec fn tools_placeholder() -> Seq<char> {
    "linux-tools-generic"@
}

/// A required-list entry with the placeholder rewritten to name the
/// running kernel's tooling package; every other entry is unchanged.
pub open spec fn resolved_name(pkg: Seq<char>, release: Seq<char>) -> Seq<char> {
    if pkg == tools_placeholder() {
        "linux-tools-"@ + trim_seq(release)
    } else {
        pkg
    }
}

/// Rewrite the kernel-version placeholder with the running kernel's
/// release string.
pub fn resolve_package_name(pkg: &str, release: &str) -> (r: String)
    ensures
        r@ == resolved_name(pkg@, release@),
{
    if str_eq(pkg, "linux-tools-generic") {
        let t = trim(release);
        String::from_str("linux-tools-").concat(t)
    } else {
        pkg.to_owned()
    }
}

/// The required list as actually queried: resolved per package for the
/// apt family, taken as-is for the pacman family.
pub open spec fn resolved_list(f: Family, release: Seq<char>) -> Seq<Seq<char>> {
    match f {
        Family::Apt => apt_packages().map_values(|p: Seq<char>| resolved_name(p, release)),
        Family::Pacman => pacman_packages(),
    }
}

/// The required list as actually queried on this host.
pub fn resolved_packages(f: Family, release: &str) -> (r: Vec<String>)
    ensures
        r.deep_view() == resolved_list(f, release@),
{
    let base = required_packages(f);
    match f {
        Family::Pacman => base,
        Family::Apt => {
            let n = base.len();
            let mut out: Vec<String> = Vec::new();
            let mut i: usize = 0;
            while i < n
                invariant
                    i <= n,
                    n == base.len(),
                    base.deep_view() == apt_packages(),
                    out.len() == i,
                    forall|j: int|
                        0 <= j < i ==> out.deep_view()[j] == resolved_name(
                            apt_packages()[j],
                            release@,
                        ),
                decreases n - i,
            {
                let resolved = resolve_package_name(base[i].as_str(), release);
                proof {
                    assert(base.deep_view()[i as int] == base@[i as int]@);
                }
                let ghost prev = out.deep_view();
                out.push(resolved);
                proof {
                    assert(out.deep_view() =~= prev.push(resolved@));
                }
                i += 1;
            }
            proof {
                assert(out.deep_view() =~= resolved_list(f, release@));
            }
            out
        },
    }
}

/// The marker an apt metadata query prints for an installed package.
pub open spec fn installed_marker() -> Seq<char> {
    "[installed]"@
}

/// Whether a query output shows the package installed: the apt family
/// looks for the installed marker in the package's own query output, the
/// pacman family for the package name anywhere in the batched output.
pub open spec fn package_installed(f: Family, pkg: Seq<char>, out: Seq<char>) -> bool {
    match f {
        Family::Apt => contains_seq(out, installed_marker()),
        Family::Pacman => contains_seq(out, pkg),
    }
}

/// Whether the query output shows the package installed.
pub fn is_installed(f: Family, pkg: &str, out: &str) -> (r: bool)
    ensures
        r == package_installed(f, pkg@, out@),
{
    match f {
        Family::Apt => contains_sub(out, "[installed]"),
        Family::Pacman => contains_sub(out, pkg),
    }
}

/// The query output consulted for package `i`: its own output for the
/// per-package apt family, the single batched output for pacman.
pub open spec fn out_for(f: Family, outs: Seq<Seq<char>>, i: int) -> Seq<char> {
    match f {
        Family::Apt => outs[i],
        Family::Pacman => outs[0],
    }
}

/// How many query outputs the family produces for `count` packages.
pub open spec fn expected_outputs(f: Family, count: int) -> int {
    match f {
        Family::Apt => count,
        Family::Pacman => 1,
    }
}

/// The packages among the first `n` that their query output shows
/// missing, in list order.
pub open spec fn missing_upto(
    f: Family,
    names: Seq<Seq<char>>,
    outs: Seq<Seq<char>>,
    n: int,
) -> Seq<Seq<char>>
    decreases n,
{
    if n <= 0 {
        Seq::empty()
    } else {
        let rest = missing_upto(f, names, outs, n - 1);
        if package_installed(f, names[n - 1], out_for(f, outs, n - 1)) {
            rest
        } else {
            rest.push(names[n - 1])
        }
    }
}

/// The packages whose query output shows them missing, in list order.
pub open spec fn missing_of(f: Family, names: Seq<Seq<char>>, outs: Seq<Seq<char>>) -> Seq<
    Seq<char>,
> {
    missing_upto(f, names, outs, names.len() as int)
}

/// Determine the missing set from the query outputs.
pub fn compute_missing(f: Family, names: &Vec<String>, outs: &Vec<String>) -> (r: Vec<String>)
    requires
        outs.len() == expected_outputs(f, names.len() as int),
    ensures
        r.deep_view() == missing_of(f, names.deep_view(), outs.deep_view()),
{
    let n = names.len();
    let mut missing: Vec<String> = Vec::new();
    let mut i: usize = 0;
    while i < n
        invariant
            i <= n,
            n == names.len(),
            outs.len() == expected_outputs(f, n as int),
            missing.deep_view() == missing_upto(f, names.deep_view(), outs.deep_view(), i as int),
        decreases n - i,
    {
        let out: &String = match f {
            Family::Apt => &outs[i],
            Family::Pacman => &outs[0],
        };
        proof {
            assert(out@ == out_for(f, outs.deep_view(), i as int));
            assert(names.deep_view()[i as int] == names@[i as int]@);
        }
        if !is_installed(f, names[i].as_str(), out.as_str()) {
            missing.push(names[i].clone());
        }
        i += 1;
    }
    missing
}

/// A name occurs in a package list.
pub open spec fn list_has(list: Seq<Seq<char>>, name: Seq<char>) -> bool {
    exists|i: int| 0 <= i < list.len() && list[i] == name
}

/// Whether the list holds the given package name.
pub fn contains_name(list: &Vec<String>, name: &str) -> (r: bool)
    ensures
        r == list_has(list.deep_view(), name@),
{
    let n = list.len();
    let mut i: usize = 0;
    while i < n
        invariant
            i <= n,
            n == list.len(),
            forall|j: int| 0 <= j < i ==> list.deep_view()[j] != name@,
        decreases n - i,
    {
        if str_eq(list[i].as_str(), name) {
            proof {
                assert(list.deep_view()[i as int] == name@);
            }
            return true;
        }
        proof {
            assert(list.deep_view()[i as int] == list@[i as int]@);
        }
        i += 1;
    }
    false
}

/// What the auditor does about the missing set.
#[derive(Debug, Clone, Copy, PartialEq, Eq, Structural)]
pub enum Remediation {
    /// Nothing is missing; the stage passes.
    AllPresent,
    /// Missing packages are to be installed (confirmation skipped or
    /// answered yes); the stage passes best-effort.
    Install,
    /// The user declined installation; the stage fails.
    Declined,
}

/// The remediation decision: install when nothing forbids it, decline on
/// a negative (or unparseable non-empty) answer.
pub open spec fn remediation_of(
    missing: Seq<Seq<char>>,
    skip_confirm: bool,
    answer: Option<Seq<char>>,
) -> Remediation {
    if missing.len() == 0 {
        Remediation::AllPresent
    } else if skip_confirm {
        Remediation::Install
    } else if answer matches Some(a) && affirmative(a) {
        Remediation::Install
    } else {
        Remediation::Declined
    }
}

pub open spec fn opt_str_view(answer: Option<&String>) -> Option<Seq<char>> {
    match answer {
        Some(a) => Some(a@),
        None => None,
    }
}

/// Decide what to do about the missing set.  The caller prompts exactly
/// when packages are missing and confirmation is not skipped, and hands
/// the answer in.
pub fn decide_remediation(missing: &Vec<String>, skip_confirm: bool, answer: Option<&String>) -> (r:
    Remediation)
    requires
        answer is Some <==> (missing.len() > 0 && !skip_confirm),
    ensures
        r == remediation_of(missing.deep_view(), skip_confirm, opt_str_view(answer)),
{
    if missing.len() == 0 {
        Remediation::AllPresent
    } else if skip_confirm {
        Remediation::Install
    } else {
        let a = match answer {
            Some(a) => a,
            None => {
                return Remediation::Declined;
            },
        };
        if crate::prompt::answer_affirmative(a.as_str()) {
            Remediation::Install
        } else {
            Remediation::Declined
        }
    }
}

/// The package-audit stage outcome once the missing set and the
/// remediation decision are known: passes unless remediation was
/// declined, in which case it fails with the missing set.
pub fn audit_result(missing: Vec<String>, decision: Remediation) -> (r: Result<(), StageError>)
    requires
        decision == Remediation::AllPresent ==> missing.len() == 0,
    ensures
        r is Ok <==> decision != Remediation::Declined,
        r matches Err(e) ==> e matches StageError::MissingPackages { packages }
            && packages.deep_view() == missing.deep_view(),
{
    match decision {
        Remediation::AllPresent => Ok(()),
        Remediation::Install => Ok(()),
        Remediation::Declined => Err(StageError::MissingPackages { packages: missing }),
    }
}

/// Auditing an unchanged system twice yields the same missing set: the
/// missing set is a function of the family, the required list and the
/// query outputs alone, so two audits over the same snapshot agree.
pub proof fn lemma_audit_idempotent(
    f: Family,
    names: Seq<Seq<char>>,
    outs: Seq<Seq<char>>,
    first: Seq<Seq<char>>,
    second: Seq<Seq<char>>,
)
    requires
        first == missing_of(f, names, outs),
        second == missing_of(f, names, outs),
    ensures
        first == second,
{
}

/// The metadata query for one package on an apt host.
pub open spec fn apt_query_of(pkg: Seq<char>) -> Seq<char> {
    "apt -qq list "@ + pkg
}

/// The single batched query for the whole required set on a pacman host.
pub open spec fn pacman_query_of(names: Seq<Seq<char>>) -> Seq<char> {
    "pacman -Qqen | grep -wE '"@ + join_with(names, "|"@) + "'"@
}

/// The queries the caller must run, in package-list order: one per
/// package for apt, one batched query for pacman.
pub open spec fn queries_of(f: Family, names: Seq<Seq<char>>) -> Seq<Seq<char>> {
    match f {
        Family::Apt => names.map_values(|p: Seq<char>| apt_query_of(p)),
        Family::Pacman => seq![pacman_query_of(names)],
    }
}

/// Build the package-query command lines for the resolved required list.
pub fn query_commands(f: Family, names: &Vec<String>) -> (r: Vec<String>)
    ensures
        r.deep_view() == queries_of(f, names.deep_view()),
{
    match f {
        Family::Apt => {
            let n = names.len();
            let mut out: Vec<String> = Vec::new();
            let mut i: usize = 0;
            while i < n
                invariant
                    i <= n,
                    n == names.len(),
                    out.len() == i,
                    forall|j: int|
                        0 <= j < i ==> out.deep_view()[j] == apt_query_of(names.deep_view()[j]),
                decreases n - i,
            {
                proof {
                    assert(names.deep_view()[i as int] == names@[i as int]@);
                }
                let cmd = String::from_str("apt -qq list ").concat(names[i].as_str());
                let ghost prev = out.deep_view();
                out.push(cmd);
                proof {
                    assert(out.deep_view() =~= prev.push(apt_query_of(names.deep_view()[i as int])));
                }
                i += 1;
            }
            proof {
                assert(out.deep_view() =~= queries_of(f, names.deep_view()));
            }
            out
        },
        Family::Pacman => {
            let joined = join(names, "|");
            let cmd = String::from_str("pacman -Qqen | grep -wE '").concat(joined.as_str()).concat(
                "'",
            );
            let mut out: Vec<String> = Vec::new();
            out.push(cmd);
            proof {
                assert(out.deep_view() =~= queries_of(f, names.deep_view()));
            }
            out
        },
    }
}

/// The family's install command for the missing set.
pub open spec fn install_command_of(f: Family, missing: Seq<Seq<char>>) -> Seq<char> {
    match f {
        Family::Apt => "sudo apt install --assume-yes "@ + join_with(missing, " "@),
        Family::Pacman => "sudo pacman --noconfirm -S "@ + join_with(missing, " "@),
    }
}

/// Build the install command line for the missing set.
pub fn install_command(f: Family, missing: &Vec<String>) -> (r: String)
    ensures
        r@ == install_command_of(f, missing.deep_view()),
{
    let joined = join(missing, " ");
    match f {
        Family::Apt => String::from_str("sudo apt install --assume-yes ").concat(joined.as_str()),
        Family::Pacman => String::from_str("sudo pacman --noconfirm -S ").concat(joined.as_str()),
    }
}

} // verus!
