//! The diagnostic orchestrator: sequences the stages in their fixed
//! order, applies the cross-stage skip rule, aggregates every outcome
//! into the report and keeps the failure total exact.  The caller runs
//! the commands and prompts; this module decides everything else.

use vstd::prelude::*;
use vstd::string::StringExecFns;

use crate::errors::StageError;
use crate::flags::check_bpf_enabled;
use crate::flags::unsat_of;
use crate::iface::check_net_iface;
use crate::iface::iface_present;
use crate::packages::Family;
use crate::packages::Remediation;
use crate::packages::compute_missing;
use crate::packages::decide_remediation;
use crate::packages::detect_family;
use crate::packages::expected_outputs;
use crate::packages::family_of;
use crate::packages::list_has;
use crate::packages::missing_of;
use crate::packages::remediation_of;
use crate::packages::resolved_list;
use crate::packages::resolved_packages;
use crate::packages::audit_result;
use crate::report::CheckOutcome;
use crate::report::DiagnosticReport;
use crate::report::Stage;
use crate::report::Status;
use crate::session::DiagnosticSettings;
use crate::session::MissingPackageLedger;
use crate::text::trim;
use crate::text::trim_seq;
use crate::version::check_kernel_version;
use crate::version::lex_ge;
use crate::version::min_kernel_version;
use crate::version::version_of;

verus! {

/// The text-filtering helper tool the kernel-flag stage's command needs.
pub open spec fn filter_tool() -> Seq<char> {
    "ripgrep"@
}

/// The raw texts a diagnostic run gathered for the stages, in pipeline
/// order.  The caller obtains them through whichever backend the run
/// selected; the orchestrator only reads them.
pub struct StageInputs {
    /// Output of the kernel-release query.
    pub kernel_release: String,
    /// Output of the host-identity query.
    pub nodename: String,
    /// Package-query outputs, one per query the auditor planned.
    pub package_outputs: Vec<String>,
    /// The install-confirmation answer, present exactly when packages
    /// are missing and confirmation is not skipped.
    pub install_answer: Option<String>,
    /// Kernel-feature lines, present exactly when the flag stage may run.
    pub flag_lines: Option<Vec<String>>,
    /// Names of the interfaces present on the host.
    pub iface_names: Vec<String>,
}

/// The package-management family the gathered host identity names.
pub open spec fn spec_family(inputs: StageInputs) -> Option<Family> {
    family_of(trim_seq(inputs.nodename@))
}

/// The missing set the audit determines from the gathered outputs.
pub open spec fn spec_missing(inputs: StageInputs) -> Seq<Seq<char>> {
    match spec_family(inputs) {
        Some(f) => missing_of(
            f,
            resolved_list(f, inputs.kernel_release@),
            inputs.package_outputs.deep_view(),
        ),
        None => Seq::empty(),
    }
}

pub open spec fn opt_string_view(o: Option<String>) -> Option<Seq<char>> {
    match o {
        Some(s) => Some(s@),
        None => None,
    }
}

/// The remediation decision the audit reaches.
pub open spec fn spec_decision(inputs: StageInputs, skip_confirm: bool) -> Remediation {
    remediation_of(spec_missing(inputs), skip_confirm, opt_string_view(inputs.install_answer))
}

/// The audit failed by declining remediation, recording its missing set.
pub open spec fn audit_declined(inputs: StageInputs, skip_confirm: bool) -> bool {
    spec_family(inputs) is Some && spec_decision(inputs, skip_confirm) == Remediation::Declined
}

/// The kernel-flag stage is short-circuited: the audit recorded the
/// text-filtering helper tool among the missing packages.
pub open spec fn gate_fires(inputs: StageInputs, skip_confirm: bool) -> bool {
    audit_declined(inputs, skip_confirm) && list_has(spec_missing(inputs), filter_tool())
}

/// The kernel-flag stage as the orchestrator runs it: the ledger is
/// consulted first, and when the helper tool was already found missing
/// the stage becomes an automatic `MissingDependency` failure without
/// anything being attempted — regardless of the actual flag state.
pub fn flags_stage(ledger: &MissingPackageLedger, lines: Option<&Vec<String>>) -> (r: Result<
    (),
    StageError,
>)
    requires
        lines is Some <==> !list_has(ledger.recorded(), filter_tool()),
    ensures
        list_has(ledger.recorded(), filter_tool()) ==> (r matches Err(
            StageError::MissingDependency { tool },
        ) && tool@ == filter_tool()),
        !list_has(ledger.recorded(), filter_tool()) ==> {
            &&& (r is Ok <==> unsat_of(lines->Some_0.deep_view()).len() == 0)
            &&& (r matches Err(e) ==> e matches StageError::MissingKernelFlags { lines: l }
                && l.deep_view() == unsat_of(lines->Some_0.deep_view()))
        },
{
    if ledger.has("ripgrep") {
        Err(StageError::MissingDependency { tool: String::from_str("ripgrep") })
    } else {
        match lines {
            Some(v) => check_bpf_enabled(v),
            None => Ok(()),
        }
    }
}

/// Run the diagnostic pipeline over the gathered inputs, in the fixed
/// order kernel version, package audit, kernel flags, network interface.
/// Every stage is reported — none aborts the run — except that the
/// kernel-flag stage is replaced by an automatic failure when the audit
/// recorded the helper tool missing.  The report's failure total equals
/// the number of `Fail` outcomes collected, and the ledger holds exactly
/// what the audit recorded.
pub fn analyze(inputs: &StageInputs, settings: &DiagnosticSettings) -> (r: (
    DiagnosticReport,
    MissingPackageLedger,
))
    requires
        version_of(inputs.kernel_release@) is Some,
        spec_family(*inputs) matches Some(f) ==> inputs.package_outputs.len() == expected_outputs(
            f,
            resolved_list(f, inputs.kernel_release@).len() as int,
        ),
        inputs.install_answer is Some <==> (spec_family(*inputs) is Some && spec_missing(
            *inputs,
        ).len() > 0 && !settings.skip_confirmation),
        inputs.flag_lines is Some <==> !gate_fires(*inputs, settings.skip_confirmation),
    ensures
        r.0.wf(),
        r.0.outcomes@.len() == 4,
        r.0.outcomes@[0].stage == Stage::KernelVersion,
        r.0.outcomes@[1].stage == Stage::Packages,
        r.0.outcomes@[2].stage == Stage::KernelFlags,
        r.0.outcomes@[3].stage == Stage::NetworkInterface,
        r.0.outcomes@[0].is_fail() <==> !lex_ge(
            version_of(inputs.kernel_release@)->Some_0,
            min_kernel_version(),
        ),
        r.0.outcomes@[0].is_fail() ==> (r.0.outcomes@[0].status matches Status::Fail(
            StageError::IncompatibleKernelVersion { minimum },
        ) && minimum == min_kernel_version()),
        r.0.outcomes@[1].is_fail() <==> (spec_family(*inputs) is None || spec_decision(
            *inputs,
            settings.skip_confirmation,
        ) == Remediation::Declined),
        spec_family(*inputs) is None ==> (r.0.outcomes@[1].status matches Status::Fail(
            StageError::UnsupportedPlatform { identity },
        ) && identity@ == trim_seq(inputs.nodename@)),
        audit_declined(*inputs, settings.skip_confirmation) ==> (r.0.outcomes@[1].status matches
            Status::Fail(StageError::MissingPackages { packages }) && packages.deep_view()
            == spec_missing(*inputs)),
        gate_fires(*inputs, settings.skip_confirmation) ==> (r.0.outcomes@[2].status matches
            Status::Fail(StageError::MissingDependency { tool }) && tool@ == filter_tool()),
        !gate_fires(*inputs, settings.skip_confirmation) ==> (r.0.outcomes@[2].is_fail() <==>
            unsat_of(inputs.flag_lines->Some_0.deep_view()).len() > 0),
        !gate_fires(*inputs, settings.skip_confirmation) && r.0.outcomes@[2].is_fail() ==> (
        r.0.outcomes@[2].status matches Status::Fail(StageError::MissingKernelFlags { lines })
            && lines.deep_view() == unsat_of(inputs.flag_lines->Some_0.deep_view())),
        r.0.outcomes@[3].is_fail() <==> !iface_present(
            settings.target_interface@,
            inputs.iface_names.deep_view(),
        ),
        r.0.outcomes@[3].is_fail() ==> (r.0.outcomes@[3].status matches Status::Fail(
            StageError::InterfaceNotFound { name },
        ) && name@ == settings.target_interface@),
        r.1.recorded() == if audit_declined(*inputs, settings.skip_confirmation) {
            spec_missing(*inputs)
        } else {
            Seq::<Seq<char>>::empty()
        },
{
    let mut report = DiagnosticReport::new();
    let mut ledger = MissingPackageLedger::new();

    let version_status = match check_kernel_version(inputs.kernel_release.as_str()) {
        Ok(()) => Status::Pass,
        Err(e) => Status::Fail(e),
    };
    report.push_outcome(CheckOutcome { stage: Stage::KernelVersion, status: version_status });

    let nodename = trim(inputs.nodename.as_str());
    let audit_status = match detect_family(nodename) {
        None => Status::Fail(StageError::UnsupportedPlatform { identity: nodename.to_owned() }),
        Some(f) => {
            let resolved = resolved_packages(f, inputs.kernel_release.as_str());
            proof {
                assert(resolved.deep_view().len() == resolved@.len());
            }
            let missing = compute_missing(f, &resolved, &inputs.package_outputs);
            proof {
                assert(missing.deep_view() == spec_missing(*inputs));
                assert(missing.deep_view().len() == missing@.len());
            }
            let decision = decide_remediation(
                &missing,
                settings.skip_confirmation,
                inputs.install_answer.as_ref(),
            );
            if matches!(decision, Remediation::Declined) {
                ledger.record(&missing);
            }
            match audit_result(missing, decision) {
                Ok(()) => Status::Pass,
                Err(e) => Status::Fail(e),
            }
        },
    };
    report.push_outcome(CheckOutcome { stage: Stage::Packages, status: audit_status });

    let flag_lines: Option<&Vec<String>> = match &inputs.flag_lines {
        Some(v) => Some(v),
        None => None,
    };
    let flags_status = match flags_stage(&ledger, flag_lines) {
        Ok(()) => Status::Pass,
        Err(e) => Status::Fail(e),
    };
    report.push_outcome(CheckOutcome { stage: Stage::KernelFlags, status: flags_status });

    let iface_status = match check_net_iface(
        settings.target_interface.as_str(),
        &inputs.iface_names,
    ) {
        Ok(()) => Status::Pass,
        Err(e) => Status::Fail(e),
    };
    report.push_outcome(CheckOutcome { stage: Stage::NetworkInterface, status: iface_status });

    (report, ledger)
}

} // verus!
