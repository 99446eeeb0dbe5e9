//! The optional accelerator extension table: an all-or-nothing probe.
//!
//! Absence of the probe symbol is not an error: it is the defined "feature
//! not present" signal. A library exposing the probe symbol but not the
//! remaining two is internally inconsistent, a fatal fault distinct from
//! ordinary absence.
use vstd::prelude::*;

verus! {

/// Options for creating an accelerator delegate, mirrored as plain values.
#[derive(Debug, PartialEq, Eq, Structural, Clone, Copy)]
pub struct TfLiteXNNPackDelegateOptions {
    pub num_threads: i32,
}

/// What probing the extension's three symbols found.
#[derive(Debug, PartialEq, Eq, Structural, Clone, Copy)]
pub enum ProbeOutcome {
    /// All three extension symbols resolve: the accelerator is usable.
    Present,
    /// The probe symbol is absent: the extension is not in this build.
    Absent,
    /// The probe symbol resolves but a companion symbol does not: an
    /// internal inconsistency of the loaded library.
    Inconsistent,
}

/// Classification of a probe report: absent when the probe symbol is
/// missing, present when all three symbols resolve, inconsistent otherwise.
pub open spec fn spec_probe_outcome(probe: bool, create: bool, delete: bool) -> ProbeOutcome {
    if !probe {
        ProbeOutcome::Absent
    } else if create && delete {
        ProbeOutcome::Present
    } else {
        ProbeOutcome::Inconsistent
    }
}

/// Classifies a probe report. `probe`, `create` and `delete` say whether
/// the feature-detection symbol and its two companions were resolvable.
pub fn probe_outcome(probe: bool, create: bool, delete: bool) -> (r: ProbeOutcome)
    ensures
        r == spec_probe_outcome(probe, create, delete),
{
    if !probe {
        ProbeOutcome::Absent
    } else if create && delete {
        ProbeOutcome::Present
    } else {
        ProbeOutcome::Inconsistent
    }
}

/// Probing is all-or-nothing: every symbol report falls in exactly one of
/// the three outcomes, the extension is present exactly when all three
/// symbols resolve, and absent exactly when the probe symbol is missing.
pub proof fn lemma_probe_all_or_nothing(probe: bool, create: bool, delete: bool)
    ensures
        spec_probe_outcome(probe, create, delete) is Present <==> (probe && create && delete),
        spec_probe_outcome(probe, create, delete) is Absent <==> !probe,
        spec_probe_outcome(probe, create, delete) is Inconsistent <==> (probe && !(create
            && delete)),
{
}

/// The extension's three symbols, probe symbol first.
pub fn xnnpack_symbol_names() -> (r: Vec<&'static str>)
    ensures
        r@.len() == 3,
        r@[0]@ == "TfLiteXNNPackDelegateOptionsDefault"@,
        r@[1]@ == "TfLiteXNNPackDelegateCreate"@,
        r@[2]@ == "TfLiteXNNPackDelegateDelete"@,
{
    let mut v: Vec<&'static str> = Vec::new();
    v.push("TfLiteXNNPackDelegateOptionsDefault");
    v.push("TfLiteXNNPackDelegateCreate");
    v.push("TfLiteXNNPackDelegateDelete");
    v
}

/// The bound extension table, as this layer sees it. A value of this type
/// certifies that the whole extension, not a part of it, was resolvable.
#[derive(Debug, PartialEq, Eq, Structural, Clone, Copy)]
pub struct XnnPackVt {
}

impl XnnPackVt {
    /// Binds the extension table from a probe report. A missing probe
    /// symbol yields `None`, the defined "extension unavailable" result.
    ///
    /// A report in which the probe symbol resolves but a companion does not
    /// is an internal-consistency fault of the loaded library; the caller
    /// must classify the report with `probe_outcome` first and treat
    /// `Inconsistent` as fatal, so that input is excluded here.
    pub fn load(probe: bool, create: bool, delete: bool) -> (r: Option<XnnPackVt>)
        requires
            spec_probe_outcome(probe, create, delete) !is Inconsistent,
        ensures
            r is Some <==> probe,
            r is Some <==> spec_probe_outcome(probe, create, delete) is Present,
    {
        if probe {
            Some(XnnPackVt {  })
        } else {
            None
        }
    }
}

} // verus!
