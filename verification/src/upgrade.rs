//! Upgrade compatibility: what changed between the exported functions of an
//! old and a new module, and whether a probe call behaves the same on both.

use crate::inspector::budget::BudgetInfo;
use crate::text::texts;
use vstd::prelude::*;
use vstd::string::*;

verus! {

/// A function that a module exports.
#[derive(Debug, Clone, PartialEq, Eq)]
pub struct ExportedFunction {
    pub name: String,
    pub signature: String,
}

/// What a probe call produced on one module.
#[derive(Debug, Clone)]
pub struct ProbeOutcome {
    /// The formatted outcome of the call.
    pub result: String,
    /// The meters as read after the call.
    pub budget: BudgetInfo,
}

/// The probe call on both modules, side by side.
#[derive(Debug, Clone)]
pub struct ProbeComparison {
    pub old_result: String,
    pub new_result: String,
    /// Instructions used by the new module minus those used by the old.
    pub cpu_delta: i128,
    /// Memory used by the new module minus that used by the old.
    pub memory_delta: i128,
}

/// How an upgrade is classified.
#[derive(Debug, Clone, Copy, PartialEq, Eq, Structural)]
pub enum Compatibility {
    Compatible,
    Incompatible,
    Unknown,
}

/// The outcome of comparing two modules.
#[derive(Debug)]
pub struct UpgradeReport {
    /// Names exported by the new module only, in its order.
    pub added: Vec<String>,
    /// Names exported by the old module only, in its order.
    pub removed: Vec<String>,
    /// Names exported by both with different signatures, in the old order.
    pub changed: Vec<String>,
    /// The probe call on both modules, where one was made.
    pub probe: Option<ProbeComparison>,
    pub classification: Compatibility,
}

/// The two ways in which an export of one module can differ from the
/// exports of another.
#[derive(Debug, Clone, Copy, PartialEq, Eq, Structural)]
pub enum Difference {
    /// The other module exports nothing of that name.
    Missing,
    /// The other module exports the name, but never with that signature.
    Changed,
}

/// Some export in `exports` has the name `name`.
pub open spec fn has_name(exports: Seq<ExportedFunction>, name: Seq<char>) -> bool {
    exists|i: int| 0 <= i < exports.len() && (#[trigger] exports[i]).name@ == name
}

/// Some export in `exports` has the name `name` and the signature
/// `signature`.
pub open spec fn has_entry(
    exports: Seq<ExportedFunction>,
    name: Seq<char>,
    signature: Seq<char>,
) -> bool {
    exists|i: int|
        0 <= i < exports.len() && (#[trigger] exports[i]).name@ == name && exports[i].signature@
            == signature
}

/// Whether `export` differs from `other` in the given way.
pub open spec fn differs(
    kind: Difference,
    export: ExportedFunction,
    other: Seq<ExportedFunction>,
) -> bool {
    match kind {
        Difference::Missing => !has_name(other, export.name@),
        Difference::Changed => has_name(other, export.name@) && !has_entry(
            other,
            export.name@,
            export.signature@,
        ),
    }
}

/// The names of the exports of `source` that differ from `other` in the
/// given way, in the order of `source`.
pub open spec fn selected(
    source: Seq<ExportedFunction>,
    other: Seq<ExportedFunction>,
    kind: Difference,
) -> Seq<Seq<char>> {
    source.filter(|e: ExportedFunction| differs(kind, e, other)).map_values(
        |e: ExportedFunction| e.name@,
    )
}

/// `Incompatible` where some export is removed or changed, or where a probe
/// gave different outcomes; failing that, `Unknown` where there is no probe;
/// `Compatible` otherwise.
pub open spec fn spec_classify(removed: nat, changed: nat, probe_agrees: Option<bool>) -> Compatibility {
    if removed > 0 || changed > 0 || probe_agrees == Some(false) {
        Compatibility::Incompatible
    } else if probe_agrees is None {
        Compatibility::Unknown
    } else {
        Compatibility::Compatible
    }
}

/// Whether the two sides of a probe gave the same outcome, where there was
/// a probe.
pub open spec fn spec_probe_agrees(probe: Option<(ProbeOutcome, ProbeOutcome)>) -> Option<bool> {
    match probe {
        Some(sides) => Some(sides.0.result@ == sides.1.result@),
        None => None,
    }
}

/// Classifies an upgrade from the number of removed and of changed exports
/// and from whether a probe, if any, agreed.
pub fn classify(removed: usize, changed: usize, probe_agrees: Option<bool>) -> (c: Compatibility)
    ensures
        c == spec_classify(removed as nat, changed as nat, probe_agrees),
{
    let disagrees = match probe_agrees {
        Some(same) => !same,
        None => false,
    };
    if removed > 0 || changed > 0 || disagrees {
        Compatibility::Incompatible
    } else if probe_agrees.is_none() {
        Compatibility::Unknown
    } else {
        Compatibility::Compatible
    }
}

/// Whether some export in `exports` has the name `name`.
pub fn exports_name(exports: &Vec<ExportedFunction>, name: &String) -> (r: bool)
    ensures
        r == has_name(exports@, name@),
{
    let mut i: usize = 0;
    while i < exports.len()
        invariant
            i <= exports@.len(),
            forall|j: int| 0 <= j < i ==> (#[trigger] exports@[j]).name@ != name@,
        decreases exports@.len() - i,
    {
        if exports[i].name == *name {
            return true;
        }
        i = i + 1;
    }
    false
}

/// Whether some export in `exports` has the name and the signature of
/// `export`.
pub fn exports_entry(exports: &Vec<ExportedFunction>, export: &ExportedFunction) -> (r: bool)
    ensures
        r == has_entry(exports@, export.name@, export.signature@),
{
    let mut i: usize = 0;
    while i < exports.len()
        invariant
            i <= exports@.len(),
            forall|j: int|
                0 <= j < i ==> !((#[trigger] exports@[j]).name@ == export.name@
                    && exports@[j].signature@ == export.signature@),
        decreases exports@.len() - i,
    {
        if exports[i].name == export.name && exports[i].signature == export.signature {
            return true;
        }
        i = i + 1;
    }
    false
}

/// The names of the exports of `source` that differ from `other` in the
/// given way, in the order of `source`.
pub fn select(source: &Vec<ExportedFunction>, other: &Vec<ExportedFunction>, kind: Difference) -> (out:
    Vec<String>)
    ensures
        texts(out@) == selected(source@, other@, kind),
{
    let mut out: Vec<String> = Vec::new();
    let ghost keep = |e: ExportedFunction| differs(kind, e, other@);
    let ghost name = |e: ExportedFunction| e.name@;
    let mut i: usize = 0;
    while i < source.len()
        invariant
            i <= source@.len(),
            keep == |e: ExportedFunction| differs(kind, e, other@),
            name == |e: ExportedFunction| e.name@,
            texts(out@) == source@.take(i as int).filter(keep).map_values(name),
        decreases source@.len() - i,
    {
        let export = &source[i];
        proof {
            reveal(Seq::filter);
            assert(source@.take(i + 1).drop_last() =~= source@.take(i as int));
        }
        let known = exports_name(other, &export.name);
        let wanted = match kind {
            Difference::Missing => !known,
            Difference::Changed => known && !exports_entry(other, export),
        };
        let ghost before = out@;
        if wanted {
            out.push(export.name.clone());
            assert(texts(out@) =~= texts(before).push(export.name@));
        }
        i = i + 1;
    }
    proof {
        assert(source@.take(source@.len() as int) =~= source@);
    }
    out
}

/// Compares an old and a new module: which exports were added, removed or
/// changed, what a probe call, if one was made on both, gave on each side,
/// and the classification that follows.
pub fn compare(
    old_exports: &Vec<ExportedFunction>,
    new_exports: &Vec<ExportedFunction>,
    probe: Option<(ProbeOutcome, ProbeOutcome)>,
) -> (report: UpgradeReport)
    ensures
        texts(report.added@) == selected(new_exports@, old_exports@, Difference::Missing),
        texts(report.removed@) == selected(old_exports@, new_exports@, Difference::Missing),
        texts(report.changed@) == selected(old_exports@, new_exports@, Difference::Changed),
        report.classification == spec_classify(
            report.removed@.len(),
            report.changed@.len(),
            spec_probe_agrees(probe),
        ),
        probe is None ==> report.probe is None,
        probe matches Some(sides) ==> (report.probe matches Some(p) && p.old_result
            == sides.0.result && p.new_result == sides.1.result && p.cpu_delta
            == sides.1.budget.cpu_instructions - sides.0.budget.cpu_instructions && p.memory_delta
            == sides.1.budget.memory_bytes - sides.0.budget.memory_bytes),
{
    let added = select(new_exports, old_exports, Difference::Missing);
    let removed = select(old_exports, new_exports, Difference::Missing);
    let changed = select(old_exports, new_exports, Difference::Changed);
    let (agrees, comparison) = match probe {
        Some((old_side, new_side)) => {
            let same = old_side.result == new_side.result;
            let cpu_delta = new_side.budget.cpu_instructions as i128
                - old_side.budget.cpu_instructions as i128;
            let memory_delta = new_side.budget.memory_bytes as i128
                - old_side.budget.memory_bytes as i128;
            (
                Some(same),
                Some(
                    ProbeComparison {
                        old_result: old_side.result,
                        new_result: new_side.result,
                        cpu_delta,
                        memory_delta,
                    },
                ),
            )
        },
        None => (None, None),
    };
    let classification = classify(removed.len(), changed.len(), agrees);
    UpgradeReport { added, removed, changed, probe: comparison, classification }
}

/// An export that the new module lacks makes the upgrade incompatible and
/// is listed as removed, whatever else the comparison finds.
pub proof fn lemma_removed_export_is_incompatible(
    old_exports: Seq<ExportedFunction>,
    new_exports: Seq<ExportedFunction>,
    i: int,
    probe_agrees: Option<bool>,
)
    requires
        0 <= i < old_exports.len(),
        !has_name(new_exports, old_exports[i].name@),
    ensures
        selected(old_exports, new_exports, Difference::Missing).contains(old_exports[i].name@),
        spec_classify(
            selected(old_exports, new_exports, Difference::Missing).len(),
            selected(old_exports, new_exports, Difference::Changed).len(),
            probe_agrees,
        ) == Compatibility::Incompatible,
{
    let keep = |e: ExportedFunction| differs(Difference::Missing, e, new_exports);
    let name = |e: ExportedFunction| e.name@;
    old_exports.lemma_filter_contains(keep, i);
    let kept = old_exports.filter(keep);
    let k = choose|k: int| 0 <= k < kept.len() && kept[k] == old_exports[i];
    assert(kept.map_values(name)[k] == old_exports[i].name@);
}

} // verus!
