//! The ordered schema ledger: which migrations a database still needs, in version order.
//!
//! Each step is recorded as applied in the same transaction that applies it, so a database
//! is always at a known version, and a step already recorded is never run twice.

use crate::text::{join, signed_decimal, signed_decimal_text};
use vstd::prelude::*;

verus! {

/// One schema step.
pub struct Migration {
    pub version: i64,
    pub name: &'static str,
    pub sql: &'static str,
    /// Whether the step rebuilds a table others reference, so it must run with foreign keys
    /// off and be checked for dangling references before it commits.
    pub rebuilds_a_parent: bool,
}

/// An ordinary schema step.
pub fn step(version: i64, name: &'static str, sql: &'static str) -> (m: Migration)
    ensures
        m.version == version,
        m.name == name,
        m.sql == sql,
        !m.rebuilds_a_parent,
{
    Migration { version, name, sql, rebuilds_a_parent: false }
}

/// The indices of `ledger`'s steps not yet recorded in `applied`, in ledger order.
pub open spec fn pending_steps(ledger: Seq<i64>, applied: Seq<i64>) -> Seq<int>
    decreases ledger.len(),
{
    if ledger.len() == 0 {
        Seq::empty()
    } else {
        let rest = pending_steps(ledger.drop_last(), applied);
        if applied.contains(ledger.last()) {
            rest
        } else {
            rest.push(ledger.len() - 1)
        }
    }
}

/// Which of the ledger's steps (given by version, in order) still need applying to a
/// database whose applied versions are `applied`.
pub fn pending(ledger: &[i64], applied: &[i64]) -> (todo: Vec<usize>)
    ensures
        todo@.len() == pending_steps(ledger@, applied@).len(),
        forall|k: int| 0 <= k < todo@.len() ==> todo@[k] as int == pending_steps(ledger@, applied@)[k],
{
    let mut todo: Vec<usize> = Vec::new();
    let mut i: usize = 0;
    while i < ledger.len()
        invariant
            i <= ledger.len(),
            todo@.len() == pending_steps(ledger@.take(i as int), applied@).len(),
            forall|k: int|
                0 <= k < todo@.len() ==> todo@[k] as int == pending_steps(
                    ledger@.take(i as int),
                    applied@,
                )[k],
        decreases ledger.len() - i,
    {
        let mut seen = false;
        let mut j: usize = 0;
        while j < applied.len()
            invariant
                i < ledger.len(),
                j <= applied.len(),
                seen == exists|a: int| 0 <= a < j && applied@[a] == ledger@[i as int],
            decreases applied.len() - j,
        {
            if applied[j] == ledger[i] {
                seen = true;
            }
            j += 1;
        }
        assert(ledger@.take(i + 1).drop_last() == ledger@.take(i as int));
        if !seen {
            todo.push(i);
        }
        i += 1;
    }
    assert(ledger@.take(ledger.len() as int) == ledger@);
    todo
}

/// The refusal for a rebuild that would leave `dangling` references pointing nowhere.
pub open spec fn dangling_refusal(version: i64, name: Seq<char>, dangling: i64) -> Seq<char> {
    "migration "@ + signed_decimal_text(version as int) + " "@ + name + " would leave "@
        + signed_decimal_text(dangling as int) + " dangling reference(s); rolled back"@
}

/// Refuse to commit a step that rebuilt a referenced table if any reference now dangles:
/// the verdict enforcement would have given row by row.
pub fn require_no_dangling(version: i64, name: &str, dangling: i64) -> (r: Result<(), String>)
    ensures
        dangling > 0 ==> (r matches Err(m) && m@ == dangling_refusal(version, name@, dangling)),
        dangling <= 0 ==> r is Ok,
{
    if dangling > 0 {
        let mut m = join("migration ", signed_decimal(version).as_str());
        m.append(" ");
        m.append(name);
        m.append(" would leave ");
        m.append(signed_decimal(dangling).as_str());
        m.append(" dangling reference(s); rolled back");
        return Err(m);
    }
    Ok(())
}

/// A step whose version is already recorded is never scheduled again, and every scheduled
/// step names a real position in the ledger.
pub proof fn applied_steps_never_rerun(ledger: Seq<i64>, applied: Seq<i64>, k: int)
    requires
        0 <= k < pending_steps(ledger, applied).len(),
    ensures
        0 <= pending_steps(ledger, applied)[k] < ledger.len(),
        !applied.contains(ledger[pending_steps(ledger, applied)[k]]),
    decreases ledger.len(),
{
    let rest = pending_steps(ledger.drop_last(), applied);
    if k < rest.len() {
        applied_steps_never_rerun(ledger.drop_last(), applied, k);
    }
}

} // verus!
