//! The bookkeeping of a bulk sync: what happened to each skill and target,
//! counted into the summary the user sees.

use vstd::prelude::*;
use crate::json::{JsonNumber, JsonValue};
use crate::text::concat;

verus! {

/// What became of one step of a bulk sync.
#[derive(Debug)]
pub enum BulkSyncOutcome {
    /// The requested skill does not exist; it is skipped.
    MissingSkill,
    /// The skill is disabled; it is skipped.
    DisabledSkill,
    /// A target names a tool that has no adapter; the target is skipped.
    UnknownTool,
    /// A target was synced again.
    Synced,
    /// Syncing a target failed: the skill's name and the error's text.
    Failed(String, String),
}

/// The running summary of a bulk sync.
#[derive(Debug)]
pub struct BulkSyncTally {
    pub synced: usize,
    pub skipped: usize,
    pub errors: Vec<String>,
}

/// Whether an outcome counts as skipped.
pub open spec fn is_skipped(o: BulkSyncOutcome) -> bool {
    o is MissingSkill || o is DisabledSkill || o is UnknownTool
}

/// How many of `outcomes` are synced targets.
pub open spec fn synced_count(outcomes: Seq<BulkSyncOutcome>) -> nat
    decreases outcomes.len(),
{
    if outcomes.len() == 0 {
        0
    } else {
        synced_count(outcomes.drop_last()) + if outcomes.last() is Synced { 1nat } else { 0nat }
    }
}

/// How many of `outcomes` are skipped.
pub open spec fn skipped_count(outcomes: Seq<BulkSyncOutcome>) -> nat
    decreases outcomes.len(),
{
    if outcomes.len() == 0 {
        0
    } else {
        skipped_count(outcomes.drop_last()) + if is_skipped(outcomes.last()) { 1nat } else { 0nat }
    }
}

/// The failure lines of `outcomes`, in order.
pub open spec fn failure_lines(outcomes: Seq<BulkSyncOutcome>) -> Seq<Seq<char>>
    decreases outcomes.len(),
{
    if outcomes.len() == 0 {
        Seq::empty()
    } else {
        let rest = failure_lines(outcomes.drop_last());
        match outcomes.last() {
            BulkSyncOutcome::Failed(name, error) => rest.push(failure_line(name@, error@)),
            _ => rest,
        }
    }
}

/// The line recorded for a failed target.
pub open spec fn failure_line(skill_name: Seq<char>, error: Seq<char>) -> Seq<char> {
    skill_name + ": "@ + error
}

impl BulkSyncTally {
    /// Nothing synced, skipped or failed yet.
    pub fn new() -> (res: Self)
        ensures
            res.synced == 0,
            res.skipped == 0,
            res.errors@.len() == 0,
    {
        BulkSyncTally { synced: 0, skipped: 0, errors: Vec::new() }
    }

    /// Counts one outcome: missing skills, disabled skills and unknown tools
    /// are skipped, synced targets counted, and failures listed as
    /// `<skill name>: <error>`.
    pub fn record(&mut self, outcome: &BulkSyncOutcome)
        requires
            old(self).synced < usize::MAX,
            old(self).skipped < usize::MAX,
        ensures
            match *outcome {
                BulkSyncOutcome::Synced => {
                    &&& final(self).synced == old(self).synced + 1
                    &&& final(self).skipped == old(self).skipped
                    &&& final(self).errors@ == old(self).errors@
                },
                BulkSyncOutcome::Failed(name, error) => {
                    &&& final(self).synced == old(self).synced
                    &&& final(self).skipped == old(self).skipped
                    &&& final(self).errors@.len() == old(self).errors@.len() + 1
                    &&& final(self).errors@.take(old(self).errors@.len() as int) == old(self).errors@
                    &&& final(self).errors@.last()@ == failure_line(name@, error@)
                },
                _ => {
                    &&& final(self).synced == old(self).synced
                    &&& final(self).skipped == old(self).skipped + 1
                    &&& final(self).errors@ == old(self).errors@
                },
            },
    {
        match outcome {
            BulkSyncOutcome::Synced => {
                self.synced = self.synced + 1;
            },
            BulkSyncOutcome::Failed(name, error) => {
                let mut line = concat(name.as_str(), ": ");
                line.append(error.as_str());
                self.errors.push(line);
                assert(self.errors@.take(old(self).errors@.len() as int) =~= old(self).errors@);
            },
            _ => {
                self.skipped = self.skipped + 1;
            },
        }
    }

    /// The summary as JSON: `synced`, `skipped` and the list of `errors`.
    pub fn to_json(&self) -> (res: JsonValue)
        ensures
            res matches JsonValue::Object(members) && members@.len() == 3
                && members@[0].0@ == "synced"@
                && members@[0].1 == JsonValue::Number(JsonNumber::Unsigned(self.synced as u64))
                && members@[1].0@ == "skipped"@
                && members@[1].1 == JsonValue::Number(JsonNumber::Unsigned(self.skipped as u64))
                && members@[2].0@ == "errors"@
                && (members@[2].1 matches JsonValue::Array(items) && items@.len() == self.errors@.len()
                    && forall|i: int| 0 <= i < items@.len()
                        ==> (#[trigger] items@[i] matches JsonValue::String(s) && s@ == self.errors@[i]@)),
    {
        let mut items: Vec<JsonValue> = Vec::new();
        let mut i: usize = 0;
        while i < self.errors.len()
            invariant
                i <= self.errors@.len(),
                items@.len() == i,
                forall|k: int| 0 <= k < i
                    ==> (#[trigger] items@[k] matches JsonValue::String(s) && s@ == self.errors@[k]@),
            decreases self.errors@.len() - i,
        {
            items.push(JsonValue::String(self.errors[i].clone()));
            i = i + 1;
        }
        let members = vec![
            (String::from_str("synced"), JsonValue::Number(JsonNumber::Unsigned(self.synced as u64))),
            (String::from_str("skipped"), JsonValue::Number(JsonNumber::Unsigned(self.skipped as u64))),
            (String::from_str("errors"), JsonValue::Array(items)),
        ];
        JsonValue::Object(members)
    }
}


/// Every outcome of a bulk sync is counted once: as synced, as skipped, or as
/// a failure line; the three together account for all of them.
pub proof fn law_outcomes_counted_once(outcomes: Seq<BulkSyncOutcome>)
    ensures
        synced_count(outcomes) + skipped_count(outcomes) + failure_lines(outcomes).len() == outcomes.len(),
    decreases outcomes.len(),
{
    if outcomes.len() > 0 {
        law_outcomes_counted_once(outcomes.drop_last());
    }
}

/// The summary of a bulk sync whose steps came out as `outcomes`.
pub fn tally_bulk_sync(outcomes: &Vec<BulkSyncOutcome>) -> (res: BulkSyncTally)
    ensures
        res.synced == synced_count(outcomes@),
        res.skipped == skipped_count(outcomes@),
        res.errors@.len() == failure_lines(outcomes@).len(),
        forall|i: int| 0 <= i < res.errors@.len() ==> #[trigger] res.errors@[i]@ == failure_lines(outcomes@)[i],
{
    let mut tally = BulkSyncTally::new();
    let mut i: usize = 0;
    while i < outcomes.len()
        invariant
            i <= outcomes@.len(),
            tally.synced == synced_count(outcomes@.take(i as int)),
            tally.skipped == skipped_count(outcomes@.take(i as int)),
            tally.errors@.len() == failure_lines(outcomes@.take(i as int)).len(),
            forall|k: int| 0 <= k < tally.errors@.len()
                ==> #[trigger] tally.errors@[k]@ == failure_lines(outcomes@.take(i as int))[k],
            synced_count(outcomes@.take(i as int)) + skipped_count(outcomes@.take(i as int)) <= i,
        decreases outcomes@.len() - i,
    {
        proof {
            law_outcomes_counted_once(outcomes@.take(i as int));
            assert(outcomes@.take(i + 1).drop_last() =~= outcomes@.take(i as int));
            assert(outcomes@.take(i + 1).last() == outcomes@[i as int]);
        }
        let ghost before = tally.errors@;
        tally.record(&outcomes[i]);
        proof {
            let t = outcomes@.take(i as int);
            let t1 = outcomes@.take(i + 1);
            if outcomes@[i as int] is Failed {
                assert forall|k: int| 0 <= k < tally.errors@.len()
                    implies #[trigger] tally.errors@[k]@ == failure_lines(t1)[k] by {
                    if k < before.len() {
                        assert(tally.errors@.take(before.len() as int)[k] == before[k]);
                    }
                }
            }
        }
        i = i + 1;
    }
    assert(outcomes@.take(outcomes@.len() as int) =~= outcomes@);
    tally
}

} // verus!
