//! Rules that move a withholding-tax entry to another date: a broker sometimes books the tax of
//! a dividend on another day than the dividend, and a rule for that day and that entry's
//! description moves the tax to the dividend's day. Each rule records whether it was applied.
use vstd::prelude::*;

use crate::date::Date;
use crate::text::text_eq;

verus! {

/// One rule: the entry of `date` with `description` moves to `to_date`.
#[derive(Debug, Clone)]
pub struct TaxRemappingRule {
    pub date: Date,
    pub description: String,
    pub to_date: Date,
    pub used: bool,
}

pub struct RemapRuleView {
    pub date: (int, int, int),
    pub description: Seq<char>,
    pub to_date: (int, int, int),
    pub used: bool,
}

pub open spec fn day_of(d: Date) -> (int, int, int) {
    (d.y(), d.m(), d.d())
}

pub open spec fn rule_view(r: TaxRemappingRule) -> RemapRuleView {
    RemapRuleView { date: day_of(r.date), description: r.description@, to_date: day_of(r.to_date), used: r.used }
}

/// The configured rules, in the order they were added.
#[derive(Debug)]
pub struct TaxRemapping {
    rules: Vec<TaxRemappingRule>,
}

impl View for TaxRemapping {
    type V = Seq<RemapRuleView>;

    closed spec fn view(&self) -> Seq<RemapRuleView> {
        self.rules@.map_values(|r: TaxRemappingRule| rule_view(r))
    }
}

pub open spec fn rule_matches(r: RemapRuleView, date: (int, int, int), description: Seq<char>) -> bool {
    r.date == date && r.description == description
}

/// The first rule from `i` on for an entry, or the number of rules where there is none.
pub open spec fn rule_index_from(
    rules: Seq<RemapRuleView>,
    date: (int, int, int),
    description: Seq<char>,
    i: nat,
) -> nat
    decreases rules.len() - i,
{
    if i >= rules.len() {
        rules.len()
    } else if rule_matches(rules[i as int], date, description) {
        i
    } else {
        rule_index_from(rules, date, description, i + 1)
    }
}

pub open spec fn rule_index(rules: Seq<RemapRuleView>, date: (int, int, int), description: Seq<char>) -> nat {
    rule_index_from(rules, date, description, 0)
}

pub open spec fn has_rule(rules: Seq<RemapRuleView>, date: (int, int, int), description: Seq<char>) -> bool {
    rule_index(rules, date, description) < rules.len()
}

/// The day an entry is booked on: the rule's target day where a rule covers it, else its own.
pub open spec fn remapped_date(
    rules: Seq<RemapRuleView>,
    date: (int, int, int),
    description: Seq<char>,
) -> (int, int, int) {
    if has_rule(rules, date, description) {
        rules[rule_index(rules, date, description) as int].to_date
    } else {
        date
    }
}

/// The rules after an entry was booked: the rule that covers it, if any, is marked as applied.
pub open spec fn after_remap(
    rules: Seq<RemapRuleView>,
    date: (int, int, int),
    description: Seq<char>,
) -> Seq<RemapRuleView> {
    if has_rule(rules, date, description) {
        let i = rule_index(rules, date, description) as int;
        rules.update(i, RemapRuleView { used: true, ..rules[i] })
    } else {
        rules
    }
}

proof fn lemma_rule_index(rules: Seq<RemapRuleView>, date: (int, int, int), description: Seq<char>, s: nat, k: nat)
    requires
        s <= k <= rules.len(),
        forall|j: int| s <= j < k ==> !rule_matches(#[trigger] rules[j], date, description),
        k < rules.len() ==> rule_matches(rules[k as int], date, description),
    ensures
        rule_index_from(rules, date, description, s) == k,
    decreases k - s,
{
    if s < k {
        lemma_rule_index(rules, date, description, s + 1, k);
    }
}

impl TaxRemapping {
    /// No rules.
    pub fn new() -> (r: TaxRemapping)
        ensures
            r@ == Seq::<RemapRuleView>::empty(),
    {
        let r = TaxRemapping { rules: Vec::new() };
        proof {
            assert(r@ =~= Seq::<RemapRuleView>::empty());
        }
        r
    }

    /// The position of the rule for an entry, or the number of rules where there is none.
    fn find(&self, date: &Date, description: &str) -> (r: usize)
        ensures
            r == rule_index(self@, day_of(*date), description@),
    {
        let ghost rules = self@;
        let mut i: usize = 0;
        while i < self.rules.len()
            invariant
                rules == self@,
                i <= self.rules@.len(),
                forall|j: int| 0 <= j < i ==> !rule_matches(#[trigger] rules[j], day_of(*date), description@),
            decreases self.rules@.len() - i,
        {
            let rule = &self.rules[i];
            assert(rules[i as int] == rule_view(*rule));
            if rule.date.same_day(date) && text_eq(rule.description.as_str(), description) {
                proof {
                    lemma_rule_index(rules, day_of(*date), description@, 0, i as nat);
                }
                return i;
            }
            i = i + 1;
        }
        proof {
            lemma_rule_index(rules, day_of(*date), description@, 0, i as nat);
        }
        i
    }

    /// Add a rule; a second rule for the same day and description is refused.
    pub fn add(&mut self, date: Date, description: &str, to_date: Date) -> (r: Result<(), String>)
        ensures
            r is Ok <==> !has_rule(old(self)@, day_of(date), description@),
            r is Ok ==> final(self)@ == old(self)@.push(
                RemapRuleView { date: day_of(date), description: description@, to_date: day_of(to_date), used: false },
            ),
            r is Err ==> final(self)@ == old(self)@,
    {
        let i = self.find(&date, description);
        if i < self.rules.len() {
            return Err(<String as StringExecFns>::from_str("Duplicate tax remapping rule"));
        }
        let rule = TaxRemappingRule {
            date,
            description: <String as StringExecFns>::from_str(description),
            to_date,
            used: false,
        };
        let ghost before = self.rules@;
        self.rules.push(rule);
        proof {
            assert(self.rules@.map_values(|r: TaxRemappingRule| rule_view(r)) =~= before.map_values(
                |r: TaxRemappingRule| rule_view(r),
            ).push(rule_view(rule)));
        }
        Ok(())
    }

    /// The day to book an entry of `date` with `description` on, marking the rule that moves it
    /// as applied.
    pub fn map(&mut self, date: Date, description: &str) -> (r: Date)
        ensures
            day_of(r) == remapped_date(old(self)@, day_of(date), description@),
            final(self)@ == after_remap(old(self)@, day_of(date), description@),
    {
        let i = self.find(&date, description);
        if i < self.rules.len() {
            let ghost before = self.rules@;
            let current = &self.rules[i];
            let to_date = current.to_date;
            let rule = TaxRemappingRule {
                date: current.date,
                description: current.description.clone(),
                to_date,
                used: true,
            };
            self.rules.set(i, rule);
            proof {
                assert(self.rules@.map_values(|r: TaxRemappingRule| rule_view(r)) =~= before.map_values(
                    |r: TaxRemappingRule| rule_view(r),
                ).update(i as int, RemapRuleView { used: true, ..rule_view(before[i as int]) }));
            }
            to_date
        } else {
            date
        }
    }

    /// Whether every rule was applied.
    pub fn all_rules_used(&self) -> (r: bool)
        ensures
            r == forall|i: int| 0 <= i < self@.len() ==> #[trigger] self@[i].used,
    {
        let mut i: usize = 0;
        while i < self.rules.len()
            invariant
                i <= self.rules@.len(),
                forall|j: int| 0 <= j < i ==> #[trigger] self@[j].used,
            decreases self.rules@.len() - i,
        {
            assert(self@[i as int] == rule_view(self.rules@[i as int]));
            if !self.rules[i].used {
                assert(!self@[i as int].used);
                return false;
            }
            i = i + 1;
        }
        true
    }
}

} // verus!
