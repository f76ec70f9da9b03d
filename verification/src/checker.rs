use crate::rule::{Rule, RuleModel};
use crate::rule_builder::RuleBuilder;
use vstd::prelude::*;

verus! {

broadcast use vstd::seq_lib::group_filter_ensures, Seq::lemma_filter_push, Seq::lemma_filter_len_push;

/// The models of a sequence of rules, element for element.
pub open spec fn models_of(rules: Seq<Rule>) -> Seq<RuleModel> {
    rules.map_values(|r: Rule| r@)
}

/// The failing rules of a sequence, in their original relative order.
pub open spec fn spec_failures(rules: Seq<RuleModel>) -> Seq<RuleModel> {
    rules.filter(|r: RuleModel| !r.result)
}

/// Whether a sequence of rules holds at least one failure.
pub open spec fn spec_has_failure(rules: Seq<RuleModel>) -> bool {
    spec_failures(rules).len() > 0
}

/// An ordered collection of finalized rules: sequence order equals
/// declaration order, with no deduplication and no reordering. A checker is
/// mutated only by appending finalized rules and is read once per
/// evaluation.
pub struct Checker {
    rules: Vec<Rule>,
}

impl View for Checker {
    type V = Seq<RuleModel>;

    closed spec fn view(&self) -> Seq<RuleModel> {
        models_of(self.rules@)
    }
}

impl Checker {
    pub fn new() -> (c: Self)
        ensures
            c@ == Seq::<RuleModel>::empty(),
    {
        let c = Checker { rules: Vec::new() };
        proof {
            assert(c@ =~= Seq::<RuleModel>::empty());
        }
        c
    }

    /// Returns a fresh, empty builder for declaring the next rule; the rule
    /// enters this checker only when the builder is finalized against it.
    pub fn add_rule(&self) -> (b: RuleBuilder)
        ensures
            b@ == crate::rule_builder::spec_empty_builder(),
    {
        RuleBuilder::new()
    }

    /// Appends a finalized rule at the end of the sequence.
    pub(crate) fn append_rule(&mut self, rule: Rule)
        ensures
            final(self)@ == old(self)@.push(rule@),
    {
        self.rules.push(rule);
        proof {
            assert(self@ =~= old(self)@.push(rule@));
        }
    }

    /// The failing rules: exactly the rules whose result is `false`, in the
    /// same relative order as they were declared.
    pub fn failures(&self) -> (r: Vec<Rule>)
        ensures
            models_of(r@) == spec_failures(self@),
    {
        let mut r: Vec<Rule> = Vec::new();
        let mut i: usize = 0;
        proof {
            assert(self@.take(0int) =~= Seq::<RuleModel>::empty());
            assert(models_of(r@) =~= spec_failures(self@.take(0int)));
        }
        while i < self.rules.len()
            invariant
                i <= self.rules@.len(),
                self@.len() == self.rules@.len(),
                models_of(r@) == spec_failures(self@.take(i as int)),
            decreases self.rules@.len() - i,
        {
            let ghost prev = models_of(r@);
            let ghost prefix = self@.take(i as int);
            let ghost elem = self@[i as int];
            if !self.rules[i].result {
                r.push(self.rules[i].clone());
                proof {
                    assert(models_of(r@) =~= prev.push(elem));
                }
            }
            proof {
                assert(self@.take(i + 1) =~= prefix.push(elem));
                assert(spec_failures(prefix.push(elem)) == if !elem.result {
                    spec_failures(prefix).push(elem)
                } else {
                    spec_failures(prefix)
                });
            }
            i += 1;
        }
        proof {
            assert(self@.take(self@.len() as int) =~= self@);
        }
        r
    }

    /// Evaluates the rules in declaration order: the callback receives a
    /// reference to every failing rule, exactly once each and never a
    /// passing one, and the result reports whether any rule failed.
    pub fn run<F: Fn(&Rule)>(&self, error_fn: F) -> (has_error: bool)
        requires
            forall|r: &Rule| call_requires(error_fn, (r,)),
        ensures
            has_error == spec_has_failure(self@),
    {
        let mut has_error = false;
        let mut i: usize = 0;
        proof {
            assert(self@.take(0int) =~= Seq::<RuleModel>::empty());
            assert(spec_failures(self@.take(0int)).len() == 0);
        }
        while i < self.rules.len()
            invariant
                forall|r: &Rule| call_requires(error_fn, (r,)),
                i <= self.rules@.len(),
                self@.len() == self.rules@.len(),
                has_error == (spec_failures(self@.take(i as int)).len() > 0),
            decreases self.rules@.len() - i,
        {
            let ghost prefix = self@.take(i as int);
            let ghost elem = self@[i as int];
            if !self.rules[i].result {
                error_fn(&self.rules[i]);
                has_error = true;
            }
            proof {
                assert(self@.take(i + 1) =~= prefix.push(elem));
                assert(spec_failures(prefix.push(elem)) == if !elem.result {
                    spec_failures(prefix).push(elem)
                } else {
                    spec_failures(prefix)
                });
            }
            i += 1;
        }
        proof {
            assert(self@.take(self@.len() as int) =~= self@);
        }
        has_error
    }
}

/// Order fidelity, stepwise: declaring one more rule appends it to the
/// failing subsequence exactly when it fails, and never disturbs the rules
/// already declared — so failures are reported in declaration order.
pub proof fn lemma_order_fidelity(rules: Seq<RuleModel>, r: RuleModel)
    ensures
        !r.result ==> spec_failures(rules.push(r)) == spec_failures(rules).push(r),
        r.result ==> spec_failures(rules.push(r)) == spec_failures(rules),
        forall|k: int|
            0 <= k < spec_failures(rules).len() ==> !(#[trigger] spec_failures(rules)[k]).result,
        spec_has_failure(rules) <==> exists|i: int| 0 <= i < rules.len() && !rules[i].result,
{
    assert(rules.push(r).drop_last() =~= rules);
    reveal(Seq::filter);
    if spec_has_failure(rules) && forall|i: int|
        0 <= i < rules.len() ==> (#[trigger] rules[i]).result {
        lemma_all_pass_no_failures(rules);
    }
    if exists|i: int| 0 <= i < rules.len() && !rules[i].result {
        let i = choose|i: int| 0 <= i < rules.len() && !rules[i].result;
        assert(spec_failures(rules).contains(rules[i]));
    }
}

/// A sequence in which every rule passes has no failures at all.
pub proof fn lemma_all_pass_no_failures(rules: Seq<RuleModel>)
    requires
        forall|i: int| 0 <= i < rules.len() ==> (#[trigger] rules[i]).result,
    ensures
        spec_failures(rules).len() == 0,
    decreases rules.len(),
{
    reveal(Seq::filter);
    if rules.len() > 0 {
        lemma_all_pass_no_failures(rules.drop_last());
    }
}

/// Idempotent evaluation: the verdict of a run is a function of the rule
/// sequence alone, and a run never mutates its checker, so two runs of the
/// same checker return the same answer.
pub proof fn lemma_run_idempotent(rules: Seq<RuleModel>, first: bool, second: bool)
    requires
        first == spec_has_failure(rules),
        second == spec_has_failure(rules),
    ensures
        first == second,
{
}

} // verus!
