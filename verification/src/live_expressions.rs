//! Live expression weights, as applied to a rig frame by frame.
//!
//! The store maps canonical expression names to their current weights.
//! It is refilled from the expression mapper's output on every tracking
//! frame and read back by the sink that drives the rig's morph targets.

use vstd::prelude::*;
use crate::expression::{VrmExpression, ExpressionView, lookup_spec};
use crate::fixed::{UNIT, clamp_unit, clamp_unit_spec};

verus! {

/// The weight a run of expressions leaves under `name`: the clamped
/// weight of the last expression whose preset carries that name, or
/// zero when none does.
pub open spec fn weights_after(exprs: Seq<ExpressionView>, name: Seq<char>) -> int
    decreases exprs.len(),
{
    if exprs.len() == 0 {
        0
    } else if exprs.last().preset.as_str_spec() == name {
        clamp_unit_spec(exprs.last().weight)
    } else {
        weights_after(exprs.drop_last(), name)
    }
}

/// Current expression weights of a puppeted model, by canonical name.
///
/// A name that was never set reads as zero; every stored weight is
/// clamped to the unit interval.
#[derive(Clone, Debug)]
pub struct LiveExpressionWeights {
    weights: Vec<(String, i64)>,
}

impl LiveExpressionWeights {
    /// The weight stored under `name`, or zero.
    pub closed spec fn weight_of(self, name: Seq<char>) -> int {
        lookup_spec(self.weights@, name)
    }

    /// Every stored weight lies in the unit interval.
    pub closed spec fn wf(self) -> bool {
        forall|i: int|
            0 <= i < self.weights@.len() ==> 0 <= (#[trigger] self.weights@[i]).1 <= UNIT
    }

    /// An empty store: every name reads as zero.
    pub fn new() -> (w: LiveExpressionWeights)
        ensures
            w.wf(),
            forall|name: Seq<char>| #[trigger] w.weight_of(name) == 0,
    {
        LiveExpressionWeights { weights: Vec::new() }
    }

    /// Set the weight for an expression, clamped to the unit interval;
    /// every other name is unaffected.
    pub fn set_weight(&mut self, expression: &str, weight: i64)
        requires
            old(self).wf(),
        ensures
            final(self).wf(),
            final(self).weight_of(expression@) == clamp_unit_spec(weight as int),
            forall|other: Seq<char>|
                other != expression@ ==> #[trigger] final(self).weight_of(other) == old(
                    self,
                ).weight_of(other),
    {
        let ghost before = self.weights@;
        self.weights.push((expression.to_owned(), clamp_unit(weight)));
        proof {
            assert(self.weights@.drop_last() =~= before);
        }
    }

    /// The weight for an expression, or zero when it was never set.
    pub fn get_weight(&self, expression: &str) -> (weight: i64)
        ensures
            weight as int == self.weight_of(expression@),
            self.wf() ==> 0 <= weight <= UNIT,
    {
        let key: String = expression.to_owned();
        let mut i: usize = self.weights.len();
        proof {
            assert(self.weights@.take(self.weights@.len() as int) =~= self.weights@);
        }
        while i > 0
            invariant
                key@ == expression@,
                i <= self.weights@.len(),
                lookup_spec(self.weights@, expression@) == lookup_spec(
                    self.weights@.take(i as int),
                    expression@,
                ),
            decreases i,
        {
            i = i - 1;
            let entry = &self.weights[i];
            if entry.0 == key {
                proof {
                    assert(self.weights@.take(i as int + 1).last() == self.weights@[i as int]);
                }
                return entry.1;
            }
            proof {
                let t = self.weights@.take(i as int + 1);
                assert(t.last() == self.weights@[i as int]);
                assert(t.drop_last() =~= self.weights@.take(i as int));
            }
        }
        proof {
            assert(self.weights@.take(0) =~= Seq::<(String, i64)>::empty());
        }
        0
    }

    /// Forget all weights: every name reads as zero again.
    pub fn clear(&mut self)
        ensures
            final(self).wf(),
            forall|name: Seq<char>| #[trigger] final(self).weight_of(name) == 0,
    {
        self.weights = Vec::new();
    }

    /// Replace the stored weights with the given expressions: old
    /// weights are dropped, then each expression stores its weight
    /// under its preset's canonical name, in order.
    pub fn update_from_expressions(&mut self, expressions: &Vec<VrmExpression>)
        requires
            old(self).wf(),
        ensures
            final(self).wf(),
            forall|name: Seq<char>|
                #[trigger] final(self).weight_of(name) == weights_after(
                    expressions.deep_view(),
                    name,
                ),
    {
        self.clear();
        let ghost exprs = expressions.deep_view();
        let mut i: usize = 0;
        while i < expressions.len()
            invariant
                i <= expressions@.len(),
                exprs == expressions.deep_view(),
                exprs.len() == expressions@.len(),
                self.wf(),
                forall|name: Seq<char>|
                    #[trigger] self.weight_of(name) == weights_after(
                        exprs.take(i as int),
                        name,
                    ),
            decreases expressions@.len() - i,
    {
            let expr = &expressions[i];
            let ghost pre = *self;
            self.set_weight(expr.preset.as_str(), expr.weight);
            proof {
                let t = exprs.take(i as int + 1);
                assert(t.last() == exprs[i as int]);
                assert(t.drop_last() =~= exprs.take(i as int));
                assert forall|name: Seq<char>|
                    #[trigger] self.weight_of(name) == weights_after(t, name) by {
                    if name == exprs[i as int].preset.as_str_spec() {
                        assert(self.weight_of(name) == clamp_unit_spec(exprs[i as int].weight));
                    } else {
                        assert(self.weight_of(name) == pre.weight_of(name));
                    }
                }
            }
            i = i + 1;
        }
        proof {
            assert(exprs.take(exprs.len() as int) =~= exprs);
        }
    }
}

} // verus!
