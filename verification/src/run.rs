//! What a plan emits when it is run against the field values of a value, and
//! the proof that the plan of a description emits the literal expression of
//! every value that fits the description.

use vstd::prelude::*;
use crate::plan::{
    field_value_steps, named_accessor, named_steps, plan_of, positional_accessor, positional_steps,
    shape_steps, AccessorView, PlanView, StepView,
};
use crate::shape::{Field, Fields};
use crate::value::{
    custom_fragments, fragments, named_separated, separated, shaped_fragments, slot_name, Custom,
    Value,
};

verus! {

/// The fragments that one step emits.
pub open spec fn step_fragments(step: StepView, fields: Seq<Value>) -> Seq<Seq<char>> {
    match step {
        StepView::Append(fragment) => seq![fragment],
        StepView::Delegate(_, position) => fragments(fields[position as int]),
    }
}

/// The fragments that a list of steps emits, first step first.
pub open spec fn run(steps: Seq<StepView>, fields: Seq<Value>) -> Seq<Seq<char>>
    decreases steps.len(),
{
    if steps.len() == 0 {
        Seq::empty()
    } else {
        run(steps.drop_last(), fields) + step_fragments(steps.last(), fields)
    }
}

/// Whether every step that hands a field over names one of the first `arity`.
pub open spec fn in_range(steps: Seq<StepView>, arity: nat) -> bool {
    forall|i: int|
        0 <= i < steps.len() ==> ((#[trigger] steps[i]) matches StepView::Delegate(_, position)
            ==> position < arity)
}

/// The steps that a plan holds for a value of this variant.
pub open spec fn steps_for(plan: PlanView, variant: nat) -> Seq<StepView> {
    match plan {
        PlanView::Straight(steps) => steps,
        PlanView::Match(arms) => arms[variant as int].steps,
    }
}

/// Running a concatenation is running its parts in turn.
pub proof fn lemma_run_concat(first: Seq<StepView>, second: Seq<StepView>, fields: Seq<Value>)
    ensures
        run(first + second, fields) == run(first, fields) + run(second, fields),
    decreases second.len(),
{
    if second.len() == 0 {
        assert(first + second =~= first);
        assert(run(first, fields) + run(second, fields) =~= run(first, fields));
    } else {
        lemma_run_concat(first, second.drop_last(), fields);
        assert((first + second).drop_last() =~= first + second.drop_last());
        assert(run(first + second, fields) =~= run(first, fields) + run(second, fields));
    }
}

/// What the steps for the value of one field emit: the field's fragments,
/// and a separator unless the field is the last.
pub proof fn lemma_run_field_value(i: nat, n: nat, accessor: AccessorView, fields: Seq<Value>)
    ensures
        run(field_value_steps(i, n, accessor), fields) == fragments(fields[i as int]) + if i == n
            - 1 {
            Seq::<Seq<char>>::empty()
        } else {
            seq![","@]
        },
        in_range(field_value_steps(i, n, accessor), n) <==> i < n,
{
    reveal_with_fuel(run, 3);
    let steps = field_value_steps(i, n, accessor);
    assert(steps[0] == StepView::Delegate(accessor, i));
    if i == n - 1 {
        assert(run(steps, fields) =~= fragments(fields[i as int]) + Seq::<Seq<char>>::empty());
    } else {
        assert(run(steps, fields) =~= fragments(fields[i as int]) + seq![","@]);
    }
}

/// The steps for the first `k` fields of a tuple shape emit the fragments of
/// the first `k` field values, separated.
pub proof fn lemma_run_positional(of_self: bool, k: nat, fields: Seq<Value>)
    requires
        k <= fields.len(),
    ensures
        run(positional_steps(of_self, fields.len(), k), fields) == separated(fields, k),
        in_range(positional_steps(of_self, fields.len(), k), fields.len()),
    decreases k,
{
    let n = fields.len();
    if k > 0 {
        let i = (k - 1) as nat;
        let before = positional_steps(of_self, n, i);
        let last = field_value_steps(i, n, positional_accessor(of_self, i));
        lemma_run_positional(of_self, i, fields);
        lemma_run_field_value(i, n, positional_accessor(of_self, i), fields);
        lemma_run_concat(before, last, fields);
        assert(run(before + last, fields) =~= separated(fields, k));
        assert forall|j: int| 0 <= j < (before + last).len() implies ((#[trigger] (before
            + last)[j]) matches StepView::Delegate(_, position) ==> position < n) by {
            if j < before.len() {
                assert((before + last)[j] == before[j]);
            } else {
                assert((before + last)[j] == last[j - before.len()]);
            }
        }
    }
}

/// The steps for the first `k` fields of a named shape emit the names and
/// fragments of the first `k` fields, separated.
pub proof fn lemma_run_named(of_self: bool, slots: Seq<Field>, k: nat, fields: Seq<Value>)
    requires
        slots.len() == fields.len(),
        k <= fields.len(),
    ensures
        run(named_steps(of_self, slots, k), fields) == named_separated(slots, fields, k),
        in_range(named_steps(of_self, slots, k), fields.len()),
    decreases k,
{
    let n = fields.len();
    if k > 0 {
        let i = (k - 1) as nat;
        let name = slot_name(slots[i as int]);
        let before = named_steps(of_self, slots, i);
        let key = seq![StepView::Append(name), StepView::Append(":"@)];
        let value = field_value_steps(i, n, named_accessor(of_self, name));
        lemma_run_named(of_self, slots, i, fields);
        lemma_run_field_value(i, n, named_accessor(of_self, name), fields);
        lemma_run_concat(key, value, fields);
        lemma_run_concat(before, key + value, fields);
        assert(run(key, fields) =~= seq![name, ":"@]) by {
            reveal_with_fuel(run, 3);
        }
        assert(run(before + (key + value), fields) =~= named_separated(slots, fields, k));
        assert forall|j: int| 0 <= j < (before + (key + value)).len() implies ((#[trigger] (before
            + (key + value))[j]) matches StepView::Delegate(_, position) ==> position < n) by {
            if j < before.len() {
                assert((before + (key + value))[j] == before[j]);
            } else if j < before.len() + 2 {
                assert((before + (key + value))[j] == key[j - before.len()]);
            } else {
                assert((before + (key + value))[j] == value[j - before.len() - 2]);
            }
        }
    }
}

/// The steps of a shape emit the literal expression of any value with as
/// many field values as the shape has fields.
pub proof fn lemma_run_shape(of_self: bool, head: Seq<char>, shape: Fields, values: Seq<Value>)
    requires
        values.len() == shape.arity(),
    ensures
        run(shape_steps(of_self, head, shape), values) == shaped_fragments(head, shape, values),
        in_range(shape_steps(of_self, head, shape), values.len()),
{
    let steps = shape_steps(of_self, head, shape);
    match shape {
        Fields::Unit => {
            reveal_with_fuel(run, 2);
            assert(run(steps, values) =~= seq![head]);
        },
        Fields::Tuple(slots) => {
            let opening = seq![StepView::Append(head), StepView::Append("("@)];
            let middle = positional_steps(of_self, values.len(), values.len());
            let closing = seq![StepView::Append(")"@)];
            lemma_run_positional(of_self, values.len(), values);
            lemma_run_concat(opening, middle, values);
            lemma_run_concat(opening + middle, closing, values);
            assert(run(opening, values) =~= seq![head, "("@]) by {
                reveal_with_fuel(run, 3);
            }
            assert(run(closing, values) =~= seq![")"@]) by {
                reveal_with_fuel(run, 2);
            }
            lemma_in_range_wrapped(opening, middle, closing, values.len());
        },
        Fields::Named(slots) => {
            let opening = seq![StepView::Append(head), StepView::Append("{"@)];
            let middle = named_steps(of_self, slots@, values.len());
            let closing = seq![StepView::Append("}"@)];
            lemma_run_named(of_self, slots@, values.len(), values);
            lemma_run_concat(opening, middle, values);
            lemma_run_concat(opening + middle, closing, values);
            assert(run(opening, values) =~= seq![head, "{"@]) by {
                reveal_with_fuel(run, 3);
            }
            assert(run(closing, values) =~= seq!["}"@]) by {
                reveal_with_fuel(run, 2);
            }
            lemma_in_range_wrapped(opening, middle, closing, values.len());
        },
    }
}

/// Steps in range stay in range between steps that only append.
proof fn lemma_in_range_wrapped(
    opening: Seq<StepView>,
    middle: Seq<StepView>,
    closing: Seq<StepView>,
    arity: nat,
)
    requires
        in_range(middle, arity),
        forall|i: int| 0 <= i < opening.len() ==> (#[trigger] opening[i]) is Append,
        forall|i: int| 0 <= i < closing.len() ==> (#[trigger] closing[i]) is Append,
    ensures
        in_range(opening + middle + closing, arity),
{
    let all = opening + middle + closing;
    assert forall|j: int| 0 <= j < all.len() implies ((#[trigger] all[j]) matches StepView::Delegate(
        _,
        position,
    ) ==> position < arity) by {
        if j < opening.len() {
            assert(all[j] == opening[j]);
        } else if j < opening.len() + middle.len() {
            assert(all[j] == middle[j - opening.len()]);
        } else {
            assert(all[j] == closing[j - opening.len() - middle.len()]);
        }
    }
}

/// Compiling and then running gives the literal expression: for every value
/// of a user-defined type that fits its description, the steps that the plan
/// of the description holds for the value's variant emit the fragments of
/// the expression that one would write by hand, and hand over no field that
/// the value does not have.
pub proof fn lemma_plan_emits_literal(c: Custom)
    requires
        c.fits(),
    ensures
        run(steps_for(plan_of(c.description), c.variant as nat), c.fields@) == custom_fragments(c),
        in_range(steps_for(plan_of(c.description), c.variant as nat), c.fields@.len()),
{
    lemma_run_shape(c.description.body is Struct, c.head(), c.shape(), c.fields@);
}

} // verus!
