//! Emission plans: what the shape compiler makes of a structural description.
//!
//! A plan is a list of steps. A step either appends a fixed fragment or hands
//! one field of the value over to the encoder. The plan of an enum holds one
//! arm for each variant.

use vstd::prelude::*;
use vstd::string::StringExecFns;
use crate::literal::{decimal, index_text};
use crate::shape::{
    all_named, first_nameless, is_first_malformed, is_first_nameless, variants_well_formed_up_to,
    Body, Description, Field, Fields, ShapeError, Variant,
};
use crate::sink::{append, group_joined, rendered};
use crate::value::{slot_name, variant_path};

verus! {

broadcast use group_joined;

/// How the generated code reaches one field of the value.
#[derive(Debug, PartialEq, Eq)]
pub enum Accessor {
    /// A member of `self`: a field's name, or its position in a tuple.
    Member(String),
    /// A name that the pattern of a match arm has bound.
    Binding(String),
}

/// An [`Accessor`], as specifications see it.
pub enum AccessorView {
    Member(Seq<char>),
    Binding(Seq<char>),
}

impl DeepView for Accessor {
    type V = AccessorView;

    open spec fn deep_view(&self) -> AccessorView {
        match self {
            Accessor::Member(name) => AccessorView::Member(name@),
            Accessor::Binding(name) => AccessorView::Binding(name@),
        }
    }
}

/// One instruction of a plan.
#[derive(Debug, PartialEq, Eq)]
pub enum Step {
    /// Append this fragment.
    Append(String),
    /// Encode the field at this position, which the generated code reaches
    /// through the accessor.
    Delegate(Accessor, usize),
}

/// A [`Step`], as specifications see it.
pub enum StepView {
    Append(Seq<char>),
    Delegate(AccessorView, nat),
}

impl DeepView for Step {
    type V = StepView;

    open spec fn deep_view(&self) -> StepView {
        match self {
            Step::Append(fragment) => StepView::Append(fragment@),
            Step::Delegate(accessor, position) => StepView::Delegate(
                accessor.deep_view(),
                *position as nat,
            ),
        }
    }
}

/// The names that the pattern of a match arm binds.
#[derive(Debug, PartialEq, Eq)]
pub enum Pattern {
    Unit,
    Tuple(Vec<String>),
    Named(Vec<String>),
}

/// A [`Pattern`], as specifications see it.
pub enum PatternView {
    Unit,
    Tuple(Seq<Seq<char>>),
    Named(Seq<Seq<char>>),
}

impl DeepView for Pattern {
    type V = PatternView;

    open spec fn deep_view(&self) -> PatternView {
        match self {
            Pattern::Unit => PatternView::Unit,
            Pattern::Tuple(names) => PatternView::Tuple(names.deep_view()),
            Pattern::Named(names) => PatternView::Named(names.deep_view()),
        }
    }
}

/// The match arm of one variant.
#[derive(Debug, PartialEq, Eq)]
pub struct Arm {
    /// The variant's path, `Type :: Variant`.
    pub path: String,
    pub pattern: Pattern,
    pub steps: Vec<Step>,
}

/// An [`Arm`], as specifications see it.
pub struct ArmView {
    pub path: Seq<char>,
    pub pattern: PatternView,
    pub steps: Seq<StepView>,
}

impl DeepView for Arm {
    type V = ArmView;

    open spec fn deep_view(&self) -> ArmView {
        ArmView {
            path: self.path@,
            pattern: self.pattern.deep_view(),
            steps: self.steps.deep_view(),
        }
    }
}

/// The plan of one type.
#[derive(Debug, PartialEq, Eq)]
pub enum Plan {
    /// The steps for a value of a struct.
    Straight(Vec<Step>),
    /// One arm for each variant of an enum, in declaration order.
    Match(Vec<Arm>),
}

/// A [`Plan`], as specifications see it.
pub enum PlanView {
    Straight(Seq<StepView>),
    Match(Seq<ArmView>),
}

impl DeepView for Plan {
    type V = PlanView;

    open spec fn deep_view(&self) -> PlanView {
        match self {
            Plan::Straight(steps) => PlanView::Straight(steps.deep_view()),
            Plan::Match(arms) => PlanView::Match(arms.deep_view()),
        }
    }
}

/// The name bound to the field at position `i` of a tuple variant.
pub open spec fn positional_binding(i: nat) -> Seq<char> {
    "_"@ + decimal(i as int)
}

/// The accessor of the field at position `i` of a tuple shape.
pub open spec fn positional_accessor(of_self: bool, i: nat) -> AccessorView {
    if of_self {
        AccessorView::Member(decimal(i as int))
    } else {
        AccessorView::Binding(positional_binding(i))
    }
}

/// The accessor of the field of this name in a named shape.
pub open spec fn named_accessor(of_self: bool, name: Seq<char>) -> AccessorView {
    if of_self {
        AccessorView::Member(name)
    } else {
        AccessorView::Binding(name)
    }
}

/// The steps for the value of one field among `n`: the field is handed over,
/// and a separator follows unless the field is the last.
pub open spec fn field_value_steps(i: nat, n: nat, accessor: AccessorView) -> Seq<StepView> {
    if i == n - 1 {
        seq![StepView::Delegate(accessor, i)]
    } else {
        seq![StepView::Delegate(accessor, i), StepView::Append(","@)]
    }
}

/// The steps for the first `k` fields of a tuple shape of `n` fields.
pub open spec fn positional_steps(of_self: bool, n: nat, k: nat) -> Seq<StepView>
    decreases k,
{
    if k == 0 {
        Seq::empty()
    } else {
        positional_steps(of_self, n, (k - 1) as nat) + field_value_steps(
            (k - 1) as nat,
            n,
            positional_accessor(of_self, (k - 1) as nat),
        )
    }
}

/// The steps for one field of a named shape: its name, a colon, its value.
pub open spec fn named_field_steps(of_self: bool, i: nat, n: nat, name: Seq<char>) -> Seq<
    StepView,
> {
    seq![StepView::Append(name), StepView::Append(":"@)] + field_value_steps(
        i,
        n,
        named_accessor(of_self, name),
    )
}

/// The steps for the first `k` fields of a named shape.
pub open spec fn named_steps(of_self: bool, slots: Seq<Field>, k: nat) -> Seq<StepView>
    decreases k,
{
    if k == 0 || k > slots.len() {
        Seq::empty()
    } else {
        named_steps(of_self, slots, (k - 1) as nat) + named_field_steps(
            of_self,
            (k - 1) as nat,
            slots.len(),
            slot_name(slots[k - 1]),
        )
    }
}

/// The steps for a value of a unit shape: its head alone.
pub open spec fn unit_steps(head: Seq<char>) -> Seq<StepView> {
    seq![StepView::Append(head)]
}

/// The steps for a value of a tuple shape of `n` fields: the head, and the
/// fields between round brackets.
pub open spec fn tuple_steps(of_self: bool, head: Seq<char>, n: nat) -> Seq<StepView> {
    seq![StepView::Append(head), StepView::Append("("@)] + positional_steps(of_self, n, n) + seq![
        StepView::Append(")"@),
    ]
}

/// The steps for a value of a named shape: the head, and the fields between
/// braces.
pub open spec fn struct_steps(of_self: bool, head: Seq<char>, slots: Seq<Field>) -> Seq<
    StepView,
> {
    seq![StepView::Append(head), StepView::Append("{"@)] + named_steps(
        of_self,
        slots,
        slots.len(),
    ) + seq![StepView::Append("}"@)]
}

/// The steps for a value written under `head` with these fields.
pub open spec fn shape_steps(of_self: bool, head: Seq<char>, fields: Fields) -> Seq<StepView> {
    match fields {
        Fields::Unit => unit_steps(head),
        Fields::Tuple(slots) => tuple_steps(of_self, head, slots@.len()),
        Fields::Named(slots) => struct_steps(of_self, head, slots@),
    }
}

/// The names that the pattern of a tuple variant of `n` fields binds:
/// `_0`, `_1`, and so on.
pub open spec fn positional_bindings(n: nat) -> Seq<Seq<char>> {
    Seq::new(n, |i: int| positional_binding(i as nat))
}

/// The names that the pattern of a named variant binds: those of its fields.
pub open spec fn named_bindings(slots: Seq<Field>) -> Seq<Seq<char>> {
    Seq::new(slots.len(), |i: int| slot_name(slots[i]))
}

/// The arm of a unit variant.
pub open spec fn unit_arm(owner: Seq<char>, variant: Seq<char>) -> ArmView {
    ArmView {
        path: variant_path(owner, variant),
        pattern: PatternView::Unit,
        steps: unit_steps(variant_path(owner, variant)),
    }
}

/// The arm of a tuple variant of `n` fields.
pub open spec fn tuple_arm(owner: Seq<char>, variant: Seq<char>, n: nat) -> ArmView {
    ArmView {
        path: variant_path(owner, variant),
        pattern: PatternView::Tuple(positional_bindings(n)),
        steps: tuple_steps(false, variant_path(owner, variant), n),
    }
}

/// The arm of a named variant.
pub open spec fn struct_arm(owner: Seq<char>, variant: Seq<char>, slots: Seq<Field>) -> ArmView {
    ArmView {
        path: variant_path(owner, variant),
        pattern: PatternView::Named(named_bindings(slots)),
        steps: struct_steps(false, variant_path(owner, variant), slots),
    }
}

/// The arm of one variant of the enum called `owner`.
pub open spec fn arm_of(owner: Seq<char>, variant: Variant) -> ArmView {
    match variant.fields {
        Fields::Unit => unit_arm(owner, variant.name@),
        Fields::Tuple(slots) => tuple_arm(owner, variant.name@, slots@.len()),
        Fields::Named(slots) => struct_arm(owner, variant.name@, slots@),
    }
}

/// The arms of the first `n` variants.
pub open spec fn arms_of(owner: Seq<char>, variants: Seq<Variant>, n: nat) -> Seq<ArmView> {
    Seq::new(n, |v: int| arm_of(owner, variants[v]))
}

/// The plan of a well-formed description.
pub open spec fn plan_of(description: Description) -> PlanView {
    match description.body {
        Body::Struct(fields) => PlanView::Straight(
            shape_steps(true, description.name@, fields),
        ),
        Body::Enum(variants) => PlanView::Match(
            arms_of(description.name@, variants@, variants@.len()),
        ),
    }
}

/// Whether `error` names the first slot of `fields` that has no name.
pub open spec fn locates_in_fields(
    fields: Fields,
    variant: Option<usize>,
    error: ShapeError,
) -> bool {
    &&& fields matches Fields::Named(slots)
    &&& error matches ShapeError::MissingFieldName { variant: v, field }
    &&& v == variant
    &&& is_first_nameless(slots@, field as int)
}

/// Whether `error` names the first slot of the description that has no name
/// where it needs one: in a struct, the first such field; in an enum, the
/// first such field of the first variant that has one.
pub open spec fn locates(description: Description, error: ShapeError) -> bool {
    match description.body {
        Body::Struct(fields) => locates_in_fields(fields, None, error),
        Body::Enum(variants) => {
            &&& error matches ShapeError::MissingFieldName { variant: Some(v), field }
            &&& is_first_malformed(variants@, v as int)
            &&& locates_in_fields(variants@[v as int].fields, Some(v), error)
        },
    }
}

/// The name bound to the field at position `i` of a tuple variant: an
/// underscore and the position.
pub fn get_ident_for_index(i: usize) -> (name: String)
    ensures
        name@ == positional_binding(i as nat),
{
    let mut name = String::new();
    name.append("_");
    name.append(index_text(i).as_str());
    assert(name@ =~= positional_binding(i as nat));
    name
}

/// The steps for the value of the field at `field_index` among
/// `fields_count`: the field is handed over to the encoder, and a separator
/// follows unless the field is the last.
pub fn expand_field_value(field_index: usize, fields_count: usize, accessor: Accessor) -> (steps:
    Vec<Step>)
    requires
        fields_count > 0,
    ensures
        steps.deep_view() == field_value_steps(
            field_index as nat,
            fields_count as nat,
            accessor.deep_view(),
        ),
{
    let mut steps: Vec<Step> = Vec::new();
    steps.push(Step::Delegate(accessor, field_index));
    if field_index != fields_count - 1 {
        steps.push(Step::Append(String::from_str(",")));
    }
    assert(steps.deep_view() =~= field_value_steps(
        field_index as nat,
        fields_count as nat,
        accessor.deep_view(),
    ));
    steps
}

/// The steps for the value of the field at `field_index` of a tuple struct,
/// which the generated code reaches as `self.0`, `self.1`, and so on.
pub fn expand_tuple_struct_anonymous_field_value(field_index: usize, fields_count: usize) -> (steps:
    Vec<Step>)
    requires
        fields_count > 0,
    ensures
        steps.deep_view() == field_value_steps(
            field_index as nat,
            fields_count as nat,
            positional_accessor(true, field_index as nat),
        ),
{
    expand_field_value(field_index, fields_count, Accessor::Member(index_text(field_index)))
}

/// The steps for the value of the field at `field_index` of a tuple variant,
/// which the arm's pattern binds as `_0`, `_1`, and so on.
pub fn expand_enum_anonymous_field_value(field_index: usize, fields_count: usize) -> (steps: Vec<
    Step,
>)
    requires
        fields_count > 0,
    ensures
        steps.deep_view() == field_value_steps(
            field_index as nat,
            fields_count as nat,
            positional_accessor(false, field_index as nat),
        ),
{
    expand_field_value(
        field_index,
        fields_count,
        Accessor::Binding(get_ident_for_index(field_index)),
    )
}

/// The name of a slot that has one.
fn name_of(field: &Field) -> (name: String)
    requires
        field.name is Some,
    ensures
        name@ == slot_name(*field),
{
    match &field.name {
        Some(name) => name.clone(),
        None => String::new(),
    }
}

/// The step for the key of a field of a named struct: its name is appended.
pub fn expand_struct_struct_named_field_key(field: &Field) -> (step: Step)
    requires
        field.name is Some,
    ensures
        step.deep_view() == StepView::Append(slot_name(*field)),
{
    Step::Append(name_of(field))
}

/// The steps for the value of a field of a named struct, which the
/// generated code reaches as a member of `self`.
pub fn expand_struct_struct_named_field_value(
    field_index: usize,
    fields_count: usize,
    field: &Field,
) -> (steps: Vec<Step>)
    requires
        fields_count > 0,
        field.name is Some,
    ensures
        steps.deep_view() == field_value_steps(
            field_index as nat,
            fields_count as nat,
            named_accessor(true, slot_name(*field)),
        ),
{
    expand_field_value(field_index, fields_count, Accessor::Member(name_of(field)))
}

/// The steps for one field of a named struct: its name, a colon, and the
/// steps for its value.
pub fn expand_struct_struct_named_field_key_and_value(
    field_index: usize,
    fields_count: usize,
    field: &Field,
) -> (steps: Vec<Step>)
    requires
        fields_count > 0,
        field.name is Some,
    ensures
        steps.deep_view() == named_field_steps(
            true,
            field_index as nat,
            fields_count as nat,
            slot_name(*field),
        ),
{
    let mut steps: Vec<Step> = Vec::new();
    steps.push(expand_struct_struct_named_field_key(field));
    steps.push(Step::Append(String::from_str(":")));
    let mut value = expand_struct_struct_named_field_value(field_index, fields_count, field);
    let ghost key = steps.deep_view();
    let ghost rest = value.deep_view();
    steps.append(&mut value);
    assert(steps.deep_view() =~= key + rest);
    assert(steps.deep_view() =~= named_field_steps(
        true,
        field_index as nat,
        fields_count as nat,
        slot_name(*field),
    ));
    steps
}

/// The steps for one field of a named variant: its name, a colon, and the
/// steps for its value, which the arm's pattern binds under the field's name.
pub fn expand_enum_named_field_value(
    field_index: usize,
    fields_count: usize,
    field: &Field,
) -> (steps: Vec<Step>)
    requires
        fields_count > 0,
        field.name is Some,
    ensures
        steps.deep_view() == named_field_steps(
            false,
            field_index as nat,
            fields_count as nat,
            slot_name(*field),
        ),
{
    let mut steps: Vec<Step> = Vec::new();
    steps.push(Step::Append(name_of(field)));
    steps.push(Step::Append(String::from_str(":")));
    let mut value = expand_field_value(
        field_index,
        fields_count,
        Accessor::Binding(name_of(field)),
    );
    let ghost key = steps.deep_view();
    let ghost rest = value.deep_view();
    steps.append(&mut value);
    assert(steps.deep_view() =~= key + rest);
    assert(steps.deep_view() =~= named_field_steps(
        false,
        field_index as nat,
        fields_count as nat,
        slot_name(*field),
    ));
    steps
}

/// The steps for the fields of a tuple shape of `fields_count` fields.
fn positional_fields(of_self: bool, fields_count: usize) -> (steps: Vec<Step>)
    ensures
        steps.deep_view() == positional_steps(of_self, fields_count as nat, fields_count as nat),
{
    let mut steps: Vec<Step> = Vec::new();
    let mut i: usize = 0;
    assert(steps.deep_view() =~= positional_steps(of_self, fields_count as nat, 0));
    while i < fields_count
        invariant
            i <= fields_count,
            steps.deep_view() == positional_steps(of_self, fields_count as nat, i as nat),
        decreases fields_count - i,
    {
        let mut value = if of_self {
            expand_tuple_struct_anonymous_field_value(i, fields_count)
        } else {
            expand_enum_anonymous_field_value(i, fields_count)
        };
        let ghost before = steps.deep_view();
        let ghost more = value.deep_view();
        steps.append(&mut value);
        assert(steps.deep_view() =~= before + more);
        i += 1;
    }
    steps
}

/// The steps for the fields of a named shape whose slots all have names.
fn named_fields(of_self: bool, fields: &[Field]) -> (steps: Vec<Step>)
    requires
        all_named(fields@),
    ensures
        steps.deep_view() == named_steps(of_self, fields@, fields@.len()),
{
    let mut steps: Vec<Step> = Vec::new();
    let mut i: usize = 0;
    assert(steps.deep_view() =~= named_steps(of_self, fields@, 0));
    while i < fields.len()
        invariant
            i <= fields.len(),
            all_named(fields@),
            steps.deep_view() == named_steps(of_self, fields@, i as nat),
        decreases fields.len() - i,
    {
        let mut value = if of_self {
            expand_struct_struct_named_field_key_and_value(i, fields.len(), &fields[i])
        } else {
            expand_enum_named_field_value(i, fields.len(), &fields[i])
        };
        let ghost before = steps.deep_view();
        let ghost more = value.deep_view();
        steps.append(&mut value);
        assert(steps.deep_view() =~= before + more);
        i += 1;
    }
    steps
}

/// The steps for the fields of a tuple struct, in declaration order.
pub fn expand_tuple_struct_fields(fields: &[Field]) -> (steps: Vec<Step>)
    ensures
        steps.deep_view() == positional_steps(true, fields@.len(), fields@.len()),
{
    positional_fields(true, fields.len())
}

/// The steps for the fields of a named shape, or the position of the first
/// slot that has no name.
fn checked_named_fields(of_self: bool, fields: &[Field]) -> (compiled: Result<Vec<Step>, usize>)
    ensures
        match compiled {
            Ok(steps) => all_named(fields@) && steps.deep_view() == named_steps(
                of_self,
                fields@,
                fields@.len(),
            ),
            Err(field) => is_first_nameless(fields@, field as int),
        },
{
    match first_nameless(fields) {
        Some(field) => Err(field),
        None => Ok(named_fields(of_self, fields)),
    }
}

/// The steps for the fields of a named struct, in declaration order. A slot
/// without a name is an error: the first such slot is reported.
pub fn expand_struct_struct_fields(fields: &[Field]) -> (compiled: Result<Vec<Step>, ShapeError>)
    ensures
        match compiled {
            Ok(steps) => all_named(fields@) && steps.deep_view() == named_steps(
                true,
                fields@,
                fields@.len(),
            ),
            Err(ShapeError::MissingFieldName { variant, field }) => variant is None
                && is_first_nameless(fields@, field as int),
        },
{
    match checked_named_fields(true, fields) {
        Ok(steps) => Ok(steps),
        Err(field) => Err(ShapeError::MissingFieldName { variant: None, field }),
    }
}

/// The steps of a unit shape written under `head`.
pub(crate) fn unit_shape(head: String) -> (steps: Vec<Step>)
    ensures
        steps.deep_view() == unit_steps(head@),
{
    let mut steps: Vec<Step> = Vec::new();
    steps.push(Step::Append(head));
    assert(steps.deep_view() =~= unit_steps(head@));
    steps
}

/// The steps of a tuple shape of `fields_count` fields written under `head`.
pub(crate) fn tuple_shape(of_self: bool, head: String, fields_count: usize) -> (steps: Vec<Step>)
    ensures
        steps.deep_view() == tuple_steps(of_self, head@, fields_count as nat),
{
    let mut steps: Vec<Step> = Vec::new();
    steps.push(Step::Append(head));
    steps.push(Step::Append(String::from_str("(")));
    let mut fields = positional_fields(of_self, fields_count);
    let ghost opening = steps.deep_view();
    let ghost middle = fields.deep_view();
    steps.append(&mut fields);
    assert(steps.deep_view() =~= opening + middle);
    steps.push(Step::Append(String::from_str(")")));
    assert(steps.deep_view() =~= tuple_steps(of_self, head@, fields_count as nat));
    steps
}

/// The steps of a named shape written under `head`, or the position of the
/// first slot that has no name.
pub(crate) fn struct_shape(of_self: bool, head: String, fields: &[Field]) -> (compiled: Result<
    Vec<Step>,
    usize,
>)
    ensures
        match compiled {
            Ok(steps) => all_named(fields@) && steps.deep_view() == struct_steps(
                of_self,
                head@,
                fields@,
            ),
            Err(field) => is_first_nameless(fields@, field as int),
        },
{
    match checked_named_fields(of_self, fields) {
        Err(field) => Err(field),
        Ok(mut fields_steps) => {
            let mut steps: Vec<Step> = Vec::new();
            steps.push(Step::Append(head));
            steps.push(Step::Append(String::from_str("{")));
            let ghost opening = steps.deep_view();
            let ghost middle = fields_steps.deep_view();
            steps.append(&mut fields_steps);
            assert(steps.deep_view() =~= opening + middle);
            steps.push(Step::Append(String::from_str("}")));
            assert(steps.deep_view() =~= struct_steps(of_self, head@, fields@));
            Ok(steps)
        },
    }
}

/// The steps for a value written under `head` with these fields, or the
/// position of the first slot that lacks the name it needs.
fn shape(of_self: bool, head: String, fields: &Fields) -> (compiled: Result<Vec<Step>, usize>)
    ensures
        match compiled {
            Ok(steps) => fields.well_formed() && steps.deep_view() == shape_steps(
                of_self,
                head@,
                *fields,
            ),
            Err(field) => fields matches Fields::Named(slots) && is_first_nameless(
                slots@,
                field as int,
            ),
        },
{
    match fields {
        Fields::Unit => Ok(unit_shape(head)),
        Fields::Tuple(slots) => Ok(tuple_shape(of_self, head, slots.len())),
        Fields::Named(slots) => struct_shape(of_self, head, slots.as_slice()),
    }
}

/// The path of a variant: the three fragments `Type`, `::`, `Variant`,
/// rendered as one text.
fn path_of(owner: &str, variant: &str) -> (path: String)
    ensures
        path@ == variant_path(owner@, variant@),
{
    let mut tokens = quote::Tokens::new();
    append(&mut tokens, owner);
    append(&mut tokens, "::");
    append(&mut tokens, variant);
    String::from_str(tokens.as_str())
}

/// The names `_0`, `_1`, ... that the pattern of a tuple variant binds.
fn bind_positions(fields_count: usize) -> (names: Vec<String>)
    ensures
        names.deep_view() == positional_bindings(fields_count as nat),
{
    let mut names: Vec<String> = Vec::new();
    let mut i: usize = 0;
    while i < fields_count
        invariant
            i <= fields_count,
            names@.len() == i,
            forall|j: int| 0 <= j < i ==> (#[trigger] names@[j])@ == positional_binding(j as nat),
        decreases fields_count - i,
    {
        names.push(get_ident_for_index(i));
        i += 1;
    }
    assert(names.deep_view() =~= positional_bindings(fields_count as nat));
    names
}

/// The names that the pattern of a named variant binds.
fn bind_names(fields: &[Field]) -> (names: Vec<String>)
    requires
        all_named(fields@),
    ensures
        names.deep_view() == named_bindings(fields@),
{
    let mut names: Vec<String> = Vec::new();
    let mut i: usize = 0;
    while i < fields.len()
        invariant
            i <= fields.len(),
            all_named(fields@),
            names@.len() == i,
            forall|j: int| 0 <= j < i ==> (#[trigger] names@[j])@ == slot_name(fields@[j]),
        decreases fields.len() - i,
    {
        names.push(name_of(&fields[i]));
        i += 1;
    }
    assert(names.deep_view() =~= named_bindings(fields@));
    names
}

/// The match arm of a unit variant: the pattern is the variant's path, and
/// the path is all that is appended.
pub fn expand_match_enum_unit_variant(struct_name: &str, variant_name: &str) -> (arm: Arm)
    ensures
        arm.deep_view() == unit_arm(struct_name@, variant_name@),
{
    let path = path_of(struct_name, variant_name);
    Arm { path: path.clone(), pattern: Pattern::Unit, steps: unit_shape(path) }
}

/// The match arm of a tuple variant: the pattern binds the fields as `_0`,
/// `_1`, ..., and the path is followed by the fields between round brackets.
pub fn expand_match_enum_tuple_variant(
    struct_name: &str,
    variant_name: &str,
    fields: &[Field],
) -> (arm: Arm)
    ensures
        arm.deep_view() == tuple_arm(struct_name@, variant_name@, fields@.len()),
{
    let path = path_of(struct_name, variant_name);
    Arm {
        path: path.clone(),
        pattern: Pattern::Tuple(bind_positions(fields.len())),
        steps: tuple_shape(false, path, fields.len()),
    }
}

/// The match arm of a named variant: the pattern binds the fields under
/// their names, and the path is followed by the fields between braces. A
/// slot without a name is an error: the first such slot is reported.
pub fn expand_match_enum_struct_variant(
    struct_name: &str,
    variant_name: &str,
    fields: &[Field],
) -> (compiled: Result<Arm, ShapeError>)
    ensures
        match compiled {
            Ok(arm) => all_named(fields@) && arm.deep_view() == struct_arm(
                struct_name@,
                variant_name@,
                fields@,
            ),
            Err(ShapeError::MissingFieldName { variant, field }) => variant is None
                && is_first_nameless(fields@, field as int),
        },
{
    let path = path_of(struct_name, variant_name);
    match struct_shape(false, path.clone(), fields) {
        Err(field) => Err(ShapeError::MissingFieldName { variant: None, field }),
        Ok(steps) => Ok(Arm { path, pattern: Pattern::Named(bind_names(fields)), steps }),
    }
}

/// The match arm of one variant, or the position of the first slot that
/// lacks the name it needs.
fn arm(owner: &str, variant: &Variant) -> (compiled: Result<Arm, usize>)
    ensures
        match compiled {
            Ok(arm) => variant.fields.well_formed() && arm.deep_view() == arm_of(owner@, *variant),
            Err(field) => variant.fields matches Fields::Named(slots) && is_first_nameless(
                slots@,
                field as int,
            ),
        },
{
    match &variant.fields {
        Fields::Unit => Ok(expand_match_enum_unit_variant(owner, variant.name.as_str())),
        Fields::Tuple(slots) => Ok(
            expand_match_enum_tuple_variant(owner, variant.name.as_str(), slots.as_slice()),
        ),
        Fields::Named(slots) => {
            match expand_match_enum_struct_variant(
                owner,
                variant.name.as_str(),
                slots.as_slice(),
            ) {
                Ok(arm) => Ok(arm),
                Err(ShapeError::MissingFieldName { variant: _, field }) => Err(field),
            }
        },
    }
}

/// The match arms of an enum, one for each variant in declaration order.
pub fn arms(owner: &str, variants: &[Variant]) -> (compiled: Result<Vec<Arm>, ShapeError>)
    ensures
        match compiled {
            Ok(arms) => variants_well_formed_up_to(variants@, variants@.len() as int)
                && arms.deep_view() == arms_of(owner@, variants@, variants@.len()),
            Err(ShapeError::MissingFieldName { variant, field }) => {
                &&& variant matches Some(v)
                &&& is_first_malformed(variants@, v as int)
                &&& variants@[v as int].fields matches Fields::Named(slots)
                &&& is_first_nameless(slots@, field as int)
            },
        },
{
    let mut arms: Vec<Arm> = Vec::new();
    let mut v: usize = 0;
    while v < variants.len()
        invariant
            v <= variants.len(),
            variants_well_formed_up_to(variants@, v as int),
            arms@.len() == v,
            forall|j: int|
                0 <= j < v ==> (#[trigger] arms@[j]).deep_view() == arm_of(owner@, variants@[j]),
        decreases variants.len() - v,
    {
        match arm(owner, &variants[v]) {
            Err(field) => {
                return Err(ShapeError::MissingFieldName { variant: Some(v), field });
            },
            Ok(arm) => {
                arms.push(arm);
            },
        }
        v += 1;
    }
    assert(arms.deep_view() =~= arms_of(owner@, variants@, variants@.len()));
    Ok(arms)
}

/// Compiles a description to its plan. A slot of a named shape that has no
/// name is an error: the first such slot is reported.
pub fn compile(description: &Description) -> (compiled: Result<Plan, ShapeError>)
    ensures
        match compiled {
            Ok(plan) => description.well_formed() && plan.deep_view() == plan_of(*description),
            Err(error) => !description.well_formed() && locates(*description, error),
        },
{
    match &description.body {
        Body::Struct(fields) => {
            match shape(true, description.name.clone(), fields) {
                Ok(steps) => Ok(Plan::Straight(steps)),
                Err(field) => Err(ShapeError::MissingFieldName { variant: None, field }),
            }
        },
        Body::Enum(variants) => {
            match arms(description.name.as_str(), variants.as_slice()) {
                Ok(arms) => Ok(Plan::Match(arms)),
                Err(error) => Err(error),
            }
        },
    }
}

/// The name that an error is reported under: the path of the variant that
/// the error names, where the description has it; else the type's name.
pub open spec fn culprit(description: Description, error: ShapeError) -> Seq<char> {
    match (description.body, error) {
        (Body::Enum(variants), ShapeError::MissingFieldName { variant: Some(v), field }) => if v
            < variants@.len() {
            variant_path(description.name@, variants@[v as int].name@)
        } else {
            description.name@
        },
        _ => description.name@,
    }
}

/// The diagnostic of an error: it names the field by its position, and the
/// type or variant that holds it.
pub open spec fn diagnostic(description: Description, error: ShapeError) -> Seq<char> {
    match error {
        ShapeError::MissingFieldName { variant, field } => "Expected identifier for field "@
            + decimal(field as int) + " of "@ + culprit(description, error),
    }
}

/// Writes the diagnostic of an error found in this description.
pub fn describe_error(description: &Description, error: &ShapeError) -> (message: String)
    ensures
        message@ == diagnostic(*description, *error),
{
    match error {
        ShapeError::MissingFieldName { variant, field } => {
            let owner = match (&description.body, variant) {
                (Body::Enum(variants), Some(v)) => {
                    if *v < variants.len() {
                        path_of(description.name.as_str(), variants[*v].name.as_str())
                    } else {
                        description.name.clone()
                    }
                },
                _ => description.name.clone(),
            };
            let mut message = String::from_str("Expected identifier for field ");
            message.append(index_text(*field).as_str());
            message.append(" of ");
            message.append(owner.as_str());
            assert(message@ =~= diagnostic(*description, *error));
            message
        },
    }
}

} // verus!
