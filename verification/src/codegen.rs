//! The generated code: the implementations that a plan is written out as.
//!
//! A plan becomes the body of `to_custom_tokens`, one statement for each
//! step; the plan of an enum becomes a `match` on `self`. The generic entry
//! point `to_tokens` forwards to it.

use vstd::prelude::*;
use crate::literal::{append_str_literal, str_literal};
use crate::plan::{
    arms, arms_of, locates, locates_in_fields, plan_of, shape_steps, struct_shape, struct_steps,
    tuple_shape, tuple_steps, unit_shape, unit_steps, Accessor, AccessorView, Arm, ArmView,
    Pattern, PatternView, Plan, PlanView, Step, StepView,
};
use crate::shape::{
    all_named, is_first_malformed, is_first_nameless, variants_well_formed_up_to, Body,
    Description, Field, Fields, ShapeError, Variant,
};
use crate::sink::{
    append, group_joined, joined_all, lemma_joined_text_of, rendered, text_of,
};

verus! {

broadcast use group_joined;

/// The code that reaches a field.
pub open spec fn accessor_code(accessor: AccessorView) -> Seq<Seq<char>> {
    match accessor {
        AccessorView::Member(member) => seq!["self"@, "."@, member],
        AccessorView::Binding(name) => seq![name],
    }
}

/// The statement of one step: a call of `append` with the fragment as a
/// string literal, or a call of `to_custom_tokens` on the field.
pub open spec fn step_code(step: StepView) -> Seq<Seq<char>> {
    match step {
        StepView::Append(fragment) => seq![
            "tokens"@,
            "."@,
            "append"@,
            "("@,
            str_literal(fragment),
            ")"@,
            ";"@,
        ],
        StepView::Delegate(accessor, _) => accessor_code(accessor) + seq![
            "."@,
            "to_custom_tokens"@,
            "("@,
            "tokens"@,
            ")"@,
            ";"@,
        ],
    }
}

/// The statements of a list of steps, in order.
pub open spec fn steps_code(steps: Seq<StepView>) -> Seq<Seq<char>>
    decreases steps.len(),
{
    if steps.len() == 0 {
        Seq::empty()
    } else {
        steps_code(steps.drop_last()) + step_code(steps.last())
    }
}

/// The bindings of a pattern: `ref` and the name for each, a comma between
/// two of them.
pub open spec fn bindings_code(names: Seq<Seq<char>>) -> Seq<Seq<char>>
    decreases names.len(),
{
    if names.len() == 0 {
        Seq::empty()
    } else if names.len() == 1 {
        seq!["ref"@, names.last()]
    } else {
        bindings_code(names.drop_last()) + seq![","@, "ref"@, names.last()]
    }
}

/// What follows the path in the pattern of an arm.
pub open spec fn pattern_code(pattern: PatternView) -> Seq<Seq<char>> {
    match pattern {
        PatternView::Unit => Seq::empty(),
        PatternView::Tuple(names) => seq!["("@] + bindings_code(names) + seq![")"@],
        PatternView::Named(names) => seq!["{"@] + bindings_code(names) + seq!["}"@],
    }
}

/// One arm of the `match`: a reference pattern on the variant's path, and
/// the statements of the arm's steps in a block.
pub open spec fn arm_code(arm: ArmView) -> Seq<Seq<char>> {
    seq!["&"@, arm.path] + pattern_code(arm.pattern) + seq!["=>"@, "{"@] + steps_code(arm.steps)
        + seq!["}"@, ","@]
}

/// The arms of the `match`, in order.
pub open spec fn arms_code(arms: Seq<ArmView>) -> Seq<Seq<char>>
    decreases arms.len(),
{
    if arms.len() == 0 {
        Seq::empty()
    } else {
        arms_code(arms.drop_last()) + arm_code(arms.last())
    }
}

/// The body of `to_custom_tokens` for a plan.
pub open spec fn plan_code(plan: PlanView) -> Seq<Seq<char>> {
    match plan {
        PlanView::Straight(steps) => steps_code(steps),
        PlanView::Match(arms) => seq!["match"@, "self"@, "{"@] + arms_code(arms) + seq!["}"@],
    }
}

/// The path of an item of the runtime library.
pub open spec fn library_path(item: Seq<char>) -> Seq<Seq<char>> {
    seq!["::"@, "self_tokenize_trait"@, "::"@, item]
}

/// The header of an implementation of one of the library's traits for the
/// described type. The three pieces of the generics stand where the type's
/// declaration had them.
pub open spec fn impl_header(description: Description, trait_name: Seq<char>) -> Seq<Seq<char>> {
    seq!["impl"@, description.generics.impl_generics@] + library_path(trait_name) + seq![
        "for"@,
        description.name@,
        description.generics.ty_generics@,
        description.generics.where_clause@,
    ]
}

/// The header of a method that takes `&self` and the sink.
pub open spec fn method_header(method: Seq<char>) -> Seq<Seq<char>> {
    seq!["fn"@, method, "("@, "&"@, "self"@, ","@] + seq!["tokens"@, ":"@, "&"@, "mut"@]
        + library_path("Tokens"@) + seq![")"@]
}

/// The implementation of the generic entry point: it forwards to
/// `to_custom_tokens`.
pub open spec fn forwarding_impl(description: Description) -> Seq<Seq<char>> {
    impl_header(description, "ToTokens"@) + seq!["{"@] + method_header("to_tokens"@) + seq![
        "{"@,
        "self"@,
        "."@,
        "to_custom_tokens"@,
        "("@,
    ] + seq!["tokens"@, ")"@, ";"@, "}"@, "}"@]
}

/// The implementation of the encoder, around the body given.
pub open spec fn encoder_impl(description: Description, body: Seq<Seq<char>>) -> Seq<Seq<char>> {
    impl_header(description, "ToCustomTokens"@) + seq!["{"@] + method_header(
        "to_custom_tokens"@,
    ) + seq!["{"@] + body + seq!["}"@, "}"@]
}

/// The implementations asked for: the generic entry point if
/// `to_tokens_impl`, then the encoder if `to_custom_tokens_impl`.
pub open spec fn generated(
    description: Description,
    to_tokens_impl: bool,
    to_custom_tokens_impl: bool,
    body: Seq<Seq<char>>,
) -> Seq<Seq<char>> {
    (if to_tokens_impl {
        forwarding_impl(description)
    } else {
        Seq::empty()
    }) + (if to_custom_tokens_impl {
        encoder_impl(description, body)
    } else {
        Seq::empty()
    })
}

/// The code generated for a well-formed description.
pub open spec fn generated_code(
    description: Description,
    to_tokens_impl: bool,
    to_custom_tokens_impl: bool,
) -> Seq<Seq<char>> {
    generated(description, to_tokens_impl, to_custom_tokens_impl, plan_code(plan_of(description)))
}

/// Writes the path of an item of the runtime library.
fn render_library_path(item: &str, tokens: &mut quote::Tokens)
    ensures
        rendered(*final(tokens)) == joined_all(rendered(*old(tokens)), library_path(item@)),
{
    append(tokens, "::");
    append(tokens, "self_tokenize_trait");
    append(tokens, "::");
    append(tokens, item);
}

/// Writes the header of an implementation.
fn render_impl_header(ast: &Description, trait_name: &str, tokens: &mut quote::Tokens)
    ensures
        rendered(*final(tokens)) == joined_all(
            rendered(*old(tokens)),
            impl_header(*ast, trait_name@),
        ),
{
    append(tokens, "impl");
    append(tokens, ast.generics.impl_generics.as_str());
    render_library_path(trait_name, tokens);
    append(tokens, "for");
    append(tokens, ast.name.as_str());
    append(tokens, ast.generics.ty_generics.as_str());
    append(tokens, ast.generics.where_clause.as_str());
}

/// Writes the header of a method.
fn render_method_header(method: &str, tokens: &mut quote::Tokens)
    ensures
        rendered(*final(tokens)) == joined_all(rendered(*old(tokens)), method_header(method@)),
{
    append(tokens, "fn");
    append(tokens, method);
    append(tokens, "(");
    append(tokens, "&");
    append(tokens, "self");
    append(tokens, ",");
    append(tokens, "tokens");
    append(tokens, ":");
    append(tokens, "&");
    append(tokens, "mut");
    render_library_path("Tokens", tokens);
    append(tokens, ")");
}

/// Writes the implementation of the generic entry point.
fn render_forwarding_impl(ast: &Description, tokens: &mut quote::Tokens)
    ensures
        rendered(*final(tokens)) == joined_all(rendered(*old(tokens)), forwarding_impl(*ast)),
{
    render_impl_header(ast, "ToTokens", tokens);
    append(tokens, "{");
    render_method_header("to_tokens", tokens);
    append(tokens, "{");
    append(tokens, "self");
    append(tokens, ".");
    append(tokens, "to_custom_tokens");
    append(tokens, "(");
    append(tokens, "tokens");
    append(tokens, ")");
    append(tokens, ";");
    append(tokens, "}");
    append(tokens, "}");
}

/// Writes the implementation of the encoder around the body given.
fn render_encoder_impl(ast: &Description, body: &str, tokens: &mut quote::Tokens)
    ensures
        rendered(*final(tokens)) == joined_all(
            rendered(*old(tokens)),
            encoder_impl(*ast, seq![body@]),
        ),
{
    render_impl_header(ast, "ToCustomTokens", tokens);
    append(tokens, "{");
    render_method_header("to_custom_tokens", tokens);
    append(tokens, "{");
    append(tokens, body);
    append(tokens, "}");
    append(tokens, "}");
}

/// Writes the implementations asked for around the body given: the generic
/// entry point, which forwards to the encoder, and the encoder itself.
pub fn generate_impl(
    ast: &Description,
    to_tokens_impl: bool,
    to_custom_tokens_impl: bool,
    body: quote::Tokens,
) -> (tokens: quote::Tokens)
    ensures
        rendered(tokens) == text_of(
            generated(*ast, to_tokens_impl, to_custom_tokens_impl, seq![rendered(body)]),
        ),
{
    let mut tokens = quote::Tokens::new();
    if to_tokens_impl {
        render_forwarding_impl(ast, &mut tokens);
    }
    if to_custom_tokens_impl {
        render_encoder_impl(ast, body.as_str(), &mut tokens);
    }
    tokens
}

/// Writes the code that reaches a field.
fn render_accessor(accessor: &Accessor, tokens: &mut quote::Tokens)
    ensures
        rendered(*final(tokens)) == joined_all(
            rendered(*old(tokens)),
            accessor_code(accessor.deep_view()),
        ),
{
    match accessor {
        Accessor::Member(member) => {
            append(tokens, "self");
            append(tokens, ".");
            append(tokens, member.as_str());
        },
        Accessor::Binding(name) => {
            append(tokens, name.as_str());
        },
    }
}

/// Writes the statement of one step.
fn render_step(step: &Step, tokens: &mut quote::Tokens)
    ensures
        rendered(*final(tokens)) == joined_all(rendered(*old(tokens)), step_code(step.deep_view())),
{
    match step {
        Step::Append(fragment) => {
            append(tokens, "tokens");
            append(tokens, ".");
            append(tokens, "append");
            append(tokens, "(");
            append_str_literal(tokens, fragment.as_str());
            append(tokens, ")");
            append(tokens, ";");
        },
        Step::Delegate(accessor, _) => {
            render_accessor(accessor, tokens);
            append(tokens, ".");
            append(tokens, "to_custom_tokens");
            append(tokens, "(");
            append(tokens, "tokens");
            append(tokens, ")");
            append(tokens, ";");
        },
    }
}

/// Writes the statements of a list of steps.
fn render_steps(steps: &Vec<Step>, tokens: &mut quote::Tokens)
    ensures
        rendered(*final(tokens)) == joined_all(
            rendered(*old(tokens)),
            steps_code(steps.deep_view()),
        ),
{
    let ghost start = rendered(*tokens);
    let ghost all = steps.deep_view();
    let mut i: usize = 0;
    assert(all.take(0) =~= Seq::empty());
    while i < steps.len()
        invariant
            i <= steps.len(),
            all == steps.deep_view(),
            rendered(*tokens) == joined_all(start, steps_code(all.take(i as int))),
        decreases steps.len() - i,
    {
        render_step(&steps[i], tokens);
        proof {
            assert(all[i as int] == steps@[i as int].deep_view());
            assert(all.take(i + 1).drop_last() =~= all.take(i as int));
            assert(all.take(i + 1).last() == all[i as int]);
        }
        i += 1;
    }
    assert(all.take(steps.len() as int) =~= all);
}

/// Writes the bindings of a pattern.
fn render_bindings(names: &Vec<String>, tokens: &mut quote::Tokens)
    ensures
        rendered(*final(tokens)) == joined_all(
            rendered(*old(tokens)),
            bindings_code(names.deep_view()),
        ),
{
    let ghost start = rendered(*tokens);
    let ghost all = names.deep_view();
    let mut i: usize = 0;
    assert(all.take(0) =~= Seq::empty());
    while i < names.len()
        invariant
            i <= names.len(),
            all == names.deep_view(),
            rendered(*tokens) == joined_all(start, bindings_code(all.take(i as int))),
        decreases names.len() - i,
    {
        if i > 0 {
            append(tokens, ",");
        }
        append(tokens, "ref");
        append(tokens, names[i].as_str());
        proof {
            assert(all[i as int] == names@[i as int]@);
            assert(all.take(i + 1).drop_last() =~= all.take(i as int));
            assert(all.take(i + 1).last() == all[i as int]);
        }
        i += 1;
    }
    assert(all.take(names.len() as int) =~= all);
}

/// Writes what follows the path in the pattern of an arm.
fn render_pattern(pattern: &Pattern, tokens: &mut quote::Tokens)
    ensures
        rendered(*final(tokens)) == joined_all(
            rendered(*old(tokens)),
            pattern_code(pattern.deep_view()),
        ),
{
    match pattern {
        Pattern::Unit => {},
        Pattern::Tuple(names) => {
            append(tokens, "(");
            render_bindings(names, tokens);
            append(tokens, ")");
        },
        Pattern::Named(names) => {
            append(tokens, "{");
            render_bindings(names, tokens);
            append(tokens, "}");
        },
    }
}

/// Writes one arm of the `match`.
fn render_arm(arm: &Arm, tokens: &mut quote::Tokens)
    ensures
        rendered(*final(tokens)) == joined_all(rendered(*old(tokens)), arm_code(arm.deep_view())),
{
    append(tokens, "&");
    append(tokens, arm.path.as_str());
    render_pattern(&arm.pattern, tokens);
    append(tokens, "=>");
    append(tokens, "{");
    render_steps(&arm.steps, tokens);
    append(tokens, "}");
    append(tokens, ",");
}

/// Writes the arms of the `match`.
fn render_arms(arms: &Vec<Arm>, tokens: &mut quote::Tokens)
    ensures
        rendered(*final(tokens)) == joined_all(rendered(*old(tokens)), arms_code(arms.deep_view())),
{
    let ghost start = rendered(*tokens);
    let ghost all = arms.deep_view();
    let mut i: usize = 0;
    assert(all.take(0) =~= Seq::empty());
    while i < arms.len()
        invariant
            i <= arms.len(),
            all == arms.deep_view(),
            rendered(*tokens) == joined_all(start, arms_code(all.take(i as int))),
        decreases arms.len() - i,
    {
        render_arm(&arms[i], tokens);
        proof {
            assert(all[i as int] == arms@[i as int].deep_view());
            assert(all.take(i + 1).drop_last() =~= all.take(i as int));
            assert(all.take(i + 1).last() == all[i as int]);
        }
        i += 1;
    }
    assert(all.take(arms.len() as int) =~= all);
}

/// Writes a plan out as the body of `to_custom_tokens`.
pub fn render_plan(plan: &Plan) -> (tokens: quote::Tokens)
    ensures
        rendered(tokens) == text_of(plan_code(plan.deep_view())),
{
    let mut tokens = quote::Tokens::new();
    match plan {
        Plan::Straight(steps) => {
            render_steps(steps, &mut tokens);
        },
        Plan::Match(arms) => {
            append(&mut tokens, "match");
            append(&mut tokens, "self");
            append(&mut tokens, "{");
            render_arms(arms, &mut tokens);
            append(&mut tokens, "}");
        },
    }
    tokens
}

/// A body gives the same text whether it is written into the
/// implementations fragment by fragment or as the one fragment of its text.
pub proof fn lemma_generated_flat(
    description: Description,
    to_tokens_impl: bool,
    to_custom_tokens_impl: bool,
    body: Seq<Seq<char>>,
)
    ensures
        text_of(generated(description, to_tokens_impl, to_custom_tokens_impl, seq![text_of(body)]))
            == text_of(generated(description, to_tokens_impl, to_custom_tokens_impl, body)),
{
    let before = (if to_tokens_impl {
        forwarding_impl(description)
    } else {
        Seq::empty()
    }) + impl_header(description, "ToCustomTokens"@) + seq!["{"@] + method_header(
        "to_custom_tokens"@,
    ) + seq!["{"@];
    if to_custom_tokens_impl {
        lemma_joined_text_of(joined_all(Seq::empty(), before), body);
        assert(generated(description, to_tokens_impl, to_custom_tokens_impl, body) =~= before
            + body + seq!["}"@, "}"@]);
        assert(generated(
            description,
            to_tokens_impl,
            to_custom_tokens_impl,
            seq![text_of(body)],
        ) =~= before + seq![text_of(body)] + seq!["}"@, "}"@]);
    }
}

/// Writes the implementations asked for, with the plan as the body of the
/// encoder.
fn implement(
    ast: &Description,
    to_tokens_impl: bool,
    to_custom_tokens_impl: bool,
    plan: &Plan,
) -> (tokens: quote::Tokens)
    ensures
        rendered(tokens) == text_of(
            generated(*ast, to_tokens_impl, to_custom_tokens_impl, plan_code(plan.deep_view())),
        ),
{
    let body = render_plan(plan);
    proof {
        lemma_generated_flat(
            *ast,
            to_tokens_impl,
            to_custom_tokens_impl,
            plan_code(plan.deep_view()),
        );
    }
    generate_impl(ast, to_tokens_impl, to_custom_tokens_impl, body)
}

/// The implementations for a unit struct: the encoder appends the type's
/// name.
pub fn expand_unit_struct(
    ast: &Description,
    to_tokens_impl: bool,
    to_custom_tokens_impl: bool,
) -> (tokens: quote::Tokens)
    ensures
        rendered(tokens) == text_of(
            generated(
                *ast,
                to_tokens_impl,
                to_custom_tokens_impl,
                steps_code(unit_steps(ast.name@)),
            ),
        ),
{
    implement(
        ast,
        to_tokens_impl,
        to_custom_tokens_impl,
        &Plan::Straight(unit_shape(ast.name.clone())),
    )
}

/// The implementations for a tuple struct: the encoder appends the type's
/// name, then the fields between round brackets, a separator between two of
/// them.
pub fn expand_tuple_struct(
    ast: &Description,
    fields: &[Field],
    to_tokens_impl: bool,
    to_custom_tokens_impl: bool,
) -> (tokens: quote::Tokens)
    ensures
        rendered(tokens) == text_of(
            generated(
                *ast,
                to_tokens_impl,
                to_custom_tokens_impl,
                steps_code(tuple_steps(true, ast.name@, fields@.len())),
            ),
        ),
{
    implement(
        ast,
        to_tokens_impl,
        to_custom_tokens_impl,
        &Plan::Straight(tuple_shape(true, ast.name.clone(), fields.len())),
    )
}

/// The implementations for a struct with named fields: the encoder appends
/// the type's name, then between braces each field as its name, a colon and
/// its value, a separator between two fields.
///
/// Where neither implementation is asked for, nothing is compiled and
/// nothing is written. Otherwise a slot without a name is an error: the
/// first such slot is reported.
pub fn expand_struct_struct(
    ast: &Description,
    fields: &[Field],
    to_tokens_impl: bool,
    to_custom_tokens_impl: bool,
) -> (expanded: Result<quote::Tokens, ShapeError>)
    ensures
        match expanded {
            Ok(tokens) => {
                &&& to_tokens_impl || to_custom_tokens_impl ==> all_named(fields@)
                &&& rendered(tokens) == text_of(
                    generated(
                        *ast,
                        to_tokens_impl,
                        to_custom_tokens_impl,
                        steps_code(struct_steps(true, ast.name@, fields@)),
                    ),
                )
            },
            Err(ShapeError::MissingFieldName { variant, field }) => {
                &&& to_tokens_impl || to_custom_tokens_impl
                &&& variant is None
                &&& is_first_nameless(fields@, field as int)
            },
        },
{
    if !to_tokens_impl && !to_custom_tokens_impl {
        return Ok(quote::Tokens::new());
    }
    match struct_shape(true, ast.name.clone(), fields) {
        Ok(steps) => Ok(
            implement(ast, to_tokens_impl, to_custom_tokens_impl, &Plan::Straight(steps)),
        ),
        Err(field) => Err(ShapeError::MissingFieldName { variant: None, field }),
    }
}

/// The implementations for an enum: the encoder matches on `self`, with one
/// arm for each variant.
///
/// Where neither implementation is asked for, nothing is compiled and
/// nothing is written. Otherwise a slot without a name in a named variant is
/// an error: the first such slot of the first such variant is reported.
pub fn expand_enum(
    ast: &Description,
    variants: &[Variant],
    to_tokens_impl: bool,
    to_custom_tokens_impl: bool,
) -> (expanded: Result<quote::Tokens, ShapeError>)
    ensures
        match expanded {
            Ok(tokens) => {
                &&& to_tokens_impl || to_custom_tokens_impl ==> variants_well_formed_up_to(
                    variants@,
                    variants@.len() as int,
                )
                &&& rendered(tokens) == text_of(
                    generated(
                        *ast,
                        to_tokens_impl,
                        to_custom_tokens_impl,
                        plan_code(
                            PlanView::Match(arms_of(ast.name@, variants@, variants@.len())),
                        ),
                    ),
                )
            },
            Err(ShapeError::MissingFieldName { variant, field }) => {
                &&& to_tokens_impl || to_custom_tokens_impl
                &&& variant matches Some(v)
                &&& is_first_malformed(variants@, v as int)
                &&& variants@[v as int].fields matches Fields::Named(slots)
                &&& is_first_nameless(slots@, field as int)
            },
        },
{
    if !to_tokens_impl && !to_custom_tokens_impl {
        return Ok(quote::Tokens::new());
    }
    match arms(ast.name.as_str(), variants) {
        Ok(arms) => Ok(implement(ast, to_tokens_impl, to_custom_tokens_impl, &Plan::Match(arms))),
        Err(error) => Err(error),
    }
}

/// The implementations for a struct, by the kind of its fields.
pub fn expand_struct(
    ast: &Description,
    data: &Fields,
    to_tokens_impl: bool,
    to_custom_tokens_impl: bool,
) -> (expanded: Result<quote::Tokens, ShapeError>)
    ensures
        match expanded {
            Ok(tokens) => {
                &&& to_tokens_impl || to_custom_tokens_impl ==> data.well_formed()
                &&& rendered(tokens) == text_of(
                    generated(
                        *ast,
                        to_tokens_impl,
                        to_custom_tokens_impl,
                        steps_code(shape_steps(true, ast.name@, *data)),
                    ),
                )
            },
            Err(error) => {
                &&& to_tokens_impl || to_custom_tokens_impl
                &&& locates_in_fields(*data, None, error)
            },
        },
{
    match data {
        Fields::Unit => Ok(expand_unit_struct(ast, to_tokens_impl, to_custom_tokens_impl)),
        Fields::Tuple(fields) => Ok(
            expand_tuple_struct(ast, fields.as_slice(), to_tokens_impl, to_custom_tokens_impl),
        ),
        Fields::Named(fields) => expand_struct_struct(
            ast,
            fields.as_slice(),
            to_tokens_impl,
            to_custom_tokens_impl,
        ),
    }
}

/// The implementations for a described type: the code of the generic entry
/// point if `to_tokens_impl`, then the code of the encoder if
/// `to_custom_tokens_impl`, with the plan of the description as its body.
///
/// Where neither is asked for, nothing is compiled and nothing is written.
/// Otherwise a description that is not well formed is an error, which names
/// the first slot that lacks its name.
pub fn expand_macro(
    ast: &Description,
    to_tokens_impl: bool,
    to_custom_tokens_impl: bool,
) -> (expanded: Result<quote::Tokens, ShapeError>)
    ensures
        match expanded {
            Ok(tokens) => {
                &&& to_tokens_impl || to_custom_tokens_impl ==> ast.well_formed()
                &&& rendered(tokens) == text_of(
                    generated_code(*ast, to_tokens_impl, to_custom_tokens_impl),
                )
            },
            Err(error) => {
                &&& to_tokens_impl || to_custom_tokens_impl
                &&& !ast.well_formed()
                &&& locates(*ast, error)
            },
        },
{
    match &ast.body {
        Body::Struct(data) => expand_struct(ast, data, to_tokens_impl, to_custom_tokens_impl),
        Body::Enum(variants) => expand_enum(
            ast,
            variants.as_slice(),
            to_tokens_impl,
            to_custom_tokens_impl,
        ),
    }
}

} // verus!
