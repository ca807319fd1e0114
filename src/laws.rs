//! Properties of the emitted impl, proved over the model of a declaration.
use vstd::prelude::*;

use crate::emit::{
    arm_text, arms_text, body_text, header_text, impl_params, impl_predicates, impl_text,
    join, param_bound, param_bounds, param_text, shape_literal, variant_literal, write_call,
};
use crate::model::{DeclView, FieldKind, ParamView, ShapeView, VariantView};

verus! {

/// A unit struct `N` prints exactly `N`.
pub proof fn unit_struct_prints_name(d: DeclView)
    requires
        d.shape == ShapeView::Struct(FieldKind::Unit),
    ensures
        body_text(d) == write_call(d.name),
{
}

/// A struct `N` with named fields prints exactly `N{..}`, whatever its fields.
pub proof fn named_struct_prints_braces(d: DeclView)
    requires
        d.shape == ShapeView::Struct(FieldKind::Named),
    ensures
        body_text(d) == write_call(d.name + "{..}"@),
{
}

/// A struct `N` with positional fields prints exactly `N(..)`.
pub proof fn tuple_struct_prints_parens(d: DeclView)
    requires
        d.shape == ShapeView::Struct(FieldKind::Unnamed),
    ensures
        body_text(d) == write_call(d.name + "(..)"@),
{
}

/// A union `N` prints exactly `N`, whatever its fields.
pub proof fn union_prints_name(d: DeclView)
    requires
        d.shape == ShapeView::Union,
    ensures
        body_text(d) == write_call(d.name),
{
}

/// The emitted text depends on the declaration alone: two declarations with
/// the same model give the same text.
pub proof fn emission_is_deterministic(d1: DeclView, d2: DeclView)
    requires
        d1 == d2,
    ensures
        impl_text(d1) == impl_text(d2),
{
}

proof fn param_bounds_come_from_params(ps: Seq<ParamView>)
    ensures
        forall|k: int|
            #![trigger param_bounds(ps)[k]]
            0 <= k < param_bounds(ps).len() ==> exists|i: int|
                0 <= i < ps.len() && #[trigger] param_bound(ps[i]) == Some(
                    param_bounds(ps)[k],
                ),
    decreases ps.len(),
{
    if ps.len() > 0 {
        param_bounds_come_from_params(ps.drop_last());
        let prev = param_bounds(ps.drop_last());
        assert forall|k: int| #![trigger param_bounds(ps)[k]] 0 <= k < param_bounds(ps).len() implies exists|i: int|
            0 <= i < ps.len() && #[trigger] param_bound(ps[i]) == Some(
                param_bounds(ps)[k],
            ) by {
            if k < prev.len() {
                let i = choose|i: int|
                    0 <= i < ps.drop_last().len() && #[trigger] param_bound(ps.drop_last()[i])
                        == Some(prev[k]);
                assert(ps.drop_last()[i] == ps[i]);
            } else {
                assert(param_bound(ps[ps.len() - 1]) == Some(param_bounds(ps)[k]));
            }
        }
    }
}

proof fn param_bounds_keep_every_bound(ps: Seq<ParamView>)
    ensures
        forall|i: int|
            0 <= i < ps.len() && (#[trigger] param_bound(ps[i])) is Some ==> exists|k: int|
                0 <= k < param_bounds(ps).len() && Some(param_bounds(ps)[k]) == param_bound(
                    ps[i],
                ),
    decreases ps.len(),
{
    if ps.len() > 0 {
        param_bounds_keep_every_bound(ps.drop_last());
        let prev = param_bounds(ps.drop_last());
        assert forall|i: int| 0 <= i < ps.len() && (#[trigger] param_bound(ps[i])) is Some implies exists|k: int|
            0 <= k < param_bounds(ps).len() && Some(param_bounds(ps)[k]) == param_bound(
                ps[i],
            ) by {
            if i < ps.len() - 1 {
                assert(ps.drop_last()[i] == ps[i]);
                let k = choose|k: int|
                    0 <= k < prev.len() && Some(prev[k]) == param_bound(ps.drop_last()[i]);
                assert(param_bounds(ps)[k] == prev[k]);
            } else {
                assert(param_bounds(ps)[param_bounds(ps).len() - 1] == param_bound(
                    ps.last(),
                )->0);
            }
        }
    }
}

/// No capability is required of a parameter that the declaration did not
/// require: every predicate of the emitted `where` clause is the bounds
/// declared on one parameter, moved there whole, or a declared `where`
/// predicate; every declared bound is kept; and the parameter list names
/// each parameter without its bounds.
pub proof fn no_bound_is_added(d: DeclView)
    ensures
        forall|k: int|
            #![trigger impl_predicates(d)[k]]
            0 <= k < impl_predicates(d).len() ==> (exists|i: int|
                0 <= i < d.generics.len() && #[trigger] param_bound(d.generics[i]) == Some(
                    impl_predicates(d)[k],
                )) || (exists|j: int|
                0 <= j < d.where_predicates.len() && d.where_predicates[j]
                    == impl_predicates(d)[k]),
        forall|i: int|
            0 <= i < d.generics.len() && (#[trigger] param_bound(d.generics[i])) is Some
                ==> exists|k: int|
                0 <= k < impl_predicates(d).len() && Some(impl_predicates(d)[k]) == param_bound(
                    d.generics[i],
                ),
        forall|j: int|
            0 <= j < d.where_predicates.len() ==> impl_predicates(d)[param_bounds(
                d.generics,
            ).len() + j] == #[trigger] d.where_predicates[j],
        impl_params(d).len() == d.generics.len(),
        forall|i: int|
            0 <= i < d.generics.len() ==> #[trigger] impl_params(d)[i] == param_text(
                d.generics[i],
            ),
{
    param_bounds_come_from_params(d.generics);
    param_bounds_keep_every_bound(d.generics);
    let pb = param_bounds(d.generics);
    assert forall|k: int| #![trigger impl_predicates(d)[k]] 0 <= k < impl_predicates(d).len() implies (exists|i: int|
        0 <= i < d.generics.len() && #[trigger] param_bound(d.generics[i]) == Some(
            impl_predicates(d)[k],
        )) || (exists|j: int|
        0 <= j < d.where_predicates.len() && d.where_predicates[j] == impl_predicates(d)[k]) by {
        if k >= pb.len() {
            assert(d.where_predicates[k - pb.len()] == impl_predicates(d)[k]);
        } else {
            assert(impl_predicates(d)[k] == pb[k]);
        }
    }
    assert forall|i: int|
        0 <= i < d.generics.len() && (#[trigger] param_bound(d.generics[i])) is Some
            implies exists|k: int|
        0 <= k < impl_predicates(d).len() && Some(impl_predicates(d)[k]) == param_bound(
            d.generics[i],
        ) by {
        let k = choose|k: int| 0 <= k < pb.len() && Some(pb[k]) == param_bound(d.generics[i]);
        assert(impl_predicates(d)[k] == pb[k]);
    }
}

/// A type parameter's default is kept, as `T = Default`, in the parameter
/// list of the emitted impl.
pub proof fn default_is_kept(d: DeclView, i: int, ident: Seq<char>, t: Seq<char>)
    requires
        0 <= i < d.generics.len(),
        d.generics[i] matches ParamView::Type { ident: x, default: Some(y), .. } && x == ident
            && y == t,
    ensures
        impl_params(d)[i] == ident + " = "@ + t,
        header_text(d) == "impl<"@ + join(impl_params(d), ", "@) + "> std::fmt::Debug for "@
            + d.name + "<"@ + join(impl_params(d), ", "@) + "> where "@ + join(
            impl_predicates(d),
            ", "@,
        ),
{
}

/// A declaration without generic parameters gets an impl head with no
/// parameter list; its `where` predicates are carried over unchanged, and
/// without any there is no `where` clause at all.
pub proof fn plain_head_without_generics(d: DeclView)
    requires
        d.generics.len() == 0,
    ensures
        d.where_predicates.len() == 0 ==> header_text(d) == "impl std::fmt::Debug for "@ + d.name,
        d.where_predicates.len() > 0 ==> header_text(d) == "impl std::fmt::Debug for "@ + d.name
            + " where "@ + join(d.where_predicates, ", "@),
{
}

proof fn arms_are_flattened(name: Seq<char>, vs: Seq<VariantView>)
    ensures
        arms_text(name, vs) == vs.map_values(|v: VariantView| arm_text(name, v)).flatten_alt(),
    decreases vs.len(),
{
    if vs.len() > 0 {
        arms_are_flattened(name, vs.drop_last());
        assert(vs.map_values(|v: VariantView| arm_text(name, v)).drop_last() =~= vs.drop_last().map_values(
            |v: VariantView| arm_text(name, v),
        ));
    }
}

/// An enum's `fmt` is one `match` with exactly one arm per variant, in
/// declaration order, and no fallback arm: the arm of each variant matches it
/// whatever its fields hold and writes the variant's fixed text.
pub proof fn one_arm_per_variant(d: DeclView, vs: Seq<VariantView>)
    requires
        d.shape == ShapeView::Enum(vs),
    ensures
        body_text(d) == "match self { "@ + vs.map_values(|v: VariantView| arm_text(d.name, v)).flatten()
            + "}"@,
        forall|i: int|
            0 <= i < vs.len() ==> #[trigger] arm_text(d.name, vs[i]) == variant_literal(d.name, vs[i])
                + " => "@ + write_call(variant_literal(d.name, vs[i])) + ", "@,
        forall|i: int|
            0 <= i < vs.len() ==> #[trigger] variant_literal(d.name, vs[i]) == d.name + "::"@
                + shape_literal(vs[i].name, vs[i].fields),
{
    arms_are_flattened(d.name, vs);
    vs.map_values(|v: VariantView| arm_text(d.name, v)).lemma_flatten_and_flatten_alt_are_equivalent();
}

} // verus!
