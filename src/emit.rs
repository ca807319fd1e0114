use vstd::prelude::*;

use crate::model::{
    texts, DeclView, FieldKind, GenericParam, ParamView, Shape, ShapeView, TypeDecl, Variant,
    VariantView,
};

verus! {

/// `parts` written one after another with `sep` between each two of them.
pub open spec fn join(parts: Seq<Seq<char>>, sep: Seq<char>) -> Seq<char>
    decreases parts.len(),
{
    if parts.len() == 0 {
        Seq::empty()
    } else if parts.len() == 1 {
        parts[0]
    } else {
        join(parts.drop_last(), sep) + sep + parts.last()
    }
}

/// What a shallow `Debug` prints for a value named `name` whose fields are
/// written as `kind`: `name{..}`, `name(..)` or `name`. The same text is also
/// the pattern that matches such a value whatever its fields hold.
pub open spec fn shape_literal(name: Seq<char>, kind: FieldKind) -> Seq<char> {
    match kind {
        FieldKind::Named => name + "{..}"@,
        FieldKind::Unnamed => name + "(..)"@,
        FieldKind::Unit => name,
    }
}

/// The statement that writes `lit`, and nothing else, to the formatter `f`.
pub open spec fn write_call(lit: Seq<char>) -> Seq<char> {
    "f.write_str(\""@ + lit + "\")"@
}

/// The pattern of variant `v` of the enum `name`, which is also what a value
/// of that variant prints: `name::V{..}`, `name::V(..)` or `name::V`.
pub open spec fn variant_literal(name: Seq<char>, v: VariantView) -> Seq<char> {
    name + "::"@ + shape_literal(v.name, v.fields)
}

/// The match arm for variant `v` of the enum `name`.
pub open spec fn arm_text(name: Seq<char>, v: VariantView) -> Seq<char> {
    variant_literal(name, v) + " => "@ + write_call(variant_literal(name, v)) + ", "@
}

/// The match arms for the variants `vs`, in their order.
pub open spec fn arms_text(name: Seq<char>, vs: Seq<VariantView>) -> Seq<char>
    decreases vs.len(),
{
    if vs.len() == 0 {
        Seq::empty()
    } else {
        arms_text(name, vs.drop_last()) + arm_text(name, vs.last())
    }
}

/// The body of the generated `fmt`.
pub open spec fn body_text(d: DeclView) -> Seq<char> {
    match d.shape {
        ShapeView::Struct(kind) => write_call(shape_literal(d.name, kind)),
        ShapeView::Union => write_call(d.name),
        ShapeView::Enum(vs) => "match self { "@ + arms_text(d.name, vs) + "}"@,
    }
}

/// How a generic parameter is written in the generated impl: a lifetime or a
/// const parameter as it was declared, a type parameter by its name alone,
/// followed by its default where it has one.
pub open spec fn param_text(p: ParamView) -> Seq<char> {
    match p {
        ParamView::Lifetime { lifetime, .. } => lifetime,
        ParamView::Type { ident, default, .. } => match default {
            Some(t) => ident + " = "@ + t,
            None => ident,
        },
        ParamView::Const { text } => text,
    }
}

/// The `where` predicate that carries the bounds declared on parameter `p`,
/// if it declares any.
pub open spec fn param_bound(p: ParamView) -> Option<Seq<char>> {
    match p {
        ParamView::Lifetime { lifetime, bounds } => if bounds.len() == 0 {
            None
        } else {
            Some(lifetime + ": "@ + join(bounds, " + "@))
        },
        ParamView::Type { ident, bounds, .. } => if bounds.len() == 0 {
            None
        } else {
            Some(ident + ": "@ + join(bounds, " + "@))
        },
        ParamView::Const { .. } => None,
    }
}

/// The predicates carrying the bounds declared on the parameters `ps`, in
/// the parameters' order.
pub open spec fn param_bounds(ps: Seq<ParamView>) -> Seq<Seq<char>>
    decreases ps.len(),
{
    if ps.len() == 0 {
        Seq::empty()
    } else {
        match param_bound(ps.last()) {
            Some(b) => param_bounds(ps.drop_last()).push(b),
            None => param_bounds(ps.drop_last()),
        }
    }
}

/// The generic parameters of the generated impl, each as text.
pub open spec fn impl_params(d: DeclView) -> Seq<Seq<char>> {
    d.generics.map_values(|p: ParamView| param_text(p))
}

/// The predicates of the generated impl's `where` clause: the bounds moved
/// off the parameters, then the declared `where` predicates.
pub open spec fn impl_predicates(d: DeclView) -> Seq<Seq<char>> {
    param_bounds(d.generics) + d.where_predicates
}

/// The head of the generated impl, up to its opening brace. Without generic
/// parameters it has no parameter list, and a `where` clause only where the
/// declaration has `where` predicates.
pub open spec fn header_text(d: DeclView) -> Seq<char> {
    if d.generics.len() == 0 {
        if d.where_predicates.len() == 0 {
            "impl std::fmt::Debug for "@ + d.name
        } else {
            "impl std::fmt::Debug for "@ + d.name + " where "@ + join(d.where_predicates, ", "@)
        }
    } else {
        "impl<"@ + join(impl_params(d), ", "@) + "> std::fmt::Debug for "@ + d.name + "<"@
            + join(impl_params(d), ", "@) + "> where "@ + join(impl_predicates(d), ", "@)
    }
}

/// The signature of the generated `fmt`, up to its opening brace.
pub open spec fn fmt_signature() -> Seq<char> {
    "fn fmt(&self, f: &mut std::fmt::Formatter<'_>) -> std::fmt::Result"@
}

/// The whole generated impl.
pub open spec fn impl_text(d: DeclView) -> Seq<char> {
    header_text(d) + " { "@ + fmt_signature() + " { "@ + body_text(d) + " } }"@
}

/// Writes `parts` one after another with `sep` between each two of them.
fn join_text(parts: &Vec<String>, sep: &str) -> (r: String)
    ensures
        r@ == join(texts(parts@), sep@),
{
    let ghost t = texts(parts@);
    let mut r = String::new();
    let mut i: usize = 0;
    while i < parts.len()
        invariant
            i <= parts.len(),
            t == texts(parts@),
            r@ == join(t.take(i as int), sep@),
        decreases parts.len() - i,
    {
        proof {
            assert(t.take(i + 1).drop_last() =~= t.take(i as int));
        }
        if i > 0 {
            r.append(sep);
        } else {
            assert(r@ + t[0] =~= t[0]);
        }
        r.append(parts[i].as_str());
        i += 1;
    }
    assert(t.take(parts.len() as int) =~= t);
    r
}

/// Executable form of [`shape_literal`].
fn shape_literal_text(name: &String, kind: FieldKind) -> (r: String)
    ensures
        r@ == shape_literal(name@, kind),
{
    let mut r = name.clone();
    match kind {
        FieldKind::Named => r.append("{..}"),
        FieldKind::Unnamed => r.append("(..)"),
        FieldKind::Unit => {},
    }
    r
}

/// Executable form of [`write_call`].
fn write_call_text(lit: &String) -> (r: String)
    ensures
        r@ == write_call(lit@),
{
    let mut r = String::new();
    r.append("f.write_str(\"");
    r.append(lit.as_str());
    r.append("\")");
    assert(r@ =~= write_call(lit@));
    r
}

/// Executable form of [`arm_text`].
fn arm(name: &String, v: &Variant) -> (r: String)
    ensures
        r@ == arm_text(name@, v@),
{
    let mut pat = name.clone();
    pat.append("::");
    let lit = shape_literal_text(&v.name, v.fields);
    pat.append(lit.as_str());
    assert(pat@ =~= variant_literal(name@, v@));
    let call = write_call_text(&pat);
    let mut r = pat;
    r.append(" => ");
    r.append(call.as_str());
    r.append(", ");
    r
}

/// Executable form of [`body_text`].
fn body(d: &TypeDecl) -> (r: String)
    ensures
        r@ == body_text(d@),
{
    match &d.shape {
        Shape::Struct(kind) => {
            let lit = shape_literal_text(&d.name, *kind);
            write_call_text(&lit)
        },
        Shape::Union => write_call_text(&d.name),
        Shape::Enum(vs) => {
            let ghost m = vs@.map_values(|v: Variant| v@);
            let mut r = String::new();
            r.append("match self { ");
            let ghost start = r@;
            let mut i: usize = 0;
            assert(arms_text(d.name@, m.take(0)) =~= Seq::<char>::empty());
            assert(r@ =~= start + arms_text(d.name@, m.take(0)));
            while i < vs.len()
                invariant
                    i <= vs.len(),
                    m == vs@.map_values(|v: Variant| v@),
                    start == "match self { "@,
                    r@ == start + arms_text(d.name@, m.take(i as int)),
                decreases vs.len() - i,
            {
                let a = arm(&d.name, &vs[i]);
                r.append(a.as_str());
                proof {
                    assert(m.take(i + 1).drop_last() =~= m.take(i as int));
                    assert(r@ =~= start + arms_text(d.name@, m.take(i + 1)));
                }
                i += 1;
            }
            assert(m.take(vs.len() as int) =~= m);
            r.append("}");
            r
        },
    }
}

/// Executable form of [`param_text`].
fn param(p: &GenericParam) -> (r: String)
    ensures
        r@ == param_text(p@),
{
    match p {
        GenericParam::Lifetime { lifetime, .. } => lifetime.clone(),
        GenericParam::Type { ident, default, .. } => {
            let mut r = ident.clone();
            match default {
                Some(t) => {
                    r.append(" = ");
                    r.append(t.as_str());
                },
                None => {},
            }
            r
        },
        GenericParam::Const { text } => text.clone(),
    }
}

/// `subject: b1 + b2 + ...` for the bounds `bounds`.
fn bound_predicate(subject: &String, bounds: &Vec<String>) -> (r: String)
    ensures
        r@ == subject@ + ": "@ + join(texts(bounds@), " + "@),
{
    let mut r = subject.clone();
    r.append(": ");
    let b = join_text(bounds, " + ");
    r.append(b.as_str());
    r
}

/// Executable form of [`param_bound`].
fn param_bound_text(p: &GenericParam) -> (r: Option<String>)
    ensures
        r matches Some(b) ==> param_bound(p@) == Some(b@),
        r is None ==> param_bound(p@) is None,
{
    match p {
        GenericParam::Lifetime { lifetime, bounds } => if bounds.len() == 0 {
            None
        } else {
            Some(bound_predicate(lifetime, bounds))
        },
        GenericParam::Type { ident, bounds, .. } => if bounds.len() == 0 {
            None
        } else {
            Some(bound_predicate(ident, bounds))
        },
        GenericParam::Const { .. } => None,
    }
}

/// Executable form of [`header_text`].
fn header(d: &TypeDecl) -> (r: String)
    ensures
        r@ == header_text(d@),
{
    let mut r = String::new();
    if d.generics.len() == 0 {
        r.append("impl std::fmt::Debug for ");
        r.append(d.name.as_str());
        if d.where_predicates.len() > 0 {
            r.append(" where ");
            let qs = join_text(&d.where_predicates, ", ");
            r.append(qs.as_str());
        }
        assert(r@ =~= header_text(d@));
        return r;
    }
    let ghost g = d@.generics;
    let mut params: Vec<String> = Vec::new();
    let mut preds: Vec<String> = Vec::new();
    let mut i: usize = 0;
    while i < d.generics.len()
        invariant
            i <= d.generics.len(),
            g == d@.generics,
            texts(params@) =~= g.take(i as int).map_values(|p: ParamView| param_text(p)),
            texts(preds@) =~= param_bounds(g.take(i as int)),
        decreases d.generics.len() - i,
    {
        let ghost old_params = params@;
        let ghost old_preds = preds@;
        params.push(param(&d.generics[i]));
        match param_bound_text(&d.generics[i]) {
            Some(b) => preds.push(b),
            None => {},
        }
        proof {
            assert(g[i as int] == d.generics@[i as int]@);
            assert(texts(params@) =~= texts(old_params).push(param_text(g[i as int])));
            assert(texts(old_preds.push(preds@.last())) =~= texts(old_preds).push(preds@.last()@));
            assert(g.take(i + 1).drop_last() =~= g.take(i as int));
            assert(g.take(i + 1).last() == g[i as int]);
            assert(texts(params@) =~= g.take(i + 1).map_values(|p: ParamView| param_text(p)));
            assert(texts(preds@) =~= param_bounds(g.take(i + 1)));
        }
        i += 1;
    }
    assert(g.take(d.generics.len() as int) =~= g);
    let mut j: usize = 0;
    while j < d.where_predicates.len()
        invariant
            j <= d.where_predicates.len(),
            g == d@.generics,
            texts(params@) =~= impl_params(d@),
            texts(preds@) =~= param_bounds(g) + texts(d.where_predicates@).take(j as int),
        decreases d.where_predicates.len() - j,
    {
        let ghost old_preds = preds@;
        preds.push(d.where_predicates[j].clone());
        proof {
            let w = texts(d.where_predicates@);
            assert(texts(preds@) =~= texts(old_preds).push(w[j as int]));
            assert(w.take(j + 1) =~= w.take(j as int).push(w[j as int]));
        }
        j += 1;
    }
    assert(texts(preds@) =~= impl_predicates(d@));
    let ps = join_text(&params, ", ");
    r.append("impl<");
    r.append(ps.as_str());
    r.append("> std::fmt::Debug for ");
    r.append(d.name.as_str());
    r.append("<");
    r.append(ps.as_str());
    r.append("> where ");
    let qs = join_text(&preds, ", ");
    r.append(qs.as_str());
    assert(r@ =~= header_text(d@));
    r
}

/// Emits the source text of a shallow `Debug` impl for the declaration `d`.
///
/// The impl is generic over exactly the parameters of `d`, in their order;
/// bounds declared on a parameter move to its `where` clause, followed by
/// the declared `where` predicates, and no `Debug` bound is added. Its `fmt`
/// writes one fixed text per shape or variant and never a field value.
pub fn derive_shallow_debug(d: &TypeDecl) -> (r: String)
    ensures
        r@ == impl_text(d@),
{
    let mut r = header(d);
    r.append(" { ");
    r.append("fn fmt(&self, f: &mut std::fmt::Formatter<'_>) -> std::fmt::Result");
    r.append(" { ");
    let b = body(d);
    r.append(b.as_str());
    r.append(" } }");
    assert(r@ =~= impl_text(d@));
    r
}

} // verus!
