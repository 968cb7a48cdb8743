//! The generator proper: from a [`TypeDeclaration`] it synthesizes the
//! source text of that type's `DeepClone` implementation.
//!
//! The intended output is fixed, character for character, by the spec
//! functions in this module ([`impl_text`] and its parts); the executable
//! synthesizers are proved to produce exactly that text. Everything is
//! emitted in declaration order: no field, variant or parameter is ever
//! reordered, deduplicated or dropped.

use vstd::prelude::*;
use vstd::string::StringExecFns;
use crate::decl::{BodyShape, FieldsShape, Generics, TypeDeclaration, VariantDecl};
use crate::text::{contains_at, contains_seq, decimal, join, join_strings, push_decimal, string_views};

verus! {

// ---------------------------------------------------------------------------
// The intended text, as spec functions.
// ---------------------------------------------------------------------------

/// The borrowed generic parameter list, part by part: every lifetime
/// parameter, then every type parameter, all in declaration order and
/// unchanged.
pub open spec fn borrowed_parts(g: Generics) -> Seq<Seq<char>> {
    string_views(g.lifetime_params@) + string_views(g.type_params@)
}

/// The borrowed generic parameter list as text: nothing at all when there
/// are no parameters, otherwise the parts in angle brackets.
pub open spec fn borrowed_text(g: Generics) -> Seq<char> {
    if borrowed_parts(g).len() == 0 {
        Seq::empty()
    } else {
        "<"@ + join(borrowed_parts(g), ", "@) + ">"@
    }
}

/// The bound clause, part by part: one injected capability requirement per
/// type parameter, then the original `where` predicates, in declaration
/// order.
pub open spec fn bound_parts(g: Generics) -> Seq<Seq<char>> {
    g.type_params@.map_values(|t: String| t@ + ": DeepClone"@) + string_views(g.where_predicates@)
}

/// The bound clause as text: nothing at all when there is no part.
pub open spec fn bound_text(g: Generics) -> Seq<char> {
    if bound_parts(g).len() == 0 {
        Seq::empty()
    } else {
        " where "@ + join(bound_parts(g), ", "@)
    }
}

/// The owned generic parameter list, part by part: one fully static
/// lifetime marker per original lifetime parameter (every lifetime is
/// erased identically), then the owned-output projection of every type
/// parameter.
pub open spec fn owned_parts(g: Generics) -> Seq<Seq<char>> {
    Seq::new(g.lifetime_params@.len(), |i: int| "'static"@)
        + g.type_params@.map_values(|t: String| t@ + "::DeepCloned"@)
}

/// The owned generic parameter list as text: nothing at all when there are
/// no parameters, otherwise the parts in angle brackets.
pub open spec fn owned_text(g: Generics) -> Seq<char> {
    if owned_parts(g).len() == 0 {
        Seq::empty()
    } else {
        "<"@ + join(owned_parts(g), ", "@) + ">"@
    }
}

/// The reconstruction of one named field of a struct body: the owned value
/// is obtained by invoking the transfer operation on the field access.
pub open spec fn struct_named_part(f: Seq<char>) -> Seq<char> {
    f + ": self."@ + f + ".deep_clone()"@
}

/// The reconstruction of one positional field of a struct body, addressed
/// by its numeric position.
pub open spec fn struct_positional_part(i: int) -> Seq<char> {
    "self."@ + decimal(i as nat) + ".deep_clone()"@
}

/// The struct-body reconstructions of a list of named fields, one per
/// field, in declaration order.
pub open spec fn named_body_parts(fields: Seq<String>) -> Seq<Seq<char>> {
    string_views(fields).map_values(|f: Seq<char>| struct_named_part(f))
}

/// The struct-body reconstructions of `n` positional fields, one per
/// position, in order.
pub open spec fn positional_body_parts(n: int) -> Seq<Seq<char>> {
    Seq::new(n as nat, |i: int| struct_positional_part(i))
}

/// The parts of a struct body, one per field, in declaration order. A unit
/// shape has no parts.
pub open spec fn struct_body_parts(shape: FieldsShape) -> Seq<Seq<char>> {
    match shape {
        FieldsShape::Named(fields) => named_body_parts(fields@),
        FieldsShape::Positional(n) => positional_body_parts(n as int),
        FieldsShape::Unit => Seq::empty(),
    }
}

/// The reconstruction expression for a struct body. A unit shape
/// reconstructs as the bare type name, with no transfer invocation at all.
pub open spec fn struct_body_text(name: Seq<char>, shape: FieldsShape) -> Seq<char> {
    match shape {
        FieldsShape::Named(fields) => name + " { "@ + join(struct_body_parts(shape), ", "@) + " }"@,
        FieldsShape::Positional(n) => name + "("@ + join(struct_body_parts(shape), ", "@) + ")"@,
        FieldsShape::Unit => name,
    }
}

/// The synthesized placeholder identifier for the positional payload field
/// `i` of a variant, which has no user-given name to bind.
///
/// The placeholders are fixed as `x0`, `x1`, … and no collision detection
/// is performed against user-declared names: each placeholder is only ever
/// in scope inside its own dispatch arm, where a positional payload brings
/// no user-given field names with it.
pub open spec fn placeholder(i: int) -> Seq<char> {
    "x"@ + decimal(i as nat)
}

/// The qualified path of a variant.
pub open spec fn variant_path(name: Seq<char>, vname: Seq<char>) -> Seq<char> {
    name + "::"@ + vname
}

/// The by-reference bindings of a named payload, one per field, in
/// declaration order.
pub open spec fn named_bind_parts(fields: Seq<String>) -> Seq<Seq<char>> {
    string_views(fields).map_values(|f: Seq<char>| "ref "@ + f)
}

/// The reconstructions of a named payload, one per field, in declaration
/// order; the bound name serves as both the field name and the access.
pub open spec fn named_build_parts(fields: Seq<String>) -> Seq<Seq<char>> {
    string_views(fields).map_values(|f: Seq<char>| f + ": "@ + f + ".deep_clone()"@)
}

/// The by-reference bindings of a positional payload, one placeholder per
/// position, in order.
pub open spec fn positional_bind_parts(n: int) -> Seq<Seq<char>> {
    Seq::new(n as nat, |i: int| "ref "@ + placeholder(i))
}

/// The reconstructions of a positional payload, one per placeholder, in
/// order.
pub open spec fn positional_build_parts(n: int) -> Seq<Seq<char>> {
    Seq::new(n as nat, |i: int| placeholder(i) + ".deep_clone()"@)
}

/// One dispatch arm: bind the variant's payload by reference, then
/// reconstruct the variant by invoking the transfer operation on every
/// bound field, in declaration order. Named payload fields keep their
/// declared names for both the binding and the access; positional payload
/// fields are bound to synthesized placeholders.
pub open spec fn arm_text(name: Seq<char>, v: VariantDecl) -> Seq<char> {
    let path = variant_path(name, v.name@);
    match v.shape {
        FieldsShape::Named(fields) => path + " { "@ + join(named_bind_parts(fields@), ", "@)
            + " } => "@ + path + " { "@ + join(named_build_parts(fields@), ", "@) + " }"@,
        FieldsShape::Positional(n) => path + "("@ + join(positional_bind_parts(n as int), ", "@)
            + ") => "@ + path + "("@ + join(positional_build_parts(n as int), ", "@) + ")"@,
        FieldsShape::Unit => path + " => "@ + path,
    }
}

/// The arms of the dispatch construct, exactly one per declared variant,
/// in declaration order.
pub open spec fn arm_parts(name: Seq<char>, variants: Seq<VariantDecl>) -> Seq<Seq<char>> {
    variants.map_values(|v: VariantDecl| arm_text(name, v))
}

/// The reconstruction expression for a variant body: one dispatch on the
/// borrowed value's variant tag.
pub open spec fn enum_body_text(name: Seq<char>, variants: Seq<VariantDecl>) -> Seq<char> {
    "match *self { "@ + join(arm_parts(name, variants), ", "@) + " }"@
}

/// The reconstruction expression for any declaration body.
pub open spec fn body_text(d: TypeDeclaration) -> Seq<char> {
    match d.body {
        BodyShape::Fields(shape) => struct_body_text(d.name@, shape),
        BodyShape::Variants(variants) => enum_body_text(d.name@, variants@),
    }
}

/// The whole generated implementation block: an implementation of the
/// capability interface for the borrowed form of the type, declaring the
/// owned form as the associated output type, with the synthesized
/// reconstruction expression as the operation's body.
pub open spec fn impl_text(d: TypeDeclaration) -> Seq<char> {
    "impl"@ + borrowed_text(d.generics) + " DeepClone for "@ + d.name@ + borrowed_text(d.generics)
        + bound_text(d.generics) + " { type DeepCloned = "@ + d.name@ + owned_text(d.generics)
        + "; fn deep_clone(&self) -> "@ + d.name@ + owned_text(d.generics) + " { "@ + body_text(d)
        + " } }"@
}

// ---------------------------------------------------------------------------
// Laws of the generated text.
// ---------------------------------------------------------------------------

/// Law: generation is deterministic. The generated text is a function of
/// the declaration alone, so identical declarations yield identical text;
/// the synthesizers below are proved to return exactly [`impl_text`].
pub proof fn lemma_generation_deterministic(d1: TypeDeclaration, d2: TypeDeclaration)
    requires
        d1 == d2,
    ensures
        impl_text(d1) == impl_text(d2),
{
}

/// Law: the borrowed parameter list preserves declaration order. It holds
/// every lifetime parameter, then every type parameter, each unchanged and
/// at its declared position.
pub proof fn lemma_borrowed_params_order(g: Generics)
    ensures
        borrowed_parts(g).len() == g.lifetime_params@.len() + g.type_params@.len(),
        forall|i: int|
            0 <= i < g.lifetime_params@.len() ==> #[trigger] borrowed_parts(g)[i]
                == g.lifetime_params@[i]@,
        forall|i: int|
            g.lifetime_params@.len() <= i < borrowed_parts(g).len() ==> #[trigger] borrowed_parts(
                g,
            )[i] == g.type_params@[i - g.lifetime_params@.len()]@,
{
}

/// Law: the owned parameter list preserves declaration order. Every
/// lifetime parameter is erased to the same fully static marker, and every
/// type parameter appears, at its declared position, as its owned-output
/// projection — never as the parameter itself.
pub proof fn lemma_owned_params_order(g: Generics)
    ensures
        owned_parts(g).len() == g.lifetime_params@.len() + g.type_params@.len(),
        forall|i: int|
            0 <= i < g.lifetime_params@.len() ==> #[trigger] owned_parts(g)[i] == "'static"@,
        forall|i: int|
            g.lifetime_params@.len() <= i < owned_parts(g).len() ==> #[trigger] owned_parts(g)[i]
                == g.type_params@[i - g.lifetime_params@.len()]@ + "::DeepCloned"@,
{
}

/// Law: the bound clause injects one capability requirement per type
/// parameter, in declaration order, and only then carries the original
/// `where` predicates, unchanged and in declaration order.
pub proof fn lemma_bound_clause_order(g: Generics)
    ensures
        bound_parts(g).len() == g.type_params@.len() + g.where_predicates@.len(),
        forall|i: int|
            0 <= i < g.type_params@.len() ==> #[trigger] bound_parts(g)[i] == g.type_params@[i]@
                + ": DeepClone"@,
        forall|i: int|
            g.type_params@.len() <= i < bound_parts(g).len() ==> #[trigger] bound_parts(g)[i]
                == g.where_predicates@[i - g.type_params@.len()]@,
{
}

/// Law: a named-field body preserves declaration order. There is one
/// reconstruction per field, and the part at position `i` is the
/// reconstruction of the field declared at position `i`.
pub proof fn lemma_named_body_order(fields: Seq<String>)
    ensures
        named_body_parts(fields).len() == fields.len(),
        forall|i: int|
            0 <= i < fields.len() ==> #[trigger] named_body_parts(fields)[i]
                == struct_named_part(fields[i]@),
{
}

/// Law: a positional body preserves declaration order. There is one
/// reconstruction per position, and the part at position `i` addresses
/// exactly field `i`.
pub proof fn lemma_positional_body_order(n: int)
    requires
        0 <= n,
    ensures
        positional_body_parts(n).len() == n,
        forall|i: int|
            0 <= i < n ==> #[trigger] positional_body_parts(n)[i] == struct_positional_part(i),
{
}

/// Law: the dispatch over a variant body is exhaustive and in declaration
/// order. Every declared variant has exactly one arm — no omissions, no
/// duplicates — and the arm at position `i` is the arm of the variant
/// declared at position `i`.
pub proof fn lemma_variant_arms_exhaustive(name: Seq<char>, variants: Seq<VariantDecl>)
    ensures
        arm_parts(name, variants).len() == variants.len(),
        forall|i: int|
            0 <= i < variants.len() ==> #[trigger] arm_parts(name, variants)[i] == arm_text(
                name,
                variants[i],
            ),
{
}

/// Law: a unit shape's body is minimal. The reconstruction is the bare
/// type name, and — since an identifier contains no `'.'` — it contains no
/// transfer invocation at all.
pub proof fn lemma_unit_body_minimal(name: Seq<char>)
    requires
        forall|k: int| 0 <= k < name.len() ==> name[k] != '.',
    ensures
        struct_body_text(name, FieldsShape::Unit) == name,
        !contains_seq(struct_body_text(name, FieldsShape::Unit), ".deep_clone()"@),
{
    reveal_strlit(".deep_clone()");
    let pattern = ".deep_clone()"@;
    assert forall|i: int| !contains_at(name, pattern, i) by {
        if contains_at(name, pattern, i) {
            assert(name.subrange(i, i + pattern.len())[0] == name[i]);
            assert(name[i] == '.');
        }
    }
}

/// Law: a unit variant's arm is minimal. It reconstructs the bare variant
/// path and — since identifiers contain no `'.'` — invokes no transfer
/// operation.
pub proof fn lemma_unit_arm_minimal(name: Seq<char>, v: VariantDecl)
    requires
        v.shape is Unit,
        forall|k: int| 0 <= k < name.len() ==> name[k] != '.',
        forall|k: int| 0 <= k < v.name@.len() ==> v.name@[k] != '.',
    ensures
        arm_text(name, v) == variant_path(name, v.name@) + " => "@ + variant_path(name, v.name@),
        !contains_seq(arm_text(name, v), ".deep_clone()"@),
{
    reveal_strlit(".deep_clone()");
    reveal_strlit("::");
    reveal_strlit(" => ");
    let pattern = ".deep_clone()"@;
    let arm = arm_text(name, v);
    assert forall|k: int| 0 <= k < arm.len() implies arm[k] != '.' by {
        assert(forall|j: int| 0 <= j < "::"@.len() ==> "::"@[j] != '.');
        assert(forall|j: int| 0 <= j < " => "@.len() ==> " => "@[j] != '.');
    }
    assert forall|i: int| !contains_at(arm, pattern, i) by {
        if contains_at(arm, pattern, i) {
            assert(arm.subrange(i, i + pattern.len())[0] == arm[i]);
            assert(arm[i] == '.');
        }
    }
}

// ---------------------------------------------------------------------------
// The executable synthesizers.
// ---------------------------------------------------------------------------

/// Wrap already-joined parts in angle brackets, or emit nothing for an
/// empty list.
fn bracketed(parts: &Vec<String>) -> (r: String)
    ensures
        parts@.len() == 0 ==> r@ == Seq::<char>::empty(),
        parts@.len() > 0 ==> r@ == "<"@ + join(string_views(parts@), ", "@) + ">"@,
{
    if parts.len() == 0 {
        String::new()
    } else {
        let mut r = String::from_str("<");
        let joined = join_strings(parts, ", ");
        r.append(joined.as_str());
        r.append(">");
        r
    }
}

/// Synthesize the borrowed generic parameter list of `g`.
pub fn borrowed_params(g: &Generics) -> (r: String)
    ensures
        r@ == borrowed_text(*g),
{
    let mut parts: Vec<String> = Vec::new();
    let mut i: usize = 0;
    while i < g.lifetime_params.len()
        invariant
            i <= g.lifetime_params@.len(),
            string_views(parts@) =~= string_views(g.lifetime_params@).take(i as int),
        decreases g.lifetime_params@.len() - i,
    {
        parts.push(g.lifetime_params[i].clone());
        proof {
            let l = string_views(g.lifetime_params@);
            assert(string_views(parts@) =~= l.take(i as int).push(l[i as int]));
            assert(l.take(i as int).push(l[i as int]) =~= l.take(i as int + 1));
        }
        i = i + 1;
    }
    let mut i: usize = 0;
    while i < g.type_params.len()
        invariant
            i <= g.type_params@.len(),
            string_views(parts@) =~= string_views(g.lifetime_params@) + string_views(
                g.type_params@,
            ).take(i as int),
        decreases g.type_params@.len() - i,
    {
        parts.push(g.type_params[i].clone());
        proof {
            let l = string_views(g.lifetime_params@);
            let t = string_views(g.type_params@);
            assert(string_views(parts@) =~= (l + t.take(i as int)).push(t[i as int]));
            assert((l + t.take(i as int)).push(t[i as int]) =~= l + t.take(i as int + 1));
        }
        i = i + 1;
    }
    proof {
        assert(string_views(parts@) =~= borrowed_parts(*g));
    }
    bracketed(&parts)
}

/// Synthesize the bound clause of `g`: the injected capability
/// requirements followed by the original `where` predicates.
pub fn bound_clause(g: &Generics) -> (r: String)
    ensures
        r@ == bound_text(*g),
{
    let ghost reqs = g.type_params@.map_values(|t: String| t@ + ": DeepClone"@);
    let mut parts: Vec<String> = Vec::new();
    let mut i: usize = 0;
    while i < g.type_params.len()
        invariant
            i <= g.type_params@.len(),
            reqs == g.type_params@.map_values(|t: String| t@ + ": DeepClone"@),
            string_views(parts@) =~= reqs.take(i as int),
        decreases g.type_params@.len() - i,
    {
        let mut s = g.type_params[i].clone();
        s.append(": DeepClone");
        parts.push(s);
        proof {
            assert(string_views(parts@) =~= reqs.take(i as int).push(reqs[i as int]));
            assert(reqs.take(i as int).push(reqs[i as int]) =~= reqs.take(i as int + 1));
        }
        i = i + 1;
    }
    let mut i: usize = 0;
    while i < g.where_predicates.len()
        invariant
            i <= g.where_predicates@.len(),
            reqs == g.type_params@.map_values(|t: String| t@ + ": DeepClone"@),
            string_views(parts@) =~= reqs + string_views(g.where_predicates@).take(i as int),
        decreases g.where_predicates@.len() - i,
    {
        parts.push(g.where_predicates[i].clone());
        proof {
            let w = string_views(g.where_predicates@);
            assert(string_views(parts@) =~= (reqs + w.take(i as int)).push(w[i as int]));
            assert((reqs + w.take(i as int)).push(w[i as int]) =~= reqs + w.take(i as int + 1));
        }
        i = i + 1;
    }
    proof {
        assert(string_views(parts@) =~= bound_parts(*g));
    }
    if parts.len() == 0 {
        String::new()
    } else {
        let mut r = String::from_str(" where ");
        let joined = join_strings(&parts, ", ");
        r.append(joined.as_str());
        r
    }
}

/// Synthesize the owned generic parameter list of `g`: a fully static
/// lifetime marker per lifetime parameter, then the owned-output
/// projection of every type parameter.
pub fn owned_params(g: &Generics) -> (r: String)
    ensures
        r@ == owned_text(*g),
{
    let ghost erased = Seq::new(g.lifetime_params@.len(), |i: int| "'static"@);
    let ghost projected = g.type_params@.map_values(|t: String| t@ + "::DeepCloned"@);
    let mut parts: Vec<String> = Vec::new();
    let mut i: usize = 0;
    while i < g.lifetime_params.len()
        invariant
            i <= g.lifetime_params@.len(),
            erased == Seq::new(g.lifetime_params@.len(), |k: int| "'static"@),
            string_views(parts@) =~= erased.take(i as int),
        decreases g.lifetime_params@.len() - i,
    {
        parts.push(String::from_str("'static"));
        proof {
            assert(string_views(parts@) =~= erased.take(i as int).push(erased[i as int]));
            assert(erased.take(i as int).push(erased[i as int]) =~= erased.take(i as int + 1));
        }
        i = i + 1;
    }
    let mut i: usize = 0;
    while i < g.type_params.len()
        invariant
            i <= g.type_params@.len(),
            erased == Seq::new(g.lifetime_params@.len(), |k: int| "'static"@),
            projected == g.type_params@.map_values(|t: String| t@ + "::DeepCloned"@),
            string_views(parts@) =~= erased + projected.take(i as int),
        decreases g.type_params@.len() - i,
    {
        let mut s = g.type_params[i].clone();
        s.append("::DeepCloned");
        parts.push(s);
        proof {
            assert(string_views(parts@) =~= (erased + projected.take(i as int)).push(
                projected[i as int],
            ));
            assert((erased + projected.take(i as int)).push(projected[i as int]) =~= erased
                + projected.take(i as int + 1));
        }
        i = i + 1;
    }
    proof {
        assert(string_views(parts@) =~= owned_parts(*g));
    }
    bracketed(&parts)
}

/// Synthesize the struct-body reconstructions of a list of named fields.
fn named_parts(fields: &Vec<String>) -> (parts: Vec<String>)
    ensures
        string_views(parts@) == named_body_parts(fields@),
{
    let ghost frags = named_body_parts(fields@);
    let mut parts: Vec<String> = Vec::new();
    let mut i: usize = 0;
    while i < fields.len()
        invariant
            i <= fields@.len(),
            frags == named_body_parts(fields@),
            string_views(parts@) =~= frags.take(i as int),
        decreases fields@.len() - i,
    {
        let mut s = fields[i].clone();
        s.append(": self.");
        s.append(fields[i].as_str());
        s.append(".deep_clone()");
        parts.push(s);
        proof {
            assert(string_views(parts@) =~= frags.take(i as int).push(frags[i as int]));
            assert(frags.take(i as int).push(frags[i as int]) =~= frags.take(i as int + 1));
        }
        i = i + 1;
    }
    proof {
        assert(string_views(parts@) =~= frags);
    }
    parts
}

/// Synthesize the struct-body reconstructions of `n` positional fields.
fn positional_parts(n: usize) -> (parts: Vec<String>)
    ensures
        string_views(parts@) == positional_body_parts(n as int),
{
    let ghost frags = positional_body_parts(n as int);
    let mut parts: Vec<String> = Vec::new();
    let mut i: usize = 0;
    while i < n
        invariant
            i <= n,
            frags == positional_body_parts(n as int),
            string_views(parts@) =~= frags.take(i as int),
        decreases n - i,
    {
        let mut s = String::from_str("self.");
        push_decimal(&mut s, i);
        s.append(".deep_clone()");
        parts.push(s);
        proof {
            assert(string_views(parts@) =~= frags.take(i as int).push(frags[i as int]));
            assert(frags.take(i as int).push(frags[i as int]) =~= frags.take(i as int + 1));
        }
        i = i + 1;
    }
    proof {
        assert(string_views(parts@) =~= frags);
    }
    parts
}

/// Synthesize the reconstruction expression for a struct body.
pub fn struct_body(name: &str, shape: &FieldsShape) -> (r: String)
    ensures
        r@ == struct_body_text(name@, *shape),
{
    match shape {
        FieldsShape::Named(fields) => {
            let parts = named_parts(fields);
            let mut r = String::from_str(name);
            r.append(" { ");
            let joined = join_strings(&parts, ", ");
            r.append(joined.as_str());
            r.append(" }");
            r
        },
        FieldsShape::Positional(n) => {
            let parts = positional_parts(*n);
            let mut r = String::from_str(name);
            r.append("(");
            let joined = join_strings(&parts, ", ");
            r.append(joined.as_str());
            r.append(")");
            r
        },
        FieldsShape::Unit => String::from_str(name),
    }
}

/// Synthesize the by-reference bindings of a named payload.
fn named_binds(fields: &Vec<String>) -> (parts: Vec<String>)
    ensures
        string_views(parts@) == named_bind_parts(fields@),
{
    let ghost frags = named_bind_parts(fields@);
    let mut parts: Vec<String> = Vec::new();
    let mut i: usize = 0;
    while i < fields.len()
        invariant
            i <= fields@.len(),
            frags == named_bind_parts(fields@),
            string_views(parts@) =~= frags.take(i as int),
        decreases fields@.len() - i,
    {
        let mut s = String::from_str("ref ");
        s.append(fields[i].as_str());
        parts.push(s);
        proof {
            assert(string_views(parts@) =~= frags.take(i as int).push(frags[i as int]));
            assert(frags.take(i as int).push(frags[i as int]) =~= frags.take(i as int + 1));
        }
        i = i + 1;
    }
    proof {
        assert(string_views(parts@) =~= frags);
    }
    parts
}

/// Synthesize the reconstructions of a named payload.
fn named_builds(fields: &Vec<String>) -> (parts: Vec<String>)
    ensures
        string_views(parts@) == named_build_parts(fields@),
{
    let ghost frags = named_build_parts(fields@);
    let mut parts: Vec<String> = Vec::new();
    let mut i: usize = 0;
    while i < fields.len()
        invariant
            i <= fields@.len(),
            frags == named_build_parts(fields@),
            string_views(parts@) =~= frags.take(i as int),
        decreases fields@.len() - i,
    {
        let mut s = fields[i].clone();
        s.append(": ");
        s.append(fields[i].as_str());
        s.append(".deep_clone()");
        parts.push(s);
        proof {
            assert(string_views(parts@) =~= frags.take(i as int).push(frags[i as int]));
            assert(frags.take(i as int).push(frags[i as int]) =~= frags.take(i as int + 1));
        }
        i = i + 1;
    }
    proof {
        assert(string_views(parts@) =~= frags);
    }
    parts
}

/// Synthesize the by-reference placeholder bindings of a positional
/// payload.
fn positional_binds(n: usize) -> (parts: Vec<String>)
    ensures
        string_views(parts@) == positional_bind_parts(n as int),
{
    let ghost frags = positional_bind_parts(n as int);
    let mut parts: Vec<String> = Vec::new();
    let mut i: usize = 0;
    while i < n
        invariant
            i <= n,
            frags == positional_bind_parts(n as int),
            string_views(parts@) =~= frags.take(i as int),
        decreases n - i,
    {
        let mut s = String::from_str("ref ");
        s.append("x");
        push_decimal(&mut s, i);
        parts.push(s);
        proof {
            assert(s@ =~= "ref "@ + placeholder(i as int));
            assert(string_views(parts@) =~= frags.take(i as int).push(frags[i as int]));
            assert(frags.take(i as int).push(frags[i as int]) =~= frags.take(i as int + 1));
        }
        i = i + 1;
    }
    proof {
        assert(string_views(parts@) =~= frags);
    }
    parts
}

/// Synthesize the reconstructions of a positional payload.
fn positional_builds(n: usize) -> (parts: Vec<String>)
    ensures
        string_views(parts@) == positional_build_parts(n as int),
{
    let ghost frags = positional_build_parts(n as int);
    let mut parts: Vec<String> = Vec::new();
    let mut i: usize = 0;
    while i < n
        invariant
            i <= n,
            frags == positional_build_parts(n as int),
            string_views(parts@) =~= frags.take(i as int),
        decreases n - i,
    {
        let mut s = String::from_str("x");
        push_decimal(&mut s, i);
        s.append(".deep_clone()");
        parts.push(s);
        proof {
            assert(string_views(parts@) =~= frags.take(i as int).push(frags[i as int]));
            assert(frags.take(i as int).push(frags[i as int]) =~= frags.take(i as int + 1));
        }
        i = i + 1;
    }
    proof {
        assert(string_views(parts@) =~= frags);
    }
    parts
}

/// Synthesize one dispatch arm for a variant.
pub fn variant_arm(name: &str, v: &VariantDecl) -> (r: String)
    ensures
        r@ == arm_text(name@, *v),
{
    let mut path = String::from_str(name);
    path.append("::");
    path.append(v.name.as_str());
    match &v.shape {
        FieldsShape::Named(fields) => {
            let binds = named_binds(fields);
            let builds = named_builds(fields);
            let mut r = path.clone();
            r.append(" { ");
            let joined = join_strings(&binds, ", ");
            r.append(joined.as_str());
            r.append(" } => ");
            r.append(path.as_str());
            r.append(" { ");
            let joined = join_strings(&builds, ", ");
            r.append(joined.as_str());
            r.append(" }");
            r
        },
        FieldsShape::Positional(n) => {
            let binds = positional_binds(*n);
            let builds = positional_builds(*n);
            let mut r = path.clone();
            r.append("(");
            let joined = join_strings(&binds, ", ");
            r.append(joined.as_str());
            r.append(") => ");
            r.append(path.as_str());
            r.append("(");
            let joined = join_strings(&builds, ", ");
            r.append(joined.as_str());
            r.append(")");
            r
        },
        FieldsShape::Unit => {
            let mut r = path.clone();
            r.append(" => ");
            r.append(path.as_str());
            r
        },
    }
}

/// Synthesize the dispatch construct for a variant body: one arm per
/// declared variant, in declaration order.
pub fn enum_body(name: &str, variants: &Vec<VariantDecl>) -> (r: String)
    ensures
        r@ == enum_body_text(name@, variants@),
{
    let ghost arms = arm_parts(name@, variants@);
    let mut parts: Vec<String> = Vec::new();
    let mut i: usize = 0;
    while i < variants.len()
        invariant
            i <= variants@.len(),
            arms == arm_parts(name@, variants@),
            string_views(parts@) =~= arms.take(i as int),
        decreases variants@.len() - i,
    {
        let arm = variant_arm(name, &variants[i]);
        parts.push(arm);
        proof {
            assert(string_views(parts@) =~= arms.take(i as int).push(arms[i as int]));
            assert(arms.take(i as int).push(arms[i as int]) =~= arms.take(i as int + 1));
        }
        i = i + 1;
    }
    proof {
        assert(string_views(parts@) =~= arms);
    }
    let mut r = String::from_str("match *self { ");
    let joined = join_strings(&parts, ", ");
    r.append(joined.as_str());
    r.append(" }");
    r
}

/// Synthesize the whole implementation block for a declaration: the
/// capability implementation for the borrowed form of the type, declaring
/// the owned form as the associated output type, with the reconstruction
/// expression as the operation's body.
pub fn impl_deep_clone(d: &TypeDeclaration) -> (r: String)
    ensures
        r@ == impl_text(*d),
{
    let borrowed = borrowed_params(&d.generics);
    let bounds = bound_clause(&d.generics);
    let owned = owned_params(&d.generics);
    let body = match &d.body {
        BodyShape::Fields(shape) => struct_body(d.name.as_str(), shape),
        BodyShape::Variants(variants) => enum_body(d.name.as_str(), variants),
    };
    let mut r = String::from_str("impl");
    r.append(borrowed.as_str());
    r.append(" DeepClone for ");
    r.append(d.name.as_str());
    r.append(borrowed.as_str());
    r.append(bounds.as_str());
    r.append(" { type DeepCloned = ");
    r.append(d.name.as_str());
    r.append(owned.as_str());
    r.append("; fn deep_clone(&self) -> ");
    r.append(d.name.as_str());
    r.append(owned.as_str());
    r.append(" { ");
    r.append(body.as_str());
    r.append(" } }");
    r
}

} // verus!
