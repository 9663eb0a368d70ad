//! The handler transform: keep a function's statements, drop its signature, and
//! bind the statements to a vector.

use vstd::prelude::*;
use crate::routine::{
    emit_routine, joined, routine_head, routine_model, routine_text, GeneratedRoutine,
};
use crate::symbol::{decimal, symbol_prefix, vector_symbol};
use crate::syntax::{fn_stmt_count, parse_fn_body};
use crate::vector::Vector;

verus! {

/// Why a handler could not be bound.
#[derive(Debug)]
pub enum TransformError {
    /// The input is not a function item; `syn`'s diagnostic names the construct
    /// that was refused and where it stands.
    MalformedInput(syn::Error),
}

/// `r` is what binding the tokens `item` to `v` may give: when `item` is a
/// function item, the routine of `v` holding one statement for each of the
/// item's statements and nothing else of the item; otherwise `syn`'s
/// diagnostic.
pub open spec fn transform_result(
    v: Vector,
    item: proc_macro2::TokenStream,
    r: Result<GeneratedRoutine, TransformError>,
) -> bool {
    match fn_stmt_count(item) {
        Some(n) => r matches Ok(g) && g@ == routine_model(v, g@.body) && g@.body.len() == n,
        None => r is Err,
    }
}

/// Binds the function item `item` to the vector `vector`. The item's name,
/// parameters and return type are dropped; its statements become, in order,
/// the body of the routine exported under the vector's symbol. Input that
/// `syn` does not read as one function item gives its diagnostic.
pub fn transform(vector: Vector, item: proc_macro2::TokenStream) -> (r: Result<
    GeneratedRoutine,
    TransformError,
>)
    ensures
        transform_result(vector, item, r),
{
    match parse_fn_body(item) {
        Ok(body) => Ok(emit_routine(vector, body)),
        Err(e) => Err(TransformError::MalformedInput(e)),
    }
}

/// For every vector, a function item with an empty body becomes a routine
/// named by the symbol prefix followed by the vector's index, declared with
/// unmangled linkage and the interrupt calling convention, with nothing in its
/// body.
pub proof fn lemma_empty_handler(
    v: Vector,
    item: proc_macro2::TokenStream,
    r: Result<GeneratedRoutine, TransformError>,
)
    requires
        fn_stmt_count(item) == Some(0nat),
        transform_result(v, item, r),
    ensures
        r is Ok,
        r->Ok_0.vector == v,
        r->Ok_0@.symbol == symbol_prefix() + decimal(v.spec_index()),
        r->Ok_0@.body.len() == 0,
        routine_text(r->Ok_0@) == routine_head() + symbol_prefix() + decimal(v.spec_index())
            + "() {"@ + " }"@,
{
    let g = r->Ok_0;
    assert(g@.body =~= Seq::<Seq<char>>::empty());
    assert(joined(Seq::<Seq<char>>::empty()) =~= Seq::<char>::empty());
    assert(routine_text(g@) =~= routine_head() + symbol_prefix() + decimal(v.spec_index())
        + "() {"@ + " }"@);
}

/// Whatever the statements `body` are, the routine built from them holds
/// exactly `body`, with no statement added, removed or moved, and its text is
/// the statements in order between the routine's header and closing brace; a
/// transform of a function item keeps as many statements as the item has.
pub proof fn lemma_body_preserved(
    v: Vector,
    body: Seq<Seq<char>>,
    item: proc_macro2::TokenStream,
    r: Result<GeneratedRoutine, TransformError>,
)
    requires
        transform_result(v, item, r),
    ensures
        routine_model(v, body).body == body,
        routine_text(routine_model(v, body)) == routine_head() + vector_symbol(v) + "() {"@
            + joined(body) + " }"@,
        fn_stmt_count(item) is Some <==> r is Ok,
        r is Ok ==> {
            &&& fn_stmt_count(item) == Some(r->Ok_0@.body.len())
            &&& routine_text(r->Ok_0@) == routine_head() + vector_symbol(v) + "() {"@ + joined(
                r->Ok_0@.body,
            ) + " }"@
        },
{
}

/// The signature of a handler is dropped: two function items, whatever their
/// names, parameters and return types, both bind, and where their statements
/// agree they give the same routine and the same source text.
pub proof fn lemma_signature_discarded(
    v: Vector,
    a: proc_macro2::TokenStream,
    b: proc_macro2::TokenStream,
    ra: Result<GeneratedRoutine, TransformError>,
    rb: Result<GeneratedRoutine, TransformError>,
)
    requires
        fn_stmt_count(a) is Some,
        fn_stmt_count(b) is Some,
        transform_result(v, a, ra),
        transform_result(v, b, rb),
    ensures
        ra is Ok,
        rb is Ok,
        ra->Ok_0@.body == rb->Ok_0@.body ==> ra->Ok_0@ == rb->Ok_0@ && routine_text(ra->Ok_0@)
            == routine_text(rb->Ok_0@),
{
}

} // verus!
