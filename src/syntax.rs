//! Reading a handler: the function item is parsed by `syn`, and the statements
//! of its body are handed back as text.

use vstd::prelude::*;

verus! {

/// A token stream, as handed to a procedural macro.
#[verifier::external_type_specification]
#[verifier::external_body]
pub struct ExTokenStream(proc_macro2::TokenStream);

/// A parse failure reported by `syn`, with its message and the span of the
/// offending construct.
#[verifier::external_type_specification]
#[verifier::external_body]
pub struct ExSynError(syn::Error);

/// The text of each string of a sequence.
pub open spec fn texts(v: Seq<String>) -> Seq<Seq<char>> {
    v.map_values(|s: String| s@)
}

/// `Some(n)` when the tokens `item` form one function item whose block holds
/// `n` statements; `None` when they are anything else. This depends on the
/// tokens alone, not on how they would be printed.
pub uninterp spec fn fn_stmt_count(item: proc_macro2::TokenStream) -> Option<nat>;

/// Relies on `syn::parse2::<syn::ItemFn>`, which succeeds exactly when the
/// tokens are one function item, and on `quote::ToTokens` to print each
/// statement of its block, one string per statement, in order. How a statement
/// is printed depends on the token backend `proc_macro2` runs on, so nothing is
/// promised of the text.
#[verifier::external_body]
pub(crate) fn parse_fn_body(item: proc_macro2::TokenStream) -> (r: Result<Vec<String>, syn::Error>)
    ensures
        match r {
            Ok(stmts) => fn_stmt_count(item) == Some(stmts@.len()),
            Err(_) => fn_stmt_count(item) is None,
        },
{
    let item = syn::parse2::<syn::ItemFn>(item)?;
    Ok(item.block.stmts.iter().map(|s| quote::ToTokens::to_token_stream(s).to_string()).collect())
}

} // verus!
