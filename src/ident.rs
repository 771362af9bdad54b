use vstd::prelude::*;

verus! {

/// Whether a text is one Rust identifier, keywords excluded.
pub uninterp spec fn is_rust_ident(s: Seq<char>) -> bool;

/// Relies on `syn::parse_str::<syn::Ident>`: it succeeds exactly when the
/// text is a single identifier that is not a keyword, and depends on the
/// text alone.
#[verifier::external_body]
pub(crate) fn parses_as_ident(s: &str) -> (r: bool)
    ensures
        r == is_rust_ident(s@),
{
    syn::parse_str::<syn::Ident>(s).is_ok()
}

} // verus!
