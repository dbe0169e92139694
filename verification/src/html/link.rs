//! Resolving the addresses that links and images give: what the renderer
//! leaves to `url`.

use crate::text::text_view;
use vstd::prelude::*;

verus! {

/// The address that `reference` stands for when it is found in a document
/// at `base`, or nothing where `base` is no address or the two do not
/// combine.
pub uninterp spec fn joined(base: Seq<char>, reference: Seq<char>) -> Option<Seq<char>>;

/// The reference that leads from `base` to `target`, or nothing where
/// either is no address or none leads there.
pub uninterp spec fn relative(base: Seq<char>, target: Seq<char>) -> Option<Seq<char>>;

/// Parses `base` with `url::Url::parse` and resolves `reference` against it
/// with `url::Url::join`. The serialization of the result is a function of
/// the two strings alone; it is absent where either call fails.
#[verifier::external_body]
pub(crate) fn join(base: &str, reference: &str) -> (resolved: Option<String>)
    ensures
        text_view(resolved) == joined(base@, reference@),
{
    let base = url::Url::parse(base).ok()?;
    base.join(reference).ok().map(String::from)
}

/// Parses both addresses with `url::Url::parse` and calls
/// `url::Url::make_relative` on them. The result is a function of the two
/// strings alone; it is absent where a string does not parse or the call
/// finds no reference.
#[verifier::external_body]
pub(crate) fn make_relative(base: &str, target: &str) -> (reference: Option<String>)
    ensures
        text_view(reference) == relative(base@, target@),
{
    let base = url::Url::parse(base).ok()?;
    let target = url::Url::parse(target).ok()?;
    base.make_relative(&target)
}

} // verus!
