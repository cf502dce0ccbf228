//! String operations of std that the library relies on.
use vstd::prelude::*;

verus! {

/// What `str::trim` leaves of a text.
pub uninterp spec fn trimmed(s: Seq<char>) -> Seq<char>;

/// What `str::to_lowercase` makes of a text.
pub uninterp spec fn lower_of(s: Seq<char>) -> Seq<char>;

/// A text with every trailing ':' removed.
pub open spec fn without_trailing_colons(s: Seq<char>) -> Seq<char>
    decreases s.len(),
{
    if s.len() > 0 && s.last() == ':' {
        without_trailing_colons(s.drop_last())
    } else {
        s
    }
}

/// Relies on str::trim: the text without leading and trailing white
/// space, which depends on the text alone.
#[verifier::external_body]
pub(crate) fn trim(s: &str) -> (r: String)
    ensures
        r@ == trimmed(s@),
{
    s.trim().to_string()
}

/// Relies on str::to_lowercase: the lowercase form, which depends on the
/// text alone.
#[verifier::external_body]
pub(crate) fn lowercase(s: &str) -> (r: String)
    ensures
        r@ == lower_of(s@),
{
    s.to_lowercase()
}

/// Relies on str::trim_end_matches with ':': every trailing ':' is
/// removed.
#[verifier::external_body]
pub(crate) fn trim_trailing_colons(s: &str) -> (r: String)
    ensures
        r@ == without_trailing_colons(s@),
{
    s.trim_end_matches(':').to_string()
}

/// The parts of a text before and after its first ':'.
pub struct ColonSplit {
    pub before: String,
    pub after: String,
}

/// Relies on str::split_once with ':': the parts before and after the
/// first ':', or `None` where there is none.
#[verifier::external_body]
pub(crate) fn split_at_colon(s: &str) -> (r: Option<ColonSplit>)
    ensures
        r is None <==> !s@.contains(':'),
        r is Some ==> s@ == r->0.before@ + seq![':'] + r->0.after@ && !r->0.before@.contains(':'),
{
    s.split_once(':').map(|(a, b)| ColonSplit { before: a.to_string(), after: b.to_string() })
}

} // verus!
