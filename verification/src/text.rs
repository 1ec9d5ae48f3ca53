use vstd::prelude::*;

verus! {

/// An optional string as a plain value.
pub open spec fn option_string_view(o: Option<String>) -> Option<Seq<char>> {
    match o {
        Some(s) => Some(s@),
        None => None,
    }
}

/// Whether `a` holds exactly the string `b`.
pub fn holds_string(a: &Option<String>, b: &String) -> (r: bool)
    ensures
        r == (option_string_view(*a) == Some(b@)),
{
    match a {
        Some(x) => *x == *b,
        None => false,
    }
}


/// Viewing an optional string keeps whether it is present and, if so, its
/// characters.
pub proof fn lemma_option_string_view(o: Option<String>)
    ensures
        (option_string_view(o) is Some) == (o is Some),
        o matches Some(s) ==> option_string_view(o) == Some(s@),
{
}

} // verus!
