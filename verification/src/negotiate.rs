use vstd::prelude::*;

verus! {

/// The content type of bodies written as JSON.
pub const JSON_CONTENT_TYPE: &'static str = "application/json";

/// `needle` occurs in `hay` at position `i`.
pub open spec fn occurs_at(hay: Seq<char>, needle: Seq<char>, i: int) -> bool {
    0 <= i && i + needle.len() <= hay.len() && hay.subrange(i, i + needle.len()) == needle
}

/// `needle` occurs somewhere in `hay`.
pub open spec fn contains_text(hay: Seq<char>, needle: Seq<char>) -> bool {
    exists|i: int| occurs_at(hay, needle, i)
}

/// Whether `needle` occurs in `hay`, as `str::contains` answers it.
pub fn text_contains(hay: &str, needle: &str) -> (r: bool)
    ensures
        r == contains_text(hay@, needle@),
{
    let n = hay.unicode_len();
    let m = needle.unicode_len();
    if m > n {
        proof {
            assert forall|i: int| !occurs_at(hay@, needle@, i) by {}
        }
        return false;
    }
    let mut i: usize = 0;
    while i <= n - m
        invariant
            n == hay@.len(),
            m == needle@.len(),
            m <= n,
            i <= n - m + 1,
            forall|k: int| 0 <= k < i ==> !occurs_at(hay@, needle@, k),
        decreases n - m + 1 - i,
    {
        let mut j: usize = 0;
        let mut matched = true;
        while j < m
            invariant
                n == hay@.len(),
                m == needle@.len(),
                i + m <= n,
                j <= m,
                matched <==> (forall|t: int| 0 <= t < j ==> hay@[i + t] == needle@[t]),
            decreases m - j,
        {
            if hay.get_char(i + j) != needle.get_char(j) {
                matched = false;
            }
            j = j + 1;
        }
        if matched {
            proof {
                assert(hay@.subrange(i as int, i + m) =~= needle@);
                assert(occurs_at(hay@, needle@, i as int));
            }
            return true;
        }
        proof {
            if hay@.subrange(i as int, i + m) == needle@ {
                assert forall|t: int| 0 <= t < m implies hay@[i + t] == needle@[t] by {
                    assert(hay@.subrange(i as int, i + m)[t] == hay@[i + t]);
                }
            }
        }
        i = i + 1;
    }
    false
}

/// The position of the first content type that occurs in `accept`.
pub open spec fn first_accepted(accept: Seq<char>, content_types: Seq<Seq<char>>, i: int) -> bool {
    &&& 0 <= i < content_types.len()
    &&& contains_text(accept, content_types[i])
    &&& forall|k: int| 0 <= k < i ==> !contains_text(accept, #[trigger] content_types[k])
}

/// The content types of a list of encoders.
pub open spec fn views(content_types: Seq<String>) -> Seq<Seq<char>> {
    content_types.map_values(|s: String| s@)
}

/// Picks the first encoder whose content type occurs in the `Accept` header;
/// none when there is no such header or no encoder matches.
pub fn select_encoder(accept: Option<&str>, content_types: &Vec<String>) -> (r: Option<usize>)
    ensures
        match r {
            Some(i) => accept matches Some(a) && first_accepted(a@, views(content_types@), i as int),
            None => accept matches Some(a) ==> forall|k: int|
                0 <= k < content_types.len() ==> !contains_text(a@, #[trigger] views(content_types@)[k]),
        },
{
    match accept {
        None => None,
        Some(a) => {
            let mut i: usize = 0;
            while i < content_types.len()
                invariant
                    accept == Some(a),
                    i <= content_types.len(),
                    forall|k: int| 0 <= k < i ==> !contains_text(a@, #[trigger] views(content_types@)[k]),
                decreases content_types.len() - i,
            {
                let found = text_contains(a, content_types[i].as_str());
                assert(views(content_types@)[i as int] == content_types@[i as int]@);
                if found {
                    return Some(i);
                }
                i = i + 1;
            }
            None
        },
    }
}

/// How an error response body is to be written.
#[derive(Clone, Copy, PartialEq, Eq, Structural, Debug)]
pub enum Negotiation {
    /// The response carries no error data: leave it as it is.
    Unchanged,
    /// Encode the rendered body with the encoder at this position.
    Encoder(usize),
    /// Write the rendered body as JSON.
    Json,
}

/// Decides how a response is rewritten: untouched without error data, else
/// by the first encoder that the client accepts, else as JSON.
pub fn plan(has_error_data: bool, accept: Option<&str>, content_types: &Vec<String>) -> (r:
    Negotiation)
    ensures
        !has_error_data ==> r is Unchanged,
        has_error_data ==> match r {
            Negotiation::Encoder(i) => accept matches Some(a) && first_accepted(
                a@,
                views(content_types@),
                i as int,
            ),
            Negotiation::Json => accept matches Some(a) ==> forall|k: int|
                0 <= k < content_types.len() ==> !contains_text(a@, #[trigger] views(content_types@)[k]),
            Negotiation::Unchanged => false,
        },
{
    if !has_error_data {
        return Negotiation::Unchanged;
    }
    match select_encoder(accept, content_types) {
        Some(i) => Negotiation::Encoder(i),
        None => Negotiation::Json,
    }
}

} // verus!
