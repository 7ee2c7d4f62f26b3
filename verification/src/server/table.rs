//! The pattern matcher that the routing table is kept in.

use vstd::prelude::*;
use vstd::string::*;
use vstd::utf8::encode_utf8;

verus! {

#[verifier::external_type_specification]
#[verifier::external_body]
#[verifier::reject_recursive_types(T)]
pub struct ExRouter<T>(matchit::Router<T>);

/// What a matcher holds: the number stored under each pattern, the
/// pattern written as it was when the number was stored.
pub uninterp spec fn routes(router: matchit::Router<usize>) -> Map<Seq<char>, usize>;

/// What the matcher answers to the storing of the pattern `path`: the
/// refusal, or `None` where it takes the pattern.
pub uninterp spec fn insert_refusal(router: matchit::Router<usize>, path: Seq<char>) -> Option<
    matchit::InsertError,
>;

/// What the matcher finds for `path`: the number stored under the pattern
/// that answers, with the name and the text of each capture in the order
/// of the pattern; `None` where no pattern answers.
pub uninterp spec fn route_found(router: matchit::Router<usize>, path: Seq<char>) -> Option<
    (usize, Seq<(Seq<char>, Seq<char>)>),
>;

/// How many of `bytes` are an opening brace.
pub open spec fn open_braces(bytes: Seq<u8>) -> nat
    decreases bytes.len(),
{
    if bytes.len() == 0 {
        0
    } else {
        open_braces(bytes.drop_last()) + if bytes.last() == 0x7b {
            1nat
        } else {
            0nat
        }
    }
}

/// The most opening braces that a pattern may hold. The matcher names the
/// captures of a pattern by the letters of the alphabet and gives up at
/// the twenty-sixth; every capture that it reads begins at an opening
/// brace of the pattern, doubled or not.
pub const MAX_OPEN_BRACES: usize = 25;

/// `path` holds no more opening braces than a pattern may hold.
pub open spec fn within_brace_limit(path: Seq<char>) -> bool {
    open_braces(encode_utf8(path)) <= MAX_OPEN_BRACES
}

/// `path` is free of braces: as a pattern it has no captures, and it is
/// written as the one path that it answers to.
pub open spec fn literal(path: Seq<char>) -> bool {
    forall|i: int| 0 <= i < path.len() ==> path[i] != '{' && path[i] != '}'
}

/// Whether `path` holds no more opening braces than a pattern may hold.
pub fn fits_brace_limit(path: &str) -> (fits: bool)
    ensures
        fits == within_brace_limit(path@),
{
    let bytes = path.as_bytes();
    let mut count: usize = 0;
    let mut i: usize = 0;
    while i < bytes.len()
        invariant
            i <= bytes.len(),
            count <= i,
            count == open_braces(bytes@.take(i as int)),
        decreases bytes.len() - i,
    {
        assert(bytes@.take(i + 1).drop_last() =~= bytes@.take(i as int));
        if bytes[i] == 0x7b {
            count += 1;
        }
        i += 1;
    }
    assert(bytes@.take(i as int) =~= bytes@);
    count <= MAX_OPEN_BRACES
}

/// Some pattern that the matcher holds has `number` stored under it.
pub open spec fn stored(held: Map<Seq<char>, usize>, number: usize) -> bool {
    exists|pattern: Seq<char>| held.contains_key(pattern) && #[trigger] held[pattern] == number
}

/// `Router::new`: a matcher that holds no pattern.
#[verifier::external_body]
pub(crate) fn router_new() -> (made: matchit::Router<usize>)
    ensures
        routes(made) == (Map::<Seq<char>, usize>::empty()),
{
    matchit::Router::new()
}

/// `Router::insert` of a pattern that is not held, into a matcher that
/// does not hold the empty pattern: stores `number` under the pattern
/// `path`, or refuses the pattern and leaves what the matcher holds as it
/// was. Which of the two is a matter of the matcher as it stands and of
/// the pattern. The call panics on a pattern in which the matcher reads
/// more captures than it can name, and a matcher that holds the empty
/// pattern loses it to the next pattern that it stores.
#[verifier::external_body]
pub(crate) fn router_insert(router: &mut matchit::Router<usize>, path: &str, number: usize) -> (outcome:
    Result<(), matchit::InsertError>)
    requires
        path@.len() > 0,
        within_brace_limit(path@),
        !routes(*old(router)).contains_key(path@),
        !routes(*old(router)).contains_key(Seq::<char>::empty()),
    ensures
        match outcome {
            Ok(()) => insert_refusal(*old(router), path@) is None && routes(*final(router))
                == routes(*old(router)).insert(path@, number),
            Err(refusal) => insert_refusal(*old(router), path@) == Some(refusal) && routes(
                *final(router),
            ) == routes(*old(router)),
        },
{
    router.insert(path, number)
}

/// What a matcher found for a path: the number stored under the pattern
/// that answers, and each capture of the pattern with the text that it
/// holds.
pub struct Found {
    pub number: usize,
    pub params: Vec<(String, String)>,
}

/// `Router::at`: the number stored under the pattern that answers to
/// `path`, which is one of those held, and the captures copied out of
/// `Match::params`. A pattern without braces answers to the path that is
/// written like it, ahead of any pattern with captures.
#[verifier::external_body]
pub(crate) fn router_at(router: &matchit::Router<usize>, path: &str) -> (found: Option<Found>)
    ensures
        match route_found(*router, path@) {
            Some((number, captures)) => {
                &&& found matches Some(hit)
                &&& hit.number == number
                &&& hit.params.deep_view() == captures
                &&& stored(routes(*router), hit.number)
            },
            None => found is None,
        },
        routes(*router).contains_key(path@) && literal(path@) ==> match found {
            Some(hit) => hit.number == routes(*router)[path@] && hit.params@.len() == 0,
            None => false,
        },
{
    match router.at(path) {
        Ok(hit) => Some(Found {
            number: *hit.value,
            params: hit.params.iter().map(|(k, v)| (k.to_string(), v.to_string())).collect(),
        }),
        Err(_) => None,
    }
}

} // verus!
