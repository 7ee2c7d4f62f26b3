//! Response parts: what a handler returns, and how it builds a response.

pub mod error;
pub mod headers;
pub mod json;

use vstd::prelude::*;
use vstd::string::*;
use crate::server::response::{Body, Response, ResponseView, StatusCode};
use crate::server::wire::{
    extension_count, extensions_extend, header_count, header_fields, headers_extend, headers_len,
    merged_extensions, MAX_HEADER_LINES,
};

verus! {

/// How a part bears on the header values of a response.
///
/// A part may add header values to those that the response carries, and
/// it may put a header map of its own in their place. Adding takes room:
/// the response may not come to carry more values than the limit.
pub struct Footprint {
    /// The most header values that the part adds before it first puts a
    /// header map in place of the one that the response carries.
    pub adds: nat,
    /// Whether the values that the part adds after that have room.
    pub fits: bool,
    /// For a part that puts a header map in place: the most header values
    /// that the response carries after the part.
    pub resets: Option<nat>,
}

/// A response that carries `held` header values has room for `added` more.
pub open spec fn room(held: nat, added: nat) -> bool {
    added > 0 ==> held + added <= MAX_HEADER_LINES
}

impl Footprint {
    /// The footprint of a part that leaves the headers alone.
    pub open spec fn none() -> Self {
        Footprint { adds: 0, fits: true, resets: None }
    }

    /// The footprint of a part that adds up to `lines` header values.
    pub open spec fn adding(lines: nat) -> Self {
        Footprint { adds: lines, fits: true, resets: None }
    }

    /// The footprint of a part that puts a header map of `lines` values in
    /// place.
    pub open spec fn replacing(lines: nat) -> Self {
        Footprint { adds: 0, fits: true, resets: Some(lines) }
    }

    /// Whether the part can be applied to a response that carries `held`
    /// header values.
    pub open spec fn admits(self, held: nat) -> bool {
        self.fits && room(held, self.adds)
    }

    /// The most header values that a response carries after the part,
    /// where it carried `held` before.
    pub open spec fn leaves(self, held: nat) -> nat {
        match self.resets {
            Some(lines) => lines,
            None => held + self.adds,
        }
    }

    /// The footprint of this part followed by the part of footprint `next`.
    pub open spec fn followed_by(self, next: Footprint) -> Footprint {
        Footprint {
            adds: match self.resets {
                Some(_) => self.adds,
                None => self.adds + next.adds,
            },
            fits: self.fits && next.fits && match self.resets {
                Some(lines) => room(lines, next.adds),
                None => true,
            },
            resets: match next.resets {
                Some(lines) => Some(lines),
                None => match self.resets {
                    Some(lines) => Some(lines + next.adds),
                    None => None,
                },
            },
        }
    }
}

/// Where two parts in a row can be applied to a response, the first can,
/// and the second can be applied to what the first leaves.
pub proof fn parts_in_a_row_have_room(first: Footprint, second: Footprint, held: nat, between: nat)
    requires
        first.followed_by(second).admits(held),
        between <= first.leaves(held),
    ensures
        first.admits(held),
        second.admits(between),
        second.leaves(between) <= first.followed_by(second).leaves(held),
{
}

/// `lines`, counted no further than one past the limit.
pub open spec fn capped(lines: nat) -> nat {
    if lines <= MAX_HEADER_LINES {
        lines
    } else {
        (MAX_HEADER_LINES + 1) as nat
    }
}

/// The sum of two capped counts, capped.
pub fn capped_sum(a: usize, b: usize) -> (sum: usize)
    requires
        a <= MAX_HEADER_LINES + 1,
        b <= MAX_HEADER_LINES + 1,
    ensures
        sum == capped((a + b) as nat),
{
    if a + b <= MAX_HEADER_LINES {
        a + b
    } else {
        MAX_HEADER_LINES + 1
    }
}

/// A count of header values, capped.
pub fn capped_count(lines: usize) -> (count: usize)
    ensures
        count == capped(lines as nat),
{
    if lines <= MAX_HEADER_LINES {
        lines
    } else {
        MAX_HEADER_LINES + 1
    }
}

/// Whether a response that carries `held` header values has room for
/// `added` more, both counted no further than one past the limit.
pub fn has_room(held: usize, added: usize) -> (has: bool)
    ensures
        forall|h: nat, a: nat| capped(h) == held && capped(a) == added ==> has == #[trigger] room(h, a),
{
    added == 0 || (held <= MAX_HEADER_LINES && added <= MAX_HEADER_LINES - held)
}

/// The footprint of a part as numbers, each counted no further than one
/// past the limit.
pub struct Weight {
    pub adds: usize,
    pub fits: bool,
    pub resets: Option<usize>,
}

impl Weight {
    /// The weight stands for the footprint `footprint`.
    pub open spec fn reflects(self, footprint: Footprint) -> bool {
        &&& self.adds == capped(footprint.adds)
        &&& self.fits == footprint.fits
        &&& match footprint.resets {
            Some(lines) => self.resets == Some(capped(lines) as usize),
            None => self.resets is None,
        }
    }

    /// The weight of a part that leaves the headers alone.
    pub fn none() -> (weight: Weight)
        ensures
            weight.reflects(Footprint::none()),
    {
        Weight { adds: 0, fits: true, resets: None }
    }

    /// The weight of a part that adds up to `lines` header values.
    pub fn adding(lines: usize) -> (weight: Weight)
        ensures
            weight.reflects(Footprint::adding(lines as nat)),
    {
        Weight { adds: capped_count(lines), fits: true, resets: None }
    }

    /// The weight of a part that puts a header map of `lines` values in
    /// place.
    pub fn replacing(lines: usize) -> (weight: Weight)
        ensures
            weight.reflects(Footprint::replacing(lines as nat)),
    {
        Weight { adds: 0, fits: true, resets: Some(capped_count(lines)) }
    }

    /// The weight of this part followed by the part of weight `next`.
    fn followed_by(self, next: Weight, Ghost(first): Ghost<Footprint>, Ghost(second): Ghost<Footprint>) -> (weight: Weight)
        requires
            self.reflects(first),
            next.reflects(second),
        ensures
            weight.reflects(first.followed_by(second)),
    {
        let adds = match self.resets {
            Some(_) => self.adds,
            None => capped_sum(self.adds, next.adds),
        };
        let fits = self.fits && next.fits && match self.resets {
            Some(lines) => has_room(lines, next.adds),
            None => true,
        };
        let resets = match next.resets {
            Some(lines) => Some(lines),
            None => match self.resets {
                Some(lines) => Some(capped_sum(lines, next.adds)),
                None => None,
            },
        };
        proof {
            if first.resets is Some {
                assert(room(first.resets->0, second.adds) == has_room_of(
                    capped(first.resets->0),
                    capped(second.adds),
                ));
            }
        }
        Weight { adds, fits, resets }
    }

    /// Whether a part of this weight can be applied to a response that
    /// carries `held` header values.
    fn admits(&self, held: usize, Ghost(footprint): Ghost<Footprint>) -> (admits: bool)
        requires
            self.reflects(footprint),
        ensures
            admits == footprint.admits(held as nat),
    {
        let counted = capped_count(held);
        proof {
            assert(room(held as nat, footprint.adds) == has_room_of(
                capped(held as nat),
                capped(footprint.adds),
            ));
        }
        self.fits && has_room(counted, self.adds)
    }
}

/// Whether capped counts tell of room.
spec fn has_room_of(held: nat, added: nat) -> bool {
    added == 0 || (held <= MAX_HEADER_LINES && held + added <= MAX_HEADER_LINES)
}

/// A value that changes a response in a way of its own.
///
/// A handler returns one; the parts of a tuple are applied from left to
/// right, so that a later part writes over an earlier one.
pub trait ResponsePart: Sized {
    /// How the part bears on the header values of a response.
    spec fn footprint(&self) -> Footprint;

    /// The response that applying the part to `before` gives.
    spec fn applied(&self, before: ResponseView) -> ResponseView;

    /// The footprint of the part as numbers.
    fn weight(&self) -> (weight: Weight)
        ensures
            weight.reflects(self.footprint()),
    ;

    /// Applies the part to `response`, which has room for the header
    /// values that the part adds.
    fn apply(self, response: &mut Response)
        requires
            self.footprint().admits(old(response).header_lines()),
        ensures
            final(response)@ == self.applied(old(response)@),
            final(response).header_lines() <= self.footprint().leaves(old(response).header_lines()),
    ;
}

/// Applies `part` to `response` where the response has room for the
/// header values that the part adds, and leaves the response as it is
/// where it has not.
pub fn try_apply<P: ResponsePart>(part: P, response: &mut Response) -> (applied: bool)
    ensures
        applied == part.footprint().admits(old(response).header_lines()),
        applied ==> final(response)@ == part.applied(old(response)@),
        applied ==> final(response).header_lines() <= part.footprint().leaves(
            old(response).header_lines(),
        ),
        !applied ==> *final(response) == *old(response),
{
    let held = headers_len(&response.headers);
    let weight = part.weight();
    if weight.admits(held, Ghost(part.footprint())) {
        part.apply(response);
        true
    } else {
        false
    }
}

/// The parts of a pair are applied from left to right: the second part
/// works on what the first has made of the response.
pub proof fn pair_applies_left_to_right<A: ResponsePart, B: ResponsePart>(
    first: A,
    second: B,
    before: ResponseView,
)
    ensures
        (first, second).applied(before) == second.applied(first.applied(before)),
        (first, second).footprint() == first.footprint().followed_by(second.footprint()),
{
}

/// The parts of a triple are applied from left to right.
pub proof fn triple_applies_left_to_right<A: ResponsePart, B: ResponsePart, C: ResponsePart>(
    first: A,
    second: B,
    third: C,
    before: ResponseView,
)
    ensures
        (first, second, third).applied(before) == third.applied(
            second.applied(first.applied(before)),
        ),
{
}

/// A status that is applied after another one stays: the later part
/// writes over the earlier one.
pub proof fn later_status_wins(earlier: StatusCode, later: StatusCode, before: ResponseView)
    ensures
        (earlier, later).applied(before).status == later@,
{
}

/// A part that only puts values in place, and adds no header value to
/// those that a response carries, can be applied to every response.
pub proof fn parts_that_add_nothing_always_apply(footprint: Footprint, held: nat)
    requires
        footprint.fits,
        footprint.adds == 0,
    ensures
        footprint.admits(held),
{
}

/// A response that nothing was applied to yet: status 200, no headers, no
/// extensions, a body of no bytes.
pub open spec fn fresh(response: ResponseView) -> bool {
    &&& response.status == 200
    &&& response.headers == Map::<Seq<char>, Seq<Seq<u8>>>::empty()
    &&& extension_count(response.extensions) == 0
    &&& response.body == Some(Seq::<u8>::empty())
}

/// `response` is what `part` builds: the part applied to a fresh
/// response.
pub open spec fn answered<P: ResponsePart>(part: P, response: ResponseView) -> bool {
    exists|start: ResponseView| fresh(start) && #[trigger] part.applied(start) == response
}

/// Whether `part` can build a response: whether a fresh response has room
/// for the header values that the part adds.
pub fn can_respond<P: ResponsePart>(part: &P) -> (can: bool)
    ensures
        can == part.footprint().admits(0),
{
    let weight = part.weight();
    weight.admits(0, Ghost(part.footprint()))
}

/// The response that `part` builds: the part applied to a fresh response,
/// which has room for the header values that the part adds.
pub fn respond<P: ResponsePart>(part: P) -> (response: Response)
    requires
        part.footprint().admits(0),
    ensures
        answered(part, response@),
        response.header_lines() <= part.footprint().leaves(0),
{
    let mut response = Response::new(Body::empty());
    let ghost start = response@;
    part.apply(&mut response);
    assert(fresh(start) && part.applied(start) == response@);
    response
}

impl ResponsePart for () {
    open spec fn footprint(&self) -> Footprint {
        Footprint::none()
    }

    /// Leaves the response as it is.
    open spec fn applied(&self, before: ResponseView) -> ResponseView {
        before
    }

    fn weight(&self) -> (weight: Weight) {
        Weight::none()
    }

    fn apply(self, response: &mut Response) {
    }
}

impl ResponsePart for core::convert::Infallible {
    open spec fn footprint(&self) -> Footprint {
        Footprint::none()
    }

    /// Leaves the response as it is. No such part can exist.
    open spec fn applied(&self, before: ResponseView) -> ResponseView {
        before
    }

    fn weight(&self) -> (weight: Weight) {
        Weight::none()
    }

    fn apply(self, response: &mut Response) {
    }
}

impl ResponsePart for Response {
    open spec fn footprint(&self) -> Footprint {
        Footprint::replacing(header_count(self.headers))
    }

    /// Takes the place of the response.
    open spec fn applied(&self, before: ResponseView) -> ResponseView {
        self@
    }

    fn weight(&self) -> (weight: Weight) {
        Weight::replacing(headers_len(&self.headers))
    }

    fn apply(self, response: &mut Response) {
        *response = self;
    }
}

impl ResponsePart for StatusCode {
    open spec fn footprint(&self) -> Footprint {
        Footprint::none()
    }

    /// Sets the status.
    open spec fn applied(&self, before: ResponseView) -> ResponseView {
        ResponseView { status: self@, ..before }
    }

    fn weight(&self) -> (weight: Weight) {
        Weight::none()
    }

    fn apply(self, response: &mut Response) {
        response.status = self;
    }
}

impl ResponsePart for Body {
    open spec fn footprint(&self) -> Footprint {
        Footprint::none()
    }

    /// Sets the body.
    open spec fn applied(&self, before: ResponseView) -> ResponseView {
        ResponseView { body: self@, ..before }
    }

    fn weight(&self) -> (weight: Weight) {
        Weight::none()
    }

    fn apply(self, response: &mut Response) {
        response.body = self;
    }
}

impl ResponsePart for String {
    open spec fn footprint(&self) -> Footprint {
        Footprint::none()
    }

    /// Sets the body to the bytes of the text.
    open spec fn applied(&self, before: ResponseView) -> ResponseView {
        ResponseView { body: Some(vstd::utf8::encode_utf8(self@)), ..before }
    }

    fn weight(&self) -> (weight: Weight) {
        Weight::none()
    }

    fn apply(self, response: &mut Response) {
        response.body = Body::from_text(self.as_str());
    }
}

impl<'a> ResponsePart for &'a str {
    open spec fn footprint(&self) -> Footprint {
        Footprint::none()
    }

    /// Sets the body to the bytes of the text.
    open spec fn applied(&self, before: ResponseView) -> ResponseView {
        ResponseView { body: Some(vstd::utf8::encode_utf8(self@)), ..before }
    }

    fn weight(&self) -> (weight: Weight) {
        Weight::none()
    }

    fn apply(self, response: &mut Response) {
        response.body = Body::from_text(self);
    }
}

impl ResponsePart for Vec<u8> {
    open spec fn footprint(&self) -> Footprint {
        Footprint::none()
    }

    /// Sets the body to the bytes.
    open spec fn applied(&self, before: ResponseView) -> ResponseView {
        ResponseView { body: Some(self@), ..before }
    }

    fn weight(&self) -> (weight: Weight) {
        Weight::none()
    }

    fn apply(self, response: &mut Response) {
        response.body = Body::from_bytes(self);
    }
}

impl ResponsePart for http::Extensions {
    open spec fn footprint(&self) -> Footprint {
        Footprint::none()
    }

    /// Takes the place of the extensions.
    open spec fn applied(&self, before: ResponseView) -> ResponseView {
        ResponseView { extensions: *self, ..before }
    }

    fn weight(&self) -> (weight: Weight) {
        Weight::none()
    }

    fn apply(self, response: &mut Response) {
        response.extensions = self;
    }
}

impl<R: ResponsePart, E: ResponsePart> ResponsePart for Result<R, E> {
    open spec fn footprint(&self) -> Footprint {
        match self {
            Ok(part) => part.footprint(),
            Err(part) => part.footprint(),
        }
    }

    /// Applies the part that is held.
    open spec fn applied(&self, before: ResponseView) -> ResponseView {
        match self {
            Ok(part) => part.applied(before),
            Err(part) => part.applied(before),
        }
    }

    fn weight(&self) -> (weight: Weight) {
        match self {
            Ok(part) => part.weight(),
            Err(part) => part.weight(),
        }
    }

    fn apply(self, response: &mut Response) {
        match self {
            Ok(part) => part.apply(response),
            Err(part) => part.apply(response),
        }
    }
}

#[verifier::external_type_specification]
#[verifier::reject_recursive_types(L)]
#[verifier::reject_recursive_types(R)]
pub struct ExEither<L, R>(either::Either<L, R>);

impl<L: ResponsePart, R: ResponsePart> ResponsePart for either::Either<L, R> {
    open spec fn footprint(&self) -> Footprint {
        match self {
            either::Either::Left(part) => part.footprint(),
            either::Either::Right(part) => part.footprint(),
        }
    }

    /// Applies the part that is held.
    open spec fn applied(&self, before: ResponseView) -> ResponseView {
        match self {
            either::Either::Left(part) => part.applied(before),
            either::Either::Right(part) => part.applied(before),
        }
    }

    fn weight(&self) -> (weight: Weight) {
        match self {
            either::Either::Left(part) => part.weight(),
            either::Either::Right(part) => part.weight(),
        }
    }

    fn apply(self, response: &mut Response) {
        match self {
            either::Either::Left(part) => part.apply(response),
            either::Either::Right(part) => part.apply(response),
        }
    }
}

/// Marks a part that adds to what the response holds where the bare part
/// would take its place.
pub struct Extend<T>(pub T);

impl ResponsePart for Extend<http::HeaderMap<http::HeaderValue>> {
    open spec fn footprint(&self) -> Footprint {
        Footprint::adding(header_count(self.0))
    }

    /// Adds the headers: under each name of the part, its values take the
    /// place of those of the response.
    open spec fn applied(&self, before: ResponseView) -> ResponseView {
        ResponseView { headers: before.headers.union_prefer_right(header_fields(self.0)), ..before }
    }

    fn weight(&self) -> (weight: Weight) {
        Weight::adding(headers_len(&self.0))
    }

    fn apply(self, response: &mut Response) {
        if headers_len(&self.0) > 0 {
            headers_extend(&mut response.headers, self.0);
        } else {
            assert(response@.headers.union_prefer_right(header_fields(self.0))
                =~= response@.headers);
        }
    }
}

impl ResponsePart for Extend<http::Extensions> {
    open spec fn footprint(&self) -> Footprint {
        Footprint::none()
    }

    /// Adds the extensions, each in place of the one of its type.
    open spec fn applied(&self, before: ResponseView) -> ResponseView {
        ResponseView { extensions: merged_extensions(before.extensions, self.0), ..before }
    }

    fn weight(&self) -> (weight: Weight) {
        Weight::none()
    }

    fn apply(self, response: &mut Response) {
        extensions_extend(&mut response.extensions, self.0);
    }
}

impl<A: ResponsePart, B: ResponsePart> ResponsePart for (A, B) {
    open spec fn footprint(&self) -> Footprint {
        self.0.footprint().followed_by(self.1.footprint())
    }

    /// Applies the two parts from left to right.
    open spec fn applied(&self, before: ResponseView) -> ResponseView {
        self.1.applied(self.0.applied(before))
    }

    fn weight(&self) -> (weight: Weight) {
        let weight = self.0.weight();
        let ghost footprint = self.0.footprint();
        let weight = weight.followed_by(self.1.weight(), Ghost(footprint), Ghost(self.1.footprint()));
        proof {
            footprint = footprint.followed_by(self.1.footprint());
        }
        weight
    }

    fn apply(self, response: &mut Response) {
        let ghost held = response.header_lines();
        proof {
            parts_in_a_row_have_room(self.0.footprint(), self.1.footprint(), held, self.0.footprint().leaves(held));
        }
        self.0.apply(response);
        proof {
            parts_in_a_row_have_room(self.0.footprint(), self.1.footprint(), held, response.header_lines());
        }
        self.1.apply(response);
    }
}

impl<A: ResponsePart, B: ResponsePart, C: ResponsePart> ResponsePart for (A, B, C) {
    open spec fn footprint(&self) -> Footprint {
        self.0.footprint().followed_by(self.1.footprint()).followed_by(self.2.footprint())
    }

    /// Applies the three parts from left to right.
    open spec fn applied(&self, before: ResponseView) -> ResponseView {
        self.2.applied(self.1.applied(self.0.applied(before)))
    }

    fn weight(&self) -> (weight: Weight) {
        let weight = self.0.weight();
        let ghost footprint = self.0.footprint();
        let weight = weight.followed_by(self.1.weight(), Ghost(footprint), Ghost(self.1.footprint()));
        proof {
            footprint = footprint.followed_by(self.1.footprint());
        }
        let weight = weight.followed_by(self.2.weight(), Ghost(footprint), Ghost(self.2.footprint()));
        proof {
            footprint = footprint.followed_by(self.2.footprint());
        }
        weight
    }

    fn apply(self, response: &mut Response) {
        let ghost held = response.header_lines();
        proof {
            parts_in_a_row_have_room(self.0.footprint().followed_by(self.1.footprint()), self.2.footprint(), held, self.0.footprint().followed_by(self.1.footprint()).leaves(held));
            parts_in_a_row_have_room(self.0.footprint(), self.1.footprint(), held, self.0.footprint().leaves(held));
        }
        self.0.apply(response);
        proof {
            parts_in_a_row_have_room(self.0.footprint(), self.1.footprint(), held, response.header_lines());
        }
        self.1.apply(response);
        proof {
            parts_in_a_row_have_room(self.0.footprint().followed_by(self.1.footprint()), self.2.footprint(), held, response.header_lines());
        }
        self.2.apply(response);
    }
}

impl<A: ResponsePart, B: ResponsePart, C: ResponsePart, D: ResponsePart> ResponsePart for (A, B, C, D) {
    open spec fn footprint(&self) -> Footprint {
        self.0.footprint().followed_by(self.1.footprint()).followed_by(self.2.footprint()).followed_by(self.3.footprint())
    }

    /// Applies the four parts from left to right.
    open spec fn applied(&self, before: ResponseView) -> ResponseView {
        self.3.applied(self.2.applied(self.1.applied(self.0.applied(before))))
    }

    fn weight(&self) -> (weight: Weight) {
        let weight = self.0.weight();
        let ghost footprint = self.0.footprint();
        let weight = weight.followed_by(self.1.weight(), Ghost(footprint), Ghost(self.1.footprint()));
        proof {
            footprint = footprint.followed_by(self.1.footprint());
        }
        let weight = weight.followed_by(self.2.weight(), Ghost(footprint), Ghost(self.2.footprint()));
        proof {
            footprint = footprint.followed_by(self.2.footprint());
        }
        let weight = weight.followed_by(self.3.weight(), Ghost(footprint), Ghost(self.3.footprint()));
        proof {
            footprint = footprint.followed_by(self.3.footprint());
        }
        weight
    }

    fn apply(self, response: &mut Response) {
        let ghost held = response.header_lines();
        proof {
            parts_in_a_row_have_room(self.0.footprint().followed_by(self.1.footprint()).followed_by(self.2.footprint()), self.3.footprint(), held, self.0.footprint().followed_by(self.1.footprint()).followed_by(self.2.footprint()).leaves(held));
            parts_in_a_row_have_room(self.0.footprint().followed_by(self.1.footprint()), self.2.footprint(), held, self.0.footprint().followed_by(self.1.footprint()).leaves(held));
            parts_in_a_row_have_room(self.0.footprint(), self.1.footprint(), held, self.0.footprint().leaves(held));
        }
        self.0.apply(response);
        proof {
            parts_in_a_row_have_room(self.0.footprint(), self.1.footprint(), held, response.header_lines());
        }
        self.1.apply(response);
        proof {
            parts_in_a_row_have_room(self.0.footprint().followed_by(self.1.footprint()), self.2.footprint(), held, response.header_lines());
        }
        self.2.apply(response);
        proof {
            parts_in_a_row_have_room(self.0.footprint().followed_by(self.1.footprint()).followed_by(self.2.footprint()), self.3.footprint(), held, response.header_lines());
        }
        self.3.apply(response);
    }
}

impl<A: ResponsePart, B: ResponsePart, C: ResponsePart, D: ResponsePart, E: ResponsePart> ResponsePart for (A, B, C, D, E) {
    open spec fn footprint(&self) -> Footprint {
        self.0.footprint().followed_by(self.1.footprint()).followed_by(self.2.footprint()).followed_by(self.3.footprint()).followed_by(self.4.footprint())
    }

    /// Applies the five parts from left to right.
    open spec fn applied(&self, before: ResponseView) -> ResponseView {
        self.4.applied(self.3.applied(self.2.applied(self.1.applied(self.0.applied(before)))))
    }

    fn weight(&self) -> (weight: Weight) {
        let weight = self.0.weight();
        let ghost footprint = self.0.footprint();
        let weight = weight.followed_by(self.1.weight(), Ghost(footprint), Ghost(self.1.footprint()));
        proof {
            footprint = footprint.followed_by(self.1.footprint());
        }
        let weight = weight.followed_by(self.2.weight(), Ghost(footprint), Ghost(self.2.footprint()));
        proof {
            footprint = footprint.followed_by(self.2.footprint());
        }
        let weight = weight.followed_by(self.3.weight(), Ghost(footprint), Ghost(self.3.footprint()));
        proof {
            footprint = footprint.followed_by(self.3.footprint());
        }
        let weight = weight.followed_by(self.4.weight(), Ghost(footprint), Ghost(self.4.footprint()));
        proof {
            footprint = footprint.followed_by(self.4.footprint());
        }
        weight
    }

    fn apply(self, response: &mut Response) {
        let ghost held = response.header_lines();
        proof {
            parts_in_a_row_have_room(self.0.footprint().followed_by(self.1.footprint()).followed_by(self.2.footprint()).followed_by(self.3.footprint()), self.4.footprint(), held, self.0.footprint().followed_by(self.1.footprint()).followed_by(self.2.footprint()).followed_by(self.3.footprint()).leaves(held));
            parts_in_a_row_have_room(self.0.footprint().followed_by(self.1.footprint()).followed_by(self.2.footprint()), self.3.footprint(), held, self.0.footprint().followed_by(self.1.footprint()).followed_by(self.2.footprint()).leaves(held));
            parts_in_a_row_have_room(self.0.footprint().followed_by(self.1.footprint()), self.2.footprint(), held, self.0.footprint().followed_by(self.1.footprint()).leaves(held));
            parts_in_a_row_have_room(self.0.footprint(), self.1.footprint(), held, self.0.footprint().leaves(held));
        }
        self.0.apply(response);
        proof {
            parts_in_a_row_have_room(self.0.footprint(), self.1.footprint(), held, response.header_lines());
        }
        self.1.apply(response);
        proof {
            parts_in_a_row_have_room(self.0.footprint().followed_by(self.1.footprint()), self.2.footprint(), held, response.header_lines());
        }
        self.2.apply(response);
        proof {
            parts_in_a_row_have_room(self.0.footprint().followed_by(self.1.footprint()).followed_by(self.2.footprint()), self.3.footprint(), held, response.header_lines());
        }
        self.3.apply(response);
        proof {
            parts_in_a_row_have_room(self.0.footprint().followed_by(self.1.footprint()).followed_by(self.2.footprint()).followed_by(self.3.footprint()), self.4.footprint(), held, response.header_lines());
        }
        self.4.apply(response);
    }
}

impl<A: ResponsePart, B: ResponsePart, C: ResponsePart, D: ResponsePart, E: ResponsePart, F: ResponsePart> ResponsePart for (A, B, C, D, E, F) {
    open spec fn footprint(&self) -> Footprint {
        self.0.footprint().followed_by(self.1.footprint()).followed_by(self.2.footprint()).followed_by(self.3.footprint()).followed_by(self.4.footprint()).followed_by(self.5.footprint())
    }

    /// Applies the six parts from left to right.
    open spec fn applied(&self, before: ResponseView) -> ResponseView {
        self.5.applied(self.4.applied(self.3.applied(self.2.applied(self.1.applied(self.0.applied(before))))))
    }

    fn weight(&self) -> (weight: Weight) {
        let weight = self.0.weight();
        let ghost footprint = self.0.footprint();
        let weight = weight.followed_by(self.1.weight(), Ghost(footprint), Ghost(self.1.footprint()));
        proof {
            footprint = footprint.followed_by(self.1.footprint());
        }
        let weight = weight.followed_by(self.2.weight(), Ghost(footprint), Ghost(self.2.footprint()));
        proof {
            footprint = footprint.followed_by(self.2.footprint());
        }
        let weight = weight.followed_by(self.3.weight(), Ghost(footprint), Ghost(self.3.footprint()));
        proof {
            footprint = footprint.followed_by(self.3.footprint());
        }
        let weight = weight.followed_by(self.4.weight(), Ghost(footprint), Ghost(self.4.footprint()));
        proof {
            footprint = footprint.followed_by(self.4.footprint());
        }
        let weight = weight.followed_by(self.5.weight(), Ghost(footprint), Ghost(self.5.footprint()));
        proof {
            footprint = footprint.followed_by(self.5.footprint());
        }
        weight
    }

    fn apply(self, response: &mut Response) {
        let ghost held = response.header_lines();
        proof {
            parts_in_a_row_have_room(self.0.footprint().followed_by(self.1.footprint()).followed_by(self.2.footprint()).followed_by(self.3.footprint()).followed_by(self.4.footprint()), self.5.footprint(), held, self.0.footprint().followed_by(self.1.footprint()).followed_by(self.2.footprint()).followed_by(self.3.footprint()).followed_by(self.4.footprint()).leaves(held));
            parts_in_a_row_have_room(self.0.footprint().followed_by(self.1.footprint()).followed_by(self.2.footprint()).followed_by(self.3.footprint()), self.4.footprint(), held, self.0.footprint().followed_by(self.1.footprint()).followed_by(self.2.footprint()).followed_by(self.3.footprint()).leaves(held));
            parts_in_a_row_have_room(self.0.footprint().followed_by(self.1.footprint()).followed_by(self.2.footprint()), self.3.footprint(), held, self.0.footprint().followed_by(self.1.footprint()).followed_by(self.2.footprint()).leaves(held));
            parts_in_a_row_have_room(self.0.footprint().followed_by(self.1.footprint()), self.2.footprint(), held, self.0.footprint().followed_by(self.1.footprint()).leaves(held));
            parts_in_a_row_have_room(self.0.footprint(), self.1.footprint(), held, self.0.footprint().leaves(held));
        }
        self.0.apply(response);
        proof {
            parts_in_a_row_have_room(self.0.footprint(), self.1.footprint(), held, response.header_lines());
        }
        self.1.apply(response);
        proof {
            parts_in_a_row_have_room(self.0.footprint().followed_by(self.1.footprint()), self.2.footprint(), held, response.header_lines());
        }
        self.2.apply(response);
        proof {
            parts_in_a_row_have_room(self.0.footprint().followed_by(self.1.footprint()).followed_by(self.2.footprint()), self.3.footprint(), held, response.header_lines());
        }
        self.3.apply(response);
        proof {
            parts_in_a_row_have_room(self.0.footprint().followed_by(self.1.footprint()).followed_by(self.2.footprint()).followed_by(self.3.footprint()), self.4.footprint(), held, response.header_lines());
        }
        self.4.apply(response);
        proof {
            parts_in_a_row_have_room(self.0.footprint().followed_by(self.1.footprint()).followed_by(self.2.footprint()).followed_by(self.3.footprint()).followed_by(self.4.footprint()), self.5.footprint(), held, response.header_lines());
        }
        self.5.apply(response);
    }
}

impl<A: ResponsePart, B: ResponsePart, C: ResponsePart, D: ResponsePart, E: ResponsePart, F: ResponsePart, G: ResponsePart> ResponsePart for (A, B, C, D, E, F, G) {
    open spec fn footprint(&self) -> Footprint {
        self.0.footprint().followed_by(self.1.footprint()).followed_by(self.2.footprint()).followed_by(self.3.footprint()).followed_by(self.4.footprint()).followed_by(self.5.footprint()).followed_by(self.6.footprint())
    }

    /// Applies the seven parts from left to right.
    open spec fn applied(&self, before: ResponseView) -> ResponseView {
        self.6.applied(self.5.applied(self.4.applied(self.3.applied(self.2.applied(self.1.applied(self.0.applied(before)))))))
    }

    fn weight(&self) -> (weight: Weight) {
        let weight = self.0.weight();
        let ghost footprint = self.0.footprint();
        let weight = weight.followed_by(self.1.weight(), Ghost(footprint), Ghost(self.1.footprint()));
        proof {
            footprint = footprint.followed_by(self.1.footprint());
        }
        let weight = weight.followed_by(self.2.weight(), Ghost(footprint), Ghost(self.2.footprint()));
        proof {
            footprint = footprint.followed_by(self.2.footprint());
        }
        let weight = weight.followed_by(self.3.weight(), Ghost(footprint), Ghost(self.3.footprint()));
        proof {
            footprint = footprint.followed_by(self.3.footprint());
        }
        let weight = weight.followed_by(self.4.weight(), Ghost(footprint), Ghost(self.4.footprint()));
        proof {
            footprint = footprint.followed_by(self.4.footprint());
        }
        let weight = weight.followed_by(self.5.weight(), Ghost(footprint), Ghost(self.5.footprint()));
        proof {
            footprint = footprint.followed_by(self.5.footprint());
        }
        let weight = weight.followed_by(self.6.weight(), Ghost(footprint), Ghost(self.6.footprint()));
        proof {
            footprint = footprint.followed_by(self.6.footprint());
        }
        weight
    }

    fn apply(self, response: &mut Response) {
        let ghost held = response.header_lines();
        proof {
            parts_in_a_row_have_room(self.0.footprint().followed_by(self.1.footprint()).followed_by(self.2.footprint()).followed_by(self.3.footprint()).followed_by(self.4.footprint()).followed_by(self.5.footprint()), self.6.footprint(), held, self.0.footprint().followed_by(self.1.footprint()).followed_by(self.2.footprint()).followed_by(self.3.footprint()).followed_by(self.4.footprint()).followed_by(self.5.footprint()).leaves(held));
            parts_in_a_row_have_room(self.0.footprint().followed_by(self.1.footprint()).followed_by(self.2.footprint()).followed_by(self.3.footprint()).followed_by(self.4.footprint()), self.5.footprint(), held, self.0.footprint().followed_by(self.1.footprint()).followed_by(self.2.footprint()).followed_by(self.3.footprint()).followed_by(self.4.footprint()).leaves(held));
            parts_in_a_row_have_room(self.0.footprint().followed_by(self.1.footprint()).followed_by(self.2.footprint()).followed_by(self.3.footprint()), self.4.footprint(), held, self.0.footprint().followed_by(self.1.footprint()).followed_by(self.2.footprint()).followed_by(self.3.footprint()).leaves(held));
            parts_in_a_row_have_room(self.0.footprint().followed_by(self.1.footprint()).followed_by(self.2.footprint()), self.3.footprint(), held, self.0.footprint().followed_by(self.1.footprint()).followed_by(self.2.footprint()).leaves(held));
            parts_in_a_row_have_room(self.0.footprint().followed_by(self.1.footprint()), self.2.footprint(), held, self.0.footprint().followed_by(self.1.footprint()).leaves(held));
            parts_in_a_row_have_room(self.0.footprint(), self.1.footprint(), held, self.0.footprint().leaves(held));
        }
        self.0.apply(response);
        proof {
            parts_in_a_row_have_room(self.0.footprint(), self.1.footprint(), held, response.header_lines());
        }
        self.1.apply(response);
        proof {
            parts_in_a_row_have_room(self.0.footprint().followed_by(self.1.footprint()), self.2.footprint(), held, response.header_lines());
        }
        self.2.apply(response);
        proof {
            parts_in_a_row_have_room(self.0.footprint().followed_by(self.1.footprint()).followed_by(self.2.footprint()), self.3.footprint(), held, response.header_lines());
        }
        self.3.apply(response);
        proof {
            parts_in_a_row_have_room(self.0.footprint().followed_by(self.1.footprint()).followed_by(self.2.footprint()).followed_by(self.3.footprint()), self.4.footprint(), held, response.header_lines());
        }
        self.4.apply(response);
        proof {
            parts_in_a_row_have_room(self.0.footprint().followed_by(self.1.footprint()).followed_by(self.2.footprint()).followed_by(self.3.footprint()).followed_by(self.4.footprint()), self.5.footprint(), held, response.header_lines());
        }
        self.5.apply(response);
        proof {
            parts_in_a_row_have_room(self.0.footprint().followed_by(self.1.footprint()).followed_by(self.2.footprint()).followed_by(self.3.footprint()).followed_by(self.4.footprint()).followed_by(self.5.footprint()), self.6.footprint(), held, response.header_lines());
        }
        self.6.apply(response);
    }
}

impl<A: ResponsePart, B: ResponsePart, C: ResponsePart, D: ResponsePart, E: ResponsePart, F: ResponsePart, G: ResponsePart, H: ResponsePart> ResponsePart for (A, B, C, D, E, F, G, H) {
    open spec fn footprint(&self) -> Footprint {
        self.0.footprint().followed_by(self.1.footprint()).followed_by(self.2.footprint()).followed_by(self.3.footprint()).followed_by(self.4.footprint()).followed_by(self.5.footprint()).followed_by(self.6.footprint()).followed_by(self.7.footprint())
    }

    /// Applies the eight parts from left to right.
    open spec fn applied(&self, before: ResponseView) -> ResponseView {
        self.7.applied(self.6.applied(self.5.applied(self.4.applied(self.3.applied(self.2.applied(self.1.applied(self.0.applied(before))))))))
    }

    fn weight(&self) -> (weight: Weight) {
        let weight = self.0.weight();
        let ghost footprint = self.0.footprint();
        let weight = weight.followed_by(self.1.weight(), Ghost(footprint), Ghost(self.1.footprint()));
        proof {
            footprint = footprint.followed_by(self.1.footprint());
        }
        let weight = weight.followed_by(self.2.weight(), Ghost(footprint), Ghost(self.2.footprint()));
        proof {
            footprint = footprint.followed_by(self.2.footprint());
        }
        let weight = weight.followed_by(self.3.weight(), Ghost(footprint), Ghost(self.3.footprint()));
        proof {
            footprint = footprint.followed_by(self.3.footprint());
        }
        let weight = weight.followed_by(self.4.weight(), Ghost(footprint), Ghost(self.4.footprint()));
        proof {
            footprint = footprint.followed_by(self.4.footprint());
        }
        let weight = weight.followed_by(self.5.weight(), Ghost(footprint), Ghost(self.5.footprint()));
        proof {
            footprint = footprint.followed_by(self.5.footprint());
        }
        let weight = weight.followed_by(self.6.weight(), Ghost(footprint), Ghost(self.6.footprint()));
        proof {
            footprint = footprint.followed_by(self.6.footprint());
        }
        let weight = weight.followed_by(self.7.weight(), Ghost(footprint), Ghost(self.7.footprint()));
        proof {
            footprint = footprint.followed_by(self.7.footprint());
        }
        weight
    }

    fn apply(self, response: &mut Response) {
        let ghost held = response.header_lines();
        proof {
            parts_in_a_row_have_room(self.0.footprint().followed_by(self.1.footprint()).followed_by(self.2.footprint()).followed_by(self.3.footprint()).followed_by(self.4.footprint()).followed_by(self.5.footprint()).followed_by(self.6.footprint()), self.7.footprint(), held, self.0.footprint().followed_by(self.1.footprint()).followed_by(self.2.footprint()).followed_by(self.3.footprint()).followed_by(self.4.footprint()).followed_by(self.5.footprint()).followed_by(self.6.footprint()).leaves(held));
            parts_in_a_row_have_room(self.0.footprint().followed_by(self.1.footprint()).followed_by(self.2.footprint()).followed_by(self.3.footprint()).followed_by(self.4.footprint()).followed_by(self.5.footprint()), self.6.footprint(), held, self.0.footprint().followed_by(self.1.footprint()).followed_by(self.2.footprint()).followed_by(self.3.footprint()).followed_by(self.4.footprint()).followed_by(self.5.footprint()).leaves(held));
            parts_in_a_row_have_room(self.0.footprint().followed_by(self.1.footprint()).followed_by(self.2.footprint()).followed_by(self.3.footprint()).followed_by(self.4.footprint()), self.5.footprint(), held, self.0.footprint().followed_by(self.1.footprint()).followed_by(self.2.footprint()).followed_by(self.3.footprint()).followed_by(self.4.footprint()).leaves(held));
            parts_in_a_row_have_room(self.0.footprint().followed_by(self.1.footprint()).followed_by(self.2.footprint()).followed_by(self.3.footprint()), self.4.footprint(), held, self.0.footprint().followed_by(self.1.footprint()).followed_by(self.2.footprint()).followed_by(self.3.footprint()).leaves(held));
            parts_in_a_row_have_room(self.0.footprint().followed_by(self.1.footprint()).followed_by(self.2.footprint()), self.3.footprint(), held, self.0.footprint().followed_by(self.1.footprint()).followed_by(self.2.footprint()).leaves(held));
            parts_in_a_row_have_room(self.0.footprint().followed_by(self.1.footprint()), self.2.footprint(), held, self.0.footprint().followed_by(self.1.footprint()).leaves(held));
            parts_in_a_row_have_room(self.0.footprint(), self.1.footprint(), held, self.0.footprint().leaves(held));
        }
        self.0.apply(response);
        proof {
            parts_in_a_row_have_room(self.0.footprint(), self.1.footprint(), held, response.header_lines());
        }
        self.1.apply(response);
        proof {
            parts_in_a_row_have_room(self.0.footprint().followed_by(self.1.footprint()), self.2.footprint(), held, response.header_lines());
        }
        self.2.apply(response);
        proof {
            parts_in_a_row_have_room(self.0.footprint().followed_by(self.1.footprint()).followed_by(self.2.footprint()), self.3.footprint(), held, response.header_lines());
        }
        self.3.apply(response);
        proof {
            parts_in_a_row_have_room(self.0.footprint().followed_by(self.1.footprint()).followed_by(self.2.footprint()).followed_by(self.3.footprint()), self.4.footprint(), held, response.header_lines());
        }
        self.4.apply(response);
        proof {
            parts_in_a_row_have_room(self.0.footprint().followed_by(self.1.footprint()).followed_by(self.2.footprint()).followed_by(self.3.footprint()).followed_by(self.4.footprint()), self.5.footprint(), held, response.header_lines());
        }
        self.5.apply(response);
        proof {
            parts_in_a_row_have_room(self.0.footprint().followed_by(self.1.footprint()).followed_by(self.2.footprint()).followed_by(self.3.footprint()).followed_by(self.4.footprint()).followed_by(self.5.footprint()), self.6.footprint(), held, response.header_lines());
        }
        self.6.apply(response);
        proof {
            parts_in_a_row_have_room(self.0.footprint().followed_by(self.1.footprint()).followed_by(self.2.footprint()).followed_by(self.3.footprint()).followed_by(self.4.footprint()).followed_by(self.5.footprint()).followed_by(self.6.footprint()), self.7.footprint(), held, response.header_lines());
        }
        self.7.apply(response);
    }
}

impl<A: ResponsePart, B: ResponsePart, C: ResponsePart, D: ResponsePart, E: ResponsePart, F: ResponsePart, G: ResponsePart, H: ResponsePart, I: ResponsePart> ResponsePart for (A, B, C, D, E, F, G, H, I) {
    open spec fn footprint(&self) -> Footprint {
        self.0.footprint().followed_by(self.1.footprint()).followed_by(self.2.footprint()).followed_by(self.3.footprint()).followed_by(self.4.footprint()).followed_by(self.5.footprint()).followed_by(self.6.footprint()).followed_by(self.7.footprint()).followed_by(self.8.footprint())
    }

    /// Applies the nine parts from left to right.
    open spec fn applied(&self, before: ResponseView) -> ResponseView {
        self.8.applied(self.7.applied(self.6.applied(self.5.applied(self.4.applied(self.3.applied(self.2.applied(self.1.applied(self.0.applied(before)))))))))
    }

    fn weight(&self) -> (weight: Weight) {
        let weight = self.0.weight();
        let ghost footprint = self.0.footprint();
        let weight = weight.followed_by(self.1.weight(), Ghost(footprint), Ghost(self.1.footprint()));
        proof {
            footprint = footprint.followed_by(self.1.footprint());
        }
        let weight = weight.followed_by(self.2.weight(), Ghost(footprint), Ghost(self.2.footprint()));
        proof {
            footprint = footprint.followed_by(self.2.footprint());
        }
        let weight = weight.followed_by(self.3.weight(), Ghost(footprint), Ghost(self.3.footprint()));
        proof {
            footprint = footprint.followed_by(self.3.footprint());
        }
        let weight = weight.followed_by(self.4.weight(), Ghost(footprint), Ghost(self.4.footprint()));
        proof {
            footprint = footprint.followed_by(self.4.footprint());
        }
        let weight = weight.followed_by(self.5.weight(), Ghost(footprint), Ghost(self.5.footprint()));
        proof {
            footprint = footprint.followed_by(self.5.footprint());
        }
        let weight = weight.followed_by(self.6.weight(), Ghost(footprint), Ghost(self.6.footprint()));
        proof {
            footprint = footprint.followed_by(self.6.footprint());
        }
        let weight = weight.followed_by(self.7.weight(), Ghost(footprint), Ghost(self.7.footprint()));
        proof {
            footprint = footprint.followed_by(self.7.footprint());
        }
        let weight = weight.followed_by(self.8.weight(), Ghost(footprint), Ghost(self.8.footprint()));
        proof {
            footprint = footprint.followed_by(self.8.footprint());
        }
        weight
    }

    fn apply(self, response: &mut Response) {
        let ghost held = response.header_lines();
        proof {
            parts_in_a_row_have_room(self.0.footprint().followed_by(self.1.footprint()).followed_by(self.2.footprint()).followed_by(self.3.footprint()).followed_by(self.4.footprint()).followed_by(self.5.footprint()).followed_by(self.6.footprint()).followed_by(self.7.footprint()), self.8.footprint(), held, self.0.footprint().followed_by(self.1.footprint()).followed_by(self.2.footprint()).followed_by(self.3.footprint()).followed_by(self.4.footprint()).followed_by(self.5.footprint()).followed_by(self.6.footprint()).followed_by(self.7.footprint()).leaves(held));
            parts_in_a_row_have_room(self.0.footprint().followed_by(self.1.footprint()).followed_by(self.2.footprint()).followed_by(self.3.footprint()).followed_by(self.4.footprint()).followed_by(self.5.footprint()).followed_by(self.6.footprint()), self.7.footprint(), held, self.0.footprint().followed_by(self.1.footprint()).followed_by(self.2.footprint()).followed_by(self.3.footprint()).followed_by(self.4.footprint()).followed_by(self.5.footprint()).followed_by(self.6.footprint()).leaves(held));
            parts_in_a_row_have_room(self.0.footprint().followed_by(self.1.footprint()).followed_by(self.2.footprint()).followed_by(self.3.footprint()).followed_by(self.4.footprint()).followed_by(self.5.footprint()), self.6.footprint(), held, self.0.footprint().followed_by(self.1.footprint()).followed_by(self.2.footprint()).followed_by(self.3.footprint()).followed_by(self.4.footprint()).followed_by(self.5.footprint()).leaves(held));
            parts_in_a_row_have_room(self.0.footprint().followed_by(self.1.footprint()).followed_by(self.2.footprint()).followed_by(self.3.footprint()).followed_by(self.4.footprint()), self.5.footprint(), held, self.0.footprint().followed_by(self.1.footprint()).followed_by(self.2.footprint()).followed_by(self.3.footprint()).followed_by(self.4.footprint()).leaves(held));
            parts_in_a_row_have_room(self.0.footprint().followed_by(self.1.footprint()).followed_by(self.2.footprint()).followed_by(self.3.footprint()), self.4.footprint(), held, self.0.footprint().followed_by(self.1.footprint()).followed_by(self.2.footprint()).followed_by(self.3.footprint()).leaves(held));
            parts_in_a_row_have_room(self.0.footprint().followed_by(self.1.footprint()).followed_by(self.2.footprint()), self.3.footprint(), held, self.0.footprint().followed_by(self.1.footprint()).followed_by(self.2.footprint()).leaves(held));
            parts_in_a_row_have_room(self.0.footprint().followed_by(self.1.footprint()), self.2.footprint(), held, self.0.footprint().followed_by(self.1.footprint()).leaves(held));
            parts_in_a_row_have_room(self.0.footprint(), self.1.footprint(), held, self.0.footprint().leaves(held));
        }
        self.0.apply(response);
        proof {
            parts_in_a_row_have_room(self.0.footprint(), self.1.footprint(), held, response.header_lines());
        }
        self.1.apply(response);
        proof {
            parts_in_a_row_have_room(self.0.footprint().followed_by(self.1.footprint()), self.2.footprint(), held, response.header_lines());
        }
        self.2.apply(response);
        proof {
            parts_in_a_row_have_room(self.0.footprint().followed_by(self.1.footprint()).followed_by(self.2.footprint()), self.3.footprint(), held, response.header_lines());
        }
        self.3.apply(response);
        proof {
            parts_in_a_row_have_room(self.0.footprint().followed_by(self.1.footprint()).followed_by(self.2.footprint()).followed_by(self.3.footprint()), self.4.footprint(), held, response.header_lines());
        }
        self.4.apply(response);
        proof {
            parts_in_a_row_have_room(self.0.footprint().followed_by(self.1.footprint()).followed_by(self.2.footprint()).followed_by(self.3.footprint()).followed_by(self.4.footprint()), self.5.footprint(), held, response.header_lines());
        }
        self.5.apply(response);
        proof {
            parts_in_a_row_have_room(self.0.footprint().followed_by(self.1.footprint()).followed_by(self.2.footprint()).followed_by(self.3.footprint()).followed_by(self.4.footprint()).followed_by(self.5.footprint()), self.6.footprint(), held, response.header_lines());
        }
        self.6.apply(response);
        proof {
            parts_in_a_row_have_room(self.0.footprint().followed_by(self.1.footprint()).followed_by(self.2.footprint()).followed_by(self.3.footprint()).followed_by(self.4.footprint()).followed_by(self.5.footprint()).followed_by(self.6.footprint()), self.7.footprint(), held, response.header_lines());
        }
        self.7.apply(response);
        proof {
            parts_in_a_row_have_room(self.0.footprint().followed_by(self.1.footprint()).followed_by(self.2.footprint()).followed_by(self.3.footprint()).followed_by(self.4.footprint()).followed_by(self.5.footprint()).followed_by(self.6.footprint()).followed_by(self.7.footprint()), self.8.footprint(), held, response.header_lines());
        }
        self.8.apply(response);
    }
}

impl<A: ResponsePart, B: ResponsePart, C: ResponsePart, D: ResponsePart, E: ResponsePart, F: ResponsePart, G: ResponsePart, H: ResponsePart, I: ResponsePart, J: ResponsePart> ResponsePart for (A, B, C, D, E, F, G, H, I, J) {
    open spec fn footprint(&self) -> Footprint {
        self.0.footprint().followed_by(self.1.footprint()).followed_by(self.2.footprint()).followed_by(self.3.footprint()).followed_by(self.4.footprint()).followed_by(self.5.footprint()).followed_by(self.6.footprint()).followed_by(self.7.footprint()).followed_by(self.8.footprint()).followed_by(self.9.footprint())
    }

    /// Applies the ten parts from left to right.
    open spec fn applied(&self, before: ResponseView) -> ResponseView {
        self.9.applied(self.8.applied(self.7.applied(self.6.applied(self.5.applied(self.4.applied(self.3.applied(self.2.applied(self.1.applied(self.0.applied(before))))))))))
    }

    fn weight(&self) -> (weight: Weight) {
        let weight = self.0.weight();
        let ghost footprint = self.0.footprint();
        let weight = weight.followed_by(self.1.weight(), Ghost(footprint), Ghost(self.1.footprint()));
        proof {
            footprint = footprint.followed_by(self.1.footprint());
        }
        let weight = weight.followed_by(self.2.weight(), Ghost(footprint), Ghost(self.2.footprint()));
        proof {
            footprint = footprint.followed_by(self.2.footprint());
        }
        let weight = weight.followed_by(self.3.weight(), Ghost(footprint), Ghost(self.3.footprint()));
        proof {
            footprint = footprint.followed_by(self.3.footprint());
        }
        let weight = weight.followed_by(self.4.weight(), Ghost(footprint), Ghost(self.4.footprint()));
        proof {
            footprint = footprint.followed_by(self.4.footprint());
        }
        let weight = weight.followed_by(self.5.weight(), Ghost(footprint), Ghost(self.5.footprint()));
        proof {
            footprint = footprint.followed_by(self.5.footprint());
        }
        let weight = weight.followed_by(self.6.weight(), Ghost(footprint), Ghost(self.6.footprint()));
        proof {
            footprint = footprint.followed_by(self.6.footprint());
        }
        let weight = weight.followed_by(self.7.weight(), Ghost(footprint), Ghost(self.7.footprint()));
        proof {
            footprint = footprint.followed_by(self.7.footprint());
        }
        let weight = weight.followed_by(self.8.weight(), Ghost(footprint), Ghost(self.8.footprint()));
        proof {
            footprint = footprint.followed_by(self.8.footprint());
        }
        let weight = weight.followed_by(self.9.weight(), Ghost(footprint), Ghost(self.9.footprint()));
        proof {
            footprint = footprint.followed_by(self.9.footprint());
        }
        weight
    }

    fn apply(self, response: &mut Response) {
        let ghost held = response.header_lines();
        proof {
            parts_in_a_row_have_room(self.0.footprint().followed_by(self.1.footprint()).followed_by(self.2.footprint()).followed_by(self.3.footprint()).followed_by(self.4.footprint()).followed_by(self.5.footprint()).followed_by(self.6.footprint()).followed_by(self.7.footprint()).followed_by(self.8.footprint()), self.9.footprint(), held, self.0.footprint().followed_by(self.1.footprint()).followed_by(self.2.footprint()).followed_by(self.3.footprint()).followed_by(self.4.footprint()).followed_by(self.5.footprint()).followed_by(self.6.footprint()).followed_by(self.7.footprint()).followed_by(self.8.footprint()).leaves(held));
            parts_in_a_row_have_room(self.0.footprint().followed_by(self.1.footprint()).followed_by(self.2.footprint()).followed_by(self.3.footprint()).followed_by(self.4.footprint()).followed_by(self.5.footprint()).followed_by(self.6.footprint()).followed_by(self.7.footprint()), self.8.footprint(), held, self.0.footprint().followed_by(self.1.footprint()).followed_by(self.2.footprint()).followed_by(self.3.footprint()).followed_by(self.4.footprint()).followed_by(self.5.footprint()).followed_by(self.6.footprint()).followed_by(self.7.footprint()).leaves(held));
            parts_in_a_row_have_room(self.0.footprint().followed_by(self.1.footprint()).followed_by(self.2.footprint()).followed_by(self.3.footprint()).followed_by(self.4.footprint()).followed_by(self.5.footprint()).followed_by(self.6.footprint()), self.7.footprint(), held, self.0.footprint().followed_by(self.1.footprint()).followed_by(self.2.footprint()).followed_by(self.3.footprint()).followed_by(self.4.footprint()).followed_by(self.5.footprint()).followed_by(self.6.footprint()).leaves(held));
            parts_in_a_row_have_room(self.0.footprint().followed_by(self.1.footprint()).followed_by(self.2.footprint()).followed_by(self.3.footprint()).followed_by(self.4.footprint()).followed_by(self.5.footprint()), self.6.footprint(), held, self.0.footprint().followed_by(self.1.footprint()).followed_by(self.2.footprint()).followed_by(self.3.footprint()).followed_by(self.4.footprint()).followed_by(self.5.footprint()).leaves(held));
            parts_in_a_row_have_room(self.0.footprint().followed_by(self.1.footprint()).followed_by(self.2.footprint()).followed_by(self.3.footprint()).followed_by(self.4.footprint()), self.5.footprint(), held, self.0.footprint().followed_by(self.1.footprint()).followed_by(self.2.footprint()).followed_by(self.3.footprint()).followed_by(self.4.footprint()).leaves(held));
            parts_in_a_row_have_room(self.0.footprint().followed_by(self.1.footprint()).followed_by(self.2.footprint()).followed_by(self.3.footprint()), self.4.footprint(), held, self.0.footprint().followed_by(self.1.footprint()).followed_by(self.2.footprint()).followed_by(self.3.footprint()).leaves(held));
            parts_in_a_row_have_room(self.0.footprint().followed_by(self.1.footprint()).followed_by(self.2.footprint()), self.3.footprint(), held, self.0.footprint().followed_by(self.1.footprint()).followed_by(self.2.footprint()).leaves(held));
            parts_in_a_row_have_room(self.0.footprint().followed_by(self.1.footprint()), self.2.footprint(), held, self.0.footprint().followed_by(self.1.footprint()).leaves(held));
            parts_in_a_row_have_room(self.0.footprint(), self.1.footprint(), held, self.0.footprint().leaves(held));
        }
        self.0.apply(response);
        proof {
            parts_in_a_row_have_room(self.0.footprint(), self.1.footprint(), held, response.header_lines());
        }
        self.1.apply(response);
        proof {
            parts_in_a_row_have_room(self.0.footprint().followed_by(self.1.footprint()), self.2.footprint(), held, response.header_lines());
        }
        self.2.apply(response);
        proof {
            parts_in_a_row_have_room(self.0.footprint().followed_by(self.1.footprint()).followed_by(self.2.footprint()), self.3.footprint(), held, response.header_lines());
        }
        self.3.apply(response);
        proof {
            parts_in_a_row_have_room(self.0.footprint().followed_by(self.1.footprint()).followed_by(self.2.footprint()).followed_by(self.3.footprint()), self.4.footprint(), held, response.header_lines());
        }
        self.4.apply(response);
        proof {
            parts_in_a_row_have_room(self.0.footprint().followed_by(self.1.footprint()).followed_by(self.2.footprint()).followed_by(self.3.footprint()).followed_by(self.4.footprint()), self.5.footprint(), held, response.header_lines());
        }
        self.5.apply(response);
        proof {
            parts_in_a_row_have_room(self.0.footprint().followed_by(self.1.footprint()).followed_by(self.2.footprint()).followed_by(self.3.footprint()).followed_by(self.4.footprint()).followed_by(self.5.footprint()), self.6.footprint(), held, response.header_lines());
        }
        self.6.apply(response);
        proof {
            parts_in_a_row_have_room(self.0.footprint().followed_by(self.1.footprint()).followed_by(self.2.footprint()).followed_by(self.3.footprint()).followed_by(self.4.footprint()).followed_by(self.5.footprint()).followed_by(self.6.footprint()), self.7.footprint(), held, response.header_lines());
        }
        self.7.apply(response);
        proof {
            parts_in_a_row_have_room(self.0.footprint().followed_by(self.1.footprint()).followed_by(self.2.footprint()).followed_by(self.3.footprint()).followed_by(self.4.footprint()).followed_by(self.5.footprint()).followed_by(self.6.footprint()).followed_by(self.7.footprint()), self.8.footprint(), held, response.header_lines());
        }
        self.8.apply(response);
        proof {
            parts_in_a_row_have_room(self.0.footprint().followed_by(self.1.footprint()).followed_by(self.2.footprint()).followed_by(self.3.footprint()).followed_by(self.4.footprint()).followed_by(self.5.footprint()).followed_by(self.6.footprint()).followed_by(self.7.footprint()).followed_by(self.8.footprint()), self.9.footprint(), held, response.header_lines());
        }
        self.9.apply(response);
    }
}

impl<A: ResponsePart, B: ResponsePart, C: ResponsePart, D: ResponsePart, E: ResponsePart, F: ResponsePart, G: ResponsePart, H: ResponsePart, I: ResponsePart, J: ResponsePart, K: ResponsePart> ResponsePart for (A, B, C, D, E, F, G, H, I, J, K) {
    open spec fn footprint(&self) -> Footprint {
        self.0.footprint().followed_by(self.1.footprint()).followed_by(self.2.footprint()).followed_by(self.3.footprint()).followed_by(self.4.footprint()).followed_by(self.5.footprint()).followed_by(self.6.footprint()).followed_by(self.7.footprint()).followed_by(self.8.footprint()).followed_by(self.9.footprint()).followed_by(self.10.footprint())
    }

    /// Applies the eleven parts from left to right.
    open spec fn applied(&self, before: ResponseView) -> ResponseView {
        self.10.applied(self.9.applied(self.8.applied(self.7.applied(self.6.applied(self.5.applied(self.4.applied(self.3.applied(self.2.applied(self.1.applied(self.0.applied(before)))))))))))
    }

    fn weight(&self) -> (weight: Weight) {
        let weight = self.0.weight();
        let ghost footprint = self.0.footprint();
        let weight = weight.followed_by(self.1.weight(), Ghost(footprint), Ghost(self.1.footprint()));
        proof {
            footprint = footprint.followed_by(self.1.footprint());
        }
        let weight = weight.followed_by(self.2.weight(), Ghost(footprint), Ghost(self.2.footprint()));
        proof {
            footprint = footprint.followed_by(self.2.footprint());
        }
        let weight = weight.followed_by(self.3.weight(), Ghost(footprint), Ghost(self.3.footprint()));
        proof {
            footprint = footprint.followed_by(self.3.footprint());
        }
        let weight = weight.followed_by(self.4.weight(), Ghost(footprint), Ghost(self.4.footprint()));
        proof {
            footprint = footprint.followed_by(self.4.footprint());
        }
        let weight = weight.followed_by(self.5.weight(), Ghost(footprint), Ghost(self.5.footprint()));
        proof {
            footprint = footprint.followed_by(self.5.footprint());
        }
        let weight = weight.followed_by(self.6.weight(), Ghost(footprint), Ghost(self.6.footprint()));
        proof {
            footprint = footprint.followed_by(self.6.footprint());
        }
        let weight = weight.followed_by(self.7.weight(), Ghost(footprint), Ghost(self.7.footprint()));
        proof {
            footprint = footprint.followed_by(self.7.footprint());
        }
        let weight = weight.followed_by(self.8.weight(), Ghost(footprint), Ghost(self.8.footprint()));
        proof {
            footprint = footprint.followed_by(self.8.footprint());
        }
        let weight = weight.followed_by(self.9.weight(), Ghost(footprint), Ghost(self.9.footprint()));
        proof {
            footprint = footprint.followed_by(self.9.footprint());
        }
        let weight = weight.followed_by(self.10.weight(), Ghost(footprint), Ghost(self.10.footprint()));
        proof {
            footprint = footprint.followed_by(self.10.footprint());
        }
        weight
    }

    fn apply(self, response: &mut Response) {
        let ghost held = response.header_lines();
        proof {
            parts_in_a_row_have_room(self.0.footprint().followed_by(self.1.footprint()).followed_by(self.2.footprint()).followed_by(self.3.footprint()).followed_by(self.4.footprint()).followed_by(self.5.footprint()).followed_by(self.6.footprint()).followed_by(self.7.footprint()).followed_by(self.8.footprint()).followed_by(self.9.footprint()), self.10.footprint(), held, self.0.footprint().followed_by(self.1.footprint()).followed_by(self.2.footprint()).followed_by(self.3.footprint()).followed_by(self.4.footprint()).followed_by(self.5.footprint()).followed_by(self.6.footprint()).followed_by(self.7.footprint()).followed_by(self.8.footprint()).followed_by(self.9.footprint()).leaves(held));
            parts_in_a_row_have_room(self.0.footprint().followed_by(self.1.footprint()).followed_by(self.2.footprint()).followed_by(self.3.footprint()).followed_by(self.4.footprint()).followed_by(self.5.footprint()).followed_by(self.6.footprint()).followed_by(self.7.footprint()).followed_by(self.8.footprint()), self.9.footprint(), held, self.0.footprint().followed_by(self.1.footprint()).followed_by(self.2.footprint()).followed_by(self.3.footprint()).followed_by(self.4.footprint()).followed_by(self.5.footprint()).followed_by(self.6.footprint()).followed_by(self.7.footprint()).followed_by(self.8.footprint()).leaves(held));
            parts_in_a_row_have_room(self.0.footprint().followed_by(self.1.footprint()).followed_by(self.2.footprint()).followed_by(self.3.footprint()).followed_by(self.4.footprint()).followed_by(self.5.footprint()).followed_by(self.6.footprint()).followed_by(self.7.footprint()), self.8.footprint(), held, self.0.footprint().followed_by(self.1.footprint()).followed_by(self.2.footprint()).followed_by(self.3.footprint()).followed_by(self.4.footprint()).followed_by(self.5.footprint()).followed_by(self.6.footprint()).followed_by(self.7.footprint()).leaves(held));
            parts_in_a_row_have_room(self.0.footprint().followed_by(self.1.footprint()).followed_by(self.2.footprint()).followed_by(self.3.footprint()).followed_by(self.4.footprint()).followed_by(self.5.footprint()).followed_by(self.6.footprint()), self.7.footprint(), held, self.0.footprint().followed_by(self.1.footprint()).followed_by(self.2.footprint()).followed_by(self.3.footprint()).followed_by(self.4.footprint()).followed_by(self.5.footprint()).followed_by(self.6.footprint()).leaves(held));
            parts_in_a_row_have_room(self.0.footprint().followed_by(self.1.footprint()).followed_by(self.2.footprint()).followed_by(self.3.footprint()).followed_by(self.4.footprint()).followed_by(self.5.footprint()), self.6.footprint(), held, self.0.footprint().followed_by(self.1.footprint()).followed_by(self.2.footprint()).followed_by(self.3.footprint()).followed_by(self.4.footprint()).followed_by(self.5.footprint()).leaves(held));
            parts_in_a_row_have_room(self.0.footprint().followed_by(self.1.footprint()).followed_by(self.2.footprint()).followed_by(self.3.footprint()).followed_by(self.4.footprint()), self.5.footprint(), held, self.0.footprint().followed_by(self.1.footprint()).followed_by(self.2.footprint()).followed_by(self.3.footprint()).followed_by(self.4.footprint()).leaves(held));
            parts_in_a_row_have_room(self.0.footprint().followed_by(self.1.footprint()).followed_by(self.2.footprint()).followed_by(self.3.footprint()), self.4.footprint(), held, self.0.footprint().followed_by(self.1.footprint()).followed_by(self.2.footprint()).followed_by(self.3.footprint()).leaves(held));
            parts_in_a_row_have_room(self.0.footprint().followed_by(self.1.footprint()).followed_by(self.2.footprint()), self.3.footprint(), held, self.0.footprint().followed_by(self.1.footprint()).followed_by(self.2.footprint()).leaves(held));
            parts_in_a_row_have_room(self.0.footprint().followed_by(self.1.footprint()), self.2.footprint(), held, self.0.footprint().followed_by(self.1.footprint()).leaves(held));
            parts_in_a_row_have_room(self.0.footprint(), self.1.footprint(), held, self.0.footprint().leaves(held));
        }
        self.0.apply(response);
        proof {
            parts_in_a_row_have_room(self.0.footprint(), self.1.footprint(), held, response.header_lines());
        }
        self.1.apply(response);
        proof {
            parts_in_a_row_have_room(self.0.footprint().followed_by(self.1.footprint()), self.2.footprint(), held, response.header_lines());
        }
        self.2.apply(response);
        proof {
            parts_in_a_row_have_room(self.0.footprint().followed_by(self.1.footprint()).followed_by(self.2.footprint()), self.3.footprint(), held, response.header_lines());
        }
        self.3.apply(response);
        proof {
            parts_in_a_row_have_room(self.0.footprint().followed_by(self.1.footprint()).followed_by(self.2.footprint()).followed_by(self.3.footprint()), self.4.footprint(), held, response.header_lines());
        }
        self.4.apply(response);
        proof {
            parts_in_a_row_have_room(self.0.footprint().followed_by(self.1.footprint()).followed_by(self.2.footprint()).followed_by(self.3.footprint()).followed_by(self.4.footprint()), self.5.footprint(), held, response.header_lines());
        }
        self.5.apply(response);
        proof {
            parts_in_a_row_have_room(self.0.footprint().followed_by(self.1.footprint()).followed_by(self.2.footprint()).followed_by(self.3.footprint()).followed_by(self.4.footprint()).followed_by(self.5.footprint()), self.6.footprint(), held, response.header_lines());
        }
        self.6.apply(response);
        proof {
            parts_in_a_row_have_room(self.0.footprint().followed_by(self.1.footprint()).followed_by(self.2.footprint()).followed_by(self.3.footprint()).followed_by(self.4.footprint()).followed_by(self.5.footprint()).followed_by(self.6.footprint()), self.7.footprint(), held, response.header_lines());
        }
        self.7.apply(response);
        proof {
            parts_in_a_row_have_room(self.0.footprint().followed_by(self.1.footprint()).followed_by(self.2.footprint()).followed_by(self.3.footprint()).followed_by(self.4.footprint()).followed_by(self.5.footprint()).followed_by(self.6.footprint()).followed_by(self.7.footprint()), self.8.footprint(), held, response.header_lines());
        }
        self.8.apply(response);
        proof {
            parts_in_a_row_have_room(self.0.footprint().followed_by(self.1.footprint()).followed_by(self.2.footprint()).followed_by(self.3.footprint()).followed_by(self.4.footprint()).followed_by(self.5.footprint()).followed_by(self.6.footprint()).followed_by(self.7.footprint()).followed_by(self.8.footprint()), self.9.footprint(), held, response.header_lines());
        }
        self.9.apply(response);
        proof {
            parts_in_a_row_have_room(self.0.footprint().followed_by(self.1.footprint()).followed_by(self.2.footprint()).followed_by(self.3.footprint()).followed_by(self.4.footprint()).followed_by(self.5.footprint()).followed_by(self.6.footprint()).followed_by(self.7.footprint()).followed_by(self.8.footprint()).followed_by(self.9.footprint()), self.10.footprint(), held, response.header_lines());
        }
        self.10.apply(response);
    }
}

impl<A: ResponsePart, B: ResponsePart, C: ResponsePart, D: ResponsePart, E: ResponsePart, F: ResponsePart, G: ResponsePart, H: ResponsePart, I: ResponsePart, J: ResponsePart, K: ResponsePart, L: ResponsePart> ResponsePart for (A, B, C, D, E, F, G, H, I, J, K, L) {
    open spec fn footprint(&self) -> Footprint {
        self.0.footprint().followed_by(self.1.footprint()).followed_by(self.2.footprint()).followed_by(self.3.footprint()).followed_by(self.4.footprint()).followed_by(self.5.footprint()).followed_by(self.6.footprint()).followed_by(self.7.footprint()).followed_by(self.8.footprint()).followed_by(self.9.footprint()).followed_by(self.10.footprint()).followed_by(self.11.footprint())
    }

    /// Applies the twelve parts from left to right.
    open spec fn applied(&self, before: ResponseView) -> ResponseView {
        self.11.applied(self.10.applied(self.9.applied(self.8.applied(self.7.applied(self.6.applied(self.5.applied(self.4.applied(self.3.applied(self.2.applied(self.1.applied(self.0.applied(before))))))))))))
    }

    fn weight(&self) -> (weight: Weight) {
        let weight = self.0.weight();
        let ghost footprint = self.0.footprint();
        let weight = weight.followed_by(self.1.weight(), Ghost(footprint), Ghost(self.1.footprint()));
        proof {
            footprint = footprint.followed_by(self.1.footprint());
        }
        let weight = weight.followed_by(self.2.weight(), Ghost(footprint), Ghost(self.2.footprint()));
        proof {
            footprint = footprint.followed_by(self.2.footprint());
        }
        let weight = weight.followed_by(self.3.weight(), Ghost(footprint), Ghost(self.3.footprint()));
        proof {
            footprint = footprint.followed_by(self.3.footprint());
        }
        let weight = weight.followed_by(self.4.weight(), Ghost(footprint), Ghost(self.4.footprint()));
        proof {
            footprint = footprint.followed_by(self.4.footprint());
        }
        let weight = weight.followed_by(self.5.weight(), Ghost(footprint), Ghost(self.5.footprint()));
        proof {
            footprint = footprint.followed_by(self.5.footprint());
        }
        let weight = weight.followed_by(self.6.weight(), Ghost(footprint), Ghost(self.6.footprint()));
        proof {
            footprint = footprint.followed_by(self.6.footprint());
        }
        let weight = weight.followed_by(self.7.weight(), Ghost(footprint), Ghost(self.7.footprint()));
        proof {
            footprint = footprint.followed_by(self.7.footprint());
        }
        let weight = weight.followed_by(self.8.weight(), Ghost(footprint), Ghost(self.8.footprint()));
        proof {
            footprint = footprint.followed_by(self.8.footprint());
        }
        let weight = weight.followed_by(self.9.weight(), Ghost(footprint), Ghost(self.9.footprint()));
        proof {
            footprint = footprint.followed_by(self.9.footprint());
        }
        let weight = weight.followed_by(self.10.weight(), Ghost(footprint), Ghost(self.10.footprint()));
        proof {
            footprint = footprint.followed_by(self.10.footprint());
        }
        let weight = weight.followed_by(self.11.weight(), Ghost(footprint), Ghost(self.11.footprint()));
        proof {
            footprint = footprint.followed_by(self.11.footprint());
        }
        weight
    }

    fn apply(self, response: &mut Response) {
        let ghost held = response.header_lines();
        proof {
            parts_in_a_row_have_room(self.0.footprint().followed_by(self.1.footprint()).followed_by(self.2.footprint()).followed_by(self.3.footprint()).followed_by(self.4.footprint()).followed_by(self.5.footprint()).followed_by(self.6.footprint()).followed_by(self.7.footprint()).followed_by(self.8.footprint()).followed_by(self.9.footprint()).followed_by(self.10.footprint()), self.11.footprint(), held, self.0.footprint().followed_by(self.1.footprint()).followed_by(self.2.footprint()).followed_by(self.3.footprint()).followed_by(self.4.footprint()).followed_by(self.5.footprint()).followed_by(self.6.footprint()).followed_by(self.7.footprint()).followed_by(self.8.footprint()).followed_by(self.9.footprint()).followed_by(self.10.footprint()).leaves(held));
            parts_in_a_row_have_room(self.0.footprint().followed_by(self.1.footprint()).followed_by(self.2.footprint()).followed_by(self.3.footprint()).followed_by(self.4.footprint()).followed_by(self.5.footprint()).followed_by(self.6.footprint()).followed_by(self.7.footprint()).followed_by(self.8.footprint()).followed_by(self.9.footprint()), self.10.footprint(), held, self.0.footprint().followed_by(self.1.footprint()).followed_by(self.2.footprint()).followed_by(self.3.footprint()).followed_by(self.4.footprint()).followed_by(self.5.footprint()).followed_by(self.6.footprint()).followed_by(self.7.footprint()).followed_by(self.8.footprint()).followed_by(self.9.footprint()).leaves(held));
            parts_in_a_row_have_room(self.0.footprint().followed_by(self.1.footprint()).followed_by(self.2.footprint()).followed_by(self.3.footprint()).followed_by(self.4.footprint()).followed_by(self.5.footprint()).followed_by(self.6.footprint()).followed_by(self.7.footprint()).followed_by(self.8.footprint()), self.9.footprint(), held, self.0.footprint().followed_by(self.1.footprint()).followed_by(self.2.footprint()).followed_by(self.3.footprint()).followed_by(self.4.footprint()).followed_by(self.5.footprint()).followed_by(self.6.footprint()).followed_by(self.7.footprint()).followed_by(self.8.footprint()).leaves(held));
            parts_in_a_row_have_room(self.0.footprint().followed_by(self.1.footprint()).followed_by(self.2.footprint()).followed_by(self.3.footprint()).followed_by(self.4.footprint()).followed_by(self.5.footprint()).followed_by(self.6.footprint()).followed_by(self.7.footprint()), self.8.footprint(), held, self.0.footprint().followed_by(self.1.footprint()).followed_by(self.2.footprint()).followed_by(self.3.footprint()).followed_by(self.4.footprint()).followed_by(self.5.footprint()).followed_by(self.6.footprint()).followed_by(self.7.footprint()).leaves(held));
            parts_in_a_row_have_room(self.0.footprint().followed_by(self.1.footprint()).followed_by(self.2.footprint()).followed_by(self.3.footprint()).followed_by(self.4.footprint()).followed_by(self.5.footprint()).followed_by(self.6.footprint()), self.7.footprint(), held, self.0.footprint().followed_by(self.1.footprint()).followed_by(self.2.footprint()).followed_by(self.3.footprint()).followed_by(self.4.footprint()).followed_by(self.5.footprint()).followed_by(self.6.footprint()).leaves(held));
            parts_in_a_row_have_room(self.0.footprint().followed_by(self.1.footprint()).followed_by(self.2.footprint()).followed_by(self.3.footprint()).followed_by(self.4.footprint()).followed_by(self.5.footprint()), self.6.footprint(), held, self.0.footprint().followed_by(self.1.footprint()).followed_by(self.2.footprint()).followed_by(self.3.footprint()).followed_by(self.4.footprint()).followed_by(self.5.footprint()).leaves(held));
            parts_in_a_row_have_room(self.0.footprint().followed_by(self.1.footprint()).followed_by(self.2.footprint()).followed_by(self.3.footprint()).followed_by(self.4.footprint()), self.5.footprint(), held, self.0.footprint().followed_by(self.1.footprint()).followed_by(self.2.footprint()).followed_by(self.3.footprint()).followed_by(self.4.footprint()).leaves(held));
            parts_in_a_row_have_room(self.0.footprint().followed_by(self.1.footprint()).followed_by(self.2.footprint()).followed_by(self.3.footprint()), self.4.footprint(), held, self.0.footprint().followed_by(self.1.footprint()).followed_by(self.2.footprint()).followed_by(self.3.footprint()).leaves(held));
            parts_in_a_row_have_room(self.0.footprint().followed_by(self.1.footprint()).followed_by(self.2.footprint()), self.3.footprint(), held, self.0.footprint().followed_by(self.1.footprint()).followed_by(self.2.footprint()).leaves(held));
            parts_in_a_row_have_room(self.0.footprint().followed_by(self.1.footprint()), self.2.footprint(), held, self.0.footprint().followed_by(self.1.footprint()).leaves(held));
            parts_in_a_row_have_room(self.0.footprint(), self.1.footprint(), held, self.0.footprint().leaves(held));
        }
        self.0.apply(response);
        proof {
            parts_in_a_row_have_room(self.0.footprint(), self.1.footprint(), held, response.header_lines());
        }
        self.1.apply(response);
        proof {
            parts_in_a_row_have_room(self.0.footprint().followed_by(self.1.footprint()), self.2.footprint(), held, response.header_lines());
        }
        self.2.apply(response);
        proof {
            parts_in_a_row_have_room(self.0.footprint().followed_by(self.1.footprint()).followed_by(self.2.footprint()), self.3.footprint(), held, response.header_lines());
        }
        self.3.apply(response);
        proof {
            parts_in_a_row_have_room(self.0.footprint().followed_by(self.1.footprint()).followed_by(self.2.footprint()).followed_by(self.3.footprint()), self.4.footprint(), held, response.header_lines());
        }
        self.4.apply(response);
        proof {
            parts_in_a_row_have_room(self.0.footprint().followed_by(self.1.footprint()).followed_by(self.2.footprint()).followed_by(self.3.footprint()).followed_by(self.4.footprint()), self.5.footprint(), held, response.header_lines());
        }
        self.5.apply(response);
        proof {
            parts_in_a_row_have_room(self.0.footprint().followed_by(self.1.footprint()).followed_by(self.2.footprint()).followed_by(self.3.footprint()).followed_by(self.4.footprint()).followed_by(self.5.footprint()), self.6.footprint(), held, response.header_lines());
        }
        self.6.apply(response);
        proof {
            parts_in_a_row_have_room(self.0.footprint().followed_by(self.1.footprint()).followed_by(self.2.footprint()).followed_by(self.3.footprint()).followed_by(self.4.footprint()).followed_by(self.5.footprint()).followed_by(self.6.footprint()), self.7.footprint(), held, response.header_lines());
        }
        self.7.apply(response);
        proof {
            parts_in_a_row_have_room(self.0.footprint().followed_by(self.1.footprint()).followed_by(self.2.footprint()).followed_by(self.3.footprint()).followed_by(self.4.footprint()).followed_by(self.5.footprint()).followed_by(self.6.footprint()).followed_by(self.7.footprint()), self.8.footprint(), held, response.header_lines());
        }
        self.8.apply(response);
        proof {
            parts_in_a_row_have_room(self.0.footprint().followed_by(self.1.footprint()).followed_by(self.2.footprint()).followed_by(self.3.footprint()).followed_by(self.4.footprint()).followed_by(self.5.footprint()).followed_by(self.6.footprint()).followed_by(self.7.footprint()).followed_by(self.8.footprint()), self.9.footprint(), held, response.header_lines());
        }
        self.9.apply(response);
        proof {
            parts_in_a_row_have_room(self.0.footprint().followed_by(self.1.footprint()).followed_by(self.2.footprint()).followed_by(self.3.footprint()).followed_by(self.4.footprint()).followed_by(self.5.footprint()).followed_by(self.6.footprint()).followed_by(self.7.footprint()).followed_by(self.8.footprint()).followed_by(self.9.footprint()), self.10.footprint(), held, response.header_lines());
        }
        self.10.apply(response);
        proof {
            parts_in_a_row_have_room(self.0.footprint().followed_by(self.1.footprint()).followed_by(self.2.footprint()).followed_by(self.3.footprint()).followed_by(self.4.footprint()).followed_by(self.5.footprint()).followed_by(self.6.footprint()).followed_by(self.7.footprint()).followed_by(self.8.footprint()).followed_by(self.9.footprint()).followed_by(self.10.footprint()), self.11.footprint(), held, response.header_lines());
        }
        self.11.apply(response);
    }
}

impl<A: ResponsePart, B: ResponsePart, C: ResponsePart, D: ResponsePart, E: ResponsePart, F: ResponsePart, G: ResponsePart, H: ResponsePart, I: ResponsePart, J: ResponsePart, K: ResponsePart, L: ResponsePart, M: ResponsePart> ResponsePart for (A, B, C, D, E, F, G, H, I, J, K, L, M) {
    open spec fn footprint(&self) -> Footprint {
        self.0.footprint().followed_by(self.1.footprint()).followed_by(self.2.footprint()).followed_by(self.3.footprint()).followed_by(self.4.footprint()).followed_by(self.5.footprint()).followed_by(self.6.footprint()).followed_by(self.7.footprint()).followed_by(self.8.footprint()).followed_by(self.9.footprint()).followed_by(self.10.footprint()).followed_by(self.11.footprint()).followed_by(self.12.footprint())
    }

    /// Applies the thirteen parts from left to right.
    open spec fn applied(&self, before: ResponseView) -> ResponseView {
        self.12.applied(self.11.applied(self.10.applied(self.9.applied(self.8.applied(self.7.applied(self.6.applied(self.5.applied(self.4.applied(self.3.applied(self.2.applied(self.1.applied(self.0.applied(before)))))))))))))
    }

    fn weight(&self) -> (weight: Weight) {
        let weight = self.0.weight();
        let ghost footprint = self.0.footprint();
        let weight = weight.followed_by(self.1.weight(), Ghost(footprint), Ghost(self.1.footprint()));
        proof {
            footprint = footprint.followed_by(self.1.footprint());
        }
        let weight = weight.followed_by(self.2.weight(), Ghost(footprint), Ghost(self.2.footprint()));
        proof {
            footprint = footprint.followed_by(self.2.footprint());
        }
        let weight = weight.followed_by(self.3.weight(), Ghost(footprint), Ghost(self.3.footprint()));
        proof {
            footprint = footprint.followed_by(self.3.footprint());
        }
        let weight = weight.followed_by(self.4.weight(), Ghost(footprint), Ghost(self.4.footprint()));
        proof {
            footprint = footprint.followed_by(self.4.footprint());
        }
        let weight = weight.followed_by(self.5.weight(), Ghost(footprint), Ghost(self.5.footprint()));
        proof {
            footprint = footprint.followed_by(self.5.footprint());
        }
        let weight = weight.followed_by(self.6.weight(), Ghost(footprint), Ghost(self.6.footprint()));
        proof {
            footprint = footprint.followed_by(self.6.footprint());
        }
        let weight = weight.followed_by(self.7.weight(), Ghost(footprint), Ghost(self.7.footprint()));
        proof {
            footprint = footprint.followed_by(self.7.footprint());
        }
        let weight = weight.followed_by(self.8.weight(), Ghost(footprint), Ghost(self.8.footprint()));
        proof {
            footprint = footprint.followed_by(self.8.footprint());
        }
        let weight = weight.followed_by(self.9.weight(), Ghost(footprint), Ghost(self.9.footprint()));
        proof {
            footprint = footprint.followed_by(self.9.footprint());
        }
        let weight = weight.followed_by(self.10.weight(), Ghost(footprint), Ghost(self.10.footprint()));
        proof {
            footprint = footprint.followed_by(self.10.footprint());
        }
        let weight = weight.followed_by(self.11.weight(), Ghost(footprint), Ghost(self.11.footprint()));
        proof {
            footprint = footprint.followed_by(self.11.footprint());
        }
        let weight = weight.followed_by(self.12.weight(), Ghost(footprint), Ghost(self.12.footprint()));
        proof {
            footprint = footprint.followed_by(self.12.footprint());
        }
        weight
    }

    fn apply(self, response: &mut Response) {
        let ghost held = response.header_lines();
        proof {
            parts_in_a_row_have_room(self.0.footprint().followed_by(self.1.footprint()).followed_by(self.2.footprint()).followed_by(self.3.footprint()).followed_by(self.4.footprint()).followed_by(self.5.footprint()).followed_by(self.6.footprint()).followed_by(self.7.footprint()).followed_by(self.8.footprint()).followed_by(self.9.footprint()).followed_by(self.10.footprint()).followed_by(self.11.footprint()), self.12.footprint(), held, self.0.footprint().followed_by(self.1.footprint()).followed_by(self.2.footprint()).followed_by(self.3.footprint()).followed_by(self.4.footprint()).followed_by(self.5.footprint()).followed_by(self.6.footprint()).followed_by(self.7.footprint()).followed_by(self.8.footprint()).followed_by(self.9.footprint()).followed_by(self.10.footprint()).followed_by(self.11.footprint()).leaves(held));
            parts_in_a_row_have_room(self.0.footprint().followed_by(self.1.footprint()).followed_by(self.2.footprint()).followed_by(self.3.footprint()).followed_by(self.4.footprint()).followed_by(self.5.footprint()).followed_by(self.6.footprint()).followed_by(self.7.footprint()).followed_by(self.8.footprint()).followed_by(self.9.footprint()).followed_by(self.10.footprint()), self.11.footprint(), held, self.0.footprint().followed_by(self.1.footprint()).followed_by(self.2.footprint()).followed_by(self.3.footprint()).followed_by(self.4.footprint()).followed_by(self.5.footprint()).followed_by(self.6.footprint()).followed_by(self.7.footprint()).followed_by(self.8.footprint()).followed_by(self.9.footprint()).followed_by(self.10.footprint()).leaves(held));
            parts_in_a_row_have_room(self.0.footprint().followed_by(self.1.footprint()).followed_by(self.2.footprint()).followed_by(self.3.footprint()).followed_by(self.4.footprint()).followed_by(self.5.footprint()).followed_by(self.6.footprint()).followed_by(self.7.footprint()).followed_by(self.8.footprint()).followed_by(self.9.footprint()), self.10.footprint(), held, self.0.footprint().followed_by(self.1.footprint()).followed_by(self.2.footprint()).followed_by(self.3.footprint()).followed_by(self.4.footprint()).followed_by(self.5.footprint()).followed_by(self.6.footprint()).followed_by(self.7.footprint()).followed_by(self.8.footprint()).followed_by(self.9.footprint()).leaves(held));
            parts_in_a_row_have_room(self.0.footprint().followed_by(self.1.footprint()).followed_by(self.2.footprint()).followed_by(self.3.footprint()).followed_by(self.4.footprint()).followed_by(self.5.footprint()).followed_by(self.6.footprint()).followed_by(self.7.footprint()).followed_by(self.8.footprint()), self.9.footprint(), held, self.0.footprint().followed_by(self.1.footprint()).followed_by(self.2.footprint()).followed_by(self.3.footprint()).followed_by(self.4.footprint()).followed_by(self.5.footprint()).followed_by(self.6.footprint()).followed_by(self.7.footprint()).followed_by(self.8.footprint()).leaves(held));
            parts_in_a_row_have_room(self.0.footprint().followed_by(self.1.footprint()).followed_by(self.2.footprint()).followed_by(self.3.footprint()).followed_by(self.4.footprint()).followed_by(self.5.footprint()).followed_by(self.6.footprint()).followed_by(self.7.footprint()), self.8.footprint(), held, self.0.footprint().followed_by(self.1.footprint()).followed_by(self.2.footprint()).followed_by(self.3.footprint()).followed_by(self.4.footprint()).followed_by(self.5.footprint()).followed_by(self.6.footprint()).followed_by(self.7.footprint()).leaves(held));
            parts_in_a_row_have_room(self.0.footprint().followed_by(self.1.footprint()).followed_by(self.2.footprint()).followed_by(self.3.footprint()).followed_by(self.4.footprint()).followed_by(self.5.footprint()).followed_by(self.6.footprint()), self.7.footprint(), held, self.0.footprint().followed_by(self.1.footprint()).followed_by(self.2.footprint()).followed_by(self.3.footprint()).followed_by(self.4.footprint()).followed_by(self.5.footprint()).followed_by(self.6.footprint()).leaves(held));
            parts_in_a_row_have_room(self.0.footprint().followed_by(self.1.footprint()).followed_by(self.2.footprint()).followed_by(self.3.footprint()).followed_by(self.4.footprint()).followed_by(self.5.footprint()), self.6.footprint(), held, self.0.footprint().followed_by(self.1.footprint()).followed_by(self.2.footprint()).followed_by(self.3.footprint()).followed_by(self.4.footprint()).followed_by(self.5.footprint()).leaves(held));
            parts_in_a_row_have_room(self.0.footprint().followed_by(self.1.footprint()).followed_by(self.2.footprint()).followed_by(self.3.footprint()).followed_by(self.4.footprint()), self.5.footprint(), held, self.0.footprint().followed_by(self.1.footprint()).followed_by(self.2.footprint()).followed_by(self.3.footprint()).followed_by(self.4.footprint()).leaves(held));
            parts_in_a_row_have_room(self.0.footprint().followed_by(self.1.footprint()).followed_by(self.2.footprint()).followed_by(self.3.footprint()), self.4.footprint(), held, self.0.footprint().followed_by(self.1.footprint()).followed_by(self.2.footprint()).followed_by(self.3.footprint()).leaves(held));
            parts_in_a_row_have_room(self.0.footprint().followed_by(self.1.footprint()).followed_by(self.2.footprint()), self.3.footprint(), held, self.0.footprint().followed_by(self.1.footprint()).followed_by(self.2.footprint()).leaves(held));
            parts_in_a_row_have_room(self.0.footprint().followed_by(self.1.footprint()), self.2.footprint(), held, self.0.footprint().followed_by(self.1.footprint()).leaves(held));
            parts_in_a_row_have_room(self.0.footprint(), self.1.footprint(), held, self.0.footprint().leaves(held));
        }
        self.0.apply(response);
        proof {
            parts_in_a_row_have_room(self.0.footprint(), self.1.footprint(), held, response.header_lines());
        }
        self.1.apply(response);
        proof {
            parts_in_a_row_have_room(self.0.footprint().followed_by(self.1.footprint()), self.2.footprint(), held, response.header_lines());
        }
        self.2.apply(response);
        proof {
            parts_in_a_row_have_room(self.0.footprint().followed_by(self.1.footprint()).followed_by(self.2.footprint()), self.3.footprint(), held, response.header_lines());
        }
        self.3.apply(response);
        proof {
            parts_in_a_row_have_room(self.0.footprint().followed_by(self.1.footprint()).followed_by(self.2.footprint()).followed_by(self.3.footprint()), self.4.footprint(), held, response.header_lines());
        }
        self.4.apply(response);
        proof {
            parts_in_a_row_have_room(self.0.footprint().followed_by(self.1.footprint()).followed_by(self.2.footprint()).followed_by(self.3.footprint()).followed_by(self.4.footprint()), self.5.footprint(), held, response.header_lines());
        }
        self.5.apply(response);
        proof {
            parts_in_a_row_have_room(self.0.footprint().followed_by(self.1.footprint()).followed_by(self.2.footprint()).followed_by(self.3.footprint()).followed_by(self.4.footprint()).followed_by(self.5.footprint()), self.6.footprint(), held, response.header_lines());
        }
        self.6.apply(response);
        proof {
            parts_in_a_row_have_room(self.0.footprint().followed_by(self.1.footprint()).followed_by(self.2.footprint()).followed_by(self.3.footprint()).followed_by(self.4.footprint()).followed_by(self.5.footprint()).followed_by(self.6.footprint()), self.7.footprint(), held, response.header_lines());
        }
        self.7.apply(response);
        proof {
            parts_in_a_row_have_room(self.0.footprint().followed_by(self.1.footprint()).followed_by(self.2.footprint()).followed_by(self.3.footprint()).followed_by(self.4.footprint()).followed_by(self.5.footprint()).followed_by(self.6.footprint()).followed_by(self.7.footprint()), self.8.footprint(), held, response.header_lines());
        }
        self.8.apply(response);
        proof {
            parts_in_a_row_have_room(self.0.footprint().followed_by(self.1.footprint()).followed_by(self.2.footprint()).followed_by(self.3.footprint()).followed_by(self.4.footprint()).followed_by(self.5.footprint()).followed_by(self.6.footprint()).followed_by(self.7.footprint()).followed_by(self.8.footprint()), self.9.footprint(), held, response.header_lines());
        }
        self.9.apply(response);
        proof {
            parts_in_a_row_have_room(self.0.footprint().followed_by(self.1.footprint()).followed_by(self.2.footprint()).followed_by(self.3.footprint()).followed_by(self.4.footprint()).followed_by(self.5.footprint()).followed_by(self.6.footprint()).followed_by(self.7.footprint()).followed_by(self.8.footprint()).followed_by(self.9.footprint()), self.10.footprint(), held, response.header_lines());
        }
        self.10.apply(response);
        proof {
            parts_in_a_row_have_room(self.0.footprint().followed_by(self.1.footprint()).followed_by(self.2.footprint()).followed_by(self.3.footprint()).followed_by(self.4.footprint()).followed_by(self.5.footprint()).followed_by(self.6.footprint()).followed_by(self.7.footprint()).followed_by(self.8.footprint()).followed_by(self.9.footprint()).followed_by(self.10.footprint()), self.11.footprint(), held, response.header_lines());
        }
        self.11.apply(response);
        proof {
            parts_in_a_row_have_room(self.0.footprint().followed_by(self.1.footprint()).followed_by(self.2.footprint()).followed_by(self.3.footprint()).followed_by(self.4.footprint()).followed_by(self.5.footprint()).followed_by(self.6.footprint()).followed_by(self.7.footprint()).followed_by(self.8.footprint()).followed_by(self.9.footprint()).followed_by(self.10.footprint()).followed_by(self.11.footprint()), self.12.footprint(), held, response.header_lines());
        }
        self.12.apply(response);
    }
}

} // verus!
