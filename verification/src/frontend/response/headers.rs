//! The parts that write headers.

use vstd::prelude::*;
use vstd::string::*;
use crate::frontend::response::error::{failed_with, InternalError};
use crate::frontend::response::{Footprint, ResponsePart, Weight};
use crate::server::response::{Response, ResponseView};
use crate::server::wire::{
    header_count, header_fields, header_name_from_bytes, header_name_text, header_value_byte,
    header_value_bytes, header_value_from_bytes, headers_insert, headers_len,
    invalid_header_name_text, invalid_header_value_text, parsed_header_name, MAX_HEADER_LINES,
};

verus! {

impl ResponsePart for http::HeaderMap<http::HeaderValue> {
    open spec fn footprint(&self) -> Footprint {
        Footprint::replacing(header_count(*self))
    }

    /// Takes the place of the headers.
    open spec fn applied(&self, before: ResponseView) -> ResponseView {
        ResponseView { headers: header_fields(*self), ..before }
    }

    fn weight(&self) -> (weight: Weight) {
        Weight::replacing(headers_len(self))
    }

    fn apply(self, response: &mut Response) {
        response.headers = self;
    }
}

impl ResponsePart for (http::HeaderName, http::HeaderValue) {
    open spec fn footprint(&self) -> Footprint {
        Footprint::adding(1)
    }

    /// Sets the header of the name to the value alone.
    open spec fn applied(&self, before: ResponseView) -> ResponseView {
        ResponseView {
            headers: before.headers.insert(
                header_name_text(self.0),
                seq![header_value_bytes(self.1)],
            ),
            ..before
        }
    }

    fn weight(&self) -> (weight: Weight) {
        Weight::adding(1)
    }

    fn apply(self, response: &mut Response) {
        headers_insert(&mut response.headers, self.0, self.1);
    }
}

/// Every byte of `value` may stand in a header value.
pub open spec fn header_value_bytes_valid(value: Seq<u8>) -> bool {
    forall|i: int| 0 <= i < value.len() ==> header_value_byte(#[trigger] value[i])
}

/// The response `before` after the headers `pairs` were written to it one
/// by one, each given as the bytes of its name and of its value.
///
/// The first pair whose name is no header name, or whose value holds a
/// byte that may not stand in one, ends the writing: the response becomes
/// the answer to an internal error, with the headers written so far.
pub open spec fn headers_written(pairs: Seq<(Seq<u8>, Seq<u8>)>, before: ResponseView) -> ResponseView
    decreases pairs.len(),
{
    if pairs.len() == 0 {
        before
    } else {
        match parsed_header_name(pairs[0].0) {
            None => failed_with("invalid HTTP header name"@, before),
            Some(name) => if header_value_bytes_valid(pairs[0].1) {
                headers_written(
                    pairs.drop_first(),
                    ResponseView { headers: before.headers.insert(name, seq![pairs[0].1]), ..before },
                )
            } else {
                failed_with("failed to parse header value"@, before)
            },
        }
    }
}

/// The bytes of the name and of the value of each of `pairs`.
pub open spec fn pair_bytes(pairs: Seq<(&str, &str)>) -> Seq<(Seq<u8>, Seq<u8>)> {
    pairs.map_values(|pair: (&str, &str)| (pair.0.spec_bytes(), pair.1.spec_bytes()))
}

impl<'a, const N: usize> ResponsePart for [(&'a str, &'a str); N] {
    open spec fn footprint(&self) -> Footprint {
        Footprint::adding(N as nat)
    }

    /// Writes the headers one by one, as `headers_written` tells.
    open spec fn applied(&self, before: ResponseView) -> ResponseView {
        headers_written(pair_bytes(self@), before)
    }

    fn weight(&self) -> (weight: Weight) {
        Weight::adding(N)
    }

    fn apply(self, response: &mut Response) {
        let ghost pairs = pair_bytes(self@);
        let mut i: usize = 0;
        assert(pairs.skip(0) =~= pairs);
        while i < N
            invariant
                i <= N,
                pairs == pair_bytes(self@),
                N > 0 ==> old(response).header_lines() + N <= MAX_HEADER_LINES,
                response.header_lines() <= old(response).header_lines() + i,
                headers_written(pairs, old(response)@) == headers_written(
                    pairs.skip(i as int),
                    response@,
                ),
            decreases N - i,
        {
            let ghost rest = pairs.skip(i as int);
            assert(rest.drop_first() =~= pairs.skip(i + 1));
            let name = match header_name_from_bytes(self[i].0.as_bytes()) {
                Ok(name) => name,
                Err(error) => {
                    InternalError(invalid_header_name_text(&error)).apply(response);
                    return ;
                },
            };
            let value = match header_value_from_bytes(self[i].1.as_bytes()) {
                Ok(value) => value,
                Err(error) => {
                    InternalError(invalid_header_value_text(&error)).apply(response);
                    return ;
                },
            };
            headers_insert(&mut response.headers, name, value);
            i += 1;
        }
    }
}

} // verus!
