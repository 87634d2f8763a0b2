//! The fixed response and the size of the request buffer.

use vstd::prelude::*;

verus! {

/// Capacity of the buffer that the single read of a connection fills.
pub const REQUEST_CAPACITY: usize = 1024;

/// Length of the response in bytes.
pub const RESPONSE_LEN: usize = 19;

/// The response on the wire: the status line `HTTP/1.1 200 OK`, followed by
/// an empty line. No headers and no body.
pub open spec fn response_bytes() -> Seq<u8> {
    seq![
        72u8, 84u8, 84u8, 80u8, 47u8, 49u8, 46u8, 49u8, 32u8,
        50u8, 48u8, 48u8, 32u8,
        79u8, 75u8,
        13u8, 10u8, 13u8, 10u8,
    ]
}

/// What is sent in answer to `request`: the fixed response, whatever the
/// request holds.
pub open spec fn response_to(request: Seq<u8>) -> Seq<u8> {
    response_bytes()
}

/// The part of the response that is still to be written once `offset` bytes
/// of it have been written; empty from `RESPONSE_LEN` on.
pub open spec fn response_tail(offset: nat) -> Seq<u8> {
    if offset <= RESPONSE_LEN {
        response_bytes().skip(offset as int)
    } else {
        Seq::empty()
    }
}

/// The response has `RESPONSE_LEN` bytes.
pub proof fn lemma_response_len()
    ensures
        response_bytes().len() == RESPONSE_LEN,
{
}

/// The response does not depend on the request: two requests of any content
/// and any size, the empty one included, are answered with the same bytes.
pub proof fn lemma_response_ignores_request(first: Seq<u8>, second: Seq<u8>)
    ensures
        response_to(first) == response_to(second),
        response_to(first) == response_bytes(),
        response_to(Seq::empty()) == response_bytes(),
{
}

/// What has been written and what is still to be written make up the
/// response, at every offset.
pub proof fn lemma_tail_completes_prefix(offset: nat)
    requires
        offset <= RESPONSE_LEN,
    ensures
        response_bytes().take(offset as int) + response_tail(offset) == response_bytes(),
        response_tail(offset).len() == RESPONSE_LEN - offset,
        response_tail(0) == response_bytes(),
{
    assert(response_bytes().take(offset as int) + response_tail(offset) =~= response_bytes());
    assert(response_tail(0) =~= response_bytes());
}

/// The whole response.
pub fn response_payload() -> (r: Vec<u8>)
    ensures
        r@ == response_bytes(),
{
    let r: Vec<u8> = vec![
        72u8, 84u8, 84u8, 80u8, 47u8, 49u8, 46u8, 49u8, 32u8,
        50u8, 48u8, 48u8, 32u8,
        79u8, 75u8,
        13u8, 10u8, 13u8, 10u8,
    ];
    assert(r@ =~= response_bytes());
    r
}

/// The response to `request`. Its content is not read.
pub fn response_for(request: &[u8]) -> (r: Vec<u8>)
    ensures
        r@ == response_to(request@),
{
    response_payload()
}

/// The bytes of the response from `offset` on.
pub fn response_from(offset: usize) -> (r: Vec<u8>)
    ensures
        r@ == response_tail(offset as nat),
{
    let whole: Vec<u8> = response_payload();
    let mut r: Vec<u8> = Vec::new();
    let mut i: usize = offset;
    while i < whole.len()
        invariant
            whole@ == response_bytes(),
            whole@.len() == RESPONSE_LEN,
            offset <= i,
            offset > RESPONSE_LEN ==> r@.len() == 0,
            offset <= RESPONSE_LEN ==> i <= RESPONSE_LEN && r@ == response_bytes().subrange(
                offset as int,
                i as int,
            ),
        decreases whole@.len() - i,
    {
        r.push(whole[i]);
        i = i + 1;
        assert(r@ =~= response_bytes().subrange(offset as int, i as int));
    }
    assert(r@ =~= response_tail(offset as nat));
    r
}

} // verus!
