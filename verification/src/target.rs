//! Request targets: an address together with its encoded parameters, as the
//! URL type of the transport writes them. That type is `reqwest::Url`, which
//! is the `Url` of the `url` crate under another path.

use crate::query::params_view;
use crate::query::Params;
use vstd::prelude::*;
use vstd::utf8::encode_utf8;

verus! {

/// `url::ParseError`, the error with which the URL type refuses an address.
/// It is passed through and never looked into.
#[verifier::external_type_specification]
#[verifier::external_body]
pub struct ExParseError(url::ParseError);

/// The most bytes that an address and its parameters may take together,
/// each parameter counted with two bytes more than its name and value. The
/// URL type keeps positions in 32 bits; this bound stays far below what
/// they can hold, however much encoding lengthens the text.
pub const MAX_TARGET_BYTES: usize = 16_777_216;

/// What `Url::parse` makes of `address`, written out as text; nothing where
/// it refuses the address.
pub uninterp spec fn url_text(address: Seq<char>) -> Option<Seq<char>>;

/// What `Url::parse_with_params` makes of `address` and `params`, written out
/// as text; nothing where it refuses the address.
pub uninterp spec fn url_text_with_params(
    address: Seq<char>,
    params: Seq<(Seq<char>, Seq<char>)>,
) -> Option<Seq<char>>;

/// The number of bytes that `text` takes in UTF-8.
pub open spec fn byte_len(text: Seq<char>) -> nat {
    encode_utf8(text).len()
}

/// The bytes of all names and values, and two more for each parameter.
pub open spec fn params_bytes(params: Params) -> nat
    decreases params.len(),
{
    if params.len() == 0 {
        0
    } else {
        params_bytes(params.drop_last()) + byte_len(params.last().0) + byte_len(params.last().1)
            + 2
    }
}

/// The size of a target before encoding.
pub open spec fn target_bytes(address: Seq<char>, params: Params) -> nat {
    byte_len(address) + params_bytes(params)
}

/// Why no target could be written.
#[derive(Debug, Clone, Copy, PartialEq, Eq, Structural)]
pub enum TargetFault {
    /// Address and parameters take more than `MAX_TARGET_BYTES`.
    TooLong,
    /// The URL type refuses the address: it is not an absolute URL.
    NotAUrl,
}

/// The target that an address and parameters make. Without parameters it is
/// the address as the URL type writes it; with parameters, what the URL type
/// writes for the address with every parameter appended in order. Without
/// parameters nothing is appended, not even a question mark.
pub open spec fn composed(address: Seq<char>, params: Params) -> Result<Seq<char>, TargetFault> {
    if target_bytes(address, params) > MAX_TARGET_BYTES {
        Err(TargetFault::TooLong)
    } else {
        let written = if params.len() == 0 {
            url_text(address)
        } else {
            url_text_with_params(address, params)
        };
        match written {
            Some(url) => Ok(url),
            None => Err(TargetFault::NotAUrl),
        }
    }
}

/// The characters of a target, or why there is none.
pub open spec fn target_view(r: Result<String, TargetFault>) -> Result<Seq<char>, TargetFault> {
    match r {
        Ok(url) => Ok(url@),
        Err(fault) => Err(fault),
    }
}

/// The bytes of a list of parameters never get fewer as the list grows.
pub proof fn lemma_params_bytes_grow(params: Params, i: int)
    requires
        0 <= i <= params.len(),
    ensures
        params_bytes(params.take(i)) <= params_bytes(params),
    decreases params.len(),
{
    if i < params.len() {
        assert(params.drop_last().take(i) =~= params.take(i));
        lemma_params_bytes_grow(params.drop_last(), i);
    } else {
        assert(params.take(i) =~= params);
    }
}

/// Calls `reqwest::Url::parse` (the `Url` of the `url` crate) and hands back
/// the URL as text. The contract names the result and claims nothing of
/// what it looks like.
#[verifier::external_body]
fn write_url(address: &str) -> (r: Result<String, url::ParseError>)
    ensures
        match r {
            Ok(url) => url_text(address@) == Some(url@),
            Err(_) => url_text(address@) is None,
        },
{
    reqwest::Url::parse(address).map(String::from)
}

/// Calls `reqwest::Url::parse_with_params` and hands back the URL as text.
/// The contract names the result and claims nothing of what it looks like.
/// The URL type keeps positions in 32 bits and panics where one does not
/// fit; the bound on the input keeps the URL far shorter than that.
#[verifier::external_body]
fn write_url_with_params(address: &str, params: &Vec<(String, String)>) -> (r: Result<
    String,
    url::ParseError,
>)
    requires
        target_bytes(address@, params_view(params@)) <= MAX_TARGET_BYTES,
    ensures
        match r {
            Ok(url) => url_text_with_params(address@, params_view(params@)) == Some(url@),
            Err(_) => url_text_with_params(address@, params_view(params@)) is None,
        },
{
    reqwest::Url::parse_with_params(address, params).map(String::from)
}

/// The number of bytes that `text` takes in UTF-8.
pub fn text_bytes(text: &str) -> (n: usize)
    ensures
        n == byte_len(text@),
{
    text.as_bytes().len()
}

/// Whether address and parameters stay within `MAX_TARGET_BYTES`.
pub fn within_limit(address: &str, params: &Vec<(String, String)>) -> (r: bool)
    ensures
        r == (target_bytes(address@, params_view(params@)) <= MAX_TARGET_BYTES),
{
    let ghost view = params_view(params@);
    let mut total: usize = text_bytes(address);
    if total > MAX_TARGET_BYTES {
        return false;
    }
    let mut i: usize = 0;
    assert(view.take(0) =~= Seq::empty());
    while i < params.len()
        invariant
            i <= params@.len(),
            view == params_view(params@),
            total == byte_len(address@) + params_bytes(view.take(i as int)),
            total <= MAX_TARGET_BYTES,
        decreases params@.len() - i,
    {
        let name: usize = text_bytes(params[i].0.as_str());
        let value: usize = text_bytes(params[i].1.as_str());
        proof {
            assert(view.take(i + 1).drop_last() =~= view.take(i as int));
            assert(view.take(i + 1).last() == view[i as int]);
            lemma_params_bytes_grow(view, i + 1);
        }
        if name > MAX_TARGET_BYTES || value > MAX_TARGET_BYTES {
            return false;
        }
        if total + 2 > MAX_TARGET_BYTES - name || total + 2 + name > MAX_TARGET_BYTES - value {
            return false;
        }
        total = total + 2 + name + value;
        i += 1;
    }
    assert(view.take(i as int) =~= view);
    true
}

/// Writes the target for `address` and `params`: see `composed`.
pub fn compose(address: &str, params: &Vec<(String, String)>) -> (r: Result<String, TargetFault>)
    ensures
        target_view(r) == composed(address@, params_view(params@)),
{
    if !within_limit(address, params) {
        return Err(TargetFault::TooLong);
    }
    let written = if params.len() == 0 {
        write_url(address)
    } else {
        write_url_with_params(address, params)
    };
    match written {
        Ok(url) => Ok(url),
        Err(_) => Err(TargetFault::NotAUrl),
    }
}

} // verus!
