//! Addresses on the web, with the parameters that a request carries.

use crate::settings;
use url::Url;
use vstd::prelude::*;

verus! {

/// How many characters an address and the path joined to it may have together, so that
/// what they are written as stays below four gigabytes.
pub const MAX_ADDRESS: usize = 0x1000_0000;

/// The address that `path` leads to from `base`, with the parameters `pairs`; or why there
/// is none.
pub uninterp spec fn address_with_query(
    base: Seq<char>,
    path: Seq<char>,
    pairs: Seq<(Seq<char>, Seq<char>)>,
) -> Result<Seq<char>, Seq<char>>;

/// The names and values of parameters, as values.
pub open spec fn pairs_view(pairs: Seq<(String, String)>) -> Seq<(Seq<char>, Seq<char>)> {
    Seq::new(pairs.len(), |i: int| (pairs[i].0@, pairs[i].1@))
}

pub open spec fn is_lowercase(c: char) -> bool {
    'a' <= c && c <= 'z'
}

/// Whether `host` is made of lowercase letters, with single dots between them.
pub open spec fn is_plain_host(host: Seq<char>) -> bool {
    &&& host.len() > 0
    &&& host[0] != '.'
    &&& host.last() != '.'
    &&& forall|i: int|
        0 <= i < host.len() ==> is_lowercase(#[trigger] host[i]) || (host[i] == '.' && host[i + 1]
            != '.')
}

/// Whether `base` is a secure address of a plain host and nothing more.
pub open spec fn is_plain_base(base: Seq<char>) -> bool {
    exists|host: Seq<char>|
        #![trigger is_plain_host(host)]
        is_plain_host(host) && (base == "https://"@ + host || base == "https://"@ + host + "/"@)
}

/// Whether `c` stands in a path as it is.
pub open spec fn is_path_char(c: char) -> bool {
    is_lowercase(c) || ('0' <= c && c <= '9') || c == '-' || c == '.' || c == '/'
}

/// Whether `path` is made of such characters and names no host.
pub open spec fn is_plain_path(path: Seq<char>) -> bool {
    &&& forall|i: int| 0 <= i < path.len() ==> is_path_char(#[trigger] path[i])
    &&& !(path.len() >= 2 && path[0] == '/' && path[1] == '/')
}

/// `Url::parse` reads the base, `Url::join` resolves the path against it, and
/// `Url::query_pairs_mut` adds the parameters; the address depends on the three alone. A
/// plain base and a plain path always make up an address.
#[verifier::external_body]
pub(crate) fn endpoint(base: &str, path: &str, pairs: &Vec<(String, String)>) -> (address: Result<
    String,
    String,
>)
    requires
        base@.len() + path@.len() <= MAX_ADDRESS,
        !path@.contains('#'),
    ensures
        match address {
            Ok(address) => address_with_query(base@, path@, pairs_view(pairs@)) == Ok::<
                Seq<char>,
                Seq<char>,
            >(address@),
            Err(error) => address_with_query(base@, path@, pairs_view(pairs@)) == Err::<
                Seq<char>,
                Seq<char>,
            >(error@),
        },
        is_plain_base(base@) && is_plain_path(path@) ==> address is Ok,
{
    let base = Url::parse(base).map_err(|error| error.to_string())?;
    let mut address = base.join(path).map_err(|error| error.to_string())?;
    address.query_pairs_mut().extend_pairs(pairs);
    Ok(address.into())
}

/// The host of an address; none where there is no address or it has none.
pub uninterp spec fn host_of(address: Seq<char>) -> Option<Seq<char>>;

/// `Url::parse` reads an address, and `Url::host_str` finds its host; what comes out depends
/// on the address alone.
#[verifier::external_body]
pub(crate) fn host(address: &str) -> (host: Option<String>)
    ensures
        settings::optional_view(host) == host_of(address@),
{
    Url::parse(address).ok().and_then(|url| url.host_str().map(|host| host.to_owned()))
}

/// A parameter.
pub fn pair(name: &str, value: &str) -> (pair: (String, String))
    ensures
        pair.0@ == name@,
        pair.1@ == value@,
{
    (name.to_owned(), value.to_owned())
}

} // verus!
