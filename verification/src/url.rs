//! Percent-encoding of URL components and query strings.

use vstd::prelude::*;
use vstd::string::*;
use vstd::utf8::encode_utf8;

verus! {

/// Bytes that percent-encoding leaves as they are: ASCII letters, digits
/// and `-`, `.`, `_`, `~`.
pub open spec fn unreserved(b: u8) -> bool {
    (48 <= b <= 57) || (65 <= b <= 90) || (97 <= b <= 122) || b == 45 || b == 46 || b == 95 || b == 126
}

/// The upper-case hexadecimal digit of a value below 16.
pub open spec fn hex_digit(d: nat) -> char {
    if d < 10 {
        ((48 + d) as u8) as char
    } else {
        ((55 + d) as u8) as char
    }
}

/// Percent-encoding of a byte string: unreserved bytes stay, every other
/// byte becomes `%` and two upper-case hexadecimal digits.
pub open spec fn percent_encode(bytes: Seq<u8>) -> Seq<char>
    decreases bytes.len(),
{
    if bytes.len() == 0 {
        Seq::empty()
    } else {
        let b = bytes.last();
        percent_encode(bytes.drop_last()) + if unreserved(b) {
            seq![b as char]
        } else {
            seq!['%', hex_digit((b / 16) as nat), hex_digit((b % 16) as nat)]
        }
    }
}

/// Percent-encoding of the UTF-8 bytes of a text.
pub open spec fn url_encoded(s: Seq<char>) -> Seq<char> {
    percent_encode(encode_utf8(s))
}

/// Calls `urlencoding::encode`, which percent-encodes every byte of the
/// UTF-8 text except ASCII letters, digits and `-`, `_`, `.`, `~`, writing
/// `%` and two upper-case hexadecimal digits.
#[verifier::external_body]
pub(crate) fn url_encode(s: &str) -> (r: String)
    ensures
        r@ == url_encoded(s@),
{
    urlencoding::encode(s).into_owned()
}

/// A query parameter: its name and its already-encoded value.
pub type QueryParam = (Seq<char>, Seq<char>);

/// The views of query parameters held as strings.
pub open spec fn params_view(v: Seq<(String, String)>) -> Seq<QueryParam> {
    v.map_values(|p: (String, String)| (p.0@, p.1@))
}

/// `name=value` pairs joined by `&`.
pub open spec fn join_params(ps: Seq<QueryParam>) -> Seq<char>
    decreases ps.len(),
{
    if ps.len() == 0 {
        Seq::empty()
    } else if ps.len() == 1 {
        ps[0].0 + "="@ + ps[0].1
    } else {
        join_params(ps.drop_last()) + "&"@ + ps.last().0 + "="@ + ps.last().1
    }
}

/// The query part of a URL: empty without parameters, else `?` and the
/// joined parameters.
pub open spec fn query_string(ps: Seq<QueryParam>) -> Seq<char> {
    if ps.len() == 0 {
        Seq::empty()
    } else {
        "?"@ + join_params(ps)
    }
}

/// A parameter whose value is encoded, when the value is present.
pub open spec fn opt_param(name: Seq<char>, value: Option<String>) -> Seq<QueryParam> {
    match value {
        Some(v) => seq![(name, url_encoded(v@))],
        None => Seq::empty(),
    }
}

/// One parameter per value, each encoded, when the values are present.
pub open spec fn multi_param(name: Seq<char>, values: Option<Vec<String>>) -> Seq<QueryParam> {
    match values {
        Some(v) => v@.map_values(|s: String| (name, url_encoded(s@))),
        None => Seq::empty(),
    }
}

/// A parameter with an encoded value.
pub open spec fn req_param(name: Seq<char>, value: Seq<char>) -> Seq<QueryParam> {
    seq![(name, url_encoded(value))]
}

/// Appends a parameter with an encoded value.
pub fn add_param(params: &mut Vec<(String, String)>, name: &str, value: &str)
    ensures
        params_view(final(params)@) == params_view(old(params)@) + req_param(name@, value@),
{
    let ghost before = params@;
    params.push((name.to_owned(), url_encode(value)));
    assert(params_view(params@) =~= params_view(before) + req_param(name@, value@));
}

/// Appends a parameter whose value is given already encoded.
pub fn add_raw_param(params: &mut Vec<(String, String)>, name: &str, value: String)
    ensures
        params_view(final(params)@) == params_view(old(params)@) + seq![(name@, value@)],
{
    let ghost before = params@;
    params.push((name.to_owned(), value));
    assert(params_view(params@) =~= params_view(before) + seq![(name@, value@)]);
}

/// Appends a parameter when the value is present.
pub fn add_opt_param(params: &mut Vec<(String, String)>, name: &str, value: &Option<String>)
    ensures
        params_view(final(params)@) == params_view(old(params)@) + opt_param(name@, *value),
{
    match value {
        Some(v) => add_param(params, name, v.as_str()),
        None => {
            assert(params_view(params@) =~= params_view(params@) + opt_param(name@, *value));
        },
    }
}

/// Appends one parameter per value when the values are present.
pub fn add_multi_param(params: &mut Vec<(String, String)>, name: &str, values: &Option<Vec<String>>)
    ensures
        params_view(final(params)@) == params_view(old(params)@) + multi_param(name@, *values),
{
    let ghost before = params_view(params@);
    match values {
        Some(v) => {
            for i in 0..v.len()
                invariant
                    params_view(params@) == before + v@.take(i as int).map_values(|s: String| (name@, url_encoded(s@))),
            {
                add_param(params, name, v[i].as_str());
                assert(v@.take(i + 1).map_values(|s: String| (name@, url_encoded(s@)))
                    =~= v@.take(i as int).map_values(|s: String| (name@, url_encoded(s@))).push((name@, url_encoded(v@[i as int]@))));
                assert(params_view(params@) =~= before + v@.take(i + 1).map_values(|s: String| (name@, url_encoded(s@))));
            }
            assert(v@.take(v@.len() as int) =~= v@);
        },
        None => {
            assert(params_view(params@) =~= before + multi_param(name@, *values));
        },
    }
}

/// Appends the query string of the parameters to a URL.
pub fn append_query(url: &mut String, params: &Vec<(String, String)>)
    ensures
        final(url)@ == old(url)@ + query_string(params_view(params@)),
{
    let ghost start = url@;
    if params.len() == 0 {
        assert(url@ =~= start + query_string(params_view(params@)));
        return;
    }
    url.append("?");
    for i in 0..params.len()
        invariant
            params@.len() > 0,
            i == 0 ==> url@ == start + "?"@,
            i > 0 ==> url@ == start + "?"@ + join_params(params_view(params@.take(i as int))),
    {
        if i > 0 {
            url.append("&");
        }
        url.append(params[i].0.as_str());
        url.append("=");
        url.append(params[i].1.as_str());
        proof {
            let ps = params_view(params@.take(i + 1));
            assert(params_view(params@.take(i + 1)).drop_last() =~= params_view(params@.take(i as int)));
            assert(ps.last() == (params@[i as int].0@, params@[i as int].1@));
            if i == 0 {
                assert(ps.len() == 1);
                assert(url@ =~= start + "?"@ + join_params(ps));
            } else {
                assert(url@ =~= start + "?"@ + join_params(ps));
            }
        }
    }
    assert(params@.take(params@.len() as int) =~= params@);
}

} // verus!
