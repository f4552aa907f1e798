//! HTTP headers, methods and addresses.

use std::str::FromStr;

use vstd::prelude::*;
use vstd::utf8::*;

use crate::string_map::StringMap;

verus! {

/// The headers of a request, which may hold several values for a name.
#[verifier::external_type_specification]
#[verifier::external_body]
#[verifier::reject_recursive_types(T)]
pub struct ExHeaderMap<T>(http::HeaderMap<T>);

/// The value of a header.
#[verifier::external_type_specification]
#[verifier::external_body]
pub struct ExHeaderValue(http::HeaderValue);

/// The error of a part that no request may hold.
#[verifier::external_type_specification]
#[verifier::external_body]
pub struct ExHttpError(http::Error);

/// The error of a text that is no method.
#[verifier::external_type_specification]
#[verifier::external_body]
pub struct ExInvalidMethod(http::method::InvalidMethod);

/// The error of a text that is no address.
#[verifier::external_type_specification]
#[verifier::external_body]
pub struct ExParseError(url::ParseError);

/// The most names that headers hold whatever the names are.
pub const MAX_HEADERS: usize = 6554;

/// Whether a character may stand in the name of a header.
pub open spec fn header_name_char(c: char) -> bool {
    let code = c as u32;
    33 <= code <= 39 || code == 42 || code == 43 || code == 45 || code == 46 || 48 <= code <= 57
        || 65 <= code <= 90 || 94 <= code <= 122 || code == 124 || code == 126
}

/// Whether a text is the name of a header.
pub open spec fn header_name_valid(text: Seq<char>) -> bool {
    &&& 0 < text.len() <= 65535
    &&& forall|i: int| 0 <= i < text.len() ==> header_name_char(#[trigger] text[i])
}

/// Whether a text is the value of a header: only control characters other than
/// the tab are left out.
pub open spec fn header_value_valid(text: Seq<char>) -> bool {
    forall|i: int|
        0 <= i < text.len() ==> {
            let code = (#[trigger] text[i]) as u32;
            32 <= code && code != 127 || code == 9
        }
}

/// Whether a character may stand in a method.
pub open spec fn method_char(c: char) -> bool {
    let code = c as u32;
    code == 33 || code == 42 || code == 43 || code == 45 || code == 46 || 48 <= code <= 57 || 65
        <= code <= 90 || 94 <= code <= 122 || code == 124 || code == 126
}

/// Whether a text is a method.
pub open spec fn method_valid(text: Seq<char>) -> bool {
    &&& 0 < text.len()
    &&& forall|i: int| 0 <= i < text.len() ==> method_char(#[trigger] text[i])
}

/// The lowercase form of an ASCII letter; any other character stays.
pub open spec fn ascii_lower(c: char) -> char {
    if 65 <= c as u32 <= 90 {
        (c as u32 + 32) as char
    } else {
        c
    }
}

/// The uppercase form of an ASCII letter; any other character stays.
pub open spec fn ascii_upper(c: char) -> char {
    if 97 <= c as u32 <= 122 {
        (c as u32 - 32) as char
    } else {
        c
    }
}

/// The text with its ASCII letters in lowercase.
pub open spec fn lowercase(text: Seq<char>) -> Seq<char> {
    text.map_values(|c: char| ascii_lower(c))
}

/// The text with its ASCII letters in uppercase.
pub open spec fn uppercase(text: Seq<char>) -> Seq<char> {
    text.map_values(|c: char| ascii_upper(c))
}

/// What [`url::Url::parse`] makes of a text: the address in its normal form.
/// `None` stands for the error.
pub uninterp spec fn url_parsed(text: Seq<char>) -> Option<Seq<char>>;

/// What [`http::Uri`] makes of a text. `None` stands for the error.
pub uninterp spec fn uri_parsed(text: Seq<char>) -> Option<Seq<char>>;

/// What [`String::from_utf8_lossy`] makes of bytes.
pub uninterp spec fn utf8_lossy(bytes: Seq<u8>) -> Seq<char>;

/// The names and values that headers hold, in the order in which they are
/// handed out: the values of one name stand together.
pub uninterp spec fn header_entries(headers: http::HeaderMap<http::HeaderValue>) -> Seq<
    (Seq<char>, Seq<u8>),
>;

/// [`str::to_ascii_uppercase`] turns the letters `a` to `z` into `A` to `Z` and
/// keeps everything else.
pub assume_specification[ str::to_ascii_uppercase ](text: &str) -> (upper: String)
    ensures
        upper@ == uppercase(text@),
;

/// Calls [`url::Url::parse`]. The contract names the result.
#[verifier::external_body]
pub(crate) fn parse_url(text: &str) -> (url: Result<String, url::ParseError>)
    ensures
        match url {
            Ok(u) => url_parsed(text@) == Some(u@),
            Err(_) => url_parsed(text@) is None,
        },
{
    url::Url::parse(text).map(String::from)
}

/// Calls the conversion from text of [`http::Uri`]. The contract names the
/// result.
#[verifier::external_body]
pub(crate) fn parse_uri(text: &str) -> (uri: Result<String, http::Error>)
    ensures
        match uri {
            Ok(u) => uri_parsed(text@) == Some(u@),
            Err(_) => uri_parsed(text@) is None,
        },
{
    http::Uri::try_from(text).map(|uri| uri.to_string()).map_err(http::Error::from)
}

/// Calls the conversion from text of [`http::Method`], which takes any
/// non-empty text of method characters and keeps it as it is.
#[verifier::external_body]
pub(crate) fn parse_method(text: &str) -> (method: Result<String, http::method::InvalidMethod>)
    ensures
        match method {
            Ok(m) => method_valid(text@) && m@ == text@,
            Err(_) => !method_valid(text@),
        },
{
    http::Method::from_str(text).map(|method| method.as_str().to_owned())
}

/// Calls the conversion from text of [`http::HeaderName`], which takes any
/// non-empty text of header characters that is not too long, in lowercase.
#[verifier::external_body]
pub(crate) fn parse_header_name(text: &str) -> (name: Result<String, http::Error>)
    ensures
        match name {
            Ok(n) => header_name_valid(text@) && n@ == lowercase(text@),
            Err(_) => !header_name_valid(text@),
        },
{
    http::HeaderName::from_str(text).map(|name| name.as_str().to_owned()).map_err(http::Error::from)
}

/// Calls [`http::HeaderValue::from_str`], which takes any text without control
/// characters other than the tab.
#[verifier::external_body]
pub(crate) fn check_header_value(text: &str) -> (value: Result<(), http::Error>)
    ensures
        value is Ok <==> header_value_valid(text@),
{
    http::HeaderValue::from_str(text).map(|_| ()).map_err(http::Error::from)
}

/// Calls [`String::from_utf8_lossy`]. The contract names the result, and states
/// that valid UTF-8 is taken as it is.
#[verifier::external_body]
pub(crate) fn decode_lossy(bytes: &[u8]) -> (text: String)
    ensures
        text@ == utf8_lossy(bytes@),
        valid_utf8(bytes@) ==> text@ == decode_utf8(bytes@),
{
    String::from_utf8_lossy(bytes).into_owned()
}

/// The place behind the last entry with a name, or the front where there is
/// none.
pub open spec fn group_end(entries: Seq<(Seq<char>, Seq<u8>)>, name: Seq<char>) -> int
    decreases entries.len(),
{
    if entries.len() == 0 {
        0
    } else if entries.last().0 == name {
        entries.len() as int
    } else {
        group_end(entries.drop_last(), name)
    }
}

/// The entries with another value for a name: it comes behind the other values
/// of the name, or last where there are none.
pub open spec fn appended(
    entries: Seq<(Seq<char>, Seq<u8>)>,
    name: Seq<char>,
    value: Seq<u8>,
) -> Seq<(Seq<char>, Seq<u8>)> {
    let end = group_end(entries, name);
    if end == 0 {
        entries.push((name, value))
    } else {
        entries.insert(end, (name, value))
    }
}

/// Calls [`http::HeaderMap::new`], which holds nothing.
#[verifier::external_body]
fn new_headers() -> (headers: http::HeaderMap<http::HeaderValue>)
    ensures
        header_entries(headers) == Seq::<(Seq<char>, Seq<u8>)>::empty(),
{
    http::HeaderMap::new()
}

/// Calls [`http::HeaderMap::try_append`] with a name and a value that have to be
/// valid. The contract states that the value comes behind the others of its
/// name, and that only headers of at least [`MAX_HEADERS`] entries may refuse
/// it, staying as they are.
#[verifier::external_body]
fn append_header(
    headers: &mut http::HeaderMap<http::HeaderValue>,
    name: &str,
    value: &str,
) -> (result: Result<(), http::Error>)
    requires
        header_name_valid(name@),
        header_value_valid(value@),
    ensures
        match result {
            Ok(_) => header_entries(*final(headers)) == appended(
                header_entries(*old(headers)),
                lowercase(name@),
                encode_utf8(value@),
            ),
            Err(_) => header_entries(*final(headers)) == header_entries(*old(headers))
                && header_entries(*old(headers)).len() >= MAX_HEADERS,
        },
{
    let name = http::HeaderName::from_str(name)?;
    let value = http::HeaderValue::from_str(value)?;
    headers.try_append(name, value).map(|_| ()).map_err(http::Error::from)
}

/// Calls the consuming iterator of [`http::HeaderMap`], which hands out the
/// entries and gives each name with the first of its values only.
#[verifier::external_body]
fn header_list(headers: http::HeaderMap<http::HeaderValue>) -> (list: Vec<
    (Option<String>, Vec<u8>),
>)
    ensures
        list.len() == header_entries(headers).len(),
        forall|i: int|
            0 <= i < list.len() ==> {
                let entry = header_entries(headers)[i];
                &&& (#[trigger] list[i]).1@ == entry.1
                &&& match list[i].0 {
                    Some(name) => name@ == entry.0 && (i == 0 || header_entries(headers)[i - 1].0
                        != entry.0),
                    None => i > 0 && header_entries(headers)[i - 1].0 == entry.0,
                }
            },
{
    let plain = |(n, v): (Option<http::HeaderName>, http::HeaderValue)| {
        (n.map(|n| n.as_str().to_owned()), v.as_bytes().to_vec())
    };
    headers.into_iter().map(plain).collect()
}

/// A map from text to strings as pairs of texts, in its order.
pub open spec fn text_pairs(pairs: Seq<(Seq<char>, String)>) -> Seq<(Seq<char>, Seq<char>)> {
    pairs.map_values(|p: (Seq<char>, String)| (p.0, p.1@))
}

/// Whether a name and a value may stand in headers.
pub open spec fn header_valid(pair: (Seq<char>, Seq<char>)) -> bool {
    header_name_valid(pair.0) && header_value_valid(pair.1)
}

/// The entries of headers that took the valid ones of the pairs, one after the
/// other.
pub open spec fn collected(pairs: Seq<(Seq<char>, Seq<char>)>) -> Seq<(Seq<char>, Seq<u8>)>
    decreases pairs.len(),
{
    if pairs.len() == 0 {
        Seq::empty()
    } else {
        let before = collected(pairs.drop_last());
        if header_valid(pairs.last()) {
            appended(before, lowercase(pairs.last().0), encode_utf8(pairs.last().1))
        } else {
            before
        }
    }
}

/// Whether one of the entries has the name.
pub open spec fn has_name(entries: Seq<(Seq<char>, Seq<u8>)>, name: Seq<char>) -> bool {
    exists|i: int| 0 <= i < entries.len() && (#[trigger] entries[i]).0 == name
}

/// The first valid value of each name in the pairs, in the order in which the
/// names come.
pub open spec fn first_values(pairs: Seq<(Seq<char>, Seq<char>)>) -> Seq<(Seq<char>, Seq<u8>)>
    decreases pairs.len(),
{
    if pairs.len() == 0 {
        Seq::empty()
    } else {
        let before = first_values(pairs.drop_last());
        let name = lowercase(pairs.last().0);
        if header_valid(pairs.last()) && !has_name(before, name) {
            before.push((name, encode_utf8(pairs.last().1)))
        } else {
            before
        }
    }
}

/// The entries that come first among those of their name.
spec fn heads(entries: Seq<(Seq<char>, Seq<u8>)>) -> Seq<(Seq<char>, Seq<u8>)>
    decreases entries.len(),
{
    if entries.len() == 0 {
        Seq::empty()
    } else {
        let before = heads(entries.drop_last());
        if entries.len() > 1 && entries[entries.len() - 2].0 == entries.last().0 {
            before
        } else {
            before.push(entries.last())
        }
    }
}

pub proof fn lemma_group_end(entries: Seq<(Seq<char>, Seq<u8>)>, name: Seq<char>)
    ensures
        0 <= group_end(entries, name) <= entries.len(),
        group_end(entries, name) == 0 <==> !has_name(entries, name),
        group_end(entries, name) > 0 ==> entries[group_end(entries, name) - 1].0 == name,
        forall|i: int|
            group_end(entries, name) <= i < entries.len() ==> (#[trigger] entries[i]).0 != name,
    decreases entries.len(),
{
    if entries.len() > 0 {
        let rest = entries.drop_last();
        lemma_group_end(rest, name);
        assert forall|i: int| 0 <= i < rest.len() implies (#[trigger] entries[i]) == rest[i] by {}
        if entries.last().0 == name {
            assert(entries[entries.len() - 1].0 == name);
        } else {
            if has_name(rest, name) {
                let i = choose|i: int| 0 <= i < rest.len() && (#[trigger] rest[i]).0 == name;
                assert(entries[i].0 == name);
            }
            if has_name(entries, name) {
                let i = choose|i: int| 0 <= i < entries.len() && (#[trigger] entries[i]).0 == name;
                assert(rest[i].0 == name);
            }
        }
    }
}

proof fn lemma_heads_names(entries: Seq<(Seq<char>, Seq<u8>)>, name: Seq<char>)
    ensures
        has_name(heads(entries), name) <==> has_name(entries, name),
    decreases entries.len(),
{
    if entries.len() > 0 {
        let rest = entries.drop_last();
        let before = heads(rest);
        let all = heads(entries);
        lemma_heads_names(rest, name);
        let repeated = entries.len() > 1 && entries[entries.len() - 2].0 == entries.last().0;
        if has_name(entries, name) {
            let i = choose|i: int| 0 <= i < entries.len() && (#[trigger] entries[i]).0 == name;
            if i < rest.len() {
                assert(rest[i].0 == name);
                let j = choose|j: int| 0 <= j < before.len() && (#[trigger] before[j]).0 == name;
                assert(all[j].0 == name);
            } else if repeated {
                assert(rest[rest.len() - 1].0 == name);
                let j = choose|j: int| 0 <= j < before.len() && (#[trigger] before[j]).0 == name;
                assert(all[j].0 == name);
            } else {
                assert(all[all.len() - 1].0 == name);
            }
        }
        if has_name(all, name) {
            let j = choose|j: int| 0 <= j < all.len() && (#[trigger] all[j]).0 == name;
            if j < before.len() {
                assert(before[j].0 == name);
                let i = choose|i: int| 0 <= i < rest.len() && (#[trigger] rest[i]).0 == name;
                assert(entries[i].0 == name);
            } else {
                assert(entries[entries.len() - 1].0 == name);
            }
        }
    }
}

/// A value put directly behind an entry of its name is no first value.
proof fn lemma_heads_insert(
    entries: Seq<(Seq<char>, Seq<u8>)>,
    at: int,
    entry: (Seq<char>, Seq<u8>),
)
    requires
        0 < at <= entries.len(),
        entries[at - 1].0 == entry.0,
    ensures
        heads(entries.insert(at, entry)) == heads(entries),
    decreases entries.len(),
{
    let more = entries.insert(at, entry);
    if at == entries.len() {
        assert(more.drop_last() =~= entries);
    } else {
        lemma_heads_insert(entries.drop_last(), at, entry);
        assert(more.drop_last() =~= entries.drop_last().insert(at, entry));
        assert(more.last() == entries.last());
        let n = more.len();
        if at == entries.len() - 1 {
            assert(more[n - 2] == entry);
            assert(entries[entries.len() - 2].0 == entry.0);
        } else {
            assert(more[n - 2] == entries[entries.len() - 2]);
        }
    }
}

proof fn lemma_heads_push(
    entries: Seq<(Seq<char>, Seq<u8>)>,
    entry: (Seq<char>, Seq<u8>),
)
    requires
        !has_name(entries, entry.0),
    ensures
        heads(entries.push(entry)) == heads(entries).push(entry),
{
    let more = entries.push(entry);
    assert(more.drop_last() =~= entries);
    if entries.len() > 0 {
        assert(more[more.len() - 2] == entries[entries.len() - 1]);
        assert(entries[entries.len() - 1].0 != entry.0);
    }
}

proof fn lemma_first_values(pairs: Seq<(Seq<char>, Seq<char>)>)
    ensures
        heads(collected(pairs)) == first_values(pairs),
    decreases pairs.len(),
{
    if pairs.len() > 0 {
        lemma_first_values(pairs.drop_last());
        if header_valid(pairs.last()) {
            let before = collected(pairs.drop_last());
            let name = lowercase(pairs.last().0);
            let value = encode_utf8(pairs.last().1);
            lemma_group_end(before, name);
            lemma_heads_names(before, name);
            if has_name(before, name) {
                lemma_heads_insert(before, group_end(before, name), (name, value));
            } else {
                lemma_heads_push(before, (name, value));
            }
        }
    }
}

proof fn lemma_collected_len(pairs: Seq<(Seq<char>, Seq<char>)>)
    ensures
        collected(pairs).len() <= pairs.len(),
    decreases pairs.len(),
{
    if pairs.len() > 0 {
        lemma_collected_len(pairs.drop_last());
        lemma_group_end(collected(pairs.drop_last()), lowercase(pairs.last().0));
    }
}

/// Whether every one of the pairs may stand in headers.
pub open spec fn all_valid(pairs: Seq<(Seq<char>, Seq<char>)>) -> bool {
    forall|i: int| 0 <= i < pairs.len() ==> header_valid(#[trigger] pairs[i])
}

fn collect_headers(headers: &StringMap<String>, strict: bool) -> (map: Result<
    http::HeaderMap<http::HeaderValue>,
    http::Error,
>)
    ensures
        match map {
            Ok(m) => header_entries(m) == collected(text_pairs(headers.pairs())) && (strict
                ==> all_valid(text_pairs(headers.pairs()))),
            Err(_) => strict && !all_valid(text_pairs(headers.pairs())) || headers.pairs().len()
                > MAX_HEADERS,
        },
{
    let ghost pairs = text_pairs(headers.pairs());
    let mut map = new_headers();
    let count: usize = headers.len();
    let mut i: usize = 0;
    assert(pairs.take(0) =~= Seq::empty());
    while i < count
        invariant
            i <= count,
            count == headers.pairs().len(),
            pairs == text_pairs(headers.pairs()),
            header_entries(map) == collected(pairs.take(i as int)),
            strict ==> all_valid(pairs.take(i as int)),
        decreases count - i,
    {
        proof {
            assert(pairs.take(i + 1).drop_last() =~= pairs.take(i as int));
            assert(pairs.take(i + 1).last() == pairs[i as int]);
            lemma_collected_len(pairs.take(i as int));
        }
        let (name, value) = headers.entry(i);
        let name_check = parse_header_name(name.as_str());
        let value_check = check_header_value(value.as_str());
        match (name_check, value_check) {
            (Ok(_), Ok(_)) => {
                append_header(&mut map, name.as_str(), value.as_str())?;
            },
            (Err(error), _) | (_, Err(error)) => {
                if strict {
                    return Err(error);
                }
            },
        }
        assert(strict ==> all_valid(pairs.take(i + 1))) by {
            if strict {
                assert forall|j: int| 0 <= j < i + 1 implies header_valid(
                    #[trigger] pairs.take(i + 1)[j],
                ) by {
                    if j < i {
                        assert(pairs.take(i + 1)[j] == pairs.take(i as int)[j]);
                    }
                }
            }
        }
        i += 1;
    }
    assert(pairs.take(count as int) =~= pairs);
    Ok(map)
}

/// The headers with the valid ones of the given names and values.
pub fn hashmap_to_headermap(headers: &StringMap<String>) -> (map: Result<
    http::HeaderMap<http::HeaderValue>,
    http::Error,
>)
    ensures
        match map {
            Ok(m) => header_entries(m) == collected(text_pairs(headers.pairs())),
            Err(_) => headers.pairs().len() > MAX_HEADERS,
        },
{
    collect_headers(headers, false)
}

/// The headers with all the given names and values, which have to be valid.
pub fn try_headermap(headers: &StringMap<String>) -> (map: Result<
    http::HeaderMap<http::HeaderValue>,
    http::Error,
>)
    ensures
        match map {
            Ok(m) => all_valid(text_pairs(headers.pairs())) && header_entries(m) == collected(
                text_pairs(headers.pairs()),
            ),
            Err(_) => !all_valid(text_pairs(headers.pairs())) || headers.pairs().len()
                > MAX_HEADERS,
        },
{
    collect_headers(headers, true)
}

/// Names and values as texts and bytes.
pub open spec fn byte_pairs(pairs: Seq<(String, Vec<u8>)>) -> Seq<(Seq<char>, Seq<u8>)> {
    pairs.map_values(|p: (String, Vec<u8>)| (p.0@, p.1@))
}

/// The first valid value of each of the given names.
pub fn first_header_values(headers: &StringMap<String>) -> (values: Result<
    Vec<(String, Vec<u8>)>,
    http::Error,
>)
    ensures
        match values {
            Ok(v) => byte_pairs(v@) == first_values(text_pairs(headers.pairs())),
            Err(_) => headers.pairs().len() > MAX_HEADERS,
        },
{
    let map = hashmap_to_headermap(headers)?;
    let ghost entries = header_entries(map);
    let list = header_list(map);
    let mut values: Vec<(String, Vec<u8>)> = Vec::new();
    let mut i: usize = 0;
    proof {
        assert(entries.take(0) =~= Seq::empty());
        assert(byte_pairs(values@) =~= heads(entries.take(0)));
    }
    while i < list.len()
        invariant
            i <= list.len(),
            list.len() == entries.len(),
            forall|j: int|
                0 <= j < list.len() ==> {
                    &&& (#[trigger] list[j]).1@ == entries[j].1
                    &&& match list[j].0 {
                        Some(name) => name@ == entries[j].0 && (j == 0 || entries[j - 1].0
                            != entries[j].0),
                        None => j > 0 && entries[j - 1].0 == entries[j].0,
                    }
                },
            byte_pairs(values@) == heads(entries.take(i as int)),
        decreases list.len() - i,
    {
        let ghost before = values@;
        proof {
            assert(entries.take(i + 1).drop_last() =~= entries.take(i as int));
            assert(entries.take(i + 1).last() == entries[i as int]);
            if i > 0 {
                assert(entries.take(i + 1)[i - 1] == entries[i - 1]);
            }
        }
        if let Some(name) = &list[i].0 {
            values.push((name.clone(), list[i].1.clone()));
            assert(values@.last().1@ =~= entries[i as int].1);
            assert(byte_pairs(values@) =~= byte_pairs(before).push(entries[i as int]));
        }
        i += 1;
    }
    proof {
        assert(entries.take(i as int) =~= entries);
        lemma_first_values(text_pairs(headers.pairs()));
    }
    Ok(values)
}

/// The texts of the names and values of received headers.
pub open spec fn received_headers(headers: Seq<(String, Vec<u8>)>) -> Seq<(Seq<char>, Seq<char>)> {
    headers.map_values(|p: (String, Vec<u8>)| (p.0@, utf8_lossy(p.1@)))
}

/// The received headers as a map: of several values of a name the last stays.
pub fn headermap_to_hashmap(headers: Vec<(String, Vec<u8>)>) -> (map: StringMap<String>)
    ensures
        crate::forwarder::wire::texts_of(map@) == crate::string_map::pairs_map(
            received_headers(headers@),
        ),
{
    let ghost texts = received_headers(headers@);
    let mut map: StringMap<String> = StringMap::new();
    let mut i: usize = 0;
    proof {
        assert(texts.take(0) =~= Seq::empty());
        assert(crate::forwarder::wire::texts_of(map@) =~= Map::empty());
    }
    while i < headers.len()
        invariant
            i <= headers.len(),
            texts == received_headers(headers@),
            crate::forwarder::wire::texts_of(map@) == crate::string_map::pairs_map(
                texts.take(i as int),
            ),
        decreases headers.len() - i,
    {
        let ghost before = map@;
        let name = headers[i].0.clone();
        let value = decode_lossy(headers[i].1.as_slice());
        map.insert(name, value);
        proof {
            assert(texts.take(i + 1).drop_last() =~= texts.take(i as int));
            assert(texts.take(i + 1).last() == texts[i as int]);
            assert(crate::forwarder::wire::texts_of(map@) =~= crate::forwarder::wire::texts_of(
                before,
            ).insert(name@, value@));
        }
        i += 1;
    }
    assert(texts.take(i as int) =~= texts);
    map
}

} // verus!
