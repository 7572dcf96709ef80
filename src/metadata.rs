//! What the metadata probe of a download yields: the size announced by
//! `Content-Length` and the file name suggested by `Content-Disposition` or by
//! the URL itself.
use vstd::prelude::*;

use crate::text::{
    chars_of, field_end, field_end_exec, find_from, find_from_exec, opt_str_view, opt_view, trim,
    trim_bounds,
};

verus! {

/// What `urlencoding::decode` makes of a text: `None` where the decoded bytes are not UTF-8.
pub uninterp spec fn percent_decoded(s: Seq<char>) -> Option<Seq<char>>;

/// Relies on `urlencoding::decode`: it turns each `%XX` escape into its byte, reads
/// the result as UTF-8, fails only where that is not UTF-8, and hands a text without
/// `%` back as it is.
#[verifier::external_body]
fn percent_decode(s: &str) -> (r: Option<String>)
    ensures
        r is Some <==> percent_decoded(s@) is Some,
        r is Some ==> percent_decoded(s@) == Some(r->0@),
        !s@.contains('%') ==> (r is Some && r->0@ == s@),
{
    match urlencoding::decode(s) {
        Ok(decoded) => Some(decoded.into_owned()),
        Err(_) => None,
    }
}

/// What `url` yields as the last segment of the path of a URL: `None` where the
/// text does not parse as an absolute URL or the URL has no path segments.
pub uninterp spec fn url_last_segment(url: Seq<char>) -> Option<Seq<char>>;

/// Relies on `url::Url::parse`, then `url::Url::path_segments`: the last segment
/// of the parsed URL's path, without its query or fragment.
#[verifier::external_body]
fn last_path_segment(url: &str) -> (r: Option<String>)
    ensures
        r is Some <==> url_last_segment(url@) is Some,
        r is Some ==> url_last_segment(url@) == Some(r->0@),
{
    match url::Url::parse(url) {
        Ok(parsed) => match parsed.path_segments() {
            Some(segments) => segments.last().map(|segment| segment.to_string()),
            None => None,
        },
        Err(_) => None,
    }
}

pub open spec fn is_digit(c: char) -> bool {
    '0' <= c && c <= '9'
}

/// The value of a run of decimal digits.
pub open spec fn decimal_value(s: Seq<char>) -> int
    decreases s.len(),
{
    if s.len() == 0 {
        0
    } else {
        decimal_value(s.drop_last()) * 10 + (s.last() as int - '0' as int)
    }
}

pub open spec fn all_digits(s: Seq<char>) -> bool {
    forall|i: int| 0 <= i < s.len() ==> is_digit(#[trigger] s[i])
}

/// What follows an optional leading `+`.
pub open spec fn unsigned_digits(s: Seq<char>) -> Seq<char> {
    if s.len() > 0 && s[0] == '+' {
        s.drop_first()
    } else {
        s
    }
}

/// A `usize` written in decimal: an optional `+`, then at least one digit, with a
/// value that fits.
pub open spec fn decimal_usize(s: Seq<char>) -> Option<usize> {
    let digits = unsigned_digits(s);
    if digits.len() > 0 && all_digits(digits) && decimal_value(digits) <= usize::MAX {
        Some(decimal_value(digits) as usize)
    } else {
        None
    }
}

/// The size announced by a `Content-Length` value: 0 (unknown) where it is absent
/// or not a number.
pub open spec fn content_length_of(header: Option<Seq<char>>) -> usize {
    match header {
        Some(h) => match decimal_usize(h) {
            Some(n) => n,
            None => 0,
        },
        None => 0,
    }
}

/// `filename*=`, the key of the extended (RFC 5987) parameter.
pub open spec fn extended_key() -> Seq<char> {
    seq!['f', 'i', 'l', 'e', 'n', 'a', 'm', 'e', '*', '=']
}

/// `filename=`, the key of the plain parameter.
pub open spec fn plain_key() -> Seq<char> {
    seq!['f', 'i', 'l', 'e', 'n', 'a', 'm', 'e', '=']
}

/// The `''` that separates charset and language from the encoded value.
pub open spec fn charset_end() -> Seq<char> {
    seq!['\'', '\'']
}

/// The name given by the extended form `filename*=charset''percent-encoded`: the
/// value after the first `''` that follows the key, up to `;`, trimmed, decoded.
pub open spec fn extended_filename(h: Seq<char>) -> Option<Seq<char>> {
    match find_from(h, extended_key(), 0) {
        Some(start) => match find_from(h, charset_end(), start + 10) {
            Some(q) => percent_decoded(trim(h.subrange(q + 2, field_end(h, ';', q + 2)))),
            None => None,
        },
        None => None,
    }
}

/// The name given by the plain form: `filename="..."` up to the closing quote, or
/// `filename=...` up to `;`, trimmed and not empty.
pub open spec fn plain_filename(h: Seq<char>) -> Option<Seq<char>> {
    match find_from(h, plain_key(), 0) {
        Some(start) => {
            let v = start + 9;
            if v < h.len() && h[v] == '"' {
                match find_from(h, seq!['"'], v + 1) {
                    Some(e) => Some(h.subrange(v + 1, e)),
                    None => None,
                }
            } else {
                let name = trim(h.subrange(v, field_end(h, ';', v)));
                if name.len() > 0 {
                    Some(name)
                } else {
                    None
                }
            }
        },
        None => None,
    }
}

/// The file name that a `Content-Disposition` value gives, the extended form first.
pub open spec fn disposition_filename(h: Seq<char>) -> Option<Seq<char>> {
    match extended_filename(h) {
        Some(name) => Some(name),
        None => plain_filename(h),
    }
}

/// A name that a file can be saved under.
pub open spec fn usable(name: Option<Seq<char>>) -> bool {
    name is Some && name->0.len() > 0
}

/// The name suggested for a download: the one in `Content-Disposition`, else the
/// last segment of the URL's path, where it is usable.
pub open spec fn suggested_name(disposition: Option<Seq<char>>, url: Seq<char>) -> Option<
    Seq<char>,
> {
    let from_header = match disposition {
        Some(h) => disposition_filename(h),
        None => None,
    };
    if usable(from_header) {
        from_header
    } else if usable(url_last_segment(url)) {
        url_last_segment(url)
    } else {
        None
    }
}

proof fn lemma_decimal_prefix_grows(s: Seq<char>, k: int)
    requires
        0 <= k <= s.len(),
        all_digits(s),
    ensures
        decimal_value(s.subrange(0, k)) <= decimal_value(s),
    decreases s.len(),
{
    if k < s.len() {
        lemma_decimal_prefix_grows(s.drop_last(), k);
        assert(s.drop_last().subrange(0, k) =~= s.subrange(0, k));
        assert(all_digits(s.drop_last()));
        lemma_decimal_nonnegative(s.drop_last());
    } else {
        assert(s.subrange(0, k) =~= s);
    }
}

proof fn lemma_decimal_nonnegative(s: Seq<char>)
    requires
        all_digits(s),
    ensures
        decimal_value(s) >= 0,
    decreases s.len(),
{
    if s.len() > 0 {
        assert(all_digits(s.drop_last()));
        lemma_decimal_nonnegative(s.drop_last());
    }
}

/// Reads a `usize` written in decimal, as `str::parse::<usize>` does.
pub fn parse_decimal(s: &str) -> (r: Option<usize>)
    ensures
        r == decimal_usize(s@),
{
    let cs = chars_of(s);
    let mut i: usize = 0;
    if cs.len() > 0 && cs[0] == '+' {
        i = 1;
    }
    let ghost digits = unsigned_digits(s@);
    assert(digits =~= cs@.subrange(i as int, cs@.len() as int));
    if i == cs.len() {
        return None;
    }
    let start: usize = i;
    let mut value: usize = 0;
    while i < cs.len()
        invariant
            start <= i <= cs@.len(),
            start < cs@.len(),
            digits == cs@.subrange(start as int, cs@.len() as int),
            digits == unsigned_digits(s@),
            all_digits(cs@.subrange(start as int, i as int)),
            value as int == decimal_value(cs@.subrange(start as int, i as int)),
        decreases cs@.len() - i,
    {
        let c = cs[i];
        if c < '0' || c > '9' {
            assert(!is_digit(digits[i - start]));
            assert(!all_digits(digits));
            return None;
        }
        let d: usize = (c as u32 - '0' as u32) as usize;
        assert(cs@.subrange(start as int, i + 1).drop_last() =~= cs@.subrange(
            start as int,
            i as int,
        ));
        let next: Option<usize> = match value.checked_mul(10) {
            Some(tens) => tens.checked_add(d),
            None => None,
        };
        match next {
            Some(n) => {
                value = n;
            },
            None => {
                proof {
                    if all_digits(digits) {
                        assert(decimal_value(cs@.subrange(start as int, i + 1)) == value * 10 + d);
                        assert(value * 10 + d > usize::MAX);
                        lemma_decimal_prefix_grows(digits, i + 1 - start);
                        assert(digits.subrange(0, i + 1 - start) =~= cs@.subrange(
                            start as int,
                            i + 1,
                        ));
                    }
                }
                return None;
            },
        }
        i = i + 1;
    }
    proof {
        assert(cs@.subrange(start as int, i as int) =~= digits);
    }
    Some(value)
}

fn extended_form(header: &str, h: &Vec<char>) -> (r: Option<String>)
    requires
        h@ == header@,
    ensures
        opt_view(r) == extended_filename(header@),
{
    let key: Vec<char> = vec!['f', 'i', 'l', 'e', 'n', 'a', 'm', 'e', '*', '='];
    assert(key@ =~= extended_key());
    let start: usize = match find_from_exec(h, &key, 0) {
        Some(start) => start,
        None => return None,
    };
    let quotes: Vec<char> = vec!['\'', '\''];
    assert(quotes@ =~= charset_end());
    assert(key@.len() == 10 && h@.len() == h.len());
    let q: usize = match find_from_exec(h, &quotes, start + 10) {
        Some(q) => q,
        None => return None,
    };
    assert(quotes@.len() == 2);
    let end: usize = field_end_exec(h, ';', q + 2);
    let (a, b) = trim_bounds(h, q + 2, end);
    percent_decode(header.substring_char(a, b))
}

fn plain_form(header: &str, h: &Vec<char>) -> (r: Option<String>)
    requires
        h@ == header@,
    ensures
        opt_view(r) == plain_filename(header@),
{
    let key: Vec<char> = vec!['f', 'i', 'l', 'e', 'n', 'a', 'm', 'e', '='];
    assert(key@ =~= plain_key());
    let start: usize = match find_from_exec(h, &key, 0) {
        Some(start) => start,
        None => return None,
    };
    assert(key@.len() == 9 && h@.len() == h.len());
    let v: usize = start + 9;
    if v < h.len() && h[v] == '"' {
        let quote: Vec<char> = vec!['"'];
        assert(quote@ =~= seq!['"']);
        match find_from_exec(h, &quote, v + 1) {
            Some(e) => Some(header.substring_char(v + 1, e).to_owned()),
            None => None,
        }
    } else {
        let end: usize = field_end_exec(h, ';', v);
        let (a, b) = trim_bounds(h, v, end);
        if a < b {
            Some(header.substring_char(a, b).to_owned())
        } else {
            None
        }
    }
}

/// The file name that a `Content-Disposition` value gives. The extended form
/// `filename*=charset''value` wins over `filename="value"` and `filename=value`.
pub fn parse_content_disposition_filename(header: &str) -> (r: Option<String>)
    ensures
        opt_view(r) == disposition_filename(header@),
{
    let h = chars_of(header);
    let extended = extended_form(header, &h);
    if extended.is_some() {
        return extended;
    }
    plain_form(header, &h)
}

/// The size announced by a `Content-Length` value; 0 where it is absent or not a
/// number, which stands for "unknown".
pub fn content_length(header: Option<&str>) -> (r: usize)
    ensures
        r == content_length_of(opt_str_view(header)),
{
    match header {
        Some(h) => match parse_decimal(h) {
            Some(n) => n,
            None => 0,
        },
        None => 0,
    }
}

/// The name to save a download under, where one can be found: the one that
/// `Content-Disposition` gives, else the last segment of the URL's path.
pub fn suggest_name(content_disposition: Option<&str>, url: &str) -> (r: Option<String>)
    ensures
        opt_view(r) == suggested_name(opt_str_view(content_disposition), url@),
{
    let from_header = match content_disposition {
        Some(h) => parse_content_disposition_filename(h),
        None => None,
    };
    if let Some(name) = from_header {
        if !name.as_str().is_empty() {
            return Some(name);
        }
    }
    match last_path_segment(url) {
        Some(segment) => {
            if segment.as_str().is_empty() {
                None
            } else {
                Some(segment)
            }
        },
        None => None,
    }
}

} // verus!
