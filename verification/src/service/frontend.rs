//! Serving the bundled web frontend: which asset a request path names, and
//! the byte ranges a `Range` header asks for.

use crate::text::{all_digits, decimal_value, lemma_decimal_roundtrip, usize_digits, chars_of, contains_char, decimal, ends_with_char, find_char, has_prefix_at, parse_usize, parse_usize_spec, push_decimal, str_eq, string_of_range, strip_prefix, trim_start_matches, trim_start_matches_string};
use vstd::prelude::*;

verus! {

/// `s` holds exactly one `-`, at index `k`.
pub open spec fn single_dash_at(s: Seq<char>, k: int) -> bool {
    0 <= k < s.len() && s[k] == '-' && forall|j: int| 0 <= j < s.len() && j != k ==> s[j] != '-'
}

/// The byte range `[start, end)` that a `Range` header value asks of a body of
/// `total_len` bytes: `bytes=<start>-<end>` with an inclusive end (an end that
/// does not parse stands for the last byte); `None` when the value is malformed
/// or the range does not lie within the body.
pub open spec fn spec_parse_range(range: Seq<char>, total_len: nat) -> Option<(nat, nat)> {
    match strip_prefix(range, "bytes="@) {
        None => None,
        Some(rest) => if exists|k: int| single_dash_at(rest, k) {
            let k = choose|k: int| single_dash_at(rest, k);
            match parse_usize_spec(rest.subrange(0, k)) {
                None => None,
                Some(start) => {
                    let end = match parse_usize_spec(rest.subrange(k + 1, rest.len() as int)) {
                        Some(e) => e,
                        None => (total_len - 1) as nat,
                    };
                    if total_len == 0 || start >= total_len || end >= total_len || start > end {
                        None
                    } else {
                        Some((start, end + 1))
                    }
                },
            }
        } else {
            None
        },
    }
}

/// The byte range `[start, end)` that a `Range` header value asks of a body of
/// `total_len` bytes.
pub fn parse_range(range: &str, total_len: usize) -> (r: Option<(usize, usize)>)
    ensures
        match spec_parse_range(range@, total_len as nat) {
            None => r is None,
            Some((a, b)) => r == Some((a as usize, b as usize)),
        },
{
    let v = chars_of(range);
    if !has_prefix_at(&v, 0, "bytes=") {
        assert(v@.subrange(0, v@.len() as int) == v@);
        return None;
    }
    assert(v@.subrange(0, v@.len() as int) == v@);
    proof {
        reveal_strlit("bytes=");
    }
    let rest = string_of_range(&v, 6, v.len());
    let rv = chars_of(rest.as_str());
    let k = match find_char(&rv, '-') {
        None => {
            return None;
        },
        Some(k) => k,
    };
    let tail = string_of_range(&rv, k + 1, rv.len());
    let tv = chars_of(tail.as_str());
    match find_char(&tv, '-') {
        Some(j) => {
            proof {
                assert(rv@[k + 1 + j] == '-');
                assert forall|m: int| !single_dash_at(rv@, m) by {
                    if single_dash_at(rv@, m) {
                        assert(m == k);
                    }
                }
            }
            return None;
        },
        None => {},
    }
    proof {
        assert forall|m: int| 0 <= m < rv@.len() && m != k implies rv@[m] != '-' by {
            if m > k {
                assert(tv@[m - k - 1] == rv@[m]);
            }
        }
        assert(single_dash_at(rv@, k as int));
        assert forall|m: int| single_dash_at(rv@, m) implies m == k by {}
    }
    let head = string_of_range(&rv, 0, k);
    let start = match parse_usize(head.as_str()) {
        None => {
            return None;
        },
        Some(s) => s,
    };
    if total_len == 0 {
        return None;
    }
    let end = match parse_usize(tail.as_str()) {
        Some(e) => e,
        None => total_len - 1,
    };
    if start >= total_len || end >= total_len || start > end {
        return None;
    }
    Some((start, end + 1))
}

/// Whether `name` is among the bundled assets.
pub open spec fn is_listed(assets: Seq<String>, name: Seq<char>) -> bool {
    exists|i: int| 0 <= i < assets.len() && #[trigger] assets[i]@ == name
}

/// Whether `name` is among the bundled assets.
pub fn listed(assets: &Vec<String>, name: &str) -> (r: bool)
    ensures
        r == is_listed(assets@, name@),
{
    let mut i: usize = 0;
    while i < assets.len()
        invariant
            i <= assets.len(),
            forall|j: int| 0 <= j < i ==> assets@[j]@ != name@,
        decreases assets.len() - i,
    {
        if str_eq(assets[i].as_str(), name) {
            return true;
        }
        i += 1;
    }
    false
}

/// The asset a request path names: the path without its leading slashes (the
/// root names `index.html`); a path without a dot names the page `<path>.html`
/// if there is one, else the folder index `<path>/index.html` if there is one.
pub open spec fn spec_asset_path(uri_path: Seq<char>, assets: Seq<String>) -> Seq<char> {
    let p = trim_start_matches(uri_path, "/"@);
    let a = if p.len() == 0 {
        "index.html"@
    } else {
        p
    };
    if a.contains('.') {
        a
    } else {
        let page = a + ".html"@;
        if is_listed(assets, page) {
            page
        } else {
            let folder = if a.len() > 0 && a.last() == '/' {
                a
            } else {
                a + "/"@
            };
            let index = folder + "index.html"@;
            if is_listed(assets, index) {
                index
            } else {
                a
            }
        }
    }
}

/// The asset a request path names.
pub fn resolve_asset_path(uri_path: &str, assets: &Vec<String>) -> (r: String)
    ensures
        r@ == spec_asset_path(uri_path@, assets@),
{
    proof {
        reveal_strlit("/");
    }
    let p = trim_start_matches_string(uri_path, "/");
    let a = if p.as_str().is_empty() {
        String::from_str("index.html")
    } else {
        p
    };
    if contains_char(a.as_str(), '.') {
        return a;
    }
    let mut page = a.clone();
    page.append(".html");
    if listed(assets, page.as_str()) {
        return page;
    }
    let mut folder = a.clone();
    if !ends_with_char(a.as_str(), '/') {
        folder.append("/");
    }
    let mut index = folder;
    index.append("index.html");
    if listed(assets, index.as_str()) {
        return index;
    }
    a
}

/// Which asset a request path names, with `a` the path without its leading
/// slashes: a path holding a `.` names `a` itself; a dotless one names the
/// page `a.html` when that is an asset, at any depth of folders; else the
/// folder index `a/index.html` when that is an asset; else `a`. The root
/// names `index.html`.
pub proof fn law_asset_path_resolution(uri_path: Seq<char>, assets: Seq<String>)
    ensures
        trim_start_matches(uri_path, "/"@).len() == 0 ==> spec_asset_path(uri_path, assets) == "index.html"@,
        trim_start_matches(uri_path, "/"@).len() > 0 && trim_start_matches(uri_path, "/"@).contains('.')
            ==> spec_asset_path(uri_path, assets) == trim_start_matches(uri_path, "/"@),
        trim_start_matches(uri_path, "/"@).len() > 0 && !trim_start_matches(uri_path, "/"@).contains('.')
            && is_listed(assets, trim_start_matches(uri_path, "/"@) + ".html"@) ==> spec_asset_path(uri_path, assets)
            == trim_start_matches(uri_path, "/"@) + ".html"@,
        ({
            let a = trim_start_matches(uri_path, "/"@);
            let r = spec_asset_path(uri_path, assets);
            a.len() > 0 && !a.contains('.') && !is_listed(assets, a + ".html"@) ==> (r == a || (is_listed(assets, r)
                && r.len() > a.len() && r.subrange(0, a.len() as int) == a))
        }),
        ({
            let a = trim_start_matches(uri_path, "/"@);
            let r = spec_asset_path(uri_path, assets);
            r == a || is_listed(assets, r) || a.len() == 0
        }),
{
    reveal_strlit("index.html");
    reveal_strlit("/");
    assert("index.html"@[5] == '.');
    let a = trim_start_matches(uri_path, "/"@);
    if a.len() > 0 && !a.contains('.') && !is_listed(assets, a + ".html"@) {
        let folder = if a.len() > 0 && a.last() == '/' {
            a
        } else {
            a + "/"@
        };
        let index = folder + "index.html"@;
        assert(folder.subrange(0, a.len() as int) =~= a);
        assert(index.subrange(0, a.len() as int) =~= a);
        assert(index.len() > a.len());
    }
}

/// The asset served when the requested one does not exist.
pub const NOT_FOUND_PAGE: &'static str = "not_found/index.html";

/// The status of a static answer: 200 for an existing asset, 404 when the
/// not-found page is served instead.
pub fn static_status(asset_exists: bool) -> (r: u16)
    ensures
        asset_exists ==> r == 200,
        !asset_exists ==> r == 404,
{
    if asset_exists {
        200
    } else {
        404
    }
}

/// The `Content-Range` value of a partial answer of bytes `[start, end)` out of `total`.
pub open spec fn spec_content_range(start: nat, end: nat, total: nat) -> Seq<char> {
    "bytes "@ + decimal(start) + "-"@ + decimal((end - 1) as nat) + "/"@ + decimal(total)
}

/// The `Content-Range` value of a partial answer of bytes `[start, end)` out of `total`.
pub fn content_range(start: usize, end: usize, total: usize) -> (r: String)
    requires
        start < end,
    ensures
        r@ == spec_content_range(start as nat, end as nat, total as nat),
{
    let mut r = String::from_str("bytes ");
    push_decimal(&mut r, start as u64);
    r.append("-");
    push_decimal(&mut r, (end - 1) as u64);
    r.append("/");
    push_decimal(&mut r, total as u64);
    r
}

/// A range accepted by [`parse_range`] lies within the body and is not empty.
pub proof fn law_parsed_range_within_body(range: Seq<char>, total_len: nat)
    requires
        spec_parse_range(range, total_len) is Some,
    ensures
        ({
            let (a, b) = spec_parse_range(range, total_len)->0;
            a < b <= total_len
        }),
{
}

/// A `Range` header that [`parse_range`] cannot serve is refused (and the
/// whole body is sent): any range of an empty body, a suffix range
/// `bytes=-<k>`, and `bytes=<a>-<b>` whose end comes before its start or lies
/// past the body.
pub proof fn law_unservable_ranges_refused(range: Seq<char>, a: nat, b: nat, k: nat, total_len: nat)
    requires
        a <= usize::MAX,
        b <= usize::MAX,
    ensures
        spec_parse_range(range, 0) is None,
        spec_parse_range("bytes=-"@ + decimal(k), total_len) is None,
        b < a || b >= total_len ==> spec_parse_range("bytes="@ + decimal(a) + "-"@ + decimal(b), total_len) is None,
{
    reveal_strlit("bytes=");
    reveal_strlit("bytes=-");
    reveal_strlit("-");
    // a suffix range has no start
    lemma_decimal_has_no_dash(k);
    let dk = decimal(k);
    let suffix = "bytes=-"@ + dk;
    assert(suffix.subrange(0, 6) =~= "bytes="@);
    let srest = suffix.subrange(6, suffix.len() as int);
    assert(srest =~= "-"@ + dk);
    assert(single_dash_at(srest, 0));
    assert forall|k2: int| single_dash_at(srest, k2) implies k2 == 0 by {
        if k2 != 0 {
            assert(srest[k2] == dk[k2 - 1]);
        }
    }
    assert(srest.subrange(0, 0) =~= Seq::<char>::empty());
    assert(usize_digits(Seq::<char>::empty()) =~= Seq::<char>::empty());
    // a start and an end
    lemma_decimal_roundtrip(a);
    lemma_decimal_roundtrip(b);
    lemma_decimal_has_no_dash(a);
    lemma_decimal_has_no_dash(b);
    let da = decimal(a);
    let db = decimal(b);
    assert(da[0] != '+');
    assert(db[0] != '+');
    assert(usize_digits(da) == da);
    assert(usize_digits(db) == db);
    let full = "bytes="@ + da + "-"@ + db;
    assert(full.subrange(0, 6) =~= "bytes="@);
    let rest = full.subrange(6, full.len() as int);
    assert(rest =~= da + "-"@ + db);
    let m = da.len() as int;
    assert(single_dash_at(rest, m));
    assert forall|k2: int| single_dash_at(rest, k2) implies k2 == m by {
        if k2 != m {
            assert(rest[k2] != '-');
        }
    }
    assert(rest.subrange(0, m) =~= da);
    assert(rest.subrange(m + 1, rest.len() as int) =~= db);
}

/// The digits of a number hold no `-`.
proof fn lemma_decimal_has_no_dash(n: nat)
    ensures
        forall|j: int| 0 <= j < decimal(n).len() ==> decimal(n)[j] != '-',
{
    lemma_decimal_roundtrip(n);
    assert forall|j: int| 0 <= j < decimal(n).len() implies decimal(n)[j] != '-' by {
        assert(crate::text::is_digit(decimal(n)[j]));
    }
}

/// `bytes=<a>-<b>` asks for bytes `a` to `b` inclusive when they lie within
/// the body, and `bytes=<a>-` for the bytes from `a` to the end.
#[verifier::spinoff_prover]
#[verifier::rlimit(80)]
pub proof fn law_range_of_numbers(a: nat, b: nat, total_len: nat)
    requires
        a <= b < total_len,
        total_len <= usize::MAX,
    ensures
        spec_parse_range("bytes="@ + decimal(a) + "-"@ + decimal(b), total_len) == Some((a, b + 1)),
        spec_parse_range("bytes="@ + decimal(a) + "-"@, total_len) == Some((a, total_len)),
{
    reveal_strlit("bytes=");
    reveal_strlit("-");
    lemma_decimal_roundtrip(a);
    lemma_decimal_roundtrip(b);
    lemma_decimal_has_no_dash(a);
    lemma_decimal_has_no_dash(b);
    let da = decimal(a);
    let db = decimal(b);
    assert(da[0] != '+');
    assert(db[0] != '+');
    assert(usize_digits(da) == da);
    assert(usize_digits(db) == db);
    // with an end
    let range = "bytes="@ + da + "-"@ + db;
    assert(range.subrange(0, 6) =~= "bytes="@);
    let rest = range.subrange(6, range.len() as int);
    assert(rest =~= da + "-"@ + db);
    let k = da.len() as int;
    assert(single_dash_at(rest, k));
    assert forall|k2: int| single_dash_at(rest, k2) implies k2 == k by {
        if k2 != k {
            assert(rest[k2] != '-');
        }
    }
    assert(rest.subrange(0, k) =~= da);
    assert(rest.subrange(k + 1, rest.len() as int) =~= db);
    // open ended
    let range2 = "bytes="@ + da + "-"@;
    assert(range2.subrange(0, 6) =~= "bytes="@);
    let rest2 = range2.subrange(6, range2.len() as int);
    assert(rest2 =~= da + "-"@);
    assert(single_dash_at(rest2, k));
    assert forall|k2: int| single_dash_at(rest2, k2) implies k2 == k by {
        if k2 != k {
            assert(rest2[k2] != '-');
        }
    }
    assert(rest2.subrange(0, k) =~= da);
    assert(rest2.subrange(k + 1, rest2.len() as int) =~= Seq::<char>::empty());
}

} // verus!
