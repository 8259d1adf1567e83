//! The schema migrations: which script a migration file holds, in what order
//! the scripts run, and which of them a database still lacks.
//!
//! A migration file is named `<number>-<slug>.sql`. Migrations run in the
//! order of their numbers; each one that the database has not recorded yet
//! runs in a transaction of its own and is recorded in
//! `__aphanite_migrations` with its slug.

use crate::text::{chars_of, find_char, has_prefix_at, parse_usize, parse_usize_spec, string_of_range};
use vstd::prelude::*;

verus! {

broadcast use vstd::string::group_string_axioms;

/// The uppercase mapping of `c` (`char::to_uppercase`), as text.
pub uninterp spec fn uppercase_of(c: char) -> Seq<char>;

/// `char::to_uppercase`, written out as a string (`to_string` of the
/// iterator, as the file-name parser does).
///
/// The mapping is Unicode's and is named. The contract states what the
/// documentation gives: one or more characters, an ASCII lowercase letter
/// becomes its capital, and another ASCII character, which has no uppercase
/// mapping, stays as it is.
#[verifier::external_body]
fn uppercase_string(c: char) -> (r: String)
    ensures
        r@ == uppercase_of(c),
        r@.len() >= 1,
        'a' <= c <= 'z' ==> r@ == seq![((c as u32) - 32) as char],
        (c as u32) < 128 && !('a' <= c <= 'z') ==> r@ == seq![c],
{
    c.to_uppercase().to_string()
}

/// `s` with every trailing occurrence of `pat` removed (an empty `pat`
/// removes nothing; as `str::trim_end_matches`).
pub open spec fn trim_end_matches(s: Seq<char>, pat: Seq<char>) -> Seq<char>
    decreases s.len(),
{
    if pat.len() > 0 && pat.len() <= s.len() && s.subrange(s.len() - pat.len(), s.len() as int) == pat {
        trim_end_matches(s.subrange(0, s.len() - pat.len()), pat)
    } else {
        s
    }
}

/// `i` is the position of the first `c` in `s`.
pub open spec fn is_first_index_of(s: Seq<char>, c: char, i: int) -> bool {
    0 <= i < s.len() && s[i] == c && forall|j: int| 0 <= j < i ==> s[j] != c
}

/// `s` split at its first `c` into what stands before and after it (as
/// `str::split_once` with a character), `None` when `s` holds no `c`.
pub open spec fn split_once(s: Seq<char>, c: char) -> Option<(Seq<char>, Seq<char>)> {
    if exists|i: int| 0 <= i < s.len() && s[i] == c {
        let i = choose|i: int| is_first_index_of(s, c, i);
        Some((s.subrange(0, i), s.subrange(i + 1, s.len() as int)))
    } else {
        None
    }
}

/// The PascalCase form of a dash-separated slug: the words between the
/// dashes, each with its first character in uppercase (by `uppercase_of`)
/// and the rest as it is, written one after another without the dashes.
///
/// Read character by character: a dash is dropped, a character that starts a
/// word (the first one, or one after a dash) is replaced by its uppercase
/// mapping, and any other character is kept.
pub open spec fn pascal_case(s: Seq<char>) -> Seq<char>
    decreases s.len(),
{
    if s.len() == 0 {
        Seq::<char>::empty()
    } else {
        let prev = s.drop_last();
        let c = s.last();
        let piece = if c == '-' {
            Seq::<char>::empty()
        } else if prev.len() == 0 || prev.last() == '-' {
            uppercase_of(c)
        } else {
            seq![c]
        };
        pascal_case(prev) + piece
    }
}

/// The uppercase of an ASCII character: a lowercase letter becomes its
/// capital, any other character stays as it is.
pub open spec fn ascii_upper(c: char) -> char {
    if 'a' <= c <= 'z' {
        ((c as u32) - 32) as char
    } else {
        c
    }
}

/// Every character of `s` is ASCII.
pub open spec fn is_ascii_text(s: Seq<char>) -> bool {
    forall|i: int| 0 <= i < s.len() ==> (#[trigger] s[i] as u32) < 128
}

/// [`pascal_case`] of an ASCII slug, where the uppercase mapping is
/// [`ascii_upper`]: the words between the dashes, each with its first letter
/// capitalised, written without the dashes.
pub open spec fn ascii_pascal_case(s: Seq<char>) -> Seq<char>
    decreases s.len(),
{
    if s.len() == 0 {
        Seq::<char>::empty()
    } else {
        let prev = s.drop_last();
        let c = s.last();
        let piece = if c == '-' {
            Seq::<char>::empty()
        } else if prev.len() == 0 || prev.last() == '-' {
            seq![ascii_upper(c)]
        } else {
            seq![c]
        };
        ascii_pascal_case(prev) + piece
    }
}

/// What the file name of a migration says: without its `.sql` endings, the
/// number before the first `-` (as `u16::from_str` reads it), the slug after
/// it, and the slug's PascalCase form; `None` for a name without a `-` or
/// whose number is not a `u16`.
pub open spec fn migration_file_name(filename: Seq<char>) -> Option<(u16, Seq<char>, Seq<char>)> {
    let input = trim_end_matches(filename, ".sql"@);
    match split_once(input, '-') {
        None => None,
        Some(parts) => match parse_usize_spec(parts.0) {
            Some(n) => if n <= u16::MAX {
                Some((n as u16, parts.1, pascal_case(parts.1)))
            } else {
                None
            },
            None => None,
        },
    }
}

/// The PascalCase form of the characters `v[from..]` (a slug).
fn pascal_case_of(v: &Vec<char>, from: usize) -> (r: String)
    requires
        from <= v.len(),
    ensures
        r@ == pascal_case(v@.subrange(from as int, v@.len() as int)),
        is_ascii_text(v@.subrange(from as int, v@.len() as int)) ==> r@ == ascii_pascal_case(
            v@.subrange(from as int, v@.len() as int),
        ),
{
    let ghost slug = v@.subrange(from as int, v@.len() as int);
    let mut r = String::new();
    let mut i: usize = from;
    assert(slug.take(0) =~= Seq::<char>::empty());
    while i < v.len()
        invariant
            from <= i <= v.len(),
            slug == v@.subrange(from as int, v@.len() as int),
            r@ == pascal_case(slug.take(i - from)),
            is_ascii_text(slug) ==> r@ == ascii_pascal_case(slug.take(i - from)),
        decreases v.len() - i,
    {
        let c = v[i];
        let ghost k: int = i - from;
        let ghost upto = slug.take(k + 1);
        assert(upto.drop_last() =~= slug.take(k));
        assert(upto.last() == c);
        proof {
            if is_ascii_text(slug) {
                assert(slug[k] == c);
            }
        }
        if c == '-' {
            assert(r@ + Seq::<char>::empty() =~= r@);
        } else if i == from || v[i - 1] == '-' {
            proof {
                if k > 0 {
                    assert(slug.take(k).last() == v@[i - 1]);
                }
            }
            let u = uppercase_string(c);
            r.append(u.as_str());
        } else {
            assert(slug.take(k).last() == v@[i - 1]);
            let ghost before = r@;
            crate::text::push_char(&mut r, c);
            assert(r@ =~= before + seq![c]);
        }
        i = i + 1;
    }
    assert(slug.take(i - from) =~= slug);
    r
}

/// The position where `v[..end]` ends once every trailing `.sql` is removed.
fn trim_sql_end(v: &Vec<char>) -> (end: usize)
    ensures
        end <= v.len(),
        v@.subrange(0, end as int) == trim_end_matches(v@, ".sql"@),
{
    let mut end: usize = v.len();
    proof {
        reveal_strlit(".sql");
    }
    assert(v@.subrange(0, end as int) =~= v@);
    loop
        invariant
            end <= v.len(),
            ".sql"@.len() == 4,
            trim_end_matches(v@.subrange(0, end as int), ".sql"@) == trim_end_matches(v@, ".sql"@),
        ensures
            end <= v.len(),
            v@.subrange(0, end as int) == trim_end_matches(v@, ".sql"@),
        decreases end,
    {
        if end < 4 {
            break;
        }
        let ghost s = v@.subrange(0, end as int);
        if !has_prefix_at(v, end - 4, ".sql") {
            assert(v@.subrange(end - 4, v.len() as int).subrange(0, 4) =~= s.subrange(end - 4, end as int));
            break;
        }
        assert(v@.subrange(end - 4, v.len() as int).subrange(0, 4) =~= s.subrange(end - 4, end as int));
        assert(s.subrange(0, end - 4) =~= v@.subrange(0, end - 4));
        end = end - 4;
    }
    end
}

/// Reads the file name of a migration: its number (a `u16`), its slug and
/// the slug's PascalCase form; `None` for a name that is not
/// `<number>-<slug>` (after its `.sql` endings) or whose number does not fit.
pub fn parse_migration_filename(filename: &str) -> (r: Option<(u16, String, String)>)
    ensures
        match migration_file_name(filename@) {
            None => r is None,
            Some(m) => r matches Some(p) && p.0 == m.0 && p.1@ == m.1 && p.2@ == m.2
                && (is_ascii_text(m.1) ==> p.2@ == ascii_pascal_case(m.1)),
        },
{
    let all = chars_of(filename);
    let end = trim_sql_end(&all);
    let input = string_of_range(&all, 0, end);
    let v = chars_of(input.as_str());
    let dash = match find_char(&v, '-') {
        None => {
            return None;
        },
        Some(i) => i,
    };
    proof {
        assert(is_first_index_of(v@, '-', dash as int));
        let j = choose|j: int| is_first_index_of(v@, '-', j);
        assert(is_first_index_of(v@, '-', j));
        if j < dash {
            assert(v@[j] != '-');
        }
        if dash < j {
            assert(v@[dash as int] != '-');
        }
        assert(j == dash);
    }
    let number = string_of_range(&v, 0, dash);
    let slug = string_of_range(&v, dash + 1, v.len());
    let id = match parse_usize(number.as_str()) {
        None => {
            return None;
        },
        Some(n) => n,
    };
    if id > 65535 {
        return None;
    }
    let pascal = pascal_case_of(&v, dash + 1);
    Some((id as u16, slug, pascal))
}

/// Every id of `s` is smaller than the ids after it.
pub open spec fn strictly_increasing(s: Seq<u16>) -> bool {
    forall|i: int, j: int| 0 <= i < j < s.len() ==> s[i] < s[j]
}

/// Some id occurs twice in `s`.
pub open spec fn has_duplicate(s: Seq<u16>) -> bool {
    exists|i: int, j: int| 0 <= i < j < s.len() && s[i] == s[j]
}

/// The order in which the migrations with the ids `ids` (one per migration
/// file) run: by increasing id. Two files with one id are refused (`None`).
pub fn migration_order(ids: &Vec<u16>) -> (r: Option<Vec<u16>>)
    ensures
        r is None <==> has_duplicate(ids@),
        r matches Some(s) ==> strictly_increasing(s@) && s@.len() == ids@.len()
            && forall|x: u16| s@.contains(x) <==> ids@.contains(x),
{
    let mut s: Vec<u16> = Vec::new();
    let mut i: usize = 0;
    while i < ids.len()
        invariant
            i <= ids.len(),
            strictly_increasing(s@),
            s@.len() == i,
            forall|x: u16| s@.contains(x) <==> ids@.take(i as int).contains(x),
            !has_duplicate(ids@.take(i as int)),
        decreases ids.len() - i,
    {
        let x = ids[i];
        let ghost before = ids@.take(i as int);
        assert(ids@.take(i + 1) =~= before.push(x));
        let mut p: usize = 0;
        while p < s.len() && s[p] < x
            invariant
                p <= s.len(),
                forall|k: int| 0 <= k < p ==> s@[k] < x,
            decreases s.len() - p,
        {
            p += 1;
        }
        if p < s.len() && s[p] == x {
            proof {
                assert(s@.contains(x));
                assert(before.contains(x));
                let j = choose|j: int| 0 <= j < before.len() && before[j] == x;
                assert(ids@[j] == ids@[i as int]);
                assert(has_duplicate(ids@));
            }
            return None;
        }
        let ghost old_s = s@;
        proof {
            assert forall|k: int| p <= k < old_s.len() implies old_s[k] > x by {
                assert(old_s[p as int] >= x);
                if k > p {
                    assert(old_s[p as int] < old_s[k]);
                }
            }
            assert(!before.contains(x)) by {
                if before.contains(x) {
                    assert(old_s.contains(x));
                    let k = choose|k: int| 0 <= k < old_s.len() && old_s[k] == x;
                    assert(old_s[k] == x);
                }
            }
        }
        s.insert(p, x);
        proof {
            assert(s@ =~= old_s.subrange(0, p as int).push(x) + old_s.subrange(p as int, old_s.len() as int));
            assert forall|k: int| 0 <= k < s@.len() implies #[trigger] s@[k] == (if k < p {
                old_s[k]
            } else if k == p {
                x
            } else {
                old_s[k - 1]
            }) by {}
            assert forall|a: int, b: int| 0 <= a < b < s@.len() implies s@[a] < s@[b] by {
                if b < p {
                } else if b == p {
                } else if a < p {
                    assert(old_s[a] < x);
                } else if a == p {
                } else {
                }
            }
            assert forall|y: u16| s@.contains(y) <==> ids@.take(i + 1).contains(y) by {
                if s@.contains(y) {
                    let k = choose|k: int| 0 <= k < s@.len() && s@[k] == y;
                    if k < p {
                        assert(old_s[k] == y);
                        assert(old_s.contains(y));
                    } else if k > p {
                        assert(old_s[k - 1] == y);
                        assert(old_s.contains(y));
                    }
                    vstd::seq_lib::lemma_seq_contains_after_push(before, x, y);
                }
                if ids@.take(i + 1).contains(y) {
                    vstd::seq_lib::lemma_seq_contains_after_push(before, x, y);
                    if y == x {
                        assert(s@[p as int] == x);
                    } else {
                        assert(old_s.contains(y));
                        let k = choose|k: int| 0 <= k < old_s.len() && old_s[k] == y;
                        if k < p {
                            assert(s@[k] == y);
                        } else {
                            assert(s@[k + 1] == y);
                        }
                    }
                }
            }
            assert(!has_duplicate(ids@.take(i + 1))) by {
                let t = ids@.take(i + 1);
                if has_duplicate(t) {
                    let (a, b) = choose|a: int, b: int| 0 <= a < b < t.len() && t[a] == t[b];
                    if b < i {
                        assert(before[a] == before[b]);
                        assert(has_duplicate(before));
                    } else {
                        assert(before[a] == x);
                        assert(before.contains(x));
                    }
                }
            }
        }
        i += 1;
    }
    proof {
        assert(ids@.take(i as int) =~= ids@);
    }
    Some(s)
}

/// The ids of `all` that `applied` does not hold, in the order of `all`.
pub open spec fn pending_of(all: Seq<u16>, applied: Seq<u16>) -> Seq<u16> {
    all.filter(|id: u16| !applied.contains(id))
}

/// The ids in `all` that `applied` does not hold, in the order of `all`: the
/// migrations that still have to run.
pub fn pending_migrations(all: &Vec<u16>, applied: &Vec<u16>) -> (r: Vec<u16>)
    ensures
        r@ == pending_of(all@, applied@),
{
    let mut r: Vec<u16> = Vec::new();
    let mut i: usize = 0;
    while i < all.len()
        invariant
            i <= all.len(),
            r@ == all@.take(i as int).filter(|id: u16| !applied@.contains(id)),
        decreases all.len() - i,
    {
        let id = all[i];
        let mut seen = false;
        let mut j: usize = 0;
        while j < applied.len()
            invariant
                j <= applied.len(),
                seen == applied@.take(j as int).contains(id),
            decreases applied.len() - j,
        {
            proof {
                assert(applied@.take(j + 1) =~= applied@.take(j as int).push(applied@[j as int]));
                vstd::seq_lib::lemma_seq_contains_after_push(applied@.take(j as int), applied@[j as int], id);
            }
            if applied[j] == id {
                seen = true;
            }
            j += 1;
        }
        assert(applied@.take(j as int) =~= applied@);
        proof {
            assert(all@.take(i + 1) =~= all@.take(i as int).push(id));
            all@.take(i as int).lemma_filter_push(id, |id: u16| !applied@.contains(id));
        }
        if !seen {
            r.push(id);
        }
        i += 1;
    }
    assert(all@.take(i as int) =~= all@);
    r
}

/// Keeping some of the ids of an increasing sequence keeps it increasing.
proof fn lemma_filter_increasing(s: Seq<u16>, pred: spec_fn(u16) -> bool)
    requires
        strictly_increasing(s),
    ensures
        strictly_increasing(s.filter(pred)),
    decreases s.len(),
{
    reveal(Seq::filter);
    if s.len() > 0 {
        let prev = s.drop_last();
        assert(strictly_increasing(prev));
        lemma_filter_increasing(prev, pred);
        let sub = prev.filter(pred);
        if pred(s.last()) {
            assert forall|k: int| 0 <= k < sub.len() implies sub[k] < s.last() by {
                assert(sub.contains(sub[k]));
                prev.lemma_filter_contains_rev(pred, sub[k]);
                let m = choose|m: int| 0 <= m < prev.len() && prev[m] == sub[k];
                assert(s[m] < s[s.len() - 1]);
            }
            let t = sub.push(s.last());
            assert forall|a: int, b: int| 0 <= a < b < t.len() implies t[a] < t[b] by {
                if b == sub.len() {
                    assert(t[a] == sub[a]);
                } else {
                    assert(t[a] == sub[a] && t[b] == sub[b]);
                }
            }
        }
    }
}

/// The pending migrations run in order: taken from the migrations in the
/// order of their ids, they come by increasing id.
pub proof fn law_pending_migrations_in_order(all: Seq<u16>, applied: Seq<u16>)
    requires
        strictly_increasing(all),
    ensures
        strictly_increasing(pending_of(all, applied)),
{
    lemma_filter_increasing(all, |id: u16| !applied.contains(id));
}

/// Each migration runs once: once the pending migrations are recorded beside
/// those already applied, none of the migrations is pending any more.
pub proof fn law_migrations_run_once(all: Seq<u16>, applied: Seq<u16>)
    ensures
        pending_of(all, applied + pending_of(all, applied)) == Seq::<u16>::empty(),
{
    let first = pending_of(all, applied);
    let recorded = applied + first;
    let second = pending_of(all, recorded);
    let pred = |id: u16| !recorded.contains(id);
    all.filter_lemma(|id: u16| !applied.contains(id));
    all.filter_lemma(pred);
    if second.len() > 0 {
        let x = second[0];
        assert(pred(x));
        assert(second.contains(x));
        all.lemma_filter_contains_rev(pred, x);
        let k = choose|k: int| 0 <= k < all.len() && all[k] == x;
        if applied.contains(x) {
            let j = choose|j: int| 0 <= j < applied.len() && applied[j] == x;
            assert(recorded[j] == x);
        } else {
            assert(first.contains(all[k]));
            let j = choose|j: int| 0 <= j < first.len() && first[j] == x;
            assert(recorded[applied.len() + j] == x);
        }
        assert(recorded.contains(x));
    }
    assert(second =~= Seq::<u16>::empty());
}

} // verus!
