//! Reading what the version-control binary prints: whitespace-separated
//! fields, decimal numbers, the one-commit log line, and store names found
//! in ref listings; and the sorted set of store names.
use crate::text::{
    is_space, is_space_char, lemma_line_break_at, line_break, lines, same_text, split_lines, trim, trim_start, trimmed,
    views,
};
use vstd::prelude::*;

verus! {

/// Length of the leading run of non-whitespace characters.
pub open spec fn word_len(s: Seq<char>) -> nat
    decreases s.len(),
{
    if s.len() == 0 || is_space(s[0]) {
        0
    } else {
        1 + word_len(s.drop_first())
    }
}

/// The whitespace-separated fields of `s`.
pub open spec fn fields(s: Seq<char>) -> Seq<Seq<char>>
    decreases s.len(),
{
    let t = trim_start(s);
    if t.len() == 0 {
        seq![]
    } else {
        let w = word_len(t) as int;
        // The first two tests never hold for a text that starts with a
        // non-space; the third never holds at all. They keep the recursion
        // visibly shrinking.
        if w == 0 || w > t.len() || t.len() > s.len() {
            seq![]
        } else {
            seq![t.subrange(0, w)] + fields(t.subrange(w, t.len() as int))
        }
    }
}

proof fn lemma_word_len_at(s: Seq<char>, k: int)
    requires
        0 <= k <= s.len(),
        k < s.len() ==> is_space(s[k]),
        forall|i: int| 0 <= i < k ==> !is_space(#[trigger] s[i]),
    ensures
        word_len(s) == k,
    decreases k,
{
    if k > 0 {
        assert(!is_space(s[0]));
        let t = s.drop_first();
        assert forall|i: int| 0 <= i < k - 1 implies !is_space(#[trigger] t[i]) by {
            assert(t[i] == s[i + 1]);
        }
        lemma_word_len_at(t, k - 1);
    }
}

/// Where the first field of `s` starts and ends, if it has one.
pub fn first_field(s: &str) -> (r: Option<(usize, usize)>)
    ensures
        match r {
            None => fields(s@).len() == 0,
            Some((a, b)) => {
                &&& a < b <= s@.len()
                &&& fields(s@).len() > 0
                &&& fields(s@)[0] == s@.subrange(a as int, b as int)
                &&& fields(s@) == seq![s@.subrange(a as int, b as int)] + fields(
                    s@.subrange(b as int, s@.len() as int),
                )
            },
        },
{
    let n = s.unicode_len();
    let mut a: usize = 0;
    assert(s@.subrange(0, n as int) =~= s@);
    while a < n && is_space_char(s.get_char(a))
        invariant
            n == s@.len(),
            a <= n,
            trim_start(s@) == trim_start(s@.subrange(a as int, n as int)),
        decreases n - a,
    {
        proof {
            let u = s@.subrange(a as int, n as int);
            assert(u.drop_first() =~= s@.subrange(a + 1, n as int));
        }
        a = a + 1;
    }
    proof {
        let u = s@.subrange(a as int, n as int);
        if a == 0 {
            assert(u =~= s@);
        }
        assert(trim_start(u) == u);
    }
    if a == n {
        proof {
            assert(trim_start(s@).len() == 0);
        }
        return None;
    }
    let mut b: usize = a;
    while b < n && !is_space_char(s.get_char(b))
        invariant
            n == s@.len(),
            a <= b <= n,
            forall|i: int| a <= i < b ==> !is_space(#[trigger] s@[i]),
        decreases n - b,
    {
        b = b + 1;
    }
    proof {
        let u = s@.subrange(a as int, n as int);
        assert(trim_start(s@) == u);
        assert forall|i: int| 0 <= i < b - a implies !is_space(#[trigger] u[i]) by {
            assert(u[i] == s@[a + i]);
        }
        if b < n {
            assert(u[b - a] == s@[b as int]);
        }
        lemma_word_len_at(u, (b - a) as int);
        assert(u.subrange(0, (b - a) as int) =~= s@.subrange(a as int, b as int));
        assert(u.subrange((b - a) as int, u.len() as int) =~= s@.subrange(b as int, n as int));
    }
    Some((a, b))
}

/// The first two fields of `s`, where it has two.
pub fn two_fields(s: &str) -> (r: Option<(String, String)>)
    ensures
        r is None <==> fields(s@).len() < 2,
        r matches Some((x, y)) ==> x@ == fields(s@)[0] && y@ == fields(s@)[1],
{
    match first_field(s) {
        None => None,
        Some((a, b)) => {
            let n = s.unicode_len();
            let rest = s.substring_char(b, n);
            match first_field(rest) {
                None => None,
                Some((c, d)) => Some(
                    (
                        String::from_str(s.substring_char(a, b)),
                        String::from_str(rest.substring_char(c, d)),
                    ),
                ),
            }
        },
    }
}

/// The value of a run of decimal digits.
pub open spec fn digits_value(s: Seq<char>) -> int
    decreases s.len(),
{
    if s.len() == 0 {
        0
    } else {
        digits_value(s.drop_last()) * 10 + (s.last() as u32 - 48)
    }
}

pub open spec fn is_digit(c: char) -> bool {
    48 <= c as u32 <= 57
}

/// Whether `s` is one or more decimal digits.
pub open spec fn all_digits(s: Seq<char>) -> bool {
    s.len() > 0 && forall|i: int| 0 <= i < s.len() ==> is_digit(#[trigger] s[i])
}

/// The signed value a decimal numeral denotes: an optional `+` or `-`
/// followed by digits.
pub open spec fn numeral_value(s: Seq<char>) -> Option<int> {
    if s.len() > 0 && (s[0] == '-' || s[0] == '+') {
        let d = s.drop_first();
        if all_digits(d) {
            Some(
                if s[0] == '-' {
                    -digits_value(d)
                } else {
                    digits_value(d)
                },
            )
        } else {
            None
        }
    } else if all_digits(s) {
        Some(digits_value(s))
    } else {
        None
    }
}

/// The 64-bit signed integer that `s` spells, when it spells one in range.
pub open spec fn parse_i64_of(s: Seq<char>) -> Option<i64> {
    match numeral_value(s) {
        Some(v) => if i64::MIN <= v <= i64::MAX {
            Some(v as i64)
        } else {
            None
        },
        None => None,
    }
}

proof fn lemma_digits_value_nonneg(s: Seq<char>)
    requires
        forall|i: int| 0 <= i < s.len() ==> is_digit(#[trigger] s[i]),
    ensures
        digits_value(s) >= 0,
    decreases s.len(),
{
    if s.len() > 0 {
        assert(is_digit(s[s.len() - 1]));
        lemma_digits_value_nonneg(s.drop_last());
    }
}

/// Reads a decimal 64-bit signed integer.
pub fn parse_i64(s: &str) -> (r: Option<i64>)
    ensures
        r == parse_i64_of(s@),
{
    let n = s.unicode_len();
    let mut start: usize = 0;
    let mut negative = false;
    if n > 0 && (s.get_char(0) == '-' || s.get_char(0) == '+') {
        negative = s.get_char(0) == '-';
        start = 1;
    }
    if start >= n {
        proof {
            if n > 0 {
                assert(s@.drop_first().len() == 0);
            }
        }
        return None;
    }
    let ghost d = s@.subrange(start as int, n as int);
    proof {
        if start == 1 {
            assert(d =~= s@.drop_first());
        } else {
            assert(d =~= s@);
        }
    }
    let limit: u128 = 9223372036854775808;
    let mut v: u128 = 0;
    let mut i: usize = start;
    proof {
        assert(d.subrange(0, 0) =~= Seq::<char>::empty());
    }
    while i < n
        invariant
            n == s@.len(),
            start <= i <= n,
            start < n,
            d == s@.subrange(start as int, n as int),
            start <= 1,
            start == 1 ==> (s@[0] == '-' || s@[0] == '+') && d == s@.drop_first(),
            start == 0 ==> !(s@.len() > 0 && (s@[0] == '-' || s@[0] == '+')) && d == s@,
            negative == (start == 1 && s@[0] == '-'),
            forall|j: int| start <= j < i ==> is_digit(#[trigger] s@[j]),
            v == digits_value(d.subrange(0, i - start)),
            limit == 9223372036854775808,
            v <= limit,
        decreases n - i,
    {
        let c = s.get_char(i);
        let cu = c as u32;
        if cu < 48 || cu > 57 {
            proof {
                assert(d[i - start] == c);
                assert(!all_digits(d));
            }
            return None;
        }
        assert(v * 10 <= limit * 10) by (nonlinear_arith)
            requires
                v <= limit,
        ;
        let next = v * 10 + (cu - 48) as u128;
        proof {
            let p = d.subrange(0, i + 1 - start);
            assert(p.drop_last() =~= d.subrange(0, i - start));
            assert(p.last() == c);
        }
        if next > limit {
            proof {
                assert forall|j: int| 0 <= j < d.len() implies is_digit(#[trigger] d[j]) || !all_digits(d) by {}
                if all_digits(d) {
                    lemma_digits_value_prefix(d, i + 1 - start);
                }
            }
            return None;
        }
        v = next;
        i = i + 1;
    }
    proof {
        assert(d.subrange(0, n - start) =~= d);
        assert forall|j: int| 0 <= j < d.len() implies is_digit(#[trigger] d[j]) by {
            assert(d[j] == s@[start + j]);
        }
        lemma_digits_value_nonneg(d);
    }
    if negative {
        let r = (0 - (v as i128)) as i64;
        Some(r)
    } else if v == limit {
        None
    } else {
        Some(v as i64)
    }
}

/// A run of digits is worth at least any prefix of it.
proof fn lemma_digits_value_prefix(d: Seq<char>, k: int)
    requires
        all_digits(d),
        0 <= k <= d.len(),
    ensures
        digits_value(d) >= digits_value(d.subrange(0, k)),
    decreases d.len() - k,
{
    if k < d.len() {
        lemma_digits_value_prefix(d, k + 1);
        let p = d.subrange(0, k + 1);
        assert(p.drop_last() =~= d.subrange(0, k));
        assert(is_digit(d[k]));
        assert forall|i: int| 0 <= i < k implies is_digit(#[trigger] d.subrange(0, k)[i]) by {
            assert(d.subrange(0, k)[i] == d[i]);
        }
        lemma_digits_value_nonneg(d.subrange(0, k));
    } else {
        assert(d.subrange(0, k) =~= d);
    }
}

/// What `log -1 --pretty=format:%h%n%at` printed, read as the abbreviated
/// hash and the commit time in seconds: the trimmed output must hold exactly
/// one line feed; the time is `None` when it does not read as a number.
pub open spec fn log_entry_of(out: Seq<char>) -> Option<(Seq<char>, Option<i64>)> {
    let t = trimmed(out);
    let k = line_break(t) as int;
    let rest = t.subrange(k + 1, t.len() as int);
    if k < t.len() && line_break(rest) == rest.len() {
        Some((t.subrange(0, k), parse_i64_of(rest)))
    } else {
        None
    }
}

/// A commit as the log shows it: its abbreviated hash and, when it could be
/// read, its time in seconds since the epoch.
pub struct CommitInfo {
    pub hash: String,
    pub seconds: Option<i64>,
}

/// Index of the first line feed at or after `from`, or the length.
fn find_break(s: &str, from: usize) -> (r: usize)
    requires
        from <= s@.len(),
    ensures
        from <= r <= s@.len(),
        r - from == line_break(s@.subrange(from as int, s@.len() as int)),
{
    let n = s.unicode_len();
    let mut i = from;
    while i < n && s.get_char(i) != '\n'
        invariant
            n == s@.len(),
            from <= i <= n,
            forall|j: int| from <= j < i ==> s@[j] != '\n',
        decreases n - i,
    {
        i = i + 1;
    }
    proof {
        let u = s@.subrange(from as int, n as int);
        assert forall|j: int| 0 <= j < i - from implies u[j] != '\n' by {
            assert(u[j] == s@[from + j]);
        }
        if i < n {
            assert(u[i - from] == s@[i as int]);
        }
        lemma_line_break_at(u, (i - from) as int);
    }
    i
}

/// Reads the output of `log -1 --pretty=format:%h%n%at`.
pub fn log_entry(out: &str) -> (r: Option<CommitInfo>)
    ensures
        r is None <==> log_entry_of(out@) is None,
        r matches Some(c) ==> log_entry_of(out@) == Some((c.hash@, c.seconds)),
{
    let t = trim(out);
    let n = t.unicode_len();
    let k = find_break(t, 0);
    proof {
        assert(t@.subrange(0, n as int) =~= t@);
    }
    if k >= n {
        return None;
    }
    let e = find_break(t, k + 1);
    if e != n {
        return None;
    }
    let hash = String::from_str(t.substring_char(0, k));
    let seconds = parse_i64(t.substring_char(k + 1, n));
    Some(CommitInfo { hash, seconds })
}

/// The first seven characters of the first field of what `ls-remote`
/// printed: the abbreviated hash of the ref (fewer when the field is shorter).
pub open spec fn short_hash_of(out: Seq<char>) -> Option<Seq<char>> {
    if fields(out).len() > 0 {
        let f = fields(out)[0];
        Some(f.subrange(0, if f.len() < 7 { f.len() as int } else { 7 }))
    } else {
        None
    }
}

/// The abbreviated hash of the ref that `ls-remote` listed first.
pub fn short_hash(out: &str) -> (r: Option<String>)
    ensures
        r is None <==> short_hash_of(out@) is None,
        r matches Some(h) ==> short_hash_of(out@) == Some(h@),
{
    match first_field(out) {
        None => None,
        Some((a, b)) => {
            let end = if b - a < 7 {
                b
            } else {
                a + 7
            };
            let h = String::from_str(out.substring_char(a, end));
            proof {
                let f = out@.subrange(a as int, b as int);
                assert(h@ =~= f.subrange(0, if f.len() < 7 { f.len() as int } else { 7 }));
            }
            Some(h)
        },
    }
}

/// A store name found in a ref listing: not empty and without `/`.
pub open spec fn is_listed_name(s: Seq<char>) -> bool {
    s.len() > 0 && forall|i: int| 0 <= i < s.len() ==> s[i] != '/'
}

/// The store that a line of `ls-remote --refs <remote> refs/trunk/*` names:
/// the second field, when it is `refs/trunk/` followed by a name.
pub open spec fn remote_store_of(line: Seq<char>) -> Option<Seq<char>> {
    let f = fields(line);
    let p = "refs/trunk/"@;
    if f.len() >= 2 && f[1].len() >= p.len() && f[1].subrange(0, p.len() as int) == p
        && is_listed_name(f[1].subrange(p.len() as int, f[1].len() as int)) {
        Some(f[1].subrange(p.len() as int, f[1].len() as int))
    } else {
        None
    }
}

/// The store that a line of `for-each-ref --format=%(refname:short)
/// refs/trunk/` names: the line, when it is `trunk/` followed by a name.
pub open spec fn local_store_of(line: Seq<char>) -> Option<Seq<char>> {
    let p = "trunk/"@;
    if line.len() >= p.len() && line.subrange(0, p.len() as int) == p && is_listed_name(
        line.subrange(p.len() as int, line.len() as int),
    ) {
        Some(line.subrange(p.len() as int, line.len() as int))
    } else {
        None
    }
}

/// `s` with the prefix `p` taken off, when it is a store name.
fn name_after(s: &str, p: &str) -> (r: Option<String>)
    ensures
        r is None <==> !(s@.len() >= p@.len() && s@.subrange(0, p@.len() as int) == p@
            && is_listed_name(s@.subrange(p@.len() as int, s@.len() as int))),
        r matches Some(x) ==> x@ == s@.subrange(p@.len() as int, s@.len() as int),
{
    let n = s.unicode_len();
    let k = p.unicode_len();
    if n <= k {
        proof {
            if n == k {
                assert(s@.subrange(k as int, n as int).len() == 0);
            }
        }
        return None;
    }
    if !same_text(s.substring_char(0, k), p) {
        return None;
    }
    let mut i: usize = k;
    while i < n
        invariant
            n == s@.len(),
            k == p@.len(),
            k < n,
            s@.subrange(0, k as int) == p@,
            k <= i <= n,
            forall|j: int| k <= j < i ==> s@[j] != '/',
        decreases n - i,
    {
        if s.get_char(i) == '/' {
            proof {
                assert(s@.subrange(k as int, n as int)[i - k] == '/');
            }
            return None;
        }
        i = i + 1;
    }
    proof {
        let u = s@.subrange(k as int, n as int);
        assert forall|j: int| 0 <= j < u.len() implies u[j] != '/' by {
            assert(u[j] == s@[k + j]);
        }
    }
    Some(String::from_str(s.substring_char(k, n)))
}

/// The store a line of the remote listing names.
pub fn remote_store(line: &str) -> (r: Option<String>)
    ensures
        r is None <==> remote_store_of(line@) is None,
        r matches Some(x) ==> remote_store_of(line@) == Some(x@),
{
    match two_fields(line) {
        None => None,
        Some((_, second)) => name_after(second.as_str(), "refs/trunk/"),
    }
}

/// The store a line of the local ref listing names.
pub fn local_store(line: &str) -> (r: Option<String>)
    ensures
        r is None <==> local_store_of(line@) is None,
        r matches Some(x) ==> local_store_of(line@) == Some(x@),
{
    name_after(line, "trunk/")
}

/// Lexicographic order of texts, character by character.
pub open spec fn text_less(a: Seq<char>, b: Seq<char>) -> bool
    decreases a.len(),
{
    if a.len() == 0 {
        b.len() > 0
    } else if b.len() == 0 {
        false
    } else if a[0] != b[0] {
        a[0] < b[0]
    } else {
        text_less(a.drop_first(), b.drop_first())
    }
}

/// Two different texts are ordered one way or the other.
pub proof fn lemma_text_less_total(a: Seq<char>, b: Seq<char>)
    requires
        a != b,
    ensures
        text_less(a, b) || text_less(b, a),
    decreases a.len(),
{
    if a.len() > 0 && b.len() > 0 && a[0] == b[0] {
        if a.drop_first() == b.drop_first() {
            assert(a =~= seq![a[0]] + a.drop_first());
            assert(b =~= seq![b[0]] + b.drop_first());
        }
        lemma_text_less_total(a.drop_first(), b.drop_first());
    } else if a.len() == 0 && b.len() == 0 {
        assert(a =~= b);
    }
}

/// Whether `a` comes before `b`.
pub fn text_before(a: &str, b: &str) -> (r: bool)
    ensures
        r == text_less(a@, b@),
{
    let n = a.unicode_len();
    let m = b.unicode_len();
    let mut i: usize = 0;
    assert(a@.subrange(0, n as int) =~= a@);
    assert(b@.subrange(0, m as int) =~= b@);
    while i < n && i < m && a.get_char(i) == b.get_char(i)
        invariant
            n == a@.len(),
            m == b@.len(),
            i <= n,
            i <= m,
            text_less(a@, b@) == text_less(a@.subrange(i as int, n as int), b@.subrange(i as int, m as int)),
        decreases n - i,
    {
        proof {
            let x = a@.subrange(i as int, n as int);
            let y = b@.subrange(i as int, m as int);
            assert(x.drop_first() =~= a@.subrange(i + 1, n as int));
            assert(y.drop_first() =~= b@.subrange(i + 1, m as int));
        }
        i = i + 1;
    }
    if i == n {
        i < m
    } else if i == m {
        false
    } else {
        a.get_char(i) < b.get_char(i)
    }
}

/// Store names in strictly increasing order: each comes before the next.
pub open spec fn is_name_list(v: Seq<Seq<char>>) -> bool {
    &&& forall|i: int| 0 <= i < v.len() - 1 ==> text_less(#[trigger] v[i], v[i + 1])
    &&& forall|i: int, j: int| 0 <= i < j < v.len() ==> v[i] != v[j]
}

/// Adds `x` to the ordered list of store names, unless it is there.
pub fn add_name(v: &mut Vec<String>, x: String)
    requires
        is_name_list(views(old(v)@)),
    ensures
        is_name_list(views(final(v)@)),
        forall|y: Seq<char>| #[trigger] views(final(v)@).contains(y) <==> (views(old(v)@).contains(y) || y == x@),
{
    let ghost old_v = views(v@);
    let mut p: usize = 0;
    while p < v.len() && text_before(v[p].as_str(), x.as_str())
        invariant
            p <= v@.len(),
            old_v == views(v@),
            is_name_list(old_v),
            forall|j: int| 0 <= j < p ==> text_less(#[trigger] old_v[j], x@),
        decreases v@.len() - p,
    {
        p = p + 1;
    }
    let mut i: usize = p;
    while i < v.len()
        invariant
            p <= i <= v@.len(),
            old_v == views(v@),
            is_name_list(old_v),
            forall|j: int| p <= j < i ==> #[trigger] old_v[j] != x@,
        decreases v@.len() - i,
    {
        if same_text(v[i].as_str(), x.as_str()) {
            proof {
                assert(old_v[i as int] == x@);
                assert forall|y: Seq<char>| #[trigger] old_v.contains(y) <==> (old_v.contains(y) || y == x@) by {
                    if y == x@ {
                        assert(old_v[i as int] == y);
                    }
                }
            }
            return;
        }
        i = i + 1;
    }
    proof {
        assert forall|j: int| 0 <= j < old_v.len() implies #[trigger] old_v[j] != x@ by {
            if j < p {
                assert(text_less(old_v[j], x@));
                lemma_text_less_irreflexive(x@);
            }
        }
        if p < old_v.len() {
            assert(old_v[p as int] != x@);
            lemma_text_less_total(old_v[p as int], x@);
        }
    }
    let ghost xv = x@;
    v.insert(p, x);
    proof {
        assert(views(v@) =~= old_v.insert(p as int, xv));
        lemma_insert_in_order(old_v, p as int, xv);
    }
}

/// Putting a new name where it belongs keeps the list ordered and adds
/// exactly that name.
proof fn lemma_insert_in_order(v: Seq<Seq<char>>, p: int, x: Seq<char>)
    requires
        is_name_list(v),
        0 <= p <= v.len(),
        forall|j: int| 0 <= j < p ==> text_less(#[trigger] v[j], x),
        p < v.len() ==> text_less(x, v[p]),
        forall|j: int| 0 <= j < v.len() ==> #[trigger] v[j] != x,
    ensures
        is_name_list(v.insert(p, x)),
        forall|y: Seq<char>| #[trigger] v.insert(p, x).contains(y) <==> (v.contains(y) || y == x),
{
    let nv = v.insert(p, x);
    assert forall|y: Seq<char>| #[trigger] nv.contains(y) <==> (v.contains(y) || y == x) by {
        if nv.contains(y) {
            let j = choose|j: int| 0 <= j < nv.len() && nv[j] == y;
            if j < p {
                assert(v[j] == y);
            } else if j > p {
                assert(v[j - 1] == y);
            }
        }
        if v.contains(y) {
            let j = choose|j: int| 0 <= j < v.len() && v[j] == y;
            if j < p {
                assert(nv[j] == y);
            } else {
                assert(nv[j + 1] == y);
            }
        }
        if y == x {
            assert(nv[p] == y);
        }
    }
    assert forall|i: int| 0 <= i < nv.len() - 1 implies text_less(#[trigger] nv[i], nv[i + 1]) by {
        if i < p - 1 {
            assert(nv[i] == v[i] && nv[i + 1] == v[i + 1]);
        } else if i == p - 1 {
            assert(nv[i] == v[i]);
        } else if i == p {
        } else {
            assert(nv[i] == v[i - 1] && nv[i + 1] == v[i]);
        }
    }
    assert forall|i: int, j: int| 0 <= i < j < nv.len() implies nv[i] != nv[j] by {
        if i < p && j < p {
        } else if i < p && j == p {
        } else if i < p {
            assert(nv[j] == v[j - 1]);
        } else if i == p {
            assert(nv[j] == v[j - 1]);
        } else {
            assert(nv[i] == v[i - 1] && nv[j] == v[j - 1]);
        }
    }
}

/// No text comes before itself.
proof fn lemma_text_less_irreflexive(a: Seq<char>)
    ensures
        !text_less(a, a),
    decreases a.len(),
{
    if a.len() > 0 {
        lemma_text_less_irreflexive(a.drop_first());
    }
}

/// `x` is a store that some line of the remote listing `out` names.
pub open spec fn in_remote_listing(out: Seq<char>, x: Seq<char>) -> bool {
    exists|k: int| 0 <= k < lines(out).len() && remote_store_of(#[trigger] lines(out)[k]) == Some(x)
}

/// `x` is a store that some line of the local ref listing `out` names.
pub open spec fn in_local_listing(out: Seq<char>, x: Seq<char>) -> bool {
    exists|k: int| 0 <= k < lines(out).len() && local_store_of(#[trigger] lines(out)[k]) == Some(x)
}

/// Adds the stores that the lines of a ref listing name (`from_remote`
/// chooses the remote listing's form, else the local one's).
pub fn add_listed(v: &mut Vec<String>, out: &str, from_remote: bool)
    requires
        is_name_list(views(old(v)@)),
    ensures
        is_name_list(views(final(v)@)),
        forall|x: Seq<char>| #[trigger] views(final(v)@).contains(x) <==> (views(old(v)@).contains(x)
            || (from_remote && in_remote_listing(out@, x)) || (!from_remote && in_local_listing(out@, x))),
{
    let ls = split_lines(out);
    let ghost start = views(v@);
    let mut i: usize = 0;
    while i < ls.len()
        invariant
            i <= ls@.len(),
            views(ls@) == lines(out@),
            is_name_list(views(v@)),
            forall|x: Seq<char>| #[trigger] views(v@).contains(x) <==> (start.contains(x)
                || exists|k: int| 0 <= k < i && (if from_remote {
                    remote_store_of(#[trigger] lines(out@)[k])
                } else {
                    local_store_of(lines(out@)[k])
                }) == Some(x)),
        decreases ls@.len() - i,
    {
        proof {
            assert(views(ls@)[i as int] == ls@[i as int]@);
        }
        let found = if from_remote {
            remote_store(ls[i].as_str())
        } else {
            local_store(ls[i].as_str())
        };
        let ghost before = views(v@);
        match found {
            Some(x) => {
                let ghost xv = x@;
                add_name(v, x);
                proof {
                    assert forall|y: Seq<char>| #[trigger] views(v@).contains(y) <==> (start.contains(y)
                        || exists|k: int| 0 <= k < i + 1 && (if from_remote {
                            remote_store_of(#[trigger] lines(out@)[k])
                        } else {
                            local_store_of(lines(out@)[k])
                        }) == Some(y)) by {
                        if y == xv {
                            assert(lines(out@)[i as int] == ls@[i as int]@);
                        }
                        if exists|k: int| 0 <= k < i + 1 && (if from_remote {
                            remote_store_of(#[trigger] lines(out@)[k])
                        } else {
                            local_store_of(lines(out@)[k])
                        }) == Some(y) {
                            let k = choose|k: int| 0 <= k < i + 1 && (if from_remote {
                                remote_store_of(#[trigger] lines(out@)[k])
                            } else {
                                local_store_of(lines(out@)[k])
                            }) == Some(y);
                            if k == i {
                                assert(y == xv);
                            } else {
                                assert(before.contains(y));
                            }
                        }
                    }
                }
            },
            None => {
                proof {
                    assert forall|y: Seq<char>| #[trigger] views(v@).contains(y) <==> (start.contains(y)
                        || exists|k: int| 0 <= k < i + 1 && (if from_remote {
                            remote_store_of(#[trigger] lines(out@)[k])
                        } else {
                            local_store_of(lines(out@)[k])
                        }) == Some(y)) by {
                        if exists|k: int| 0 <= k < i + 1 && (if from_remote {
                            remote_store_of(#[trigger] lines(out@)[k])
                        } else {
                            local_store_of(lines(out@)[k])
                        }) == Some(y) {
                            let k = choose|k: int| 0 <= k < i + 1 && (if from_remote {
                                remote_store_of(#[trigger] lines(out@)[k])
                            } else {
                                local_store_of(lines(out@)[k])
                            }) == Some(y);
                            assert(k != i);
                        }
                    }
                }
            },
        }
        i = i + 1;
    }
}

/// Adds each of the names.
pub fn add_names(v: &mut Vec<String>, ns: &Vec<String>)
    requires
        is_name_list(views(old(v)@)),
    ensures
        is_name_list(views(final(v)@)),
        forall|x: Seq<char>| #[trigger] views(final(v)@).contains(x) <==> (views(old(v)@).contains(x)
            || views(ns@).contains(x)),
{
    let ghost start = views(v@);
    let mut i: usize = 0;
    while i < ns.len()
        invariant
            i <= ns@.len(),
            is_name_list(views(v@)),
            forall|x: Seq<char>| #[trigger] views(v@).contains(x) <==> (start.contains(x)
                || views(ns@).subrange(0, i as int).contains(x)),
        decreases ns@.len() - i,
    {
        let ghost before = views(v@);
        add_name(v, ns[i].clone());
        proof {
            let nv = views(ns@);
            assert forall|y: Seq<char>| #[trigger] views(v@).contains(y) <==> (start.contains(y)
                || nv.subrange(0, i + 1).contains(y)) by {
                if nv.subrange(0, i + 1).contains(y) {
                    let k = choose|k: int| 0 <= k < i + 1 && #[trigger] nv.subrange(0, i + 1)[k] == y;
                    if k < i {
                        assert(nv.subrange(0, i as int)[k] == y);
                    } else {
                        assert(nv[i as int] == ns@[i as int]@);
                    }
                }
                if before.contains(y) && !start.contains(y) {
                    let k = choose|k: int| 0 <= k < i && #[trigger] nv.subrange(0, i as int)[k] == y;
                    assert(nv.subrange(0, i + 1)[k] == y);
                }
                if y == ns@[i as int]@ {
                    assert(nv.subrange(0, i + 1)[i as int] == y);
                }
            }
        }
        i = i + 1;
    }
    assert(views(ns@).subrange(0, ns@.len() as int) =~= views(ns@));
}

} // verus!
