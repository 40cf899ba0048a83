//! Release version strings of the form `major.minor.patch`.

use vstd::prelude::*;

verus! {

/// A decimal digit `0`..`9`.
pub open spec fn is_digit(c: char) -> bool {
    '0' <= c && c <= '9'
}

/// The number that the decimal digit `c` stands for.
pub open spec fn digit_value(c: char) -> int {
    c as int - '0' as int
}

/// The number written by the decimal digits `d`, most significant first.
pub open spec fn decimal_value(d: Seq<char>) -> int
    decreases d.len(),
{
    if d.len() == 0 {
        0
    } else {
        10 * decimal_value(d.drop_last()) + digit_value(d.last())
    }
}

/// All of `d` are decimal digits.
pub open spec fn all_digits(d: Seq<char>) -> bool {
    forall|i: int| 0 <= i < d.len() ==> is_digit(#[trigger] d[i])
}

/// The digits of an unsigned number: a single leading `+` is allowed.
pub open spec fn unsigned_digits(s: Seq<char>) -> Seq<char> {
    if s.len() > 0 && s[0] == '+' {
        s.drop_first()
    } else {
        s
    }
}

/// What `s.parse::<u64>()` gives: a number when `s` is an optional `+`
/// followed by at least one decimal digit and the value fits in 64 bits.
pub open spec fn parse_u64(s: Seq<char>) -> Option<u64> {
    let d = unsigned_digits(s);
    if d.len() > 0 && all_digits(d) && decimal_value(d) <= u64::MAX {
        Some(decimal_value(d) as u64)
    } else {
        None
    }
}

proof fn lemma_decimal_value_step(d: Seq<char>, k: int)
    requires
        0 <= k < d.len(),
    ensures
        decimal_value(d.take(k + 1)) == 10 * decimal_value(d.take(k)) + digit_value(d[k]),
{
    assert(d.take(k + 1).drop_last() =~= d.take(k));
}

proof fn lemma_decimal_value_nonneg(d: Seq<char>, k: int)
    requires
        0 <= k <= d.len(),
        all_digits(d),
    ensures
        0 <= decimal_value(d.take(k)),
    decreases k,
{
    if k == 0 {
        assert(d.take(0) =~= Seq::<char>::empty());
    } else {
        lemma_decimal_value_nonneg(d, k - 1);
        lemma_decimal_value_step(d, k - 1);
        assert(is_digit(d[k - 1]));
    }
}

proof fn lemma_decimal_value_monotone(d: Seq<char>, k: int, m: int)
    requires
        0 <= k <= m <= d.len(),
        all_digits(d),
    ensures
        0 <= decimal_value(d.take(k)) <= decimal_value(d.take(m)),
    decreases m - k,
{
    lemma_decimal_value_nonneg(d, k);
    if k < m {
        lemma_decimal_value_monotone(d, k, m - 1);
        lemma_decimal_value_nonneg(d, m - 1);
        lemma_decimal_value_step(d, m - 1);
        assert(is_digit(d[m - 1]));
    }
}

/// Parses a number the way `str::parse::<u64>` does.
fn parse_u64_chars(s: &Vec<char>) -> (res: Option<u64>)
    ensures
        res == parse_u64(s@),
{
    let n = s.len();
    let mut start: usize = 0;
    if n > 0 && s[0] == '+' {
        start = 1;
    }
    let ghost d = unsigned_digits(s@);
    assert(d =~= s@.skip(start as int));
    if start == n {
        return None;
    }
    let mut i: usize = start;
    while i < n
        invariant
            start <= i <= n,
            n == s@.len(),
            d =~= s@.skip(start as int),
            d == unsigned_digits(s@),
            forall|k: int| start <= k < i ==> is_digit(#[trigger] s@[k]),
        decreases n - i,
    {
        let c = s[i];
        if c < '0' || c > '9' {
            assert(!is_digit(c));
            assert(d[i - start] == c);
            return None;
        }
        i += 1;
    }
    assert(all_digits(d)) by {
        assert forall|k: int| 0 <= k < d.len() implies is_digit(#[trigger] d[k]) by {
            assert(d[k] == s@[k + start]);
        }
    }
    let mut acc: u64 = 0;
    let mut j: usize = start;
    assert(d.take(0) =~= Seq::<char>::empty());
    while j < n
        invariant
            start <= j <= n,
            n == s@.len(),
            d =~= s@.skip(start as int),
            d == unsigned_digits(s@),
            all_digits(d),
            acc == decimal_value(d.take(j - start)),
        decreases n - j,
    {
        let c = s[j];
        assert(c == d[j - start]);
        assert(is_digit(c));
        let digit = ((c as u32) - ('0' as u32)) as u64;
        proof {
            lemma_decimal_value_step(d, j - start);
        }
        match acc.checked_mul(10) {
            None => {
                proof {
                    lemma_decimal_value_monotone(d, j - start + 1, d.len() as int);
                    assert(d.take(d.len() as int) =~= d);
                }
                return None;
            },
            Some(m) => match m.checked_add(digit) {
                None => {
                    proof {
                        lemma_decimal_value_monotone(d, j - start + 1, d.len() as int);
                        assert(d.take(d.len() as int) =~= d);
                    }
                    return None;
                },
                Some(v) => {
                    acc = v;
                },
            },
        }
        j += 1;
    }
    assert(d.take(d.len() as int) =~= d);
    Some(acc)
}

/// Reading one more character while cutting a string at its dots: the
/// pieces finished so far, and the piece being read.
pub open spec fn split_step(st: (Seq<Seq<char>>, Seq<char>), c: char) -> (Seq<Seq<char>>, Seq<char>) {
    if c == '.' {
        (st.0.push(st.1), Seq::empty())
    } else {
        (st.0, st.1.push(c))
    }
}

/// The state after cutting all of `s` at its dots.
pub open spec fn split_state(s: Seq<char>) -> (Seq<Seq<char>>, Seq<char>)
    decreases s.len(),
{
    if s.len() == 0 {
        (Seq::empty(), Seq::empty())
    } else {
        split_step(split_state(s.drop_last()), s.last())
    }
}

/// The pieces of `s` between its dots, as `str::split('.')` yields them:
/// one more piece than there are dots, empty pieces included.
pub open spec fn dot_pieces(s: Seq<char>) -> Seq<Seq<char>> {
    split_state(s).0.push(split_state(s).1)
}

/// A version component: its number, or 0 where the piece is not one.
pub open spec fn component_value(piece: Seq<char>) -> u64 {
    match parse_u64(piece) {
        Some(v) => v,
        None => 0,
    }
}

/// The numbers of a version string, one per dot-separated piece.
pub open spec fn version_numbers(s: Seq<char>) -> Seq<u64> {
    dot_pieces(s).map_values(|p: Seq<char>| component_value(p))
}

/// Component `i` of a version string, 0 where it has fewer components.
pub open spec fn version_part(s: Seq<char>, i: int) -> u64 {
    if 0 <= i < version_numbers(s).len() {
        version_numbers(s)[i]
    } else {
        0
    }
}

/// `remote` is a later version than `local`: its major.minor.patch triple is
/// greater in lexicographic order. Components past the third are ignored.
pub open spec fn is_newer_version(remote: Seq<char>, local: Seq<char>) -> bool {
    ||| version_part(remote, 0) > version_part(local, 0)
    ||| version_part(remote, 0) == version_part(local, 0) && version_part(remote, 1) > version_part(local, 1)
    ||| version_part(remote, 0) == version_part(local, 0) && version_part(remote, 1) == version_part(local, 1)
        && version_part(remote, 2) > version_part(local, 2)
}

/// Two version strings name the same release: their first three components agree.
pub open spec fn same_version(a: Seq<char>, b: Seq<char>) -> bool {
    &&& version_part(a, 0) == version_part(b, 0)
    &&& version_part(a, 1) == version_part(b, 1)
    &&& version_part(a, 2) == version_part(b, 2)
}

/// No version is newer than itself.
pub proof fn lemma_newer_irreflexive(a: Seq<char>)
    ensures
        !is_newer_version(a, a),
{
}

/// Of two versions, at most one is newer than the other.
pub proof fn lemma_newer_asymmetric(a: Seq<char>, b: Seq<char>)
    ensures
        is_newer_version(a, b) ==> !is_newer_version(b, a),
{
}

/// A version newer than a version newer than `c` is newer than `c`.
pub proof fn lemma_newer_transitive(a: Seq<char>, b: Seq<char>, c: Seq<char>)
    requires
        is_newer_version(a, b),
        is_newer_version(b, c),
    ensures
        is_newer_version(a, c),
{
}

/// Any two versions are either the same release, or one is newer.
pub proof fn lemma_newer_total(a: Seq<char>, b: Seq<char>)
    ensures
        same_version(a, b) || is_newer_version(a, b) || is_newer_version(b, a),
        same_version(a, b) ==> !is_newer_version(a, b),
{
}

/// `p` holds no dot.
pub open spec fn has_no_dot(p: Seq<char>) -> bool {
    forall|i: int| 0 <= i < p.len() ==> p[i] != '.'
}

/// `d` is a decimal number that fits in 64 bits, written without sign.
pub open spec fn is_number_text(d: Seq<char>) -> bool {
    &&& d.len() > 0
    &&& all_digits(d)
    &&& decimal_value(d) <= u64::MAX
}

/// The version string `a.b.c`.
pub open spec fn three_part_version(a: Seq<char>, b: Seq<char>, c: Seq<char>) -> Seq<char> {
    a + seq!['.'] + b + seq!['.'] + c
}

proof fn lemma_split_append_piece(s: Seq<char>, x: Seq<char>)
    requires
        has_no_dot(x),
    ensures
        split_state(s + x) == (split_state(s).0, split_state(s).1 + x),
    decreases x.len(),
{
    if x.len() == 0 {
        assert(s + x =~= s);
        assert(split_state(s).1 + x =~= split_state(s).1);
    } else {
        let xs = x.drop_last();
        lemma_split_append_piece(s, xs);
        assert((s + x).drop_last() =~= s + xs);
        assert((s + x).last() == x.last());
        assert(x.last() != '.');
        assert((split_state(s).1 + xs).push(x.last()) =~= split_state(s).1 + x);
    }
}

proof fn lemma_split_append_dot(s: Seq<char>)
    ensures
        split_state(s + seq!['.']) == (split_state(s).0.push(split_state(s).1), Seq::<char>::empty()),
{
    assert((s + seq!['.']).drop_last() =~= s);
    assert((s + seq!['.']).last() == '.');
}

/// The pieces of `a.b.c` are `a`, `b` and `c`, where none of them holds a dot.
pub proof fn lemma_dot_pieces_of_three(a: Seq<char>, b: Seq<char>, c: Seq<char>)
    requires
        has_no_dot(a),
        has_no_dot(b),
        has_no_dot(c),
    ensures
        dot_pieces(three_part_version(a, b, c)) == seq![a, b, c],
{
    let e = Seq::<char>::empty();
    lemma_split_append_piece(e, a);
    assert(e + a =~= a);
    lemma_split_append_dot(a);
    lemma_split_append_piece(a + seq!['.'], b);
    lemma_split_append_dot(a + seq!['.'] + b);
    lemma_split_append_piece(a + seq!['.'] + b + seq!['.'], c);
    assert(split_state(three_part_version(a, b, c)).0 =~= seq![a, b]);
    assert(split_state(three_part_version(a, b, c)).1 =~= c);
    assert(dot_pieces(three_part_version(a, b, c)) =~= seq![a, b, c]);
}

proof fn lemma_number_text_value(d: Seq<char>)
    requires
        is_number_text(d),
    ensures
        has_no_dot(d),
        component_value(d) == decimal_value(d),
{
    assert(is_digit(d[0]));
    assert(unsigned_digits(d) == d);
    lemma_decimal_value_nonneg(d, d.len() as int);
    assert(d.take(d.len() as int) =~= d);
    assert(parse_u64(d) == Some(decimal_value(d) as u64));
    assert forall|i: int| 0 <= i < d.len() implies d[i] != '.' by {
        assert(is_digit(d[i]));
    }
}

/// For versions written as three decimal numbers, each component is the full
/// value of its number (not a part of it), and one version is newer than the
/// other exactly when its numbers are greater in major, minor, patch order.
pub proof fn lemma_three_number_versions(
    a: Seq<char>,
    b: Seq<char>,
    c: Seq<char>,
    x: Seq<char>,
    y: Seq<char>,
    z: Seq<char>,
)
    requires
        is_number_text(a),
        is_number_text(b),
        is_number_text(c),
        is_number_text(x),
        is_number_text(y),
        is_number_text(z),
    ensures
        version_part(three_part_version(a, b, c), 0) == decimal_value(a),
        version_part(three_part_version(a, b, c), 1) == decimal_value(b),
        version_part(three_part_version(a, b, c), 2) == decimal_value(c),
        is_newer_version(three_part_version(a, b, c), three_part_version(x, y, z)) <==> {
            ||| decimal_value(a) > decimal_value(x)
            ||| decimal_value(a) == decimal_value(x) && decimal_value(b) > decimal_value(y)
            ||| decimal_value(a) == decimal_value(x) && decimal_value(b) == decimal_value(y)
                && decimal_value(c) > decimal_value(z)
        },
{
    lemma_number_text_value(a);
    lemma_number_text_value(b);
    lemma_number_text_value(c);
    lemma_number_text_value(x);
    lemma_number_text_value(y);
    lemma_number_text_value(z);
    lemma_dot_pieces_of_three(a, b, c);
    lemma_dot_pieces_of_three(x, y, z);
    let v = three_part_version(a, b, c);
    let w = three_part_version(x, y, z);
    assert(version_numbers(v) =~= seq![component_value(a), component_value(b), component_value(c)]);
    assert(version_numbers(w) =~= seq![component_value(x), component_value(y), component_value(z)]);
}

/// The characters of `s`, one by one.
pub(crate) fn chars_of(s: &str) -> (res: Vec<char>)
    ensures
        res@ == s@,
{
    let mut res: Vec<char> = Vec::new();
    for c in it: s.chars()
        invariant
            it.seq() == s@,
            res@ == it.seq().take(it.index()),
    {
        res.push(c);
    }
    res
}

/// The value of one version component: its number, or 0.
fn parse_component(piece: &Vec<char>) -> (v: u64)
    ensures
        v == component_value(piece@),
{
    match parse_u64_chars(piece) {
        Some(v) => v,
        None => 0,
    }
}

/// The numbers of the dot-separated pieces of `s`.
fn parse_version(s: &str) -> (res: Vec<u64>)
    ensures
        res@ == version_numbers(s@),
{
    let chars = chars_of(s);
    let mut done: Vec<u64> = Vec::new();
    let mut cur: Vec<char> = Vec::new();
    assert(s@.take(0) =~= Seq::<char>::empty());
    for i in 0..chars.len()
        invariant
            chars@ == s@,
            cur@ == split_state(s@.take(i as int)).1,
            done@ == split_state(s@.take(i as int)).0.map_values(|p: Seq<char>| component_value(p)),
    {
        let c = chars[i];
        let ghost before = split_state(s@.take(i as int));
        assert(s@.take(i + 1).drop_last() =~= s@.take(i as int));
        if c == '.' {
            let v = parse_component(&cur);
            done.push(v);
            cur = Vec::new();
            assert(before.0.push(before.1).map_values(|p: Seq<char>| component_value(p))
                =~= before.0.map_values(|p: Seq<char>| component_value(p)).push(v));
        } else {
            cur.push(c);
        }
    }
    let v = parse_component(&cur);
    done.push(v);
    assert(s@.take(chars.len() as int) =~= s@);
    let ghost fin = split_state(s@);
    assert(fin.0.push(fin.1).map_values(|p: Seq<char>| component_value(p))
        =~= fin.0.map_values(|p: Seq<char>| component_value(p)).push(v));
    done
}

/// Whether `remote` is a later release than `local`.
///
/// A plain major.minor.patch comparison: each dot-separated piece counts as
/// its number, or as 0 where it is not a number, missing components count as
/// 0, and anything after the third component is ignored. There is no
/// handling of pre-release or build metadata.
pub fn is_newer(remote: &str, local: &str) -> (res: bool)
    ensures
        res == is_newer_version(remote@, local@),
{
    let r = parse_version(remote);
    let l = parse_version(local);
    for i in 0..3usize
        invariant
            r@ == version_numbers(remote@),
            l@ == version_numbers(local@),
            forall|j: int| 0 <= j < i ==> version_part(remote@, j) == version_part(local@, j),
    {
        let rv = if i < r.len() { r[i] } else { 0 };
        let lv = if i < l.len() { l[i] } else { 0 };
        assert(rv == version_part(remote@, i as int));
        assert(lv == version_part(local@, i as int));
        if rv != lv {
            return rv > lv;
        }
    }
    false
}

} // verus!
