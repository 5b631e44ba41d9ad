use vstd::prelude::*;

verus! {

/// `p` stands at the very start of `s`.
pub open spec fn starts_with(s: Seq<char>, p: Seq<char>) -> bool {
    p.len() <= s.len() && s.take(p.len() as int) == p
}

/// `p` stands somewhere in `s`.
pub open spec fn occurs_in(p: Seq<char>, s: Seq<char>) -> bool {
    exists|i: int| 0 <= i <= s.len() && #[trigger] starts_with(s.skip(i), p)
}

/// `s` with every match of a non-empty `from` replaced by `to`: matches are
/// taken from left to right and do not overlap.
pub open spec fn replace_all(s: Seq<char>, from: Seq<char>, to: Seq<char>) -> Seq<char>
    decreases s.len(),
{
    if s.len() == 0 {
        s
    } else if from.len() > 0 && starts_with(s, from) {
        to + replace_all(s.skip(from.len() as int), from, to)
    } else {
        seq![s[0]] + replace_all(s.skip(1), from, to)
    }
}

/// The label of a certificate block, as in `-----BEGIN CERTIFICATE-----`.
pub open spec fn cert_label() -> Seq<char> {
    seq!['C', 'E', 'R', 'T', 'I', 'F', 'I', 'C', 'A', 'T', 'E']
}

/// The label of a public-key block, as in `-----BEGIN PUBLIC KEY-----`.
pub open spec fn key_label() -> Seq<char> {
    seq!['P', 'U', 'B', 'L', 'I', 'C', ' ', 'K', 'E', 'Y']
}

/// `s` with every certificate label rewritten as a public-key label.
pub open spec fn to_public_key(s: Seq<char>) -> Seq<char> {
    replace_all(s, cert_label(), key_label())
}

/// While the result of a replacement avoids the first character of `to`, it
/// copies the input.
proof fn lemma_prefix_copied(t: Seq<char>, from: Seq<char>, to: Seq<char>, n: int)
    requires
        from.len() > 0,
        to.len() > 0,
        0 <= n <= replace_all(t, from, to).len(),
        forall|k: int| 0 <= k < n ==> replace_all(t, from, to)[k] != to[0],
    ensures
        n <= t.len(),
        t.take(n) == replace_all(t, from, to).take(n),
    decreases t.len(),
{
    let r = replace_all(t, from, to);
    if n == 0 {
        assert(t.take(0) =~= r.take(0));
    } else if t.len() == 0 {
    } else if starts_with(t, from) {
        assert(r[0] == to[0]);
    } else {
        let r1 = replace_all(t.skip(1), from, to);
        assert forall|k: int| 0 <= k < n - 1 implies r1[k] != to[0] by {
            assert(r[k + 1] == r1[k]);
        }
        lemma_prefix_copied(t.skip(1), from, to, n - 1);
        assert(t.take(n) =~= seq![t[0]] + t.skip(1).take(n - 1));
        assert(r.take(n) =~= seq![t[0]] + r1.take(n - 1));
    }
}

/// Replacement passes over a prefix `w` in which no match of `from` can start.
proof fn lemma_passes_over(w: Seq<char>, t: Seq<char>, from: Seq<char>, to: Seq<char>)
    requires
        from.len() >= 2,
        forall|i: int|
            0 <= i < w.len() ==> #[trigger] w[i] != from[0] || (i + 1 < w.len() && w[i + 1]
                != from[1]),
    ensures
        replace_all(w + t, from, to) == w + replace_all(t, from, to),
    decreases w.len(),
{
    if w.len() == 0 {
        assert(w + t =~= t);
        assert(w + replace_all(t, from, to) =~= replace_all(t, from, to));
    } else {
        let u = w + t;
        assert(u[0] == w[0]);
        if starts_with(u, from) {
            assert(u.take(from.len() as int)[0] == from[0]);
            assert(u.take(from.len() as int)[1] == from[1]);
        }
        let w1 = w.skip(1);
        assert forall|i: int|
            0 <= i < w1.len() implies #[trigger] w1[i] != from[0] || (i + 1 < w1.len() && w1[i
            + 1] != from[1]) by {
            assert(w1[i] == w[i + 1]);
        }
        lemma_passes_over(w1, t, from, to);
        assert(u.skip(1) =~= w1 + t);
        assert(seq![w[0]] + (w1 + replace_all(t, from, to)) =~= w + replace_all(t, from, to));
    }
}

/// Rewriting the labels a second time changes nothing.
pub proof fn lemma_to_public_key_idempotent(s: Seq<char>)
    ensures
        to_public_key(to_public_key(s)) == to_public_key(s),
    decreases s.len(),
{
    let c = cert_label();
    let k = key_label();
    if s.len() == 0 {
    } else if starts_with(s, c) {
        let s1 = s.skip(c.len() as int);
        assert forall|i: int|
            0 <= i < k.len() implies #[trigger] k[i] != c[0] || (i + 1 < k.len() && k[i + 1]
            != c[1]) by {
            assert(k[0] == 'P' && k[1] == 'U' && k[2] == 'B' && k[3] == 'L' && k[4] == 'I');
            assert(k[5] == 'C' && k[6] == ' ' && k[7] == 'K' && k[8] == 'E' && k[9] == 'Y');
        }
        lemma_passes_over(k, to_public_key(s1), c, k);
        lemma_to_public_key_idempotent(s1);
    } else {
        let s1 = s.skip(1);
        let r1 = to_public_key(s1);
        let u = seq![s[0]] + r1;
        assert(to_public_key(s) == u);
        if starts_with(u, c) {
            assert(c[1] == 'E' && c[2] == 'R' && c[3] == 'T' && c[4] == 'I' && c[5] == 'F');
            assert(c[6] == 'I' && c[7] == 'C' && c[8] == 'A' && c[9] == 'T' && c[10] == 'E');
            assert forall|i: int| 0 <= i < 10 implies r1[i] != k[0] by {
                assert(r1[i] == u.take(11)[i + 1]);
            }
            lemma_prefix_copied(s1, c, k, 10);
            assert(s.take(11) =~= seq![s[0]] + s1.take(10));
            assert(s.take(11) =~= u.take(11));
        }
        assert(u.skip(1) =~= r1);
        lemma_to_public_key_idempotent(s1);
    }
}

/// A string without a certificate label is left as it is.
pub proof fn lemma_to_public_key_no_label(s: Seq<char>)
    requires
        !occurs_in(cert_label(), s),
    ensures
        to_public_key(s) == s,
    decreases s.len(),
{
    if s.len() > 0 {
        let s1 = s.skip(1);
        assert(s.skip(0) =~= s);
        assert(!starts_with(s.skip(0), cert_label()));
        assert forall|i: int| 0 <= i <= s1.len() implies !#[trigger] starts_with(
            s1.skip(i),
            cert_label(),
        ) by {
            assert(s1.skip(i) =~= s.skip(i + 1));
        }
        lemma_to_public_key_no_label(s1);
        assert(seq![s[0]] + s1 =~= s);
    }
}

/// Replacing by something shorter never lengthens the text, and shortens it
/// where `from` occurs.
proof fn lemma_replace_shortens(s: Seq<char>, from: Seq<char>, to: Seq<char>)
    requires
        to.len() < from.len(),
    ensures
        replace_all(s, from, to).len() <= s.len(),
        occurs_in(from, s) ==> replace_all(s, from, to).len() < s.len(),
    decreases s.len(),
{
    if s.len() > 0 {
        if from.len() > 0 && starts_with(s, from) {
            lemma_replace_shortens(s.skip(from.len() as int), from, to);
        } else {
            let s1 = s.skip(1);
            lemma_replace_shortens(s1, from, to);
            if occurs_in(from, s) {
                let i = choose|i: int| 0 <= i <= s.len() && #[trigger] starts_with(s.skip(i), from);
                assert(s.skip(0) =~= s);
                if from.len() > 0 {
                    assert(i > 0);
                    assert(s1.skip(i - 1) =~= s.skip(i));
                    assert(starts_with(s1.skip(i - 1), from));
                } else {
                    assert(starts_with(s1.skip(0), from));
                }
            }
        }
    }
}

/// After the rewrite no certificate label is left.
pub proof fn lemma_no_label_after_rewrite(s: Seq<char>)
    ensures
        !occurs_in(cert_label(), to_public_key(s)),
{
    let r = to_public_key(s);
    lemma_to_public_key_idempotent(s);
    lemma_replace_shortens(r, cert_label(), key_label());
}

/// The characters of `s`, in order.
fn chars_of(s: &str) -> (v: Vec<char>)
    ensures
        v@ == s@,
{
    let mut v: Vec<char> = Vec::new();
    for c in it: s.chars()
        invariant
            it.seq() == s@,
            v@ == it.seq().take(it.index() as int),
    {
        v.push(c);
    }
    v
}

/// Whether `p` stands in `s` at position `i`.
fn matches_at(s: &Vec<char>, i: usize, p: &Vec<char>) -> (r: bool)
    requires
        i <= s.len(),
    ensures
        r == starts_with(s@.skip(i as int), p@),
{
    if p.len() > s.len() - i {
        return false;
    }
    let mut j: usize = 0;
    while j < p.len()
        invariant
            i + p.len() <= s.len(),
            j <= p.len(),
            forall|k: int| 0 <= k < j ==> s@[i + k] == p@[k],
        decreases p.len() - j,
    {
        if s[i + j] != p[j] {
            assert(s@.skip(i as int).take(p.len() as int)[j as int] != p@[j as int]);
            return false;
        }
        j += 1;
    }
    assert(s@.skip(i as int).take(p.len() as int) =~= p@);
    true
}

/// `s` with every match of `from` replaced by `to`, from left to right.
pub fn replace_all_matches(s: &str, from: &str, to: &str) -> (r: String)
    requires
        from@.len() > 0,
    ensures
        r@ == replace_all(s@, from@, to@),
{
    let cs = chars_of(s);
    let ps = chars_of(from);
    let n = cs.len();
    let mut out = String::new();
    let mut start: usize = 0;
    let mut i: usize = 0;
    assert(s@.skip(0) =~= s@);
    assert(out@ + s@.subrange(0, 0) =~= Seq::<char>::empty());
    while i < n
        invariant
            cs@ == s@,
            ps@ == from@,
            n == cs.len(),
            from@.len() > 0,
            start <= i <= n,
            out@ + s@.subrange(start as int, i as int) + replace_all(s@.skip(i as int), from@, to@)
                == replace_all(s@, from@, to@),
        decreases n - i,
    {
        let ghost rest = s@.skip(i as int);
        if matches_at(&cs, i, &ps) {
            let piece = s.substring_char(start, i);
            out.append(piece);
            out.append(to);
            assert(rest.skip(from@.len() as int) =~= s@.skip(i + from@.len()));
            i = i + ps.len();
            start = i;
            assert(s@.subrange(start as int, i as int) =~= Seq::<char>::empty());
            assert(out@ + s@.subrange(start as int, i as int) =~= out@);
        } else {
            assert(rest.skip(1) =~= s@.skip(i + 1));
            assert(s@.subrange(start as int, i as int) + seq![rest[0]] =~= s@.subrange(
                start as int,
                i + 1,
            ));
            i = i + 1;
        }
    }
    let tail = s.substring_char(start, n);
    out.append(tail);
    out
}

} // verus!
