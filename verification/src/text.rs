//! Byte-level text utilities for the line-oriented grammar: ASCII whitespace
//! trimming, token literals, prefix tests, lower-casing, and
//! whitespace-separated field splitting.

use vstd::prelude::*;

verus! {

/// ASCII whitespace: tab, line feed, vertical tab, form feed, carriage
/// return, space.
pub open spec fn is_ws(b: u8) -> bool {
    b == 9 || b == 10 || b == 11 || b == 12 || b == 13 || b == 32
}

/// `s` with leading and trailing ASCII whitespace removed.
pub open spec fn trim_spec(s: Seq<u8>) -> Seq<u8>
    decreases s.len(),
{
    if s.len() == 0 {
        s
    } else if is_ws(s[0]) {
        trim_spec(s.skip(1))
    } else if is_ws(s.last()) {
        trim_spec(s.drop_last())
    } else {
        s
    }
}

proof fn lemma_trim_range(s: Seq<u8>, a: int, b: int)
    requires
        0 <= a <= b <= s.len(),
        forall|i: int| 0 <= i < a ==> is_ws(s[i]),
        forall|i: int| b <= i < s.len() ==> is_ws(s[i]),
        a < b ==> !is_ws(s[a]) && !is_ws(s[b - 1]),
    ensures
        trim_spec(s) =~= s.subrange(a, b),
    decreases s.len(),
{
    if s.len() == 0 {
    } else if a == b {
        // Every byte is whitespace.
        assert(is_ws(s[0]));
        lemma_trim_range(s.skip(1), 0, 0);
        assert(trim_spec(s) =~= s.subrange(a, b));
    } else if a > 0 {
        assert(is_ws(s[0]));
        lemma_trim_range(s.skip(1), a - 1, b - 1);
        assert(s.skip(1).subrange(a - 1, b - 1) =~= s.subrange(a, b));
    } else if b < s.len() {
        assert(!is_ws(s[0]));
        assert(is_ws(s.last()));
        lemma_trim_range(s.drop_last(), a, b);
        assert(s.drop_last().subrange(a, b) =~= s.subrange(a, b));
    } else {
        assert(trim_spec(s) == s);
        assert(s.subrange(0, s.len() as int) =~= s);
    }
}

/// Removes leading and trailing ASCII whitespace.
#[verifier::loop_isolation(false)]
pub fn trim(line: &Vec<u8>) -> (r: Vec<u8>)
    ensures
        r@ == trim_spec(line@),
{
    let n = line.len();
    let mut a: usize = 0;
    while a < n && is_ws_byte(line[a])
        invariant
            0 <= a <= n,
            forall|i: int| 0 <= i < a ==> is_ws(line@[i]),
        decreases n - a,
    {
        a += 1;
    }
    let mut b = n;
    while b > a && is_ws_byte(line[b - 1])
        invariant
            a <= b <= n,
            forall|i: int| b <= i < n ==> is_ws(line@[i]),
        decreases b,
    {
        b -= 1;
    }
    proof {
        lemma_trim_range(line@, a as int, b as int);
    }
    sub_vec(line, a, b)
}

/// A line whose first `k` bytes are not whitespace keeps them under
/// trimming: only trailing bytes are removed.
pub proof fn lemma_trim_keeps_prefix(line: Seq<u8>, k: int)
    requires
        0 < k <= line.len(),
        forall|i: int| 0 <= i < k ==> !is_ws(line[i]),
    ensures
        k <= trim_spec(line).len() <= line.len(),
        forall|i: int| 0 <= i < trim_spec(line).len() ==> trim_spec(line)[i] == line[i],
    decreases line.len(),
{
    assert(!is_ws(line[0]));
    if is_ws(line.last()) {
        assert(line.len() > k);
        lemma_trim_keeps_prefix(line.drop_last(), k);
        assert(trim_spec(line) == trim_spec(line.drop_last()));
        assert forall|i: int| 0 <= i < trim_spec(line).len() implies trim_spec(line)[i]
            == line[i] by {
            assert(trim_spec(line.drop_last())[i] == line.drop_last()[i]);
            assert(line.drop_last()[i] == line[i]);
        }
    }
}

fn is_ws_byte(b: u8) -> (r: bool)
    ensures
        r == is_ws(b),
{
    b == 9 || b == 10 || b == 11 || b == 12 || b == 13 || b == 32
}

/// Copies `line[from..to]` out as a fresh vector.
#[verifier::loop_isolation(false)]
pub fn sub_vec(line: &Vec<u8>, from: usize, to: usize) -> (r: Vec<u8>)
    requires
        from <= to <= line@.len(),
    ensures
        r@ == line@.subrange(from as int, to as int),
{
    let mut r: Vec<u8> = Vec::new();
    let mut i = from;
    while i < to
        invariant
            from <= i <= to,
            r@ =~= line@.subrange(from as int, i as int),
        decreases to - i,
    {
        r.push(line[i]);
        proof {
            assert(line@.subrange(from as int, i + 1) =~= line@.subrange(from as int, i as int).push(
                line@[i as int],
            ));
        }
        i += 1;
    }
    proof {
        assert(r@ =~= line@.subrange(from as int, to as int));
    }
    r
}

/// The block-opening token, `BEGIN IONS`.
pub open spec fn begin_ions() -> Seq<u8> {
    seq![0x42u8, 0x45, 0x47, 0x49, 0x4e, 0x20, 0x49, 0x4f, 0x4e, 0x53]
}

/// The block-closing token, `END IONS`.
pub open spec fn end_ions() -> Seq<u8> {
    seq![0x45u8, 0x4e, 0x44, 0x20, 0x49, 0x4f, 0x4e, 0x53]
}

/// The identifier header key, `TITLE`.
pub open spec fn title_key() -> Seq<u8> {
    seq![0x54u8, 0x49, 0x54, 0x4c, 0x45]
}

/// The identifier line prefix, `TITLE=`.
pub open spec fn title_prefix() -> Seq<u8> {
    title_key().push(0x3d)
}

/// The start-time header key, `RTINSECONDS`.
pub open spec fn rtinseconds_key() -> Seq<u8> {
    seq![0x52u8, 0x54, 0x49, 0x4e, 0x53, 0x45, 0x43, 0x4f, 0x4e, 0x44, 0x53]
}

/// The precursor header key, `PEPMASS`.
pub open spec fn pepmass_key() -> Seq<u8> {
    seq![0x50u8, 0x45, 0x50, 0x4d, 0x41, 0x53, 0x53]
}

fn push_bytes_begin(v: &mut Vec<u8>)
    ensures
        final(v)@ == old(v)@ + begin_ions(),
{
    v.push(0x42);
    v.push(0x45);
    v.push(0x47);
    v.push(0x49);
    v.push(0x4e);
    v.push(0x20);
    v.push(0x49);
    v.push(0x4f);
    v.push(0x4e);
    v.push(0x53);
    proof {
        assert(v@ =~= old(v)@ + begin_ions());
    }
}

/// Builds the `BEGIN IONS` token.
pub fn begin_ions_bytes() -> (r: Vec<u8>)
    ensures
        r@ == begin_ions(),
{
    let mut v: Vec<u8> = Vec::new();
    push_bytes_begin(&mut v);
    proof {
        assert(v@ =~= begin_ions());
    }
    v
}

/// Builds the `END IONS` token.
pub fn end_ions_bytes() -> (r: Vec<u8>)
    ensures
        r@ == end_ions(),
{
    let mut v: Vec<u8> = Vec::new();
    v.push(0x45);
    v.push(0x4e);
    v.push(0x44);
    v.push(0x20);
    v.push(0x49);
    v.push(0x4f);
    v.push(0x4e);
    v.push(0x53);
    proof {
        assert(v@ =~= end_ions());
    }
    v
}

/// Builds the `TITLE` key.
pub fn title_key_bytes() -> (r: Vec<u8>)
    ensures
        r@ == title_key(),
{
    let mut v: Vec<u8> = Vec::new();
    v.push(0x54);
    v.push(0x49);
    v.push(0x54);
    v.push(0x4c);
    v.push(0x45);
    proof {
        assert(v@ =~= title_key());
    }
    v
}

/// Builds the `TITLE=` prefix.
pub fn title_prefix_bytes() -> (r: Vec<u8>)
    ensures
        r@ == title_prefix(),
{
    let mut v = title_key_bytes();
    v.push(0x3d);
    proof {
        assert(v@ =~= title_prefix());
    }
    v
}

/// Builds the `RTINSECONDS` key.
pub fn rtinseconds_key_bytes() -> (r: Vec<u8>)
    ensures
        r@ == rtinseconds_key(),
{
    let mut v: Vec<u8> = Vec::new();
    v.push(0x52);
    v.push(0x54);
    v.push(0x49);
    v.push(0x4e);
    v.push(0x53);
    v.push(0x45);
    v.push(0x43);
    v.push(0x4f);
    v.push(0x4e);
    v.push(0x44);
    v.push(0x53);
    proof {
        assert(v@ =~= rtinseconds_key());
    }
    v
}

/// Builds the `PEPMASS` key.
pub fn pepmass_key_bytes() -> (r: Vec<u8>)
    ensures
        r@ == pepmass_key(),
{
    let mut v: Vec<u8> = Vec::new();
    v.push(0x50);
    v.push(0x45);
    v.push(0x50);
    v.push(0x4d);
    v.push(0x41);
    v.push(0x53);
    v.push(0x53);
    proof {
        assert(v@ =~= pepmass_key());
    }
    v
}

/// Byte-for-byte equality of two vectors.
#[verifier::loop_isolation(false)]
pub fn bytes_eq(a: &Vec<u8>, b: &Vec<u8>) -> (r: bool)
    ensures
        r == (a@ == b@),
{
    if a.len() != b.len() {
        return false;
    }
    let mut i: usize = 0;
    while i < a.len()
        invariant
            0 <= i <= a@.len(),
            forall|m: int| 0 <= m < i ==> a@[m] == b@[m],
        decreases a@.len() - i,
    {
        if a[i] != b[i] {
            return false;
        }
        i += 1;
    }
    proof {
        assert(a@ =~= b@);
    }
    true
}

/// `p` is a prefix of `a`.
pub open spec fn has_prefix(a: Seq<u8>, p: Seq<u8>) -> bool {
    a.len() >= p.len() && a.take(p.len() as int) == p
}

/// Tests whether `a` starts with `p`.
#[verifier::loop_isolation(false)]
pub fn starts_with(a: &Vec<u8>, p: &Vec<u8>) -> (r: bool)
    ensures
        r == has_prefix(a@, p@),
{
    if a.len() < p.len() {
        return false;
    }
    let mut i: usize = 0;
    while i < p.len()
        invariant
            0 <= i <= p@.len(),
            p@.len() <= a@.len(),
            forall|m: int| 0 <= m < i ==> a@[m] == p@[m],
        decreases p@.len() - i,
    {
        if a[i] != p[i] {
            proof {
                assert(a@.take(p@.len() as int)[i as int] == a@[i as int]);
            }
            return false;
        }
        i += 1;
    }
    proof {
        assert(a@.take(p@.len() as int) =~= p@);
    }
    true
}

/// Lower-cases one ASCII byte.
pub open spec fn lower_byte(b: u8) -> u8 {
    if 0x41 <= b <= 0x5a {
        (b + 0x20) as u8
    } else {
        b
    }
}

/// ASCII lower-casing, byte for byte.
pub open spec fn lower(s: Seq<u8>) -> Seq<u8> {
    Seq::new(s.len(), |i: int| lower_byte(s[i]))
}

/// Lower-cases the ASCII letters of `line`.
#[verifier::loop_isolation(false)]
pub fn to_lower(line: &Vec<u8>) -> (r: Vec<u8>)
    ensures
        r@ == lower(line@),
{
    let mut r: Vec<u8> = Vec::new();
    let mut i: usize = 0;
    while i < line.len()
        invariant
            0 <= i <= line@.len(),
            r@ =~= lower(line@).take(i as int),
        decreases line@.len() - i,
    {
        let b = line[i];
        if 0x41 <= b && b <= 0x5a {
            r.push(b + 0x20);
        } else {
            r.push(b);
        }
        proof {
            assert(lower(line@).take(i + 1) =~= lower(line@).take(i as int).push(
                lower_byte(line@[i as int]),
            ));
        }
        i += 1;
    }
    proof {
        assert(r@ =~= lower(line@));
    }
    r
}

/// Index of the first ASCII whitespace byte, or `s.len()` if none.
pub open spec fn find_ws(s: Seq<u8>) -> nat
    decreases s.len(),
{
    if s.len() == 0 {
        0
    } else if is_ws(s[0]) {
        0
    } else {
        1 + find_ws(s.skip(1))
    }
}

proof fn lemma_find_ws(s: Seq<u8>)
    ensures
        0 <= find_ws(s) <= s.len(),
        find_ws(s) < s.len() ==> is_ws(s[find_ws(s) as int]),
        forall|i: int| 0 <= i < find_ws(s) ==> !is_ws(s[i]),
    decreases s.len(),
{
    if s.len() > 0 && !is_ws(s[0]) {
        lemma_find_ws(s.skip(1));
        assert forall|i: int| 0 <= i < find_ws(s) implies !is_ws(s[i]) by {
            if i > 0 {
                assert(s.skip(1)[i - 1] == s[i]);
            }
        }
        if find_ws(s) < s.len() {
            assert(s.skip(1)[find_ws(s) - 1] == s[find_ws(s) as int]);
        }
    }
}

proof fn lemma_find_ws_at(s: Seq<u8>, k: nat)
    requires
        k <= s.len(),
        forall|m: int| 0 <= m < k ==> !is_ws(s[m]),
        k < s.len() ==> is_ws(s[k as int]),
    ensures
        find_ws(s) == k,
    decreases s.len(),
{
    if k == 0 {
        if s.len() > 0 {
            assert(is_ws(s[0]));
        }
    } else {
        assert(!is_ws(s[0]));
        assert forall|m: int| 0 <= m < k - 1 implies !is_ws(#[trigger] s.skip(1)[m]) by {
            assert(s.skip(1)[m] == s[m + 1]);
        }
        if k < s.len() {
            assert(s.skip(1)[k - 1] == s[k as int]);
        }
        lemma_find_ws_at(s.skip(1), (k - 1) as nat);
    }
}

/// The maximal runs of non-whitespace bytes of `s`, in order.
pub open spec fn ws_split(s: Seq<u8>) -> Seq<Seq<u8>>
    decreases s.len(),
{
    if s.len() == 0 {
        Seq::empty()
    } else if is_ws(s[0]) {
        ws_split(s.skip(1))
    } else {
        let k = vstd::math::min(1 + find_ws(s.skip(1)) as int, s.len() as int);
        seq![s.take(k)] + ws_split(s.skip(k))
    }
}

/// The element-wise views of a sequence of byte vectors.
pub open spec fn views(vs: Seq<Vec<u8>>) -> Seq<Seq<u8>> {
    vs.map_values(|v: Vec<u8>| v@)
}

/// Splits `line` on runs of ASCII whitespace; no field is empty.
#[verifier::loop_isolation(false)]
pub fn split_whitespace(line: &Vec<u8>) -> (r: Vec<Vec<u8>>)
    ensures
        views(r@) == ws_split(line@),
{
    let n = line.len();
    let mut r: Vec<Vec<u8>> = Vec::new();
    let mut i: usize = 0;
    proof {
        assert(line@.skip(0) =~= line@);
        assert(views(r@) =~= Seq::<Seq<u8>>::empty());
    }
    while i < n
        invariant
            0 <= i <= n,
            n == line@.len(),
            ws_split(line@) =~= views(r@) + ws_split(line@.skip(i as int)),
        decreases n - i,
    {
        if is_ws_byte(line[i]) {
            proof {
                assert(line@.skip(i as int).skip(1) =~= line@.skip(i + 1));
            }
            i += 1;
        } else {
            let start = i;
            let mut j = i + 1;
            while j < n && !is_ws_byte(line[j])
                invariant
                    start < j <= n,
                    forall|m: int| start < m < j ==> !is_ws(line@[m]),
                decreases n - j,
            {
                j += 1;
            }
            proof {
                let rest = line@.skip(start as int);
                lemma_find_ws(rest);
                assert forall|m: int| 0 <= m < j - start implies !is_ws(#[trigger] rest[m]) by {
                    assert(rest[m] == line@[start + m]);
                }
                if j < n {
                    assert(rest[j - start] == line@[j as int]);
                }
                lemma_find_ws_at(rest, (j - start) as nat);
                assert(rest.take(j - start) =~= line@.subrange(start as int, j as int));
                assert(rest.skip(j - start) =~= line@.skip(j as int));
            }
            let tok = sub_vec(line, start, j);
            r.push(tok);
            proof {
                assert(views(r@) =~= views(r@.drop_last()) + seq![tok@]);
                assert(ws_split(line@) =~= views(r@) + ws_split(line@.skip(j as int)));
            }
            i = j;
        }
    }
    proof {
        assert(ws_split(line@.skip(n as int)) =~= Seq::<Seq<u8>>::empty());
        assert(ws_split(line@) =~= views(r@));
    }
    r
}

} // verus!
