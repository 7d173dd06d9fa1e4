//! Version numbers of the emulator release and the fallback to the
//! previous release when the newest one is not published yet.
use vstd::prelude::*;
use crate::decimal::{
    decimal, is_digit, lemma_decimal_digits, lemma_parse_decimal_roundtrip,
    parse_u64_chars, spec_decimal, spec_parse_u64,
};
use crate::text::{chars_of, string_of};

verus! {

/// The pieces of `s` between occurrences of `sep`, as `str::split` yields
/// them: empty pieces included, and one piece more than there are separators.
pub open spec fn split_on(s: Seq<char>, sep: char) -> Seq<Seq<char>>
    decreases s.len(),
{
    if s.len() == 0 {
        seq![Seq::<char>::empty()]
    } else {
        let rest = split_on(s.drop_last(), sep);
        if s.last() == sep {
            rest.push(Seq::<char>::empty())
        } else {
            rest.update(rest.len() - 1, rest.last().push(s.last()))
        }
    }
}

/// The numbers among `pieces`: each piece that parses as a `u64`, in order,
/// the others dropped.
pub open spec fn parsed_numbers(pieces: Seq<Seq<char>>) -> Seq<u64>
    decreases pieces.len(),
{
    if pieces.len() == 0 {
        Seq::<u64>::empty()
    } else {
        let head = parsed_numbers(pieces.drop_last());
        match spec_parse_u64(pieces.last()) {
            Some(v) => head.push(v),
            None => head,
        }
    }
}

/// The numbers of a dotted version string.
pub open spec fn version_numbers(version: Seq<char>) -> Seq<u64> {
    parsed_numbers(split_on(version, '.'))
}

/// `a.b.c` written in decimal.
pub open spec fn dotted(a: nat, b: nat, c: nat) -> Seq<char> {
    spec_decimal(a) + seq!['.'] + spec_decimal(b) + seq!['.'] + spec_decimal(c)
}

/// The release before `version`: one patch less, or, at patch zero, the
/// minor before with patch 9; none at `x.0.0` or where `version` does not
/// hold exactly three numbers.
pub open spec fn spec_prev_version(version: Seq<char>) -> Option<Seq<char>> {
    let parts = version_numbers(version);
    if parts.len() != 3 {
        None
    } else if parts[2] > 0 {
        Some(dotted(parts[0] as nat, parts[1] as nat, (parts[2] - 1) as nat))
    } else if parts[1] > 0 {
        Some(dotted(parts[0] as nat, (parts[1] - 1) as nat, 9))
    } else {
        None
    }
}

/// `hay` with every occurrence of `pat` replaced by `rep`, scanning from the
/// left and never overlapping, as `str::replace` does for a non-empty pattern.
pub open spec fn replace_all(hay: Seq<char>, pat: Seq<char>, rep: Seq<char>) -> Seq<char>
    recommends
        pat.len() > 0,
    decreases hay.len(),
{
    if hay.len() == 0 || pat.len() == 0 {
        hay
    } else if pat.len() <= hay.len() && hay.take(pat.len() as int) == pat {
        rep + replace_all(hay.skip(pat.len() as int), pat, rep)
    } else {
        seq![hay[0]] + replace_all(hay.skip(1), pat, rep)
    }
}

/// The download address of the previous release: in `url`, `v<version>`
/// becomes `v<previous>`, and then `/<version>/` becomes `/<previous>/`.
pub open spec fn spec_prev_version_url(url: Seq<char>, version: Seq<char>) -> Option<Seq<char>> {
    match spec_prev_version(version) {
        None => None,
        Some(prev) => Some(
            replace_all(
                replace_all(url, seq!['v'] + version, seq!['v'] + prev),
                seq!['/'] + version + seq!['/'],
                seq!['/'] + prev + seq!['/'],
            ),
        ),
    }
}

proof fn lemma_split_extend(s: Seq<char>, t: Seq<char>, sep: char)
    requires
        forall|i: int| 0 <= i < t.len() ==> t[i] != sep,
    ensures
        split_on(s + t, sep) == split_on(s, sep).update(
            split_on(s, sep).len() - 1,
            split_on(s, sep).last() + t,
        ),
        split_on(s + t, sep).len() == split_on(s, sep).len(),
    decreases t.len(),
{
    lemma_split_nonempty(s, sep);
    if t.len() == 0 {
        assert(s + t =~= s);
        assert(split_on(s, sep).last() + t =~= split_on(s, sep).last());
        assert(split_on(s, sep).update(split_on(s, sep).len() - 1, split_on(s, sep).last())
            =~= split_on(s, sep));
    } else {
        let t2 = t.drop_last();
        assert forall|i: int| 0 <= i < t2.len() implies t2[i] != sep by {
            assert(t2[i] == t[i]);
        }
        assert(t[t.len() - 1] != sep);
        lemma_split_extend(s, t2, sep);
        let rest = split_on(s + t2, sep);
        assert(rest.last() == split_on(s, sep).last() + t2);
        assert((s + t).last() != sep);
        assert((s + t).drop_last() =~= s + t2);
        let r = split_on((s + t).drop_last(), sep);
        assert(r == rest);
        assert(split_on(s + t, sep) == r.update(r.len() - 1, r.last().push((s + t).last())));
        assert(rest.last().push((s + t).last()) =~= split_on(s, sep).last() + t);
        assert(split_on(s + t, sep) =~= split_on(s, sep).update(
            split_on(s, sep).len() - 1,
            split_on(s, sep).last() + t,
        ));
    }
}

proof fn lemma_split_nonempty(s: Seq<char>, sep: char)
    ensures
        split_on(s, sep).len() >= 1,
    decreases s.len(),
{
    if s.len() > 0 {
        lemma_split_nonempty(s.drop_last(), sep);
    }
}

proof fn lemma_no_dot_in_decimal(n: nat)
    ensures
        forall|i: int| 0 <= i < spec_decimal(n).len() ==> spec_decimal(n)[i] != '.',
{
    lemma_decimal_digits(n);
    assert forall|i: int| 0 <= i < spec_decimal(n).len() implies spec_decimal(n)[i] != '.' by {
        assert(is_digit(spec_decimal(n)[i]));
    }
}

proof fn lemma_split_append_piece(pre: Seq<char>, pieces: Seq<Seq<char>>, n: nat)
    requires
        split_on(pre, '.') == pieces.push(Seq::<char>::empty()),
    ensures
        split_on(pre + spec_decimal(n), '.') == pieces.push(spec_decimal(n)),
{
    lemma_no_dot_in_decimal(n);
    lemma_split_extend(pre, spec_decimal(n), '.');
    assert(Seq::<char>::empty() + spec_decimal(n) =~= spec_decimal(n));
    assert(pieces.push(Seq::<char>::empty()).update(pieces.len() as int, spec_decimal(n))
        =~= pieces.push(spec_decimal(n)));
}

proof fn lemma_dotted_numbers(a: u64, b: u64, c: u64)
    ensures
        version_numbers(dotted(a as nat, b as nat, c as nat)) == seq![a, b, c],
{
    let da = spec_decimal(a as nat);
    let db = spec_decimal(b as nat);
    let dc = spec_decimal(c as nat);
    let e = Seq::<char>::empty();
    assert(split_on(e, '.') =~= Seq::<Seq<char>>::empty().push(e));
    lemma_split_append_piece(e, Seq::<Seq<char>>::empty(), a as nat);
    assert(e + da =~= da);
    let s1 = da + seq!['.'];
    assert(s1.drop_last() =~= da);
    assert(split_on(s1, '.') =~= seq![da].push(e));
    lemma_split_append_piece(s1, seq![da], b as nat);
    let s2 = s1 + db + seq!['.'];
    assert(s2.drop_last() =~= s1 + db);
    assert(split_on(s2, '.') =~= seq![da, db].push(e));
    lemma_split_append_piece(s2, seq![da, db], c as nat);
    assert(s2 + dc =~= dotted(a as nat, b as nat, c as nat));
    let pieces = seq![da, db, dc];
    assert(split_on(dotted(a as nat, b as nat, c as nat), '.') =~= pieces);
    lemma_parse_decimal_roundtrip(a);
    lemma_parse_decimal_roundtrip(b);
    lemma_parse_decimal_roundtrip(c);
    assert(pieces.drop_last() =~= seq![da, db]);
    assert(seq![da, db].drop_last() =~= seq![da]);
    assert(seq![da].drop_last() =~= Seq::<Seq<char>>::empty());
    assert(parsed_numbers(Seq::<Seq<char>>::empty()) =~= Seq::<u64>::empty());
    assert(parsed_numbers(seq![da]) =~= seq![a]);
    assert(parsed_numbers(seq![da, db]) =~= seq![a, b]);
    assert(parsed_numbers(pieces) =~= seq![a, b, c]);
}

/// The release that the installer falls back to is older: read back, its
/// numbers are those of `version` with the patch one lower, or with the
/// minor one lower and patch 9.
pub proof fn lemma_prev_version_is_older(version: Seq<char>)
    requires
        spec_prev_version(version) is Some,
    ensures
        version_numbers(version).len() == 3,
        ({
            let now = version_numbers(version);
            let before = version_numbers(spec_prev_version(version).unwrap());
            ||| before == seq![now[0], now[1], (now[2] - 1) as u64]
            ||| (now[2] == 0 && before == seq![now[0], (now[1] - 1) as u64, 9u64])
        }),
{
    let now = version_numbers(version);
    if now[2] > 0 {
        lemma_dotted_numbers(now[0], now[1], (now[2] - 1) as u64);
    } else {
        lemma_dotted_numbers(now[0], (now[1] - 1) as u64, 9);
    }
}

/// The numbers of a dotted version string, as
/// `version.split('.').filter_map(|p| p.parse().ok())` collects them.
pub fn parse_version_numbers(version: &str) -> (res: Vec<u64>)
    ensures
        res@ == version_numbers(version@),
{
    let cs = chars_of(version);
    let n = cs.len();
    let mut parts: Vec<u64> = Vec::new();
    let mut piece: Vec<char> = Vec::new();
    let ghost mut done: Seq<Seq<char>> = Seq::empty();
    let mut i: usize = 0;
    while i < n
        invariant
            i <= n,
            n == cs@.len(),
            cs@ == version@,
            split_on(cs@.take(i as int), '.') == done.push(piece@),
            parts@ == parsed_numbers(done),
        decreases n - i,
    {
        let c = cs[i];
        let ghost prefix = cs@.take(i as int);
        assert(cs@.take(i + 1).drop_last() =~= prefix);
        if c == '.' {
            let v = parse_u64_chars(piece.as_slice());
            proof {
                assert(done.push(piece@).drop_last() =~= done);
                done = done.push(piece@);
            }
            match v {
                Some(x) => parts.push(x),
                None => {},
            }
            piece = Vec::new();
            assert(split_on(cs@.take(i + 1), '.') =~= done.push(piece@));
        } else {
            piece.push(c);
            assert(split_on(cs@.take(i + 1), '.') =~= done.push(piece@));
        }
        i = i + 1;
    }
    let v = parse_u64_chars(piece.as_slice());
    match v {
        Some(x) => parts.push(x),
        None => {},
    }
    assert(cs@.take(n as int) =~= cs@);
    assert(done.push(piece@).drop_last() =~= done);
    parts
}

fn push_decimal_chars(out: &mut Vec<char>, n: u64)
    ensures
        final(out)@ == old(out)@ + spec_decimal(n as nat),
{
    let d = chars_of(decimal(n).as_str());
    let mut i: usize = 0;
    let ghost start = out@;
    while i < d.len()
        invariant
            i <= d@.len(),
            d@ == spec_decimal(n as nat),
            out@ == start + d@.take(i as int),
        decreases d@.len() - i,
    {
        out.push(d[i]);
        i = i + 1;
        assert(out@ =~= start + d@.take(i as int));
    }
    assert(d@.take(d@.len() as int) =~= d@);
}

/// The previous release of `version`, as `spec_prev_version` describes.
pub fn prev_version(version: &str) -> (res: Option<Vec<char>>)
    ensures
        res matches Some(r) ==> spec_prev_version(version@) == Some(r@),
        res is None ==> spec_prev_version(version@) is None,
{
    let parts = parse_version_numbers(version);
    if parts.len() != 3 {
        return None;
    }
    let major = parts[0];
    let minor = parts[1];
    let patch = parts[2];
    let mut out: Vec<char> = Vec::new();
    if patch > 0 {
        push_decimal_chars(&mut out, major);
        out.push('.');
        push_decimal_chars(&mut out, minor);
        out.push('.');
        push_decimal_chars(&mut out, patch - 1);
        assert(out@ =~= dotted(major as nat, minor as nat, (patch - 1) as nat));
    } else if minor > 0 {
        push_decimal_chars(&mut out, major);
        out.push('.');
        push_decimal_chars(&mut out, minor - 1);
        out.push('.');
        out.push('9');
        assert(spec_decimal(9) =~= seq!['9']);
        assert(out@ =~= dotted(major as nat, (minor - 1) as nat, 9));
    } else {
        return None;
    }
    Some(out)
}

fn starts_at(hay: &Vec<char>, i: usize, pat: &Vec<char>) -> (res: bool)
    requires
        i <= hay@.len(),
    ensures
        res == (pat@.len() <= hay@.len() - i && hay@.skip(i as int).take(pat@.len() as int)
            == pat@),
{
    if pat.len() > hay.len() - i {
        return false;
    }
    let h = hay.len();
    let mut j: usize = 0;
    while j < pat.len()
        invariant
            j <= pat@.len(),
            h == hay@.len(),
            i <= hay@.len(),
            pat@.len() <= hay@.len() - i,
            forall|k: int| 0 <= k < j ==> hay@[i + k] == pat@[k],
        decreases pat@.len() - j,
    {
        if hay[i + j] != pat[j] {
            assert(hay@.skip(i as int).take(pat@.len() as int)[j as int] != pat@[j as int]);
            return false;
        }
        j = j + 1;
    }
    assert(hay@.skip(i as int).take(pat@.len() as int) =~= pat@);
    true
}

/// `hay` with `pat` replaced by `rep`, as `replace_all` describes.
pub(crate) fn replace_chars(hay: &Vec<char>, pat: &Vec<char>, rep: &Vec<char>) -> (res: Vec<char>)
    requires
        pat@.len() > 0,
    ensures
        res@ == replace_all(hay@, pat@, rep@),
{
    let n = hay.len();
    let mut out: Vec<char> = Vec::new();
    let mut i: usize = 0;
    assert(hay@.skip(0) =~= hay@);
    while i < n
        invariant
            i <= n,
            n == hay@.len(),
            pat@.len() > 0,
            replace_all(hay@, pat@, rep@) == out@ + replace_all(hay@.skip(i as int), pat@, rep@),
        decreases n - i,
    {
        let ghost rest = hay@.skip(i as int);
        let ghost before = out@;
        if starts_at(hay, i, pat) {
            let mut k: usize = 0;
            while k < rep.len()
                invariant
                    k <= rep@.len(),
                    out@ == before + rep@.take(k as int),
                decreases rep@.len() - k,
            {
                out.push(rep[k]);
                k = k + 1;
                assert(out@ =~= before + rep@.take(k as int));
            }
            assert(rep@.take(rep@.len() as int) =~= rep@);
            assert(rest.skip(pat@.len() as int) =~= hay@.skip(i + pat@.len()));
            i = i + pat.len();
            assert(out@ + replace_all(hay@.skip(i as int), pat@, rep@) =~= before + (rep@
                + replace_all(rest.skip(pat@.len() as int), pat@, rep@)));
        } else {
            out.push(hay[i]);
            assert(rest.skip(1) =~= hay@.skip(i + 1));
            assert(rest[0] == hay@[i as int]);
            i = i + 1;
            assert(out@ + replace_all(hay@.skip(i as int), pat@, rep@) =~= before + (seq![rest[0]]
                + replace_all(rest.skip(1), pat@, rep@)));
        }
    }
    assert(hay@.skip(n as int) =~= Seq::<char>::empty());
    assert(out@ + Seq::<char>::empty() =~= out@);
    out
}

fn wrapped(open: char, body: &Vec<char>, close: Option<char>) -> (res: Vec<char>)
    ensures
        res@ == seq![open] + body@ + (match close {
            Some(c) => seq![c],
            None => Seq::<char>::empty(),
        }),
{
    let mut out: Vec<char> = Vec::new();
    out.push(open);
    let mut k: usize = 0;
    while k < body.len()
        invariant
            k <= body@.len(),
            out@ == seq![open] + body@.take(k as int),
        decreases body@.len() - k,
    {
        out.push(body[k]);
        k = k + 1;
        assert(out@ =~= seq![open] + body@.take(k as int));
    }
    assert(body@.take(body@.len() as int) =~= body@);
    match close {
        Some(c) => out.push(c),
        None => {},
    }
    assert(out@ =~= seq![open] + body@ + (match close {
        Some(c) => seq![c],
        None => Seq::<char>::empty(),
    }));
    out
}

/// The download address of the release before `version`, made from `url`
/// by rewriting the version in it; `None` where there is no previous release.
pub fn prev_version_url(url: &str, version: &str) -> (res: Option<String>)
    ensures
        res matches Some(r) ==> spec_prev_version_url(url@, version@) == Some(r@),
        res is None ==> spec_prev_version_url(url@, version@) is None,
{
    let prev = match prev_version(version) {
        Some(p) => p,
        None => return None,
    };
    let ver = chars_of(version);
    let u = chars_of(url);
    let first = replace_chars(&u, &wrapped('v', &ver, None), &wrapped('v', &prev, None));
    let second = replace_chars(&first, &wrapped('/', &ver, Some('/')), &wrapped('/', &prev, Some('/')));
    assert(seq!['v'] + ver@ + Seq::<char>::empty() =~= seq!['v'] + ver@);
    assert(seq!['v'] + prev@ + Seq::<char>::empty() =~= seq!['v'] + prev@);
    Some(string_of(second.as_slice()))
}

} // verus!
