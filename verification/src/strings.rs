//! Verified building blocks for the small string languages this crate
//! parses and renders: character-level splitting and joining, decimal and
//! hexadecimal numerals, and ASCII case folding.

use vstd::prelude::*;

verus! {

/// Relies on String::push: appends exactly the given character.
#[verifier::external_body]
pub(crate) fn push_char(s: &mut String, c: char)
    ensures
        final(s)@ == old(s)@.push(c),
{
    s.push(c);
}

/// Number of occurrences of `sep` in `s`.
pub open spec fn count_char(s: Seq<char>, sep: char) -> nat
    decreases s.len(),
{
    if s.len() == 0 {
        0
    } else {
        count_char(s.drop_last(), sep) + if s.last() == sep {
            1nat
        } else {
            0nat
        }
    }
}

/// The pieces of `s` between occurrences of `sep`; always non-empty,
/// with one piece more than there are separators.
pub open spec fn spec_split(s: Seq<char>, sep: char) -> Seq<Seq<char>>
    decreases s.len(),
{
    if s.len() == 0 {
        seq![Seq::<char>::empty()]
    } else if s.last() == sep {
        spec_split(s.drop_last(), sep).push(Seq::<char>::empty())
    } else {
        let prev = spec_split(s.drop_last(), sep);
        prev.update(prev.len() - 1, prev.last().push(s.last()))
    }
}

/// The pieces glued back together with `sep` between them.
pub open spec fn spec_join(parts: Seq<Seq<char>>, sep: char) -> Seq<char>
    decreases parts.len(),
{
    if parts.len() == 0 {
        Seq::empty()
    } else if parts.len() == 1 {
        parts[0]
    } else {
        spec_join(parts.drop_last(), sep).push(sep) + parts.last()
    }
}

pub proof fn lemma_split_len(s: Seq<char>, sep: char)
    ensures
        spec_split(s, sep).len() == count_char(s, sep) + 1,
    decreases s.len(),
{
    if s.len() > 0 {
        lemma_split_len(s.drop_last(), sep);
    }
}

/// No piece of the split contains the separator.
pub proof fn lemma_split_no_sep(s: Seq<char>, sep: char)
    ensures
        forall|i: int|
            0 <= i < spec_split(s, sep).len() ==> !spec_split(s, sep)[i].contains(sep),
    decreases s.len(),
{
    if s.len() > 0 {
        lemma_split_no_sep(s.drop_last(), sep);
        lemma_split_len(s.drop_last(), sep);
        let prev = spec_split(s.drop_last(), sep);
        let cur = spec_split(s, sep);
        if s.last() == sep {
            assert forall|i: int| 0 <= i < cur.len() implies !cur[i].contains(sep) by {
                if i < prev.len() {
                    assert(!prev[i].contains(sep));
                } else {
                    assert(cur[i] =~= Seq::<char>::empty());
                }
            }
        } else {
            let ext = prev.last().push(s.last());
            assert(!ext.contains(sep)) by {
                assert forall|j: int| 0 <= j < ext.len() implies ext[j] != sep by {
                    if j < ext.len() - 1 {
                        assert(!prev.last().contains(sep));
                        assert(prev.last()[j] != sep);
                    }
                }
            }
            assert forall|i: int| 0 <= i < cur.len() implies !cur[i].contains(sep) by {
                if i < prev.len() - 1 {
                    assert(cur[i] == prev[i]);
                    assert(!prev[i].contains(sep));
                } else {
                    assert(cur[i] == ext);
                }
            }
        }
    }
}

/// A string without the separator splits into itself alone.
pub proof fn lemma_split_whole(s: Seq<char>, sep: char)
    requires
        !s.contains(sep),
    ensures
        spec_split(s, sep) == seq![s],
    decreases s.len(),
{
    if s.len() == 0 {
        assert(spec_split(s, sep) =~~= seq![s]);
    } else {
        assert(s[s.len() - 1] != sep);
        assert(!s.drop_last().contains(sep)) by {
            assert forall|i: int| 0 <= i < s.drop_last().len() implies s.drop_last()[i] != sep by {
                assert(s[i] != sep);
            }
        }
        lemma_split_whole(s.drop_last(), sep);
        assert(s.drop_last().push(s.last()) =~= s);
        assert(spec_split(s, sep) =~~= seq![s]);
    }
}

/// Appending separator-free text extends the last piece of the split.
pub proof fn lemma_split_append_no_sep(s: Seq<char>, t: Seq<char>, sep: char)
    requires
        !t.contains(sep),
    ensures
        ({
            let prev = spec_split(s, sep);
            spec_split(s + t, sep) == prev.update(prev.len() - 1, prev.last() + t)
        }),
    decreases t.len(),
{
    let prev = spec_split(s, sep);
    lemma_split_len(s, sep);
    if t.len() == 0 {
        assert(s + t =~= s);
        assert(prev.last() + t =~= prev.last());
        assert(prev.update(prev.len() - 1, prev.last() + t) =~= prev);
    } else {
        assert(t[t.len() - 1] != sep);
        assert(!t.drop_last().contains(sep)) by {
            assert forall|i: int| 0 <= i < t.drop_last().len() implies t.drop_last()[i] != sep by {
                assert(t[i] != sep);
            }
        }
        lemma_split_append_no_sep(s, t.drop_last(), sep);
        let u = s + t;
        assert(u.last() == t.last());
        assert(u.drop_last() =~= s + t.drop_last());
        let mid = prev.update(prev.len() - 1, prev.last() + t.drop_last());
        assert(spec_split(u.drop_last(), sep) == mid);
        assert(u.last() != sep);
        assert(mid.len() == prev.len());
        assert(spec_split(u, sep) == mid.update(mid.len() - 1, mid.last().push(u.last())));
        assert(mid.last() == prev.last() + t.drop_last());
        assert((prev.last() + t.drop_last()).push(t.last()) =~= prev.last() + t);
        assert(spec_split(u, sep) =~= prev.update(prev.len() - 1, prev.last() + t));
    }
}

/// Splitting around a single separator between separator-free halves.
pub proof fn lemma_split_two(a: Seq<char>, b: Seq<char>, sep: char)
    requires
        !a.contains(sep),
        !b.contains(sep),
    ensures
        spec_split(a + seq![sep] + b, sep) == seq![a, b],
    decreases b.len(),
{
    lemma_split_whole(a, sep);
    let m = a + seq![sep];
    assert(m.last() == sep);
    assert(m.drop_last() =~= a);
    assert(spec_split(m, sep) =~~= seq![a, Seq::<char>::empty()]);
    lemma_split_append_no_sep(m, b, sep);
    assert(a + seq![sep] + b =~= m + b);
    assert(Seq::<char>::empty() + b =~= b);
    assert(spec_split(a + seq![sep] + b, sep) =~~= seq![a, b]);
}

/// Splits `s` at every occurrence of `sep`.
pub fn split_char(s: &str, sep: char) -> (parts: Vec<String>)
    ensures
        parts.deep_view() == spec_split(s@, sep),
{
    let n = s.unicode_len();
    let mut parts: Vec<String> = Vec::new();
    let mut cur: String = String::new();
    let mut i: usize = 0;
    while i < n
        invariant
            i <= n,
            n == s@.len(),
            spec_split(s@.take(i as int), sep) == parts.deep_view().push(cur@),
        decreases n - i,
    {
        let ghost pre = s@.take(i as int);
        let ghost old_parts = parts.deep_view();
        let ghost old_cur = cur@;
        let c = s.get_char(i);
        if c == sep {
            parts.push(cur);
            cur = String::new();
            assert(parts.deep_view() =~= old_parts.push(old_cur));
        } else {
            push_char(&mut cur, c);
        }
        i += 1;
        proof {
            let now = s@.take(i as int);
            assert(now.drop_last() =~= pre);
            assert(now.last() == c);
            if c == sep {
                assert(spec_split(now, sep) =~= parts.deep_view().push(cur@));
            } else {
                let prev = spec_split(pre, sep);
                assert(prev.last() == old_cur);
                assert(spec_split(now, sep) =~= prev.update(prev.len() - 1, old_cur.push(c)));
                assert(prev.update(prev.len() - 1, old_cur.push(c)) =~= old_parts.push(cur@));
            }
        }
    }
    assert(s@.take(n as int) =~= s@);
    let ghost old_parts = parts.deep_view();
    parts.push(cur);
    assert(parts.deep_view() =~= old_parts.push(cur@));
    parts
}

/// Character-for-character string equality.
pub fn str_eq(a: &str, b: &str) -> (r: bool)
    ensures
        r == (a@ == b@),
{
    let n = a.unicode_len();
    if n != b.unicode_len() {
        return false;
    }
    let mut i: usize = 0;
    while i < n
        invariant
            i <= n,
            n == a@.len(),
            n == b@.len(),
            forall|k: int| 0 <= k < i ==> a@[k] == b@[k],
        decreases n - i,
    {
        if a.get_char(i) != b.get_char(i) {
            return false;
        }
        i += 1;
    }
    assert(a@ =~= b@);
    true
}

} // verus!

verus! {

pub open spec fn is_digit(c: char) -> bool {
    48 <= c as int <= 57
}

pub open spec fn digit_val(c: char) -> nat {
    (c as int - 48) as nat
}

pub open spec fn all_digits(s: Seq<char>) -> bool {
    forall|i: int| 0 <= i < s.len() ==> is_digit(s[i])
}

/// Value of a string of decimal digits, most significant first.
pub open spec fn digits_val(s: Seq<char>) -> nat
    decreases s.len(),
{
    if s.len() == 0 {
        0
    } else {
        digits_val(s.drop_last()) * 10 + digit_val(s.last())
    }
}

/// What a decimal numeral means: a non-empty all-digit string whose value
/// fits in a `u32`; anything else is rejected.
pub open spec fn spec_parse_u32(s: Seq<char>) -> Option<u32> {
    if s.len() > 0 && all_digits(s) && digits_val(s) <= u32::MAX {
        Some(digits_val(s) as u32)
    } else {
        None
    }
}

/// The value of a digit-string prefix never exceeds the whole string's value.
proof fn lemma_digits_val_prefix(s: Seq<char>, i: int, j: int)
    requires
        0 <= i <= j <= s.len(),
    ensures
        digits_val(s.take(i)) <= digits_val(s.take(j)),
    decreases j - i,
{
    if i < j {
        lemma_digits_val_prefix(s, i, j - 1);
        let p = s.take(j);
        assert(p.drop_last() =~= s.take(j - 1));
        assert(digits_val(s.take(j - 1)) * 10 >= digits_val(s.take(j - 1)));
    }
}

/// Parses a decimal numeral; digits only, no sign, no surrounding space.
pub fn parse_u32(s: &str) -> (r: Option<u32>)
    ensures
        r == spec_parse_u32(s@),
{
    let n = s.unicode_len();
    if n == 0 {
        return None;
    }
    let mut acc: u64 = 0;
    let mut i: usize = 0;
    while i < n
        invariant
            i <= n,
            0 < n == s@.len(),
            all_digits(s@.take(i as int)),
            acc == digits_val(s@.take(i as int)),
            acc <= u32::MAX,
        decreases n - i,
    {
        let c = s.get_char(i);
        let cv = c as u64;
        if cv < 48 || cv > 57 {
            assert(!is_digit(s@[i as int]));
            return None;
        }
        let ghost pre = s@.take(i as int);
        acc = acc * 10 + (cv - 48);
        i += 1;
        proof {
            let now = s@.take(i as int);
            assert(now.drop_last() =~= pre);
            assert(now.last() == c);
        }
        if acc > 0xffff_ffff {
            proof {
                if all_digits(s@) {
                    lemma_digits_val_prefix(s@, i as int, n as int);
                    assert(s@.take(n as int) =~= s@);
                }
            }
            return None;
        }
    }
    assert(s@.take(n as int) =~= s@);
    Some(acc as u32)
}

pub open spec fn dec_digit(d: nat) -> char {
    ((48 + d % 10) as u8) as char
}

/// Decimal rendering of `n`, without leading zeros.
pub open spec fn dec_str(n: nat) -> Seq<char>
    decreases n,
{
    if n < 10 {
        seq![dec_digit(n)]
    } else {
        dec_str(n / 10).push(dec_digit(n % 10))
    }
}

fn digit_char(d: u32) -> (c: char)
    requires
        d < 10,
    ensures
        c == dec_digit(d as nat),
{
    ((48 + d) as u8) as char
}

/// Renders `n` in decimal.
pub fn u32_to_string(n: u32) -> (r: String)
    ensures
        r@ == dec_str(n as nat),
    decreases n,
{
    if n < 10 {
        let mut s = String::new();
        push_char(&mut s, digit_char(n));
        assert(s@ =~= dec_str(n as nat));
        s
    } else {
        let mut s = u32_to_string(n / 10);
        push_char(&mut s, digit_char(n % 10));
        assert(s@ =~= dec_str(n as nat));
        s
    }
}

/// A decimal rendering is all digits and parses back to the same value.
pub proof fn lemma_dec_str_round_trip(n: nat)
    ensures
        n <= u32::MAX ==> spec_parse_u32(dec_str(n)) == Some(n as u32),
        all_digits(dec_str(n)),
        dec_str(n).len() > 0,
        digits_val(dec_str(n)) == n,
    decreases n,
{
    if n < 10 {
        let s = dec_str(n);
        assert(s.len() == 1 && s.last() == dec_digit(n));
        assert(s.drop_last() =~= Seq::<char>::empty());
        assert(digits_val(s) == digits_val(s.drop_last()) * 10 + digit_val(s.last()));
        assert(digit_val(dec_digit(n)) == n);
    } else {
        lemma_dec_str_round_trip(n / 10);
        let s = dec_str(n);
        assert(s.drop_last() =~= dec_str(n / 10));
        assert(digit_val(dec_digit(n % 10)) == n % 10);
        assert(digits_val(s) == (n / 10) * 10 + n % 10);
        assert((n / 10) * 10 + n % 10 == n) by (nonlinear_arith);
        assert forall|i: int| 0 <= i < s.len() implies is_digit(s[i]) by {
            if i < s.len() - 1 {
                assert(s[i] == dec_str(n / 10)[i]);
            }
        }
    }
}

/// A decimal numeral never contains these separator characters.
pub proof fn lemma_dec_str_no_sep(n: nat)
    ensures
        !dec_str(n).contains(':'),
        !dec_str(n).contains('.'),
        !dec_str(n).contains('/'),
{
    lemma_dec_str_round_trip(n);
    let s = dec_str(n);
    assert forall|i: int| 0 <= i < s.len() implies s[i] != ':' && s[i] != '.' && s[i] != '/' by {
        assert(is_digit(s[i]));
        assert(':' as int == 58 && '.' as int == 46 && '/' as int == 47);
    }
}

pub open spec fn hex_digit(d: nat) -> char {
    if d % 16 < 10 {
        ((48 + d % 16) as u8) as char
    } else {
        ((87 + d % 16) as u8) as char
    }
}

/// Lowercase hexadecimal rendering of `n`, without leading zeros.
pub open spec fn hex_str(n: nat) -> Seq<char>
    decreases n,
{
    if n < 16 {
        seq![hex_digit(n)]
    } else {
        hex_str(n / 16).push(hex_digit(n % 16))
    }
}

fn hex_digit_char(d: u64) -> (c: char)
    requires
        d < 16,
    ensures
        c == hex_digit(d as nat),
{
    if d < 10 {
        ((48 + d) as u8) as char
    } else {
        ((87 + d) as u8) as char
    }
}

/// Renders `n` in lowercase hexadecimal.
pub fn u64_to_hex_string(n: u64) -> (r: String)
    ensures
        r@ == hex_str(n as nat),
    decreases n,
{
    if n < 16 {
        let mut s = String::new();
        push_char(&mut s, hex_digit_char(n));
        assert(s@ =~= hex_str(n as nat));
        s
    } else {
        let mut s = u64_to_hex_string(n / 16);
        push_char(&mut s, hex_digit_char(n % 16));
        assert(s@ =~= hex_str(n as nat));
        s
    }
}

/// ASCII lowercasing of one character; other characters are unchanged.
pub open spec fn lower_char(c: char) -> char {
    if 65 <= c as int <= 90 {
        ((c as int + 32) as u8) as char
    } else {
        c
    }
}

pub open spec fn lower_seq(s: Seq<char>) -> Seq<char> {
    s.map_values(|c: char| lower_char(c))
}

fn lower_char_exec(c: char) -> (r: char)
    ensures
        r == lower_char(c),
{
    let cv = c as u32;
    if 65 <= cv && cv <= 90 {
        ((cv + 32) as u8) as char
    } else {
        c
    }
}

/// ASCII-lowercases a string; non-ASCII characters are kept as they are.
pub fn to_ascii_lower(s: &str) -> (r: String)
    ensures
        r@ == lower_seq(s@),
{
    let n = s.unicode_len();
    let mut out = String::new();
    let mut i: usize = 0;
    while i < n
        invariant
            i <= n,
            n == s@.len(),
            out@ =~= lower_seq(s@).take(i as int),
        decreases n - i,
    {
        push_char(&mut out, lower_char_exec(s.get_char(i)));
        i += 1;
        assert(out@ =~= lower_seq(s@).take(i as int));
    }
    assert(lower_seq(s@).take(n as int) =~= lower_seq(s@));
    out
}

/// Tests whether `s` starts with the prefix, character for character.
pub fn starts_with(s: &str, prefix: &str) -> (r: bool)
    ensures
        r == (s@.len() >= prefix@.len() && s@.take(prefix@.len() as int) == prefix@),
{
    let n = prefix.unicode_len();
    if s.unicode_len() < n {
        return false;
    }
    let mut i: usize = 0;
    while i < n
        invariant
            i <= n,
            n == prefix@.len(),
            s@.len() >= n,
            forall|k: int| 0 <= k < i ==> s@[k] == prefix@[k],
        decreases n - i,
    {
        if s.get_char(i) != prefix.get_char(i) {
            assert(s@.take(n as int)[i as int] != prefix@[i as int]);
            return false;
        }
        i += 1;
    }
    assert(s@.take(n as int) =~= prefix@);
    true
}

/// The suffix of `s` after its first `k` characters.
pub fn skip_chars(s: &str, k: usize) -> (r: String)
    requires
        k <= s@.len(),
    ensures
        r@ == s@.skip(k as int),
{
    let n = s.unicode_len();
    let mut out = String::new();
    let mut i: usize = k;
    while i < n
        invariant
            k <= i <= n,
            n == s@.len(),
            out@ =~= s@.subrange(k as int, i as int),
        decreases n - i,
    {
        push_char(&mut out, s.get_char(i));
        i += 1;
        assert(out@ =~= s@.subrange(k as int, i as int));
    }
    assert(s@.subrange(k as int, n as int) =~= s@.skip(k as int));
    out
}

} // verus!

verus! {

/// Tests whether `s` ends with the suffix, character for character.
pub fn ends_with(s: &str, suffix: &str) -> (r: bool)
    ensures
        r == (s@.len() >= suffix@.len() && s@.skip(s@.len() - suffix@.len()) == suffix@),
{
    let n = suffix.unicode_len();
    let m = s.unicode_len();
    if m < n {
        return false;
    }
    let off = m - n;
    let ghost tail = s@.skip(s@.len() - suffix@.len());
    let mut i: usize = 0;
    while i < n
        invariant
            i <= n,
            n == suffix@.len(),
            m == s@.len(),
            off == m - n,
            tail == s@.skip(s@.len() - suffix@.len()),
            forall|k: int| 0 <= k < i ==> tail[k] == suffix@[k],
        decreases n - i,
    {
        if s.get_char(off + i) != suffix.get_char(i) {
            assert(tail[i as int] != suffix@[i as int]);
            return false;
        }
        i += 1;
        assert(tail[i - 1] == suffix@[i - 1]);
    }
    assert(tail =~= suffix@);
    true
}

/// Joins `parts[from..to]` with the separator between the pieces.
pub fn join_range(parts: &Vec<String>, sep: char, from: usize, to: usize) -> (r: String)
    requires
        from <= to <= parts@.len(),
    ensures
        r@ == spec_join(parts.deep_view().subrange(from as int, to as int), sep),
{
    let ghost pdeep = parts.deep_view();
    let mut out = String::new();
    if from >= to {
        assert(pdeep.subrange(from as int, to as int) =~= Seq::<Seq<char>>::empty());
        return out;
    }
    out.append(parts[from].as_str());
    assert(out@ == spec_join(pdeep.subrange(from as int, from as int + 1), sep));
    let mut i: usize = from + 1;
    while i < to
        invariant
            from < i <= to,
            to <= parts@.len(),
            pdeep == parts.deep_view(),
            out@ == spec_join(pdeep.subrange(from as int, i as int), sep),
        decreases to - i,
    {
        push_char(&mut out, sep);
        out.append(parts[i].as_str());
        i += 1;
        proof {
            assert(pdeep.subrange(from as int, i as int).drop_last() =~= pdeep.subrange(
                from as int,
                i as int - 1,
            ));
            assert(out@ =~= spec_join(pdeep.subrange(from as int, i as int), sep));
        }
    }
    out
}

} // verus!
