use vstd::prelude::*;

verus! {

/// The largest multiple of `per_page` that is strictly below `amount`,
/// or zero when no positive multiple is: the start index of the last page.
pub open spec fn spec_last_multiple(per_page: nat, amount: nat) -> nat {
    if amount % per_page == 0 {
        if amount >= per_page {
            (amount - per_page) as nat
        } else {
            0
        }
    } else {
        (amount - amount % per_page) as nat
    }
}

/// Start index of the last page when `amount` entries are shown
/// `per_page` at a time.
pub fn last_multiple(per_page: usize, amount: usize) -> (r: usize)
    requires
        per_page >= 1,
    ensures
        r == spec_last_multiple(per_page as nat, amount as nat),
        amount > 0 ==> r < amount,
        amount == 0 ==> r == 0,
        r % per_page == 0,
{
    let rem = amount % per_page;

    proof {
        vstd::arithmetic::div_mod::lemma_mod_decreases(amount as nat, per_page as nat);
        vstd::arithmetic::div_mod::lemma_mod_bound(amount as int, per_page as int);
    }

    if rem == 0 {
        if amount >= per_page {
            proof {
                vstd::arithmetic::div_mod::lemma_mod_sub_multiples_vanish(
                    amount as int,
                    per_page as int,
                );
            }
            amount - per_page
        } else {
            proof {
                vstd::arithmetic::div_mod::lemma_small_mod(0, per_page as nat);
            }
            0
        }
    } else {
        proof {
            assert((amount - rem) % (per_page as int) == 0) by (nonlinear_arith)
                requires
                    per_page >= 1,
                    rem == amount % per_page,
                    amount >= rem,
            ;
        }
        amount - rem
    }
}

/// Whether `c` is Unicode whitespace. The table is the standard
/// library's; nothing further is assumed of it.
pub uninterp spec fn unicode_whitespace(c: char) -> bool;

/// Relies on char::is_whitespace: a property table of the character
/// alone, named `unicode_whitespace` here.
#[verifier::external_body]
pub fn is_whitespace_char(c: char) -> (r: bool)
    ensures
        r == unicode_whitespace(c),
{
    c.is_whitespace()
}

/// Character-wise string equality.
pub fn str_eq(a: &str, b: &str) -> (r: bool)
    ensures
        r == (a@ == b@),
{
    let alen = a.unicode_len();
    let blen = b.unicode_len();

    if alen != blen {
        proof {
            assert(a@.len() != b@.len());
        }
        return false;
    }

    let mut i: usize = 0;

    while i < alen
        invariant
            i <= alen,
            alen == a@.len(),
            blen == b@.len(),
            alen == blen,
            forall|j: int| 0 <= j < i ==> a@[j] == b@[j],
        decreases alen - i,
    {
        if a.get_char(i) != b.get_char(i) {
            return false;
        }
        i = i + 1;
    }

    proof {
        assert(a@ =~= b@);
    }

    true
}

pub open spec fn is_digit_char(c: char) -> bool {
    48 <= c as u32 <= 57
}

pub open spec fn digit_val(c: char) -> nat {
    (c as u32 - 48) as nat
}

pub open spec fn all_digits(s: Seq<char>) -> bool {
    forall|i: int| 0 <= i < s.len() ==> is_digit_char(s[i])
}

/// The number a sequence of decimal digits denotes.
pub open spec fn dec_value(s: Seq<char>) -> nat
    decreases s.len(),
{
    if s.len() == 0 {
        0
    } else {
        dec_value(s.drop_last()) * 10 + digit_val(s.last())
    }
}

/// A longer digit string never denotes a smaller number.
pub proof fn lemma_dec_value_prefix_le(s: Seq<char>, i: int)
    requires
        0 <= i <= s.len(),
    ensures
        dec_value(s.take(i)) <= dec_value(s),
    decreases s.len() - i,
{
    if i < s.len() {
        lemma_dec_value_prefix_le(s, i + 1);
        assert(s.take(i + 1).drop_last() =~= s.take(i));
        assert(dec_value(s.take(i + 1)) == dec_value(s.take(i)) * 10 + digit_val(s.take(i + 1).last()));
        assert(dec_value(s.take(i)) * 10 >= dec_value(s.take(i))) by (nonlinear_arith);
    } else {
        assert(s.take(i) =~= s);
    }
}

pub open spec fn digit_char(d: nat) -> char {
    if d == 0 {
        '0'
    } else if d == 1 {
        '1'
    } else if d == 2 {
        '2'
    } else if d == 3 {
        '3'
    } else if d == 4 {
        '4'
    } else if d == 5 {
        '5'
    } else if d == 6 {
        '6'
    } else if d == 7 {
        '7'
    } else if d == 8 {
        '8'
    } else {
        '9'
    }
}

fn digit_str(d: u64) -> (r: &'static str)
    requires
        d < 10,
    ensures
        r@ =~= seq![digit_char(d as nat)],
{
    proof {
        reveal_strlit("0");
        reveal_strlit("1");
        reveal_strlit("2");
        reveal_strlit("3");
        reveal_strlit("4");
        reveal_strlit("5");
        reveal_strlit("6");
        reveal_strlit("7");
        reveal_strlit("8");
        reveal_strlit("9");
    }

    match d {
        0 => "0",
        1 => "1",
        2 => "2",
        3 => "3",
        4 => "4",
        5 => "5",
        6 => "6",
        7 => "7",
        8 => "8",
        _ => "9",
    }
}

/// The decimal digit string of `n`, most significant digit first.
pub open spec fn spec_dec_chars(n: nat) -> Seq<char>
    decreases n,
{
    if n < 10 {
        seq![digit_char(n)]
    } else {
        spec_dec_chars(n / 10).push(digit_char(n % 10))
    }
}

/// Format `n` in decimal.
pub fn u64_to_string(n: u64) -> (r: String)
    ensures
        r@ == spec_dec_chars(n as nat),
    decreases n,
{
    if n < 10 {
        String::from_str(digit_str(n))
    } else {
        let mut s = u64_to_string(n / 10);
        s.append(digit_str(n % 10));
        proof {
            assert(s@ =~= spec_dec_chars(n as nat));
        }
        s
    }
}

/// Parse a decimal number. Succeeds exactly on nonempty all-digit
/// strings whose value fits in a `u64`.
pub fn parse_u64(s: &str) -> (r: Option<u64>)
    ensures
        match r {
            Some(v) => s@.len() > 0 && all_digits(s@) && v == dec_value(s@),
            None => s@.len() == 0 || !all_digits(s@) || dec_value(s@) > u64::MAX,
        },
{
    let len = s.unicode_len();

    if len == 0 {
        return None;
    }

    let mut acc: u64 = 0;
    let mut i: usize = 0;

    while i < len
        invariant
            i <= len,
            len == s@.len(),
            forall|j: int| 0 <= j < i ==> is_digit_char(s@[j]),
            acc == dec_value(s@.take(i as int)),
        decreases len - i,
    {
        let c = s.get_char(i);
        let code = c as u32;

        if code < 48 || code > 57 {
            return None;
        }

        let d = (code - 48) as u64;

        if acc > (u64::MAX - d) / 10 {
            proof {
                assert(s@.take(i as int + 1).drop_last() =~= s@.take(i as int));
                assert(dec_value(s@.take(i as int + 1)) == acc * 10 + d);
                assert(acc * 10 + d > u64::MAX) by (nonlinear_arith)
                    requires
                        acc > (u64::MAX - d) / 10,
                        d < 10,
                        acc <= u64::MAX,
                ;
                lemma_dec_value_prefix_le(s@, i as int + 1);
            }
            return None;
        }

        proof {
            assert(s@.take(i as int + 1).drop_last() =~= s@.take(i as int));
            assert(acc * 10 + d <= u64::MAX) by (nonlinear_arith)
                requires
                    acc <= (u64::MAX - d) / 10,
                    d < 10,
            ;
        }

        acc = acc * 10 + d;
        i = i + 1;
    }

    proof {
        assert(s@.take(len as int) =~= s@);
    }

    Some(acc)
}

/// `c` with an ASCII capital letter folded to lower case; anything
/// else unchanged.
pub open spec fn lower_char(c: char) -> char {
    if 65 <= c as u32 <= 90 {
        ((c as u8) + 32) as char
    } else {
        c
    }
}

pub fn to_lower_char(c: char) -> (r: char)
    ensures
        r == lower_char(c),
{
    let code = c as u32;

    if 65 <= code && code <= 90 {
        ((c as u8) + 32) as char
    } else {
        c
    }
}

/// `s` with ASCII capital letters folded to lower case.
pub fn to_lowercase(s: &str) -> (r: String)
    ensures
        r@ == s@.map_values(|c: char| lower_char(c)),
{
    let len = s.unicode_len();
    let mut out: Vec<char> = Vec::new();
    let mut i: usize = 0;

    while i < len
        invariant
            i <= len,
            len == s@.len(),
            out@ == s@.take(i as int).map_values(|c: char| lower_char(c)),
        decreases len - i,
    {
        out.push(to_lower_char(s.get_char(i)));
        proof {
            assert(s@.take(i as int + 1) =~= s@.take(i as int).push(s@[i as int]));
            assert(s@.take(i as int + 1).map_values(|c: char| lower_char(c)) =~= s@.take(
                i as int,
            ).map_values(|c: char| lower_char(c)).push(lower_char(s@[i as int])));
        }
        i = i + 1;
    }

    proof {
        assert(s@.take(len as int) =~= s@);
    }

    chars_to_string(out)
}

/// Build a `String` from its characters.
pub fn chars_to_string(chars: Vec<char>) -> (r: String)
    ensures
        r@ == chars@,
{
    let n = chars.len();
    let mut out = String::new();
    let mut i: usize = 0;

    while i < n
        invariant
            i <= n,
            n == chars@.len(),
            out@ == chars@.take(i as int),
        decreases n - i,
    {
        push_char(&mut out, chars[i]);
        i = i + 1;
    }

    proof {
        assert(chars@.take(n as int) =~= chars@);
    }

    out
}

/// Relies on String::push: appends the one character.
#[verifier::external_body]
pub fn push_char(s: &mut String, c: char)
    ensures
        final(s)@ == old(s)@.push(c),
{
    s.push(c);
}

/// Whether `p` occurs in `s` starting at position `pos`.
pub open spec fn spec_starts_with_at(s: Seq<char>, pos: int, p: Seq<char>) -> bool {
    &&& 0 <= pos
    &&& pos + p.len() <= s.len()
    &&& s.subrange(pos, pos + p.len() as int) == p
}

/// Whether `prefix` occurs in `s` starting at position `pos`.
pub fn str_starts_with_at(s: &str, pos: usize, prefix: &str) -> (r: bool)
    ensures
        r == spec_starts_with_at(s@, pos as int, prefix@),
{
    let slen = s.unicode_len();
    let plen = prefix.unicode_len();

    if pos > slen || slen - pos < plen {
        return false;
    }

    let mut i: usize = 0;

    while i < plen
        invariant
            i <= plen,
            slen == s@.len(),
            plen == prefix@.len(),
            pos + plen <= slen,
            forall|j: int| 0 <= j < i ==> s@[pos + j] == prefix@[j],
        decreases plen - i,
    {
        if s.get_char(pos + i) != prefix.get_char(i) {
            proof {
                assert(s@.subrange(pos as int, pos + plen as int)[i as int] == s@[pos + i]);
            }
            return false;
        }
        i = i + 1;
    }

    proof {
        assert(s@.subrange(pos as int, pos + plen as int) =~= prefix@);
    }

    true
}

/// Whether `v` holds `x`.
pub fn contains_u64(v: &Vec<u64>, x: u64) -> (r: bool)
    ensures
        r == v@.contains(x),
{
    let mut i: usize = 0;

    while i < v.len()
        invariant
            i <= v@.len(),
            forall|j: int| 0 <= j < i ==> v@[j] != x,
        decreases v@.len() - i,
    {
        if v[i] == x {
            return true;
        }
        i = i + 1;
    }

    proof {
        assert(forall|j: int| 0 <= j < v@.len() ==> v@[j] != x);
    }

    false
}

} // verus!
