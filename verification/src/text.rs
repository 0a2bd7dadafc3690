use vstd::prelude::*;

verus! {

/// The decimal value of a sequence of ASCII digits.
pub open spec fn digits_value(d: Seq<char>) -> nat
    decreases d.len(),
{
    if d.len() == 0 {
        0
    } else {
        10 * digits_value(d.drop_last()) + ((d.last() as nat) - ('0' as nat)) as nat
    }
}

pub open spec fn is_digit(c: char) -> bool {
    '0' <= c && c <= '9'
}

pub open spec fn all_digits(d: Seq<char>) -> bool {
    forall|i: int| 0 <= i < d.len() ==> is_digit(#[trigger] d[i])
}

/// What `str::parse::<u16>` gives back: an optional `+` sign followed by at least
/// one ASCII digit, with a value that fits in 16 bits.
pub open spec fn parse_u16_spec(s: Seq<char>) -> Option<u16> {
    let d = if s.len() > 1 && s[0] == '+' { s.drop_first() } else { s };
    if d.len() > 0 && all_digits(d) && digits_value(d) <= u16::MAX {
        Some(digits_value(d) as u16)
    } else {
        None
    }
}

/// The index of the first `:` in `s`, if there is one.
pub open spec fn first_colon(s: Seq<char>) -> Option<int> {
    if exists|i: int| 0 <= i < s.len() && s[i] == ':' {
        let i = choose|i: int| 0 <= i < s.len() && s[i] == ':' && forall|j: int| 0 <= j < i ==> s[j] != ':';
        Some(i)
    } else {
        None
    }
}

/// `"HH:MM"` split at its first colon, each half read as a `u16`.
pub open spec fn parse_time_spec(s: Seq<char>) -> Option<(u16, u16)> {
    match first_colon(s) {
        Some(i) => match (parse_u16_spec(s.take(i)), parse_u16_spec(s.skip(i + 1))) {
            (Some(h), Some(m)) => Some((h, m)),
            _ => None,
        },
        None => None,
    }
}

proof fn lemma_first_colon(s: Seq<char>, i: int)
    requires
        0 <= i < s.len(),
        s[i] == ':',
        forall|j: int| 0 <= j < i ==> s[j] != ':',
    ensures
        first_colon(s) == Some(i),
{
    let k = choose|k: int| 0 <= k < s.len() && s[k] == ':' && forall|j: int| 0 <= j < k ==> s[j] != ':';
    assert(0 <= k < s.len() && s[k] == ':' && forall|j: int| 0 <= j < k ==> s[j] != ':');
    if k < i {
        assert(s[k] != ':');
    } else if k > i {
        assert(s[i] != ':');
    }
}

/// The ASCII digit for `d` (0..=9).
pub open spec fn digit_char(d: nat) -> char {
    if d == 0 { '0' } else if d == 1 { '1' } else if d == 2 { '2' } else if d == 3 { '3' }
    else if d == 4 { '4' } else if d == 5 { '5' } else if d == 6 { '6' } else if d == 7 { '7' }
    else if d == 8 { '8' } else { '9' }
}

/// `n` written in decimal, as `format!("{}", n)` writes it.
pub open spec fn decimal(n: nat) -> Seq<char>
    decreases n,
{
    if n < 10 {
        seq![digit_char(n)]
    } else {
        decimal(n / 10).push(digit_char(n % 10))
    }
}

/// `n` written in decimal with at least two digits, as `format!("{:02}", n)` writes it.
pub open spec fn two_digits(n: nat) -> Seq<char> {
    if n < 10 { seq!['0'] + decimal(n) } else { decimal(n) }
}

proof fn lemma_digit_char(d: nat)
    requires
        d < 10,
    ensures
        is_digit(digit_char(d)),
        (digit_char(d) as nat) - ('0' as nat) == d,
{
    assert('0' as nat == 48 && '1' as nat == 49 && '2' as nat == 50 && '3' as nat == 51
        && '4' as nat == 52 && '5' as nat == 53 && '6' as nat == 54 && '7' as nat == 55
        && '8' as nat == 56 && '9' as nat == 57);
}

proof fn lemma_decimal(n: nat)
    ensures
        decimal(n).len() > 0,
        all_digits(decimal(n)),
        digits_value(decimal(n)) == n,
        decimal(n)[0] != '+',
    decreases n,
{
    lemma_digit_char(n % 10);
    if n < 10 {
        lemma_digit_char(n);
        let d = decimal(n);
        assert(d.drop_last().len() == 0);
        assert(d.last() == digit_char(n));
        assert(digits_value(d) == 10 * digits_value(d.drop_last()) + ((d.last() as nat) - ('0' as nat)) as nat);
    }
    if n >= 10 {
        lemma_decimal(n / 10);
        let d = decimal(n);
        assert(d.last() == digit_char(n % 10));
        assert(digits_value(d) == 10 * digits_value(d.drop_last()) + ((d.last() as nat) - ('0' as nat)) as nat);
        assert(d.drop_last() == decimal(n / 10));
        assert(digits_value(decimal(n / 10)) == n / 10);
        assert(digits_value(d.drop_last()) == n / 10);
        vstd::arithmetic::div_mod::lemma_fundamental_div_mod(n as int, 10);
        assert(digits_value(d) == n);
        assert(d.drop_last() =~= decimal(n / 10));
        assert(d[0] == decimal(n / 10)[0]);
        assert forall|i: int| 0 <= i < d.len() implies is_digit(#[trigger] d[i]) by {
            if i < d.len() - 1 {
                assert(d[i] == decimal(n / 10)[i]);
            }
        }
    }
}

proof fn lemma_leading_zero(s: Seq<char>)
    requires
        all_digits(s),
    ensures
        all_digits(seq!['0'] + s),
        digits_value(seq!['0'] + s) == digits_value(s),
    decreases s.len(),
{
    let z = seq!['0'] + s;
    assert forall|i: int| 0 <= i < z.len() implies is_digit(#[trigger] z[i]) by {
        if i > 0 {
            assert(z[i] == s[i - 1]);
        }
    }
    if s.len() == 0 {
        assert(z.drop_last().len() == 0);
        assert(z.last() == '0');
        assert(digits_value(z) == 10 * digits_value(z.drop_last()) + ((z.last() as nat) - ('0' as nat)) as nat);
        assert(digits_value(z) == 0);
    } else {
        assert(all_digits(s.drop_last())) by {
            assert forall|i: int| 0 <= i < s.drop_last().len() implies is_digit(#[trigger] s.drop_last()[i]) by {
                assert(s.drop_last()[i] == s[i]);
            }
        }
        lemma_leading_zero(s.drop_last());
        assert(z.drop_last() =~= seq!['0'] + s.drop_last());
        assert(z.last() == s.last());
        assert(digits_value(z) == 10 * digits_value(z.drop_last()) + ((z.last() as nat) - ('0' as nat)) as nat);
        assert(digits_value(s) == 10 * digits_value(s.drop_last()) + ((s.last() as nat) - ('0' as nat)) as nat);
        assert(digits_value(z.drop_last()) == digits_value(s.drop_last()));
        assert(digits_value(z) == digits_value(s));
    }
}

proof fn lemma_parse_digits(s: Seq<char>, v: u16)
    requires
        s.len() > 0,
        all_digits(s),
        digits_value(s) == v,
    ensures
        parse_u16_spec(s) == Some(v),
{
    assert(is_digit(s[0]));
}

proof fn lemma_parse_split(a: Seq<char>, b: Seq<char>, h: u16, m: u16)
    requires
        a.len() > 0,
        b.len() > 0,
        all_digits(a),
        all_digits(b),
        digits_value(a) == h,
        digits_value(b) == m,
    ensures
        parse_time_spec(a + seq![':'] + b) == Some((h, m)),
{
    let s = a + seq![':'] + b;
    let i = a.len() as int;
    assert(s[i] == ':');
    assert forall|j: int| 0 <= j < i implies s[j] != ':' by {
        assert(s[j] == a[j]);
        assert(is_digit(a[j]));
    }
    lemma_first_colon(s, i);
    assert(s.take(i) =~= a);
    assert(s.skip(i + 1) =~= b);
    lemma_parse_digits(a, h);
    lemma_parse_digits(b, m);
}

/// A time written as `H:M` or as `HH:MM` reads back as the hours and minutes
/// it was written from.
pub proof fn law_written_time_reads_back(h: u16, m: u16)
    ensures
        parse_time_spec(decimal(h as nat) + seq![':'] + decimal(m as nat)) == Some((h, m)),
        parse_time_spec(two_digits(h as nat) + seq![':'] + two_digits(m as nat)) == Some((h, m)),
{
    lemma_decimal(h as nat);
    lemma_decimal(m as nat);
    lemma_parse_split(decimal(h as nat), decimal(m as nat), h, m);
    if h < 10 {
        lemma_leading_zero(decimal(h as nat));
    }
    if m < 10 {
        lemma_leading_zero(decimal(m as nat));
    }
    lemma_parse_split(two_digits(h as nat), two_digits(m as nat), h, m);
}

/// Reads `s` as a `u16` the way `str::parse` does.
pub fn parse_u16(s: &[char]) -> (r: Option<u16>)
    ensures
        r == parse_u16_spec(s@),
{
    let n = s.len();
    let start: usize = if n > 1 && s[0] == '+' { 1 } else { 0 };
    let ghost d = if s@.len() > 1 && s@[0] == '+' { s@.drop_first() } else { s@ };
    assert(d =~= s@.skip(start as int));
    if start >= n {
        return None;
    }
    // acc is the value of the digits read so far, held at 65536 once it passes u16::MAX
    let mut acc: u32 = 0;
    let mut i: usize = start;
    while i < n
        invariant
            start <= i <= n,
            n == s@.len(),
            d =~= s@.skip(start as int),
            d == (if s@.len() > 1 && s@[0] == '+' { s@.drop_first() } else { s@ }),
            all_digits(s@.subrange(start as int, i as int)),
            acc as int == if digits_value(s@.subrange(start as int, i as int)) <= 65536 {
                digits_value(s@.subrange(start as int, i as int)) as int
            } else {
                65536
            },
        decreases n - i,
    {
        let c = s[i];
        if !('0' <= c && c <= '9') {
            assert(d[i - start] == c);
            assert(!is_digit(d[i - start]));
            assert(!all_digits(d));
            return None;
        }
        let v = (c as u32) - ('0' as u32);
        let ghost pre = s@.subrange(start as int, i as int);
        let ghost post = s@.subrange(start as int, i as int + 1);
        assert(post.drop_last() =~= pre);
        assert(post.last() == c);
        let next: u32 = acc * 10 + v;
        acc = if next > 65536 { 65536 } else { next };
        i = i + 1;
    }
    assert(d =~= s@.subrange(start as int, n as int));
    if acc > 65535 {
        None
    } else {
        Some(acc as u16)
    }
}

/// Splits `"HH:MM"` at its first colon and reads both halves as `u16`.
pub fn parse_time(s: &str) -> (r: Option<(u16, u16)>)
    ensures
        r == parse_time_spec(s@),
{
    let mut chars: Vec<char> = Vec::new();
    for c in it: s.chars()
        invariant
            it.seq() == s@,
            chars@ == it.seq().take(it.index()),
    {
        chars.push(c);
    }
    assert(chars@ == s@);
    let n = chars.len();
    let mut i: usize = 0;
    while i < n
        invariant
            i <= n,
            n == chars@.len(),
            chars@ == s@,
            forall|j: int| 0 <= j < i ==> chars@[j] != ':',
        decreases n - i,
    {
        if chars[i] == ':' {
            proof { lemma_first_colon(chars@, i as int); }
            let (head, _) = chars.split_at(i);
            let (_, tail) = chars.split_at(i + 1);
            assert(head@ =~= chars@.take(i as int));
            assert(tail@ =~= chars@.skip(i as int + 1));
            let h = parse_u16(head);
            let m = parse_u16(tail);
            assert(first_colon(s@) == Some(i as int));
            assert(h == parse_u16_spec(s@.take(i as int)));
            assert(m == parse_u16_spec(s@.skip(i as int + 1)));
            return match (h, m) {
                (Some(h), Some(m)) => Some((h, m)),
                _ => None,
            };
        }
        i = i + 1;
    }
    assert(!(exists|k: int| 0 <= k < chars@.len() && chars@[k] == ':'));
    None
}

} // verus!
