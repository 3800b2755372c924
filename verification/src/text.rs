use vstd::prelude::*;

verus! {

/// Unicode `White_Space` characters, the set that `str::trim` removes.
pub open spec fn is_whitespace(c: char) -> bool {
    let x = c as u32;
    ||| 0x09 <= x <= 0x0D
    ||| x == 0x20
    ||| x == 0x85
    ||| x == 0xA0
    ||| x == 0x1680
    ||| 0x2000 <= x <= 0x200A
    ||| x == 0x2028
    ||| x == 0x2029
    ||| x == 0x202F
    ||| x == 0x205F
    ||| x == 0x3000
}

/// Whether `c` is whitespace, decided on its code point.
pub fn char_is_whitespace(c: char) -> (b: bool)
    ensures
        b == is_whitespace(c),
{
    let x = c as u32;
    (0x09 <= x && x <= 0x0D) || x == 0x20 || x == 0x85 || x == 0xA0 || x == 0x1680 || (0x2000
        <= x && x <= 0x200A) || x == 0x2028 || x == 0x2029 || x == 0x202F || x == 0x205F || x
        == 0x3000
}


/// `s` without its leading whitespace.
pub open spec fn trim_start_spec(s: Seq<char>) -> Seq<char>
    decreases s.len(),
{
    if s.len() > 0 && is_whitespace(s[0]) {
        trim_start_spec(s.drop_first())
    } else {
        s
    }
}

/// `s` without its trailing whitespace.
pub open spec fn trim_end_spec(s: Seq<char>) -> Seq<char>
    decreases s.len(),
{
    if s.len() > 0 && is_whitespace(s.last()) {
        trim_end_spec(s.drop_last())
    } else {
        s
    }
}

/// `s` without leading and trailing whitespace, as `str::trim` gives it.
pub open spec fn trim_spec(s: Seq<char>) -> Seq<char> {
    trim_end_spec(trim_start_spec(s))
}

proof fn lemma_trim_start_step(s: Seq<char>, i: int)
    requires
        0 <= i < s.len(),
        is_whitespace(s[i]),
    ensures
        trim_start_spec(s.subrange(i, s.len() as int)) == trim_start_spec(
            s.subrange(i + 1, s.len() as int),
        ),
{
    assert(s.subrange(i, s.len() as int).drop_first() =~= s.subrange(i + 1, s.len() as int));
}

proof fn lemma_trim_end_step(s: Seq<char>, i: int, j: int)
    requires
        0 <= i < j <= s.len(),
        is_whitespace(s[j - 1]),
    ensures
        trim_end_spec(s.subrange(i, j)) == trim_end_spec(s.subrange(i, j - 1)),
{
    assert(s.subrange(i, j).drop_last() =~= s.subrange(i, j - 1));
}

/// Removes leading and trailing whitespace, as `str::trim` does.
pub fn trim_text(s: &str) -> (r: String)
    ensures
        r@ == trim_spec(s@),
{
    let n = s.unicode_len();
    let ghost t = s@;
    let mut i: usize = 0;
    assert(t.subrange(0, n as int) =~= t);
    while i < n && char_is_whitespace(s.get_char(i))
        invariant
            n == t.len(),
            t == s@,
            i <= n,
            trim_start_spec(t) == trim_start_spec(t.subrange(i as int, n as int)),
        decreases n - i,
    {
        proof {
            lemma_trim_start_step(t, i as int);
        }
        i = i + 1;
    }
    assert(trim_start_spec(t) == t.subrange(i as int, n as int));
    let mut j: usize = n;
    while j > i && char_is_whitespace(s.get_char(j - 1))
        invariant
            n == t.len(),
            t == s@,
            i <= j <= n,
            trim_start_spec(t) == t.subrange(i as int, n as int),
            trim_spec(t) == trim_end_spec(t.subrange(i as int, j as int)),
        decreases j - i,
    {
        proof {
            lemma_trim_end_step(t, i as int, j as int);
        }
        j = j - 1;
    }
    let part = s.substring_char(i, j);
    String::from_str(part)
}

/// Trimming twice is trimming once.
pub proof fn lemma_trim_idempotent(s: Seq<char>)
    ensures
        trim_spec(trim_spec(s)) == trim_spec(s),
{
    lemma_trim_start_bounds(s);
    lemma_trim_end_keeps_start(trim_start_spec(s));
    lemma_trim_end_bounds(trim_start_spec(s));
    lemma_trim_end_fixed(trim_spec(s));
    lemma_trim_start_fixed(trim_spec(s));
}

proof fn lemma_trim_start_part(s: Seq<char>) -> (i: int)
    ensures
        0 <= i <= s.len(),
        trim_start_spec(s) == s.subrange(i, s.len() as int),
        forall|k: int| 0 <= k < i ==> is_whitespace(#[trigger] s[k]),
        i < s.len() ==> !is_whitespace(s[i]),
    decreases s.len(),
{
    if s.len() > 0 && is_whitespace(s[0]) {
        let t = s.drop_first();
        let i0 = lemma_trim_start_part(t);
        assert(t.subrange(i0, t.len() as int) =~= s.subrange(i0 + 1, s.len() as int));
        assert forall|k: int| 0 <= k < i0 + 1 implies is_whitespace(#[trigger] s[k]) by {
            if k > 0 {
                assert(s[k] == t[k - 1]);
            }
        }
        i0 + 1
    } else {
        assert(s.subrange(0, s.len() as int) =~= s);
        0
    }
}

proof fn lemma_trim_end_part(s: Seq<char>) -> (j: int)
    ensures
        0 <= j <= s.len(),
        trim_end_spec(s) == s.subrange(0, j),
        forall|k: int| j <= k < s.len() ==> is_whitespace(#[trigger] s[k]),
        j > 0 ==> !is_whitespace(s[j - 1]),
    decreases s.len(),
{
    if s.len() > 0 && is_whitespace(s.last()) {
        let t = s.drop_last();
        let j0 = lemma_trim_end_part(t);
        assert(t.subrange(0, j0) =~= s.subrange(0, j0));
        assert forall|k: int| j0 <= k < s.len() implies is_whitespace(#[trigger] s[k]) by {
            if k < s.len() - 1 {
                assert(s[k] == t[k]);
            }
        }
        j0
    } else {
        assert(s.subrange(0, s.len() as int) =~= s);
        s.len() as int
    }
}

/// Trimming keeps one contiguous part of the text, whole: everything before it
/// and after it is whitespace, and it neither starts nor ends with whitespace.
/// The returned pair gives where the part starts and ends.
pub proof fn lemma_trim_is_inner_part(s: Seq<char>) -> (bounds: (int, int))
    ensures
        0 <= bounds.0 <= bounds.1 <= s.len(),
        trim_spec(s) == s.subrange(bounds.0, bounds.1),
        trim_spec(s).len() == bounds.1 - bounds.0,
        forall|k: int| 0 <= k < bounds.0 ==> is_whitespace(#[trigger] s[k]),
        forall|k: int| bounds.1 <= k < s.len() ==> is_whitespace(#[trigger] s[k]),
        bounds.0 < bounds.1 ==> !is_whitespace(s[bounds.0]) && !is_whitespace(s[bounds.1 - 1]),
{
    let i = lemma_trim_start_part(s);
    let t = s.subrange(i, s.len() as int);
    let j = lemma_trim_end_part(t);
    assert(t.subrange(0, j) =~= s.subrange(i, i + j));
    assert forall|k: int| i + j <= k < s.len() implies is_whitespace(#[trigger] s[k]) by {
        assert(s[k] == t[k - i]);
    }
    if j > 0 {
        assert(s[i] == t[0]);
        assert(s[i + j - 1] == t[j - 1]);
    }
    (i, i + j)
}

/// A trimmed text neither starts nor ends with whitespace.
pub proof fn lemma_trim_no_outer_whitespace(s: Seq<char>)
    ensures
        trim_spec(s).len() > 0 ==> !is_whitespace(trim_spec(s)[0]) && !is_whitespace(
            trim_spec(s).last(),
        ),
{
    lemma_trim_start_bounds(s);
    lemma_trim_end_keeps_start(trim_start_spec(s));
    lemma_trim_end_bounds(trim_start_spec(s));
}

proof fn lemma_trim_start_bounds(s: Seq<char>)
    ensures
        trim_start_spec(s).len() > 0 ==> !is_whitespace(trim_start_spec(s)[0]),
    decreases s.len(),
{
    if s.len() > 0 && is_whitespace(s[0]) {
        lemma_trim_start_bounds(s.drop_first());
    }
}

proof fn lemma_trim_end_bounds(s: Seq<char>)
    ensures
        trim_end_spec(s).len() > 0 ==> !is_whitespace(trim_end_spec(s).last()),
    decreases s.len(),
{
    if s.len() > 0 && is_whitespace(s.last()) {
        lemma_trim_end_bounds(s.drop_last());
    }
}

/// Trimming the end keeps a prefix, so a non-whitespace first character stays first.
proof fn lemma_trim_end_keeps_start(s: Seq<char>)
    ensures
        trim_end_spec(s).len() <= s.len(),
        forall|k: int| 0 <= k < trim_end_spec(s).len() ==> trim_end_spec(s)[k] == s[k],
    decreases s.len(),
{
    if s.len() > 0 && is_whitespace(s.last()) {
        lemma_trim_end_keeps_start(s.drop_last());
        assert forall|k: int| 0 <= k < trim_end_spec(s).len() implies trim_end_spec(s)[k]
            == s[k] by {
            assert(s.drop_last()[k] == s[k]);
        }
    }
}

proof fn lemma_trim_end_fixed(s: Seq<char>)
    requires
        s.len() > 0 ==> !is_whitespace(s.last()),
    ensures
        trim_end_spec(s) == s,
{
}

proof fn lemma_trim_start_fixed(s: Seq<char>)
    requires
        s.len() > 0 ==> !is_whitespace(s[0]),
    ensures
        trim_start_spec(s) == s,
{
}


/// The decimal digit character for `d`, which is below ten.
pub open spec fn digit_char(d: nat) -> char {
    if d == 0 {
        '0'
    } else if d == 1 {
        '1'
    } else if d == 2 {
        '2'
    } else if d == 3 {
        '3'
    } else if d == 4 {
        '4'
    } else if d == 5 {
        '5'
    } else if d == 6 {
        '6'
    } else if d == 7 {
        '7'
    } else if d == 8 {
        '8'
    } else {
        '9'
    }
}

/// Whether `c` is one of the ASCII digits `0` to `9`.
pub open spec fn is_digit(c: char) -> bool {
    48 <= (c as u32) <= 57
}

/// The value of the ASCII digit `c`.
pub open spec fn digit_value(c: char) -> nat {
    ((c as u32) - 48) as nat
}

/// The decimal notation of `n`, as `Display` writes it for unsigned integers.
pub open spec fn decimal(n: nat) -> Seq<char>
    decreases n,
{
    if n < 10 {
        seq![digit_char(n)]
    } else {
        decimal(n / 10).push(digit_char(n % 10))
    }
}

/// The number that a string of decimal digits denotes.
pub open spec fn digits_value(s: Seq<char>) -> nat
    decreases s.len(),
{
    if s.len() == 0 {
        0
    } else {
        digits_value(s.drop_last()) * 10 + digit_value(s.last())
    }
}

/// The digits of an unsigned number in text: the text without one leading `+`.
pub open spec fn unsigned_digits(s: Seq<char>) -> Seq<char> {
    if s.len() > 0 && s[0] == '+' {
        s.drop_first()
    } else {
        s
    }
}

/// What `str::parse::<usize>` gives for `s`: an optional `+`, then at least one
/// ASCII digit and nothing else, with a value that fits in a `usize`.
pub open spec fn parse_usize_spec(s: Seq<char>) -> Option<usize> {
    let d = unsigned_digits(s);
    if d.len() > 0 && (forall|i: int| 0 <= i < d.len() ==> is_digit(#[trigger] d[i]))
        && digits_value(d) <= usize::MAX {
        Some(digits_value(d) as usize)
    } else {
        None
    }
}

fn digit_text(d: usize) -> (s: &'static str)
    requires
        d < 10,
    ensures
        s@ == seq![digit_char(d as nat)],
{
    proof {
        reveal_strlit("0");
        reveal_strlit("1");
        reveal_strlit("2");
        reveal_strlit("3");
        reveal_strlit("4");
        reveal_strlit("5");
        reveal_strlit("6");
        reveal_strlit("7");
        reveal_strlit("8");
        reveal_strlit("9");
    }
    if d == 0 {
        "0"
    } else if d == 1 {
        "1"
    } else if d == 2 {
        "2"
    } else if d == 3 {
        "3"
    } else if d == 4 {
        "4"
    } else if d == 5 {
        "5"
    } else if d == 6 {
        "6"
    } else if d == 7 {
        "7"
    } else if d == 8 {
        "8"
    } else {
        "9"
    }
}

/// Writes `n` in decimal, as `n.to_string()` does.
pub fn decimal_text(n: usize) -> (r: String)
    ensures
        r@ == decimal(n as nat),
    decreases n,
{
    if n < 10 {
        String::from_str(digit_text(n))
    } else {
        let mut r = decimal_text(n / 10);
        r.append(digit_text(n % 10));
        r
    }
}

proof fn lemma_digits_value_prefix(s: Seq<char>, k: int)
    requires
        0 <= k <= s.len(),
    ensures
        digits_value(s.subrange(0, k)) <= digits_value(s),
    decreases s.len() - k,
{
    if k < s.len() {
        lemma_digits_value_prefix(s, k + 1);
        assert(s.subrange(0, k + 1).drop_last() =~= s.subrange(0, k));
    } else {
        assert(s.subrange(0, k) =~= s);
    }
}

/// Reads an unsigned decimal number, as `str::parse::<usize>` does.
pub fn parse_usize(s: &str) -> (r: Option<usize>)
    ensures
        r == parse_usize_spec(s@),
{
    let n = s.unicode_len();
    let ghost t = s@;
    if n == 0 {
        return None;
    }
    let mut k: usize = 0;
    if s.get_char(0) == '+' {
        k = 1;
    }
    let ghost start = k as int;
    let ghost d = unsigned_digits(t);
    assert(d =~= t.subrange(start, n as int));
    if k == n {
        return None;
    }
    let mut acc: usize = 0;
    assert(d.subrange(0, 0) =~= Seq::<char>::empty());
    while k < n
        invariant
            n == t.len(),
            t == s@,
            d == t.subrange(start, n as int),
            d == unsigned_digits(t),
            0 <= start <= k <= n,
            acc == digits_value(d.subrange(0, k - start)),
            forall|i: int| 0 <= i < k - start ==> is_digit(#[trigger] d[i]),
        decreases n - k,
    {
        let c = s.get_char(k);
        let x = c as u32;
        if x < 48 || x > 57 {
            assert(!is_digit(d[k - start]));
            return None;
        }
        let v = (x - 48) as usize;
        assert(d.subrange(0, k + 1 - start).drop_last() =~= d.subrange(0, k - start));
        if acc > (usize::MAX - v) / 10 {
            proof {
                lemma_digits_value_prefix(d, k + 1 - start);
            }
            assert(digits_value(d.subrange(0, k + 1 - start)) > usize::MAX) by (nonlinear_arith)
                requires
                    digits_value(d.subrange(0, k + 1 - start)) == acc * 10 + v,
                    acc > (usize::MAX - v) / 10,
                    v <= 9,
            ;
            return None;
        }
        acc = acc * 10 + v;
        k = k + 1;
    }
    assert(d.subrange(0, n - start) =~= d);
    Some(acc)
}

proof fn lemma_digit_char(d: nat)
    requires
        d < 10,
    ensures
        is_digit(digit_char(d)),
        digit_value(digit_char(d)) == d,
        digit_char(d) != '+',
{
}

/// Reading back what `decimal_text` wrote gives the number again.
pub proof fn lemma_parse_decimal_roundtrip(n: usize)
    ensures
        parse_usize_spec(decimal(n as nat)) == Some(n),
{
    lemma_decimal_digits(n as nat);
}

pub proof fn lemma_decimal_digits(n: nat)
    ensures
        decimal(n).len() > 0,
        decimal(n)[0] != '+',
        forall|i: int| 0 <= i < decimal(n).len() ==> is_digit(#[trigger] decimal(n)[i]),
        digits_value(decimal(n)) == n,
    decreases n,
{
    lemma_digit_char(n % 10);
    if n >= 10 {
        lemma_decimal_digits(n / 10);
        assert(n / 10 * 10 + n % 10 == n);
        let p = decimal(n / 10);
        assert(decimal(n).drop_last() =~= p);
        assert(decimal(n).last() == digit_char(n % 10));
        assert(digits_value(decimal(n)) == digits_value(p) * 10 + digit_value(digit_char(n % 10)));
        assert forall|i: int| 0 <= i < decimal(n).len() implies is_digit(#[trigger] decimal(n)[i]) by {
            if i < p.len() {
                assert(decimal(n)[i] == p[i]);
            }
        }
    } else {
        assert(decimal(n).drop_last() =~= Seq::<char>::empty());
        assert(n % 10 == n);
        assert(digits_value(decimal(n)) == digits_value(Seq::<char>::empty()) * 10 + digit_value(
            digit_char(n),
        ));
    }
}

/// The number of worker threads chosen from a line of user input: the trimmed
/// line read as an unsigned number, or ten where it is not one.
pub fn thread_count_from_input(input: &str) -> (n: usize)
    ensures
        n == (match parse_usize_spec(trim_spec(input@)) {
            Some(v) => v,
            None => 10,
        }),
{
    let t = trim_text(input);
    match parse_usize(t.as_str()) {
        Some(v) => v,
        None => 10,
    }
}

} // verus!
