use vstd::prelude::*;

verus! {

/// The highest minor number within one major release line.
pub const LAST_MINOR: u32 = 9;

/// A two-part release number, `major.minor`.
#[derive(Debug, Clone, Copy, PartialEq, Eq, Structural)]
pub struct Version {
    pub major: u32,
    pub minor: u32,
}

/// The release string is not two dot-separated unsigned integers.
#[derive(Debug, Clone, Copy, PartialEq, Eq, Structural)]
pub struct VersionParseError;

/// The release that follows `v`: the next minor number, or the first release
/// of the next major line once the minor number has reached its last value.
pub open spec fn next_version(v: Version) -> Version {
    if v.minor < LAST_MINOR {
        Version { major: v.major, minor: (v.minor + 1) as u32 }
    } else {
        Version { major: (v.major + 1) as u32, minor: 0 }
    }
}


/// A decimal digit.
pub open spec fn is_digit(c: char) -> bool {
    '0' <= c && c <= '9'
}

/// The value of a digit character.
pub open spec fn digit_value(c: char) -> nat {
    (c as nat - '0' as nat) as nat
}

/// The value of a run of decimal digits, most significant first.
pub open spec fn digits_value(s: Seq<char>) -> nat
    decreases s.len(),
{
    if s.len() == 0 {
        0
    } else {
        digits_value(s.drop_last()) * 10 + digit_value(s.last())
    }
}

/// The digits of a number text: what follows an optional leading `+`.
pub open spec fn unsigned_digits(s: Seq<char>) -> Seq<char> {
    if s.len() > 0 && s[0] == '+' {
        s.drop_first()
    } else {
        s
    }
}

/// The text is an unsigned 32-bit number: an optional `+`, then one or more
/// decimal digits whose value fits in 32 bits.
pub open spec fn is_u32_text(s: Seq<char>) -> bool {
    let d = unsigned_digits(s);
    &&& d.len() > 0
    &&& forall|i: int| 0 <= i < d.len() ==> is_digit(#[trigger] d[i])
    &&& digits_value(d) <= u32::MAX
}

/// The number that a text satisfying `is_u32_text` stands for.
pub open spec fn u32_text_value(s: Seq<char>) -> u32 {
    digits_value(unsigned_digits(s)) as u32
}

/// The position of the first `.` at or after `i`, or -1 when there is none.
pub open spec fn dot_from(s: Seq<char>, i: int) -> int
    decreases s.len() - i,
{
    if i < 0 || i >= s.len() {
        -1
    } else if s[i] == '.' {
        i
    } else {
        dot_from(s, i + 1)
    }
}

/// The release that a `major.minor` string names: the text is split at its
/// first dot and both halves must be unsigned 32-bit numbers.
pub open spec fn release_version(s: Seq<char>) -> Option<Version> {
    let d = dot_from(s, 0);
    if d < 0 {
        None
    } else {
        let major = s.take(d);
        let minor = s.skip(d + 1);
        if is_u32_text(major) && is_u32_text(minor) {
            Some(Version { major: u32_text_value(major), minor: u32_text_value(minor) })
        } else {
            None
        }
    }
}

proof fn lemma_digits_value_push(s: Seq<char>, k: int)
    requires
        0 <= k < s.len(),
    ensures
        digits_value(s.take(k + 1)) == digits_value(s.take(k)) * 10 + digit_value(s[k]),
{
    assert(s.take(k + 1).drop_last() =~= s.take(k));
}

proof fn lemma_digits_value_prefix(s: Seq<char>, k: int)
    requires
        0 <= k <= s.len(),
    ensures
        digits_value(s.take(k)) <= digits_value(s),
    decreases s.len(),
{
    if k < s.len() {
        let t = s.drop_last();
        assert(s.take(k) =~= t.take(k));
        lemma_digits_value_prefix(t, k);
    } else {
        assert(s.take(k) =~= s);
    }
}

proof fn lemma_dot_from_skip(s: Seq<char>, i: int)
    requires
        0 <= i <= s.len(),
        forall|j: int| 0 <= j < i ==> s[j] != '.',
    ensures
        dot_from(s, 0) == dot_from(s, i),
    decreases i,
{
    if i > 0 {
        lemma_dot_from_skip(s, i - 1);
    }
}

/// Reads the characters `from..to` of `s` as an unsigned 32-bit number.
fn parse_u32(s: &str, from: usize, to: usize) -> (r: Option<u32>)
    requires
        from <= to <= s@.len(),
    ensures
        r is Some <==> is_u32_text(s@.subrange(from as int, to as int)),
        r matches Some(n) ==> n == u32_text_value(s@.subrange(from as int, to as int)),
{
    let ghost t = s@.subrange(from as int, to as int);
    let mut start: usize = from;
    if from < to && s.get_char(from) == '+' {
        start = from + 1;
    }
    let ghost d = unsigned_digits(t);
    assert(d =~= s@.subrange(start as int, to as int));
    if start == to {
        assert(d.len() == 0);
        assert(!is_u32_text(t));
        return None;
    }
    let mut acc: u32 = 0;
    let mut i: usize = start;
    while i < to
        invariant
            start <= i <= to <= s@.len(),
            d =~= s@.subrange(start as int, to as int),
            d == unsigned_digits(t),
            t == s@.subrange(from as int, to as int),
            forall|j: int| 0 <= j < i - start ==> is_digit(#[trigger] d[j]),
            acc as nat == digits_value(d.take(i - start)),
        decreases to - i,
    {
        let c = s.get_char(i);
        assert(c == d[i - start]);
        if !('0' <= c && c <= '9') {
            assert(!is_digit(unsigned_digits(t)[i - start]));
            assert(!is_u32_text(t));
            return None;
        }
        let v: u32 = (c as u32) - ('0' as u32);
        proof {
            lemma_digits_value_push(d, i - start);
        }
        if acc > (u32::MAX - v) / 10 {
            proof {
                assert(acc * 10 + v > u32::MAX) by (nonlinear_arith)
                    requires
                        acc > (u32::MAX - v) / 10,
                        v <= 9,
                ;
                lemma_digits_value_prefix(d, i - start + 1);
            }
            return None;
        }
        proof {
            assert(acc * 10 + v <= u32::MAX) by (nonlinear_arith)
                requires
                    acc <= (u32::MAX - v) / 10,
                    v <= 9,
            ;
        }
        acc = acc * 10 + v;
        i += 1;
    }
    assert(d.take(i - start) =~= d);
    Some(acc)
}


/// The character of a decimal digit.
pub open spec fn digit_char(d: nat) -> char {
    if d == 0 { '0' }
    else if d == 1 { '1' }
    else if d == 2 { '2' }
    else if d == 3 { '3' }
    else if d == 4 { '4' }
    else if d == 5 { '5' }
    else if d == 6 { '6' }
    else if d == 7 { '7' }
    else if d == 8 { '8' }
    else { '9' }
}

/// The decimal text of a number, without leading zeros.
pub open spec fn decimal(n: nat) -> Seq<char>
    decreases n,
{
    if n < 10 {
        seq![digit_char(n)]
    } else {
        decimal(n / 10).push(digit_char(n % 10))
    }
}

/// How a release is written: `major.minor`.
pub open spec fn version_text(v: Version) -> Seq<char> {
    decimal(v.major as nat) + seq!['.'] + decimal(v.minor as nat)
}

fn digit_str(d: u32) -> (r: &'static str)
    requires
        d < 10,
    ensures
        r@ == seq![digit_char(d as nat)],
{
    proof {
        reveal_strlit("0");
        reveal_strlit("1");
        reveal_strlit("2");
        reveal_strlit("3");
        reveal_strlit("4");
        reveal_strlit("5");
        reveal_strlit("6");
        reveal_strlit("7");
        reveal_strlit("8");
        reveal_strlit("9");
    }
    let r = match d {
        0 => "0",
        1 => "1",
        2 => "2",
        3 => "3",
        4 => "4",
        5 => "5",
        6 => "6",
        7 => "7",
        8 => "8",
        _ => "9",
    };
    assert(r@ =~= seq![digit_char(d as nat)]);
    r
}

/// Appends the decimal text of `n` to `out`.
fn push_decimal(out: &mut String, n: u32)
    ensures
        final(out)@ == old(out)@ + decimal(n as nat),
    decreases n,
{
    if n >= 10 {
        push_decimal(out, n / 10);
    }
    out.append(digit_str(n % 10));
    assert(final(out)@ =~= old(out)@ + decimal(n as nat));
}

proof fn lemma_digit_char(d: nat)
    requires
        d < 10,
    ensures
        is_digit(digit_char(d)),
        digit_value(digit_char(d)) == d,
{
}

proof fn lemma_decimal(n: nat)
    ensures
        decimal(n).len() > 0,
        forall|i: int| 0 <= i < decimal(n).len() ==> is_digit(#[trigger] decimal(n)[i]),
        digits_value(decimal(n)) == n,
    decreases n,
{
    if n < 10 {
        lemma_digit_char(n);
        assert(decimal(n).drop_last() =~= Seq::<char>::empty());
        assert(digits_value(Seq::<char>::empty()) == 0);
        assert(digits_value(decimal(n)) == digits_value(decimal(n).drop_last()) * 10 + digit_value(
            decimal(n).last(),
        ));
    } else {
        lemma_decimal(n / 10);
        lemma_digit_char(n % 10);
        let d = decimal(n);
        assert(d.drop_last() =~= decimal(n / 10));
        assert(n == (n / 10) * 10 + n % 10) by (nonlinear_arith);
        assert(d.last() == digit_char(n % 10));
        assert(digits_value(d) == digits_value(d.drop_last()) * 10 + digit_value(d.last()));
        assert forall|i: int| 0 <= i < d.len() implies is_digit(#[trigger] d[i]) by {
            if i < d.len() - 1 {
                assert(d[i] == decimal(n / 10)[i]);
            }
        }
    }
}

/// A release written as `major.minor` reads back as the same release.
pub proof fn lemma_text_reads_back(v: Version)
    ensures
        release_version(version_text(v)) == Some(v),
{
    let a = decimal(v.major as nat);
    let b = decimal(v.minor as nat);
    let s = version_text(v);
    lemma_decimal(v.major as nat);
    lemma_decimal(v.minor as nat);
    assert(s.take(a.len() as int) =~= a);
    assert(s.skip(a.len() as int + 1) =~= b);
    assert forall|j: int| 0 <= j < a.len() implies s[j] != '.' by {
        assert(s[j] == a[j]);
        assert(is_digit(a[j]));
    }
    lemma_dot_from_skip(s, a.len() as int);
    assert(s[a.len() as int] == '.');
    assert(unsigned_digits(a) == a) by {
        assert(is_digit(a[0]));
    }
    assert(unsigned_digits(b) == b) by {
        assert(is_digit(b[0]));
    }
}

/// For a release `major.minor` whose minor number is below the last, the next
/// release is `major.(minor + 1)`, and it is written that way.
pub proof fn lemma_next_within_line(major: u32, minor: u32)
    requires
        minor < LAST_MINOR,
    ensures
        release_version(decimal(major as nat) + seq!['.'] + decimal(minor as nat))
            == Some(Version { major, minor }),
        next_version(Version { major, minor }) == (Version { major, minor: (minor + 1) as u32 }),
        version_text(next_version(Version { major, minor }))
            == decimal(major as nat) + seq!['.'] + decimal(minor as nat + 1),
{
    lemma_text_reads_back(Version { major, minor });
}

impl Version {
    /// Reads a release string of the form `major.minor`.
    pub fn new(release: &str) -> (r: Result<Version, VersionParseError>)
        ensures
            r == (match release_version(release@) {
                Some(v) => Ok(v),
                None => Err(VersionParseError),
            }),
    {
        let n = release.unicode_len();
        let mut i: usize = 0;
        while i < n && release.get_char(i) != '.'
            invariant
                i <= n == release@.len(),
                forall|j: int| 0 <= j < i ==> release@[j] != '.',
            decreases n - i,
        {
            i += 1;
        }
        proof {
            lemma_dot_from_skip(release@, i as int);
        }
        if i == n {
            return Err(VersionParseError);
        }
        let major = parse_u32(release, 0, i);
        let minor = parse_u32(release, i + 1, n);
        proof {
            assert(release@.take(i as int) =~= release@.subrange(0, i as int));
            assert(release@.skip(i + 1) =~= release@.subrange(i + 1, n as int));
        }
        match (major, minor) {
            (Some(major), Some(minor)) => Ok(Version { major, minor }),
            _ => Err(VersionParseError),
        }
    }

    /// The release written as `major.minor`.
    pub fn to_string(&self) -> (r: String)
        ensures
            r@ == version_text(*self),
    {
        let mut out = String::new();
        push_decimal(&mut out, self.major);
        out.append(".");
        push_decimal(&mut out, self.minor);
        proof {
            reveal_strlit(".");
        }
        assert(out@ =~= version_text(*self));
        out
    }

    /// The release that comes after this one.
    pub fn next(self) -> (r: Version)
        requires
            self.minor < LAST_MINOR || self.major < u32::MAX,
        ensures
            r == next_version(self),
            self.minor <= LAST_MINOR ==> r.minor <= LAST_MINOR,
    {
        let mut major = self.major;
        let mut minor = self.minor;
        if minor < LAST_MINOR {
            minor += 1;
        } else {
            major += 1;
            minor = 0;
        }
        Version { major, minor }
    }
}

} // verus!
