use vstd::prelude::*;

verus! {

/// The interval, in seconds, used when the startup argument is missing or
/// does not parse.
pub const DEFAULT_INTERVAL_SECS: u64 = 10;

pub open spec fn is_digit(c: char) -> bool {
    '0' <= c && c <= '9'
}

pub open spec fn digit_value(c: char) -> nat {
    (c as nat - '0' as nat) as nat
}

/// The number that a sequence of decimal digits denotes.
pub open spec fn digits_value(d: Seq<char>) -> nat
    decreases d.len(),
{
    if d.len() == 0 {
        0
    } else {
        digits_value(d.drop_last()) * 10 + digit_value(d.last())
    }
}

/// The text after an optional leading `+`.
pub open spec fn unsigned_digits(s: Seq<char>) -> Seq<char> {
    if s.len() > 0 && s[0] == '+' {
        s.drop_first()
    } else {
        s
    }
}

/// `s` is an optional `+` followed by one or more decimal digits whose value
/// fits in a `u64`: the text that `u64`'s `FromStr` accepts.
pub open spec fn parses_as_u64(s: Seq<char>) -> bool {
    let d = unsigned_digits(s);
    &&& d.len() > 0
    &&& forall|i: int| 0 <= i < d.len() ==> is_digit(#[trigger] d[i])
    &&& digits_value(d) <= u64::MAX
}

pub open spec fn parsed_value(s: Seq<char>) -> nat {
    digits_value(unsigned_digits(s))
}

/// The interval configured from the startup arguments, the program's name
/// first.
pub open spec fn configured_interval(args: Seq<Seq<char>>) -> nat {
    if args.len() >= 2 && parses_as_u64(args[1]) {
        parsed_value(args[1])
    } else {
        DEFAULT_INTERVAL_SECS as nat
    }
}

proof fn lemma_digits_value_push(d: Seq<char>, c: char)
    ensures
        digits_value(d.push(c)) == digits_value(d) * 10 + digit_value(c),
{
    assert(d.push(c).drop_last() =~= d);
}

/// A longer run of digits never denotes a smaller number.
proof fn lemma_digits_value_grows(d: Seq<char>, k: int)
    requires
        0 <= k <= d.len(),
        forall|i: int| 0 <= i < d.len() ==> is_digit(#[trigger] d[i]),
    ensures
        digits_value(d.take(k)) <= digits_value(d),
    decreases d.len() - k,
{
    if k < d.len() {
        lemma_digits_value_grows(d, k + 1);
        assert(d.take(k + 1) =~= d.take(k).push(d[k]));
        lemma_digits_value_push(d.take(k), d[k]);
    } else {
        assert(d.take(k) =~= d);
    }
}

/// Reads `text` as `u64`'s `FromStr` does: an optional `+`, then decimal
/// digits only, with a value that fits.
pub fn parse_seconds(text: &str) -> (r: Option<u64>)
    ensures
        r == (if parses_as_u64(text@) {
            Some(parsed_value(text@) as u64)
        } else {
            None::<u64>
        }),
{
    let n = text.unicode_len();
    let ghost s = text@;
    let mut start: usize = 0;
    if n > 0 && text.get_char(0) == '+' {
        start = 1;
    }
    let ghost d = unsigned_digits(s);
    assert(d =~= s.subrange(start as int, n as int));
    if start == n {
        return None;
    }
    let mut value: u64 = 0;
    let mut i: usize = start;
    while i < n
        invariant
            s == text@,
            n == s.len(),
            start <= i <= n,
            d == s.subrange(start as int, n as int),
            d == unsigned_digits(s),
            forall|j: int| 0 <= j < i - start ==> is_digit(#[trigger] d[j]),
            value as nat == digits_value(d.take(i - start)),
        decreases n - i,
    {
        let c = text.get_char(i);
        assert(c == d[i - start]);
        if c < '0' || c > '9' {
            assert(!is_digit(d[i - start]));
            return None;
        }
        let digit = (c as u32 - '0' as u32) as u64;
        proof {
            assert(d.take(i - start + 1) =~= d.take(i - start).push(c));
            lemma_digits_value_push(d.take(i - start), c);
        }
        if value > (u64::MAX - digit) / 10 {
            proof {
                assert(value * 10 + digit > u64::MAX) by (nonlinear_arith)
                    requires
                        value > (u64::MAX - digit) / 10,
                        digit <= 9,
                ;
                assert(digits_value(d.take(i - start + 1)) > u64::MAX);
                if forall|j: int| 0 <= j < d.len() ==> is_digit(#[trigger] d[j]) {
                    lemma_digits_value_grows(d, i - start + 1);
                    assert(digits_value(d) > u64::MAX);
                }
                assert(!parses_as_u64(s));
            }
            return None;
        }
        value = value * 10 + digit;
        i = i + 1;
    }
    assert(d.take(n - start) =~= d);
    Some(value)
}

/// What the startup argument made of the interval.
pub enum IntervalChoice {
    /// The argument parsed as this many seconds.
    Given(u64),
    /// The argument did not parse; the default applies.
    Unparsable,
    /// No argument was given; the default applies.
    Missing,
}

impl IntervalChoice {
    pub open spec fn spec_seconds(&self) -> nat {
        match self {
            IntervalChoice::Given(v) => *v as nat,
            _ => DEFAULT_INTERVAL_SECS as nat,
        }
    }

    /// The interval that this choice sets.
    pub fn seconds(&self) -> (r: u64)
        ensures
            r as nat == self.spec_seconds(),
    {
        match self {
            IntervalChoice::Given(v) => *v,
            _ => DEFAULT_INTERVAL_SECS,
        }
    }
}

/// Decides the interval from the startup arguments, the program's name first.
pub fn choose_interval(args: &Vec<String>) -> (r: IntervalChoice)
    ensures
        args@.len() < 2 ==> r == IntervalChoice::Missing,
        args@.len() >= 2 && !parses_as_u64(args@[1]@) ==> r == IntervalChoice::Unparsable,
        args@.len() >= 2 && parses_as_u64(args@[1]@) ==> r == IntervalChoice::Given(
            parsed_value(args@[1]@) as u64,
        ),
        r.spec_seconds() == configured_interval(args@.map_values(|a: String| a@)),
{
    if args.len() < 2 {
        return IntervalChoice::Missing;
    }
    match parse_seconds(args[1].as_str()) {
        Some(v) => IntervalChoice::Given(v),
        None => IntervalChoice::Unparsable,
    }
}

/// The poller's configuration, fixed at startup.
pub struct Config {
    /// Seconds between two ticks.
    pub duration: u64,
}

impl Config {
    /// Takes the interval from the second argument when it parses as a
    /// whole number of seconds, and the default otherwise.
    pub fn new(args: &Vec<String>) -> (r: Config)
        ensures
            r.duration as nat == configured_interval(args@.map_values(|a: String| a@)),
    {
        Config { duration: choose_interval(args).seconds() }
    }
}

} // verus!
