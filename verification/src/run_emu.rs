use vstd::prelude::*;
use vstd::string::StrSliceExecFns;
use crate::cpu::instructions::Instruction;
use crate::cpu::registers::CPURegisterId;

verus! {

/// When a headless run stops: at the first `LD B, B` (the usual end marker of
/// test ROMs), or after a number of seconds.
#[derive(Clone, Copy, Debug, PartialEq, Eq, Structural)]
pub enum StopCondition {
    LDBB,
    TIMER(u32),
}

/// Why a stop condition could not be read.
#[derive(Clone, Copy, Debug, PartialEq, Eq, Structural)]
pub enum StopConditionError {
    /// `TIMER(..)` without a valid number of seconds.
    InvalidTimer,
    /// Neither `LDBB` nor `TIMER(..)`.
    Invalid,
}

/// The message of a stop condition error.
pub open spec fn error_message(e: StopConditionError) -> Seq<char> {
    match e {
        StopConditionError::InvalidTimer => "Invalid TIMER value"@,
        StopConditionError::Invalid => "Invalid stop condition"@,
    }
}

impl StopConditionError {
    /// The message of the error.
    pub fn message(&self) -> (r: String)
        ensures
            r@ == match *self {
                StopConditionError::InvalidTimer => "Invalid TIMER value"@,
                StopConditionError::Invalid => "Invalid stop condition"@,
            },
    {
        match self {
            StopConditionError::InvalidTimer => "Invalid TIMER value".to_owned(),
            StopConditionError::Invalid => "Invalid stop condition".to_owned(),
        }
    }
}

/// The emulator stopped on an error: why, where in the code (as text), and
/// the PC of the instruction that was running.
#[derive(Clone, Debug)]
pub struct EmuCrash {
    pub reason: String,
    pub backtrace: String,
    pub addr: u16,
}

/// `c` in upper case (ASCII letters only).
pub open spec fn upper(c: char) -> char {
    if 'a' <= c && c <= 'z' { ((c as int) - 32) as char } else { c }
}

/// `s` in upper case (ASCII letters only).
pub open spec fn upper_all(s: Seq<char>) -> Seq<char> {
    s.map_values(|c: char| upper(c))
}

pub open spec fn ldbb_word() -> Seq<char> {
    seq!['L', 'D', 'B', 'B']
}

pub open spec fn timer_word() -> Seq<char> {
    seq!['T', 'I', 'M', 'E', 'R']
}

pub open spec fn timer_open() -> Seq<char> {
    seq!['T', 'I', 'M', 'E', 'R', '(']
}

/// `s` with every leading copy of `p` removed.
pub open spec fn strip_prefixes(s: Seq<char>, p: Seq<char>) -> Seq<char>
    decreases s.len(),
{
    if p.len() > 0 && s.len() >= p.len() && s.subrange(0, p.len() as int) == p {
        strip_prefixes(s.subrange(p.len() as int, s.len() as int), p)
    } else {
        s
    }
}

/// `s` with every trailing `c` removed.
pub open spec fn strip_suffix_char(s: Seq<char>, c: char) -> Seq<char>
    decreases s.len(),
{
    if s.len() > 0 && s.last() == c { strip_suffix_char(s.drop_last(), c) } else { s }
}

pub open spec fn is_digit(c: char) -> bool {
    '0' <= c && c <= '9'
}

/// The value of a string of decimal digits.
pub open spec fn digits_value(s: Seq<char>) -> int
    decreases s.len(),
{
    if s.len() == 0 { 0 } else { digits_value(s.drop_last()) * 10 + (s.last() as int - '0' as int) }
}

/// A decimal `u32`: an optional `+`, then one or more digits whose value
/// fits.
pub open spec fn decimal_u32(s: Seq<char>) -> Option<u32> {
    decimal_digits(strip_plus(s))
}

/// `s` without one leading `+`.
pub open spec fn strip_plus(s: Seq<char>) -> Seq<char> {
    if s.len() > 0 && s[0] == '+' { s.subrange(1, s.len() as int) } else { s }
}

/// The value of `d` when it is one or more digits and fits in a `u32`.
pub open spec fn decimal_digits(d: Seq<char>) -> Option<u32> {
    if d.len() > 0 && (forall|i: int| 0 <= i < d.len() ==> is_digit(#[trigger] d[i])) && digits_value(d) <= u32::MAX {
        Some(digits_value(d) as u32)
    } else {
        None
    }
}

/// The stop condition `s` names (case aside): `LDBB`, or `TIMER(n)` with the
/// seconds `n` read after removing the leading `TIMER(` and the trailing `)`.
pub open spec fn stop_condition_of(s: Seq<char>) -> Result<StopCondition, StopConditionError> {
    let u = upper_all(s);
    if u == ldbb_word() {
        Ok(StopCondition::LDBB)
    } else if u.len() >= 5 && u.subrange(0, 5) == timer_word() {
        match decimal_u32(strip_suffix_char(strip_prefixes(s, timer_open()), ')')) {
            Some(n) => Ok(StopCondition::TIMER(n)),
            None => Err(StopConditionError::InvalidTimer),
        }
    } else {
        Err(StopConditionError::Invalid)
    }
}

proof fn lemma_digits_prefix(s: Seq<char>, k: int)
    requires
        0 <= k <= s.len(),
        forall|i: int| 0 <= i < s.len() ==> is_digit(#[trigger] s[i]),
    ensures
        digits_value(s.subrange(0, k)) <= digits_value(s),
        0 <= digits_value(s.subrange(0, k)),
    decreases s.len() - k,
{
    if k < s.len() {
        lemma_digits_prefix(s, k + 1);
        let t = s.subrange(0, k + 1);
        assert(t.drop_last() =~= s.subrange(0, k));
        assert(is_digit(t.last()));
        lemma_digits_nonneg(s.subrange(0, k));
    } else {
        assert(s.subrange(0, k) =~= s);
        lemma_digits_nonneg(s);
    }
}

proof fn lemma_digits_nonneg(s: Seq<char>)
    requires
        forall|i: int| 0 <= i < s.len() ==> is_digit(#[trigger] s[i]),
    ensures
        0 <= digits_value(s),
    decreases s.len(),
{
    if s.len() > 0 {
        assert(is_digit(s[s.len() - 1]));
        lemma_digits_nonneg(s.drop_last());
    }
}

/// The characters of `s`.
fn chars_of(s: &str) -> (r: Vec<char>)
    ensures
        r@ == s@,
{
    let n = s.unicode_len();
    let mut v: Vec<char> = Vec::new();
    let mut i: usize = 0;
    while i < n
        invariant
            n == s@.len(),
            i <= n,
            v@ == s@.subrange(0, i as int),
        decreases n - i,
    {
        v.push(s.get_char(i));
        proof {
            assert(v@ =~= s@.subrange(0, i + 1));
        }
        i = i + 1;
    }
    proof {
        assert(v@ =~= s@);
    }
    v
}

fn upper_char(c: char) -> (r: char)
    ensures
        r == upper(c),
{
    if 'a' <= c && c <= 'z' { ((c as u8) - 32) as char } else { c }
}

/// Whether `v[start..end]` in upper case is `word`.
fn upper_matches(v: &Vec<char>, start: usize, end: usize, word: &[char]) -> (r: bool)
    requires
        start <= end <= v@.len(),
    ensures
        r == (upper_all(v@.subrange(start as int, end as int)) == word@),
{
    if end - start != word.len() {
        assert(upper_all(v@.subrange(start as int, end as int)).len() != word@.len());
        return false;
    }
    let mut i: usize = 0;
    while i < word.len()
        invariant
            start <= end <= v@.len(),
            end - start == word@.len(),
            i <= word@.len(),
            forall|j: int| 0 <= j < i ==> upper(v@[start + j]) == word@[j],
        decreases word@.len() - i,
    {
        if upper_char(v[start + i]) != word[i] {
            assert(upper_all(v@.subrange(start as int, end as int))[i as int] != word@[i as int]);
            return false;
        }
        i = i + 1;
    }
    assert(upper_all(v@.subrange(start as int, end as int)) =~= word@);
    true
}

/// Reads a decimal `u32` from `v[start..end]`.
fn parse_decimal(v: &Vec<char>, start: usize, end: usize) -> (r: Option<u32>)
    requires
        start <= end <= v@.len(),
    ensures
        r == decimal_u32(v@.subrange(start as int, end as int)),
{
    let ghost s = v@.subrange(start as int, end as int);
    let mut first = start;
    if first < end && v[first] == '+' {
        first = first + 1;
    }
    let ghost d = v@.subrange(first as int, end as int);
    assert(d =~= strip_plus(s));
    if first == end {
        return None;
    }
    let mut i = first;
    while i < end
        invariant
            first <= i <= end <= v@.len(),
            d == v@.subrange(first as int, end as int),
            d == strip_plus(s),
            s == v@.subrange(start as int, end as int),
            forall|j: int| first <= j < i ==> is_digit(#[trigger] v@[j]),
        decreases end - i,
    {
        if !('0' <= v[i] && v[i] <= '9') {
            assert(!is_digit(d[i - first]));
            return None;
        }
        i = i + 1;
    }
    assert(forall|j: int| 0 <= j < d.len() ==> is_digit(#[trigger] d[j]));
    let mut value: u64 = 0;
    let mut k = first;
    while k < end
        invariant
            first <= k <= end <= v@.len(),
            d == v@.subrange(first as int, end as int),
            d == strip_plus(s),
            s == v@.subrange(start as int, end as int),
            forall|j: int| 0 <= j < d.len() ==> is_digit(#[trigger] d[j]),
            value == digits_value(d.subrange(0, k - first)),
            value <= u32::MAX,
        decreases end - k,
    {
        let ghost prefix = d.subrange(0, k + 1 - first);
        assert(prefix.drop_last() =~= d.subrange(0, k - first));
        assert(prefix.last() == v@[k as int]);
        assert(is_digit(d[k - first]));
        value = value * 10 + (v[k] as u64 - '0' as u64);
        assert(value == digits_value(prefix));
        if value > u32::MAX as u64 {
            proof {
                lemma_digits_prefix(d, k + 1 - first);
            }
            return None;
        }
        k = k + 1;
    }
    assert(d.subrange(0, d.len() as int) =~= d);
    Some(value as u32)
}

impl StopCondition {
    /// Reads a stop condition (see `stop_condition_of`).
    pub fn parse(s: &str) -> (r: Result<StopCondition, StopConditionError>)
        ensures
            r == stop_condition_of(s@),
    {
        let v = chars_of(s);
        let n = v.len();
        assert(v@.subrange(0, n as int) =~= v@);
        if upper_matches(&v, 0, n, &['L', 'D', 'B', 'B']) {
            return Ok(StopCondition::LDBB);
        }
        if n < 5 || !upper_matches(&v, 0, 5, &['T', 'I', 'M', 'E', 'R']) {
            proof {
                if n >= 5 {
                    assert(upper_all(v@).subrange(0, 5) =~= upper_all(v@.subrange(0, 5)));
                }
            }
            return Err(StopConditionError::Invalid);
        }
        proof {
            assert(upper_all(v@).subrange(0, 5) =~= upper_all(v@.subrange(0, 5)));
        }
        let open: [char; 6] = ['T', 'I', 'M', 'E', 'R', '('];
        let mut start: usize = 0;
        while n - start >= 6 && v[start] == 'T' && v[start + 1] == 'I' && v[start + 2] == 'M'
            && v[start + 3] == 'E' && v[start + 4] == 'R' && v[start + 5] == '('
            invariant
                n == v@.len(),
                start <= n,
                open@ == timer_open(),
                strip_prefixes(v@, timer_open()) == strip_prefixes(v@.subrange(start as int, n as int), timer_open()),
            decreases n - start,
        {
            proof {
                let rest = v@.subrange(start as int, n as int);
                assert(rest.subrange(0, 6) =~= timer_open());
                assert(rest.subrange(6, rest.len() as int) =~= v@.subrange(start + 6, n as int));
            }
            start = start + 6;
        }
        proof {
            let rest = v@.subrange(start as int, n as int);
            if rest.len() >= 6 {
                if rest.subrange(0, 6) == timer_open() {
                    assert(rest[0] == 'T' && rest[1] == 'I' && rest[2] == 'M' && rest[3] == 'E' && rest[4] == 'R' && rest[5] == '(');
                }
            }
        }
        let mut end: usize = n;
        while end > start && v[end - 1] == ')'
            invariant
                start <= end <= n,
                n == v@.len(),
                strip_suffix_char(v@.subrange(start as int, n as int), ')') == strip_suffix_char(v@.subrange(start as int, end as int), ')'),
            decreases end - start,
        {
            proof {
                assert(v@.subrange(start as int, end as int).drop_last() =~= v@.subrange(start as int, end - 1));
            }
            end = end - 1;
        }
        match parse_decimal(&v, start, end) {
            Some(secs) => Ok(StopCondition::TIMER(secs)),
            None => Err(StopConditionError::InvalidTimer),
        }
    }
}

impl std::str::FromStr for StopCondition {
    type Err = String;

    /// Reads a stop condition (see `stop_condition_of`); an error comes as
    /// its message.
    fn from_str(s: &str) -> (r: Result<Self, Self::Err>)
        ensures
            match stop_condition_of(s@) {
                Ok(c) => r == Ok::<StopCondition, String>(c),
                Err(e) => r matches Err(m) && m@ == error_message(e),
            },
    {
        match StopCondition::parse(s) {
            Ok(c) => Ok(c),
            Err(e) => Err(e.message()),
        }
    }
}

/// Whether the instruction is `LD B, B`.
pub open spec fn is_ld_b_b(i: Instruction) -> bool {
    i.name@ == seq!['L', 'D'] && i.reg1 == Some(CPURegisterId::B) && i.reg2 == Some(CPURegisterId::B)
}

/// Whether a headless run under condition `sc` stops before the current
/// instruction `current`, `elapsed` nanoseconds after it started.
pub open spec fn stop_due(sc: Option<StopCondition>, current: Instruction, elapsed: u64) -> bool {
    match sc {
        None => false,
        Some(StopCondition::LDBB) => is_ld_b_b(current),
        Some(StopCondition::TIMER(secs)) => elapsed > secs * 1_000_000_000,
    }
}

/// Whether a headless run stops now (see `stop_due`).
pub fn should_stop(sc: Option<StopCondition>, current: &Instruction, elapsed: u64) -> (r: bool)
    ensures
        r == stop_due(sc, *current, elapsed),
{
    match sc {
        None => false,
        Some(StopCondition::LDBB) => {
            let name = current.name;
            let is_ld = name.unicode_len() == 2 && name.get_char(0) == 'L' && name.get_char(1) == 'D';
            assert(is_ld == (name@ == seq!['L', 'D'])) by {
                if name@.len() == 2 && name@[0] == 'L' && name@[1] == 'D' {
                    assert(name@ =~= seq!['L', 'D']);
                }
            }
            is_ld && matches!(current.reg1, Some(CPURegisterId::B)) && matches!(current.reg2, Some(CPURegisterId::B))
        },
        Some(StopCondition::TIMER(secs)) => elapsed as u128 > secs as u128 * 1_000_000_000,
    }
}

} // verus!
