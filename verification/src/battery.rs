use crate::events::Reading;
use crate::sampler::Query;
use vstd::prelude::*;
use vstd::string::*;

verus! {

/// White space as the Unicode standard lists it.
pub open spec fn spec_is_space(c: char) -> bool {
    let u = c as u32;
    ||| 0x09 <= u <= 0x0D
    ||| u == 0x20
    ||| u == 0x85
    ||| u == 0xA0
    ||| u == 0x1680
    ||| 0x2000 <= u <= 0x200A
    ||| u == 0x2028
    ||| u == 0x2029
    ||| u == 0x202F
    ||| u == 0x205F
    ||| u == 0x3000
}

pub open spec fn trim_start(s: Seq<char>) -> Seq<char>
    decreases s.len(),
{
    if s.len() > 0 && spec_is_space(s[0]) {
        trim_start(s.drop_first())
    } else {
        s
    }
}

pub open spec fn trim_end(s: Seq<char>) -> Seq<char>
    decreases s.len(),
{
    if s.len() > 0 && spec_is_space(s.last()) {
        trim_end(s.drop_last())
    } else {
        s
    }
}

/// The text without the white space at its two ends.
pub open spec fn trim(s: Seq<char>) -> Seq<char> {
    trim_end(trim_start(s))
}

pub open spec fn is_digit(c: char) -> bool {
    0x30 <= c as u32 <= 0x39
}

pub open spec fn digit_value(c: char) -> nat {
    if is_digit(c) {
        (c as u32 - 0x30) as nat
    } else {
        0
    }
}

pub open spec fn all_digits(s: Seq<char>) -> bool {
    forall|i: int| 0 <= i < s.len() ==> is_digit(#[trigger] s[i])
}

/// The number that a run of decimal digits denotes.
pub open spec fn digits_value(s: Seq<char>) -> nat
    decreases s.len(),
{
    if s.len() == 0 {
        0
    } else {
        digits_value(s.drop_last()) * 10 + digit_value(s.last())
    }
}

/// An unsigned decimal number: an optional plus sign, then at least one
/// digit and nothing else. A number above `max` is no number.
pub open spec fn parse_unsigned(s: Seq<char>, max: nat) -> Option<nat> {
    let digits = if s.len() > 0 && s[0] == '+' {
        s.drop_first()
    } else {
        s
    };
    if digits.len() > 0 && all_digits(digits) && digits_value(digits) <= max {
        Some(digits_value(digits))
    } else {
        None
    }
}

/// Whether the power supply reports that it is running on the battery.
pub open spec fn spec_is_discharging(status: Seq<char>) -> bool {
    trim(status) == "Discharging"@
}

/// A charge is at most 100 percent.
pub open spec fn clamp_percent(v: nat) -> u32 {
    if v > 100 {
        100
    } else {
        v as u32
    }
}

/// The charge from the capacity that the power supply reports. It is absent
/// unless the battery is discharging and the capacity is a number.
pub open spec fn capacity_percentage(status: Seq<char>, capacity: Seq<char>) -> Option<u32> {
    if !spec_is_discharging(status) {
        None
    } else {
        match parse_unsigned(trim(capacity), u32::MAX as nat) {
            Some(v) => Some(clamp_percent(v)),
            None => None,
        }
    }
}

/// The charge as the ratio of the energy left to the energy when full, in
/// percent, rounded down. It is absent unless the battery is discharging,
/// both energies are numbers and the full energy is not zero.
pub open spec fn energy_percentage(status: Seq<char>, energy_now: Seq<char>, energy_full: Seq<char>) -> Option<u32> {
    if !spec_is_discharging(status) {
        None
    } else {
        match (
            parse_unsigned(trim(energy_now), u64::MAX as nat),
            parse_unsigned(trim(energy_full), u64::MAX as nat),
        ) {
            (Some(now), Some(full)) => if full == 0 {
                None
            } else {
                Some(clamp_percent(now * 100 / full))
            },
            _ => None,
        }
    }
}

/// The text of a file that could be read.
pub open spec fn text_of(file: Option<&str>) -> Option<Seq<char>> {
    match file {
        Some(text) => Some(text@),
        None => None,
    }
}

/// A charge as the answer of the battery source.
pub open spec fn percent_query(percent: Option<u32>) -> Query {
    match percent {
        Some(percent) => Query::Value(Reading::Battery(percent)),
        None => Query::Absent,
    }
}

/// The answer of the battery source from what could be read of the power
/// supply. Each file is given by its text, or by nothing where it could not
/// be read.
///
/// A machine without the device has no battery: the charge is absent. A
/// status that cannot be read is a failed query. A battery that is not
/// discharging gives no charge, whatever else could or could not be read.
/// For a discharging battery the capacity decides where it can be read, the
/// two energies where it cannot; if neither can be read the query failed.
pub open spec fn spec_battery_query(
    present: bool,
    status: Option<Seq<char>>,
    capacity: Option<Seq<char>>,
    energy_now: Option<Seq<char>>,
    energy_full: Option<Seq<char>>,
) -> Query {
    if !present {
        Query::Absent
    } else {
        match status {
            None => Query::Failed,
            Some(status) => if !spec_is_discharging(status) {
                Query::Absent
            } else {
                match capacity {
                    Some(capacity) => percent_query(capacity_percentage(status, capacity)),
                    None => match (energy_now, energy_full) {
                        (Some(now), Some(full)) => percent_query(energy_percentage(status, now, full)),
                        _ => Query::Failed,
                    },
                }
            },
        }
    }
}

proof fn lemma_prefix_value(s: Seq<char>, k: int)
    requires
        0 <= k <= s.len(),
    ensures
        digits_value(s.take(k)) <= digits_value(s),
    decreases s.len(),
{
    if k == s.len() {
        assert(s.take(k) =~= s);
    } else {
        lemma_prefix_value(s.drop_last(), k);
        assert(s.drop_last().take(k) =~= s.take(k));
    }
}

#[verifier::when_used_as_spec(spec_is_space)]
pub fn is_space(c: char) -> (r: bool)
    ensures
        r == spec_is_space(c),
{
    let u: u32 = c as u32;
    (0x09 <= u && u <= 0x0D) || u == 0x20 || u == 0x85 || u == 0xA0 || u == 0x1680 || (0x2000 <= u
        && u <= 0x200A) || u == 0x2028 || u == 0x2029 || u == 0x202F || u == 0x205F || u == 0x3000
}

/// The positions between which the trimmed text stands.
fn trim_bounds(s: &str) -> (r: (usize, usize))
    ensures
        r.0 <= r.1 <= s@.len(),
        s@.subrange(r.0 as int, r.1 as int) == trim(s@),
{
    let n: usize = s.unicode_len();
    let mut start: usize = 0;
    assert(s@.subrange(0, n as int) =~= s@);
    while start < n && is_space(s.get_char(start))
        invariant
            n == s@.len(),
            start <= n,
            trim_start(s@) == trim_start(s@.subrange(start as int, n as int)),
        decreases n - start,
    {
        assert(s@.subrange(start as int, n as int).drop_first() =~= s@.subrange(
            start + 1,
            n as int,
        ));
        start = start + 1;
    }
    assert(trim_start(s@) == s@.subrange(start as int, n as int));
    let mut end: usize = n;
    while end > start && is_space(s.get_char(end - 1))
        invariant
            n == s@.len(),
            start <= end <= n,
            trim(s@) == trim_end(s@.subrange(start as int, end as int)),
        decreases end,
    {
        assert(s@.subrange(start as int, end as int).drop_last() =~= s@.subrange(
            start as int,
            end - 1,
        ));
        end = end - 1;
    }
    (start, end)
}

/// Whether the text between two positions is the given word.
fn range_equals(s: &str, start: usize, end: usize, word: &str) -> (r: bool)
    requires
        start <= end <= s@.len(),
    ensures
        r == (s@.subrange(start as int, end as int) == word@),
{
    let m: usize = word.unicode_len();
    if end - start != m {
        return false;
    }
    let mut i: usize = 0;
    while i < m
        invariant
            m == word@.len(),
            end - start == m,
            start <= end <= s@.len(),
            i <= m,
            forall|j: int| 0 <= j < i ==> s@[start + j] == word@[j],
        decreases m - i,
    {
        if s.get_char(start + i) != word.get_char(i) {
            assert(s@.subrange(start as int, end as int)[i as int] != word@[i as int]);
            return false;
        }
        i = i + 1;
    }
    assert(s@.subrange(start as int, end as int) =~= word@);
    true
}

/// Reads the unsigned number that stands between two positions.
fn parse_range(s: &str, start: usize, end: usize, max: u64) -> (r: Option<u64>)
    requires
        start <= end <= s@.len(),
    ensures
        match parse_unsigned(s@.subrange(start as int, end as int), max as nat) {
            Some(v) => r == Some(v as u64),
            None => r is None,
        },
{
    let ghost whole = s@.subrange(start as int, end as int);
    let mut i: usize = start;
    if i < end && s.get_char(i) == '+' {
        i = i + 1;
    }
    let first: usize = i;
    let ghost digits = s@.subrange(first as int, end as int);
    assert(digits =~= if whole.len() > 0 && whole[0] == '+' {
        whole.drop_first()
    } else {
        whole
    });
    if i == end {
        return None;
    }
    let mut acc: u64 = 0;
    while i < end
        invariant
            start <= first <= i <= end <= s@.len(),
            whole == s@.subrange(start as int, end as int),
            digits == s@.subrange(first as int, end as int),
            digits == if whole.len() > 0 && whole[0] == '+' {
                whole.drop_first()
            } else {
                whole
            },
            all_digits(s@.subrange(first as int, i as int)),
            acc == digits_value(s@.subrange(first as int, i as int)),
            acc <= max,
        decreases end - i,
    {
        let c = s.get_char(i);
        let u: u32 = c as u32;
        if u < 0x30 || u > 0x39 {
            assert(!is_digit(digits[i - first]));
            return None;
        }
        let wide: u128 = (acc as u128) * 10 + ((u - 0x30) as u128);
        proof {
            let longer = s@.subrange(first as int, i + 1);
            assert(longer.drop_last() =~= s@.subrange(first as int, i as int));
            assert(longer.last() == c);
            assert(digits_value(longer) == wide);
            assert(digits.take(i + 1 - first) =~= longer);
            lemma_prefix_value(digits, i + 1 - first);
        }
        if wide > max as u128 {
            return None;
        }
        acc = wide as u64;
        i = i + 1;
    }
    Some(acc)
}

/// Whether the status, without the white space around it, reads
/// "Discharging".
pub fn is_discharging(status: &str) -> (r: bool)
    ensures
        r == spec_is_discharging(status@),
{
    let (start, end) = trim_bounds(status);
    range_equals(status, start, end, "Discharging")
}

/// Battery charge in percent from the status and the capacity that the
/// power supply reports.
pub fn get_battery_capacity(status: &str, capacity: &str) -> (r: Option<u32>)
    ensures
        r == capacity_percentage(status@, capacity@),
        r matches Some(percent) ==> percent <= 100,
{
    if !is_discharging(status) {
        return None;
    }
    let (start, end) = trim_bounds(capacity);
    match parse_range(capacity, start, end, 0xFFFF_FFFF) {
        Some(v) => Some(
            if v > 100 {
                100
            } else {
                v as u32
            },
        ),
        None => None,
    }
}

/// Battery charge in percent from the status and the two energies that the
/// power supply reports.
pub fn get_battery_percentage(status: &str, energy_now: &str, energy_full: &str) -> (r: Option<u32>)
    ensures
        r == energy_percentage(status@, energy_now@, energy_full@),
        r matches Some(percent) ==> percent <= 100,
{
    if !is_discharging(status) {
        return None;
    }
    let (now_start, now_end) = trim_bounds(energy_now);
    let (full_start, full_end) = trim_bounds(energy_full);
    let now = parse_range(energy_now, now_start, now_end, 0xFFFF_FFFF_FFFF_FFFF);
    let full = parse_range(energy_full, full_start, full_end, 0xFFFF_FFFF_FFFF_FFFF);
    match (now, full) {
        (Some(n), Some(f)) => {
            if f == 0 {
                None
            } else {
                let ratio: u128 = (n as u128) * 100 / (f as u128);
                Some(
                    if ratio > 100 {
                        100
                    } else {
                        ratio as u32
                    },
                )
            }
        },
        _ => None,
    }
}

/// The answer of the battery source from what could be read of the power
/// supply: whether the device exists, and the text of each of its files
/// that could be read.
pub fn battery_query(
    present: bool,
    status: Option<&str>,
    capacity: Option<&str>,
    energy_now: Option<&str>,
    energy_full: Option<&str>,
) -> (r: Query)
    ensures
        r == spec_battery_query(
            present,
            text_of(status),
            text_of(capacity),
            text_of(energy_now),
            text_of(energy_full),
        ),
        r matches Query::Value(reading) ==> reading is Battery && reading.value() <= 100,
{
    if !present {
        return Query::Absent;
    }
    let status: &str = match status {
        Some(status) => status,
        None => {
            return Query::Failed;
        },
    };
    if !is_discharging(status) {
        return Query::Absent;
    }
    let percent: Option<u32> = match capacity {
        Some(capacity) => get_battery_capacity(status, capacity),
        None => match (energy_now, energy_full) {
            (Some(now), Some(full)) => get_battery_percentage(status, now, full),
            _ => {
                return Query::Failed;
            },
        },
    };
    match percent {
        Some(percent) => Query::Value(Reading::Battery(percent)),
        None => Query::Absent,
    }
}

/// A battery that is not discharging, and a machine without a battery,
/// never give a value and never count as a failed query, whichever files
/// could be read.
pub proof fn lemma_idle_battery_is_absent(
    present: bool,
    status: Seq<char>,
    capacity: Option<Seq<char>>,
    energy_now: Option<Seq<char>>,
    energy_full: Option<Seq<char>>,
)
    requires
        !present || !spec_is_discharging(status),
    ensures
        spec_battery_query(present, Some(status), capacity, energy_now, energy_full) == Query::Absent,
        !present ==> spec_battery_query(present, None, capacity, energy_now, energy_full)
            == Query::Absent,
{
}

} // verus!
