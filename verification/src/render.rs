use crate::events::Event;
use vstd::prelude::*;
use vstd::string::*;

verus! {

/// Bytes in one GiB.
pub const GIB: u64 = 1073741824;

/// What is shown to the user for one event.
#[derive(Clone, Debug)]
pub struct Notification {
    pub summary: String,
    pub body: String,
}

/// The character of one decimal digit.
pub open spec fn digit_char(d: nat) -> char {
    if d == 0 {
        '0'
    } else if d == 1 {
        '1'
    } else if d == 2 {
        '2'
    } else if d == 3 {
        '3'
    } else if d == 4 {
        '4'
    } else if d == 5 {
        '5'
    } else if d == 6 {
        '6'
    } else if d == 7 {
        '7'
    } else if d == 8 {
        '8'
    } else {
        '9'
    }
}

/// A natural number in decimal, without leading zeros.
pub open spec fn decimal(n: nat) -> Seq<char>
    decreases n,
{
    if n < 10 {
        seq![digit_char(n)]
    } else {
        decimal(n / 10).push(digit_char(n % 10))
    }
}

/// A count of hundredths as a decimal number with two fractional digits.
pub open spec fn hundredths_text(n: nat) -> Seq<char> {
    decimal(n / 100) + seq!['.', digit_char((n / 10) % 10), digit_char(n % 10)]
}

/// A signed count of tenths as a decimal number with one fractional digit.
pub open spec fn tenths_text(t: int) -> Seq<char> {
    let magnitude: nat = if t < 0 { (-t) as nat } else { t as nat };
    let sign: Seq<char> = if t < 0 { seq!['-'] } else { Seq::<char>::empty() };
    sign + decimal(magnitude / 10) + seq!['.', digit_char(magnitude % 10)]
}

/// A byte count in hundredths of a GiB, rounded to the nearest hundredth,
/// a tie going to the even one.
pub open spec fn gib_hundredths(bytes: nat) -> nat {
    let scaled: nat = bytes * 100;
    let quotient: nat = scaled / (GIB as nat);
    let rest: nat = scaled % (GIB as nat);
    if 2 * rest > GIB as nat || (2 * rest == GIB as nat && quotient % 2 == 1) {
        quotient + 1
    } else {
        quotient
    }
}

/// The summary line of the alert for an event.
pub open spec fn summary_text(event: Event) -> Seq<char> {
    match event {
        Event::CpuHigh(_) => "CPU High"@,
        Event::MemoryLow(_) => "Memory Low"@,
        Event::TemperatureHigh(_) => "Temperature Warning"@,
        Event::BatteryLow(_) => "Battery Warning"@,
    }
}

/// The body of the alert for an event: the limit, then the measured value.
pub open spec fn body_text(event: Event) -> Seq<char> {
    match event {
        Event::CpuHigh(usage) => "CPU usage exceeds 90%: "@ + hundredths_text(usage as nat) + "%"@,
        Event::MemoryLow(bytes) => "Available memory below 2.0GB: "@ + hundredths_text(
            gib_hundredths(bytes as nat),
        ) + " GB"@,
        Event::TemperatureHigh(tenths) => "CPU temperature exceeds 70°C: "@ + tenths_text(
            tenths as int,
        ) + "°C"@,
        Event::BatteryLow(percent) => "Battery below 82%: "@ + decimal(percent as nat) + "%"@,
    }
}

fn digit_str(d: u64) -> (r: &'static str)
    requires
        d < 10,
    ensures
        r@ == seq![digit_char(d as nat)],
{
    proof {
        reveal_strlit("0");
        reveal_strlit("1");
        reveal_strlit("2");
        reveal_strlit("3");
        reveal_strlit("4");
        reveal_strlit("5");
        reveal_strlit("6");
        reveal_strlit("7");
        reveal_strlit("8");
        reveal_strlit("9");
    }
    let r = if d == 0 {
        "0"
    } else if d == 1 {
        "1"
    } else if d == 2 {
        "2"
    } else if d == 3 {
        "3"
    } else if d == 4 {
        "4"
    } else if d == 5 {
        "5"
    } else if d == 6 {
        "6"
    } else if d == 7 {
        "7"
    } else if d == 8 {
        "8"
    } else {
        "9"
    };
    assert(r@ =~= seq![digit_char(d as nat)]);
    r
}

fn push_decimal(out: &mut String, n: u64)
    ensures
        final(out)@ == old(out)@ + decimal(n as nat),
    decreases n,
{
    if n >= 10 {
        push_decimal(out, n / 10);
    }
    out.append(digit_str(n % 10));
    assert(final(out)@ =~= old(out)@ + decimal(n as nat));
}

fn push_hundredths(out: &mut String, n: u64)
    ensures
        final(out)@ == old(out)@ + hundredths_text(n as nat),
{
    push_decimal(out, n / 100);
    proof {
        reveal_strlit(".");
    }
    out.append(".");
    out.append(digit_str((n / 10) % 10));
    out.append(digit_str(n % 10));
    assert(final(out)@ =~= old(out)@ + hundredths_text(n as nat));
}

fn push_tenths(out: &mut String, t: i32)
    ensures
        final(out)@ == old(out)@ + tenths_text(t as int),
{
    proof {
        reveal_strlit(".");
        reveal_strlit("-");
    }
    let magnitude: u64 = if t < 0 {
        out.append("-");
        (-(t as i64)) as u64
    } else {
        t as u64
    };
    push_decimal(out, magnitude / 10);
    out.append(".");
    out.append(digit_str(magnitude % 10));
    assert(final(out)@ =~= old(out)@ + tenths_text(t as int));
}

/// Converts a byte count to hundredths of a GiB.
pub fn to_gib_hundredths(bytes: u64) -> (r: u64)
    ensures
        r == gib_hundredths(bytes as nat),
{
    let scaled: u128 = (bytes as u128) * 100;
    let quotient: u128 = scaled / (GIB as u128);
    let rest: u128 = scaled % (GIB as u128);
    let up: bool = 2 * rest > GIB as u128 || (2 * rest == GIB as u128 && quotient % 2 == 1);
    if up {
        (quotient + 1) as u64
    } else {
        quotient as u64
    }
}

/// Renders the alert for one event.
pub fn handle_event(event: Event) -> (r: Notification)
    ensures
        r.summary@ == summary_text(event),
        r.body@ == body_text(event),
{
    match event {
        Event::CpuHigh(usage) => {
            let mut body = String::from_str("CPU usage exceeds 90%: ");
            push_hundredths(&mut body, usage as u64);
            body.append("%");
            Notification { summary: String::from_str("CPU High"), body }
        },
        Event::MemoryLow(bytes) => {
            let mut body = String::from_str("Available memory below 2.0GB: ");
            push_hundredths(&mut body, to_gib_hundredths(bytes));
            body.append(" GB");
            Notification { summary: String::from_str("Memory Low"), body }
        },
        Event::TemperatureHigh(tenths) => {
            let mut body = String::from_str("CPU temperature exceeds 70°C: ");
            push_tenths(&mut body, tenths);
            body.append("°C");
            Notification { summary: String::from_str("Temperature Warning"), body }
        },
        Event::BatteryLow(percent) => {
            let mut body = String::from_str("Battery below 82%: ");
            push_decimal(&mut body, percent as u64);
            body.append("%");
            Notification { summary: String::from_str("Battery Warning"), body }
        },
    }
}

} // verus!
