use vstd::prelude::*;
use vstd::string::*;

verus! {

/// One temperature sensor as the metrics provider reports it.
#[derive(Clone, Debug)]
pub struct Component {
    pub label: String,
    /// Tenths of a degree Celsius; nothing where the sensor gives no
    /// reading.
    pub temperature: Option<i32>,
}

/// The sum of the loads.
pub open spec fn total_load(loads: Seq<u32>) -> nat
    decreases loads.len(),
{
    if loads.len() == 0 {
        0
    } else {
        total_load(loads.drop_last()) + loads.last() as nat
    }
}

/// The mean load over all processors, rounded up, so that a mean beyond a
/// limit is never rounded onto it; nothing where there is no processor.
pub open spec fn average_load(loads: Seq<u32>) -> Option<u32> {
    if loads.len() == 0 {
        None
    } else {
        Some(((total_load(loads) + loads.len() - 1) / (loads.len() as int)) as u32)
    }
}

/// Whether the three characters from position `k` on spell "cpu" in any
/// mixture of upper and lower case.
pub open spec fn cpu_at(label: Seq<char>, k: int) -> bool {
    &&& 0 <= k
    &&& k + 3 <= label.len()
    &&& (label[k] == 'c' || label[k] == 'C')
    &&& (label[k + 1] == 'p' || label[k + 1] == 'P')
    &&& (label[k + 2] == 'u' || label[k + 2] == 'U')
}

/// Whether a sensor label names the CPU.
pub open spec fn spec_is_cpu_label(label: Seq<char>) -> bool {
    exists|k: int| cpu_at(label, k)
}

/// The reading of the first sensor whose label names the CPU. Where that
/// sensor gives no reading the temperature is absent.
pub open spec fn cpu_temperature(components: Seq<Component>) -> Option<i32>
    decreases components.len(),
{
    if components.len() == 0 {
        None
    } else if spec_is_cpu_label(components[0].label@) {
        components[0].temperature
    } else {
        cpu_temperature(components.drop_first())
    }
}

proof fn lemma_total_load_bound(loads: Seq<u32>, bound: nat)
    requires
        forall|i: int| 0 <= i < loads.len() ==> loads[i] <= bound,
    ensures
        total_load(loads) <= loads.len() * bound,
    decreases loads.len(),
{
    if loads.len() > 0 {
        lemma_total_load_bound(loads.drop_last(), bound);
        assert((loads.len() - 1) * bound + bound == loads.len() * bound) by (nonlinear_arith);
    }
}

/// The mean of loads that all stay within a bound stays within it: loads
/// between 0 and 100 percent give a mean between 0 and 100 percent.
pub proof fn lemma_average_load_at_most(loads: Seq<u32>, bound: u32)
    requires
        loads.len() > 0,
        forall|i: int| 0 <= i < loads.len() ==> loads[i] <= bound,
    ensures
        (total_load(loads) + loads.len() - 1) / (loads.len() as int) <= bound,
        average_load(loads) matches Some(mean) && mean <= bound,
        average_load(loads) matches Some(mean) && mean * loads.len() >= total_load(loads),
{
    lemma_total_load_bound(loads, bound as nat);
    let n = loads.len();
    let t = total_load(loads);
    let b = bound as nat;
    assert((t + n - 1) / (n as int) <= b && ((t + n - 1) / (n as int)) * n >= t) by (nonlinear_arith)
        requires
            n > 0,
            t <= n * b,
    ;
}

/// A mean that lies strictly beyond a limit is still strictly beyond it
/// after rounding.
pub proof fn lemma_mean_beyond_limit_stays_beyond(loads: Seq<u32>, limit: u32)
    requires
        loads.len() > 0,
        total_load(loads) > loads.len() * limit,
    ensures
        average_load(loads) matches Some(mean) && mean > limit,
{
    lemma_average_load_at_most(loads, 0xFFFF_FFFF);
    let n = loads.len();
    let t = total_load(loads);
    let l = limit as nat;
    let m = average_load(loads).unwrap() as nat;
    assert(m > l) by (nonlinear_arith)
        requires
            n > 0,
            t > n * l,
            m * n >= t,
    ;
}

/// Average load over the logical processors, each given in hundredths of a
/// percent.
pub fn get_cpu_usage(loads: &Vec<u32>) -> (r: Option<u32>)
    ensures
        r == average_load(loads@),
{
    let n: usize = loads.len();
    if n == 0 {
        return None;
    }
    let mut sum: u128 = 0;
    let mut i: usize = 0;
    while i < n
        invariant
            n == loads.len(),
            i <= n,
            sum == total_load(loads@.take(i as int)),
        decreases n - i,
    {
        proof {
            lemma_total_load_bound(loads@.take(i as int), 0xFFFF_FFFF);
            assert(i * 0xFFFF_FFFF <= 0xFFFF_FFFF_FFFF_FFFF * 0xFFFF_FFFF) by (nonlinear_arith)
                requires
                    i <= 0xFFFF_FFFF_FFFF_FFFF,
            ;
            assert(loads@.take(i + 1).drop_last() =~= loads@.take(i as int));
        }
        sum = sum + loads[i] as u128;
        i = i + 1;
    }
    proof {
        assert(loads@.take(n as int) =~= loads@);
        lemma_average_load_at_most(loads@, 0xFFFF_FFFF);
        lemma_total_load_bound(loads@, 0xFFFF_FFFF);
        assert(n * 0xFFFF_FFFF <= 0xFFFF_FFFF_FFFF_FFFF * 0xFFFF_FFFF) by (nonlinear_arith)
            requires
                n <= 0xFFFF_FFFF_FFFF_FFFF,
        ;
    }
    let mean: u128 = (sum + (n as u128) - 1) / (n as u128);
    Some(mean as u32)
}

/// Whether a sensor label contains "cpu", whatever the case of its letters.
pub fn is_cpu_label(label: &str) -> (r: bool)
    ensures
        r == spec_is_cpu_label(label@),
{
    let n: usize = label.unicode_len();
    if n < 3 {
        assert(forall|k: int| !cpu_at(label@, k));
        return false;
    }
    let mut k: usize = 0;
    while k <= n - 3
        invariant
            n == label@.len(),
            n >= 3,
            forall|j: int| j < k ==> !cpu_at(label@, j),
        decreases n - k,
    {
        let a = label.get_char(k);
        let b = label.get_char(k + 1);
        let c = label.get_char(k + 2);
        if (a == 'c' || a == 'C') && (b == 'p' || b == 'P') && (c == 'u' || c == 'U') {
            assert(cpu_at(label@, k as int));
            return true;
        }
        k = k + 1;
    }
    assert(forall|j: int| !cpu_at(label@, j));
    false
}

/// Temperature of the first sensor whose label names the CPU, in tenths of a
/// degree; nothing where no sensor does or where that sensor gives no
/// reading.
pub fn get_cpu_temperature(components: &Vec<Component>) -> (r: Option<i32>)
    ensures
        r == cpu_temperature(components@),
{
    let n: usize = components.len();
    let mut i: usize = 0;
    assert(components@.skip(0) =~= components@);
    while i < n
        invariant
            n == components.len(),
            i <= n,
            cpu_temperature(components@) == cpu_temperature(components@.skip(i as int)),
        decreases n - i,
    {
        proof {
            assert(components@.skip(i as int).drop_first() =~= components@.skip(i + 1));
            assert(components@.skip(i as int)[0] == components@[i as int]);
        }
        if is_cpu_label(components[i].label.as_str()) {
            return components[i].temperature;
        }
        i = i + 1;
    }
    None
}

} // verus!
