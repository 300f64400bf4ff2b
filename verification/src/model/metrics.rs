//! Bounded metric history buffers and byte/uptime formatting.

use std::collections::VecDeque;

use vstd::prelude::*;
use vstd::std_specs::iter::IteratorSpec;

use crate::model::log::newest;
use crate::text::{decimal, decimal_string, digit, digit_char, push_char};

verus! {

#[derive(Debug, Clone)]
pub struct DiskUsage {
    pub name: String,
    pub mount_point: String,
    pub total: u64,
    pub used: u64,
    pub available: u64,
}

/// Fixed-capacity history: at most `capacity` values, oldest dropped first.
#[derive(Debug)]
pub struct CircularBuffer<T> {
    capacity: usize,
    data: VecDeque<T>,
}

impl<T> CircularBuffer<T> {
    #[verifier::type_invariant]
    spec fn bounded(self) -> bool {
        &&& self.capacity >= 1
        &&& self.data@.len() <= self.capacity
    }

    /// The values, oldest first.
    pub closed spec fn contents(self) -> Seq<T> {
        self.data@
    }

    /// The most values the buffer keeps.
    pub closed spec fn cap(self) -> nat {
        self.capacity as nat
    }

    /// An empty buffer; a capacity of zero is raised to one.
    pub fn new(capacity: usize) -> (b: Self)
        ensures
            b.contents() == Seq::<T>::empty(),
            b.cap() == if capacity == 0 {
                1
            } else {
                capacity as nat
            },
    {
        let capacity = if capacity < 1 {
            1
        } else {
            capacity
        };
        CircularBuffer { capacity, data: VecDeque::with_capacity(capacity) }
    }

    /// Appends `value`, dropping the oldest value first when full: the buffer
    /// holds the newest `cap` values pushed so far.
    pub fn push(&mut self, value: T)
        ensures
            final(self).cap() == old(self).cap(),
            final(self).contents() == newest(old(self).contents().push(value), old(self).cap()),
    {
        proof {
            use_type_invariant(&*self);
            crate::model::log::lemma_push_keeps_newest(self.data@, value, self.capacity as nat);
        }
        let mut data: VecDeque<T> = VecDeque::new();
        std::mem::swap(&mut data, &mut self.data);
        if data.len() >= self.capacity {
            data.pop_front();
        }
        data.push_back(value);
        self.data = data;
    }

    pub fn len(&self) -> (n: usize)
        ensures
            n == self.contents().len(),
            n <= self.cap(),
    {
        proof {
            use_type_invariant(self);
        }
        self.data.len()
    }

    /// Iterates over the values, oldest first.
    pub fn iter(&self) -> (it: std::collections::vec_deque::Iter<'_, T>)
        ensures
            it.remaining() == self.contents().as_ref(),
    {
        self.data.iter()
    }

    pub fn is_empty(&self) -> (b: bool)
        ensures
            b == (self.contents().len() == 0),
    {
        self.data.len() == 0
    }

    pub fn capacity(&self) -> (c: usize)
        ensures
            c == self.cap(),
            c >= 1,
    {
        proof {
            use_type_invariant(self);
        }
        self.capacity
    }

    /// The value at position `i`, oldest first.
    pub fn get(&self, i: usize) -> (v: &T)
        requires
            i < self.contents().len(),
        ensures
            *v == self.contents()[i as int],
    {
        &self.data[i]
    }

    /// References to the values, oldest first.
    pub fn as_slice_vec(&self) -> (v: Vec<&T>)
        ensures
            v@.map_values(|x: &T| *x) == self.contents(),
    {
        let ghost s = self.contents();
        let mut out: Vec<&T> = Vec::new();
        let mut i: usize = 0;
        let n = self.len();
        while i < n
            invariant
                s == self.contents(),
                n == s.len(),
                i <= n,
                out@.map_values(|x: &T| *x) == s.take(i as int),
            decreases n - i,
        {
            let x = self.get(i);
            proof {
                crate::seqs::lemma_map_push(out@, x, |x: &T| *x);
                assert(s.take(i + 1) =~= s.take(i as int).push(s[i as int]));
            }
            out.push(x);
            i += 1;
        }
        assert(s.take(n as int) =~= s);
        out
    }

    /// Changes the capacity (zero is raised to one), dropping the oldest values
    /// that no longer fit; growing keeps every value.
    pub fn resize(&mut self, capacity: usize)
        ensures
            final(self).cap() == if capacity == 0 {
                1
            } else {
                capacity as nat
            },
            final(self).contents() == newest(old(self).contents(), final(self).cap()),
    {
        let capacity = if capacity < 1 {
            1
        } else {
            capacity
        };
        proof {
            use_type_invariant(&*self);
        }
        let mut data: VecDeque<T> = VecDeque::new();
        std::mem::swap(&mut data, &mut self.data);
        let ghost start = data@;
        assert(start.skip(0) =~= start);
        while data.len() > capacity
            invariant
                capacity >= 1,
                start.len() >= data@.len(),
                data@.len() >= if start.len() <= capacity {
                    start.len()
                } else {
                    capacity as nat
                },
                data@ == start.skip(start.len() - data@.len()),
            decreases data@.len(),
        {
            let ghost before = data@;
            data.pop_front();
            assert(data@ =~= start.skip(start.len() - data@.len()));
        }
        proof {
            if start.len() <= capacity {
                assert(data@ =~= start);
            }
        }
        self.data = data;
        self.capacity = capacity;
    }
}

/// 1024 to the power `k`.
pub open spec fn pow1024(k: nat) -> nat
    decreases k,
{
    if k == 0 {
        1
    } else {
        1024 * pow1024((k - 1) as nat)
    }
}

/// The binary unit a byte count is shown in: the largest of B, KiB, MiB, GiB,
/// TiB, PiB whose size does not exceed the count (B below 1024).
pub open spec fn unit_from(bytes: nat, k: nat) -> nat
    decreases 5 - k,
{
    if k < 5 && bytes >= pow1024(k + 1) {
        unit_from(bytes, k + 1)
    } else {
        k
    }
}

pub open spec fn unit_name(k: nat) -> Seq<char> {
    if k == 0 {
        "B"@
    } else if k == 1 {
        "KiB"@
    } else if k == 2 {
        "MiB"@
    } else if k == 3 {
        "GiB"@
    } else if k == 4 {
        "TiB"@
    } else {
        "PiB"@
    }
}

/// `n / d` rounded to the nearest integer, ties to even.
pub open spec fn round_half_even(n: nat, d: nat) -> nat
    recommends
        d > 0,
{
    let q = n / d;
    let r = n % d;
    if 2 * r > d {
        q + 1
    } else if 2 * r < d {
        q
    } else if q % 2 == 0 {
        q
    } else {
        q + 1
    }
}

/// 2 to the power `n`.
pub open spec fn two_to(n: nat) -> nat
    decreases n,
{
    if n == 0 {
        1
    } else {
        2 * two_to((n - 1) as nat)
    }
}

/// How many low bits of `bytes` a double cannot hold: the `e <= 11` with
/// `bytes < 2^(53 + e)`, least such.
pub open spec fn float_shift(bytes: nat, e: nat) -> nat
    decreases 11 - e,
{
    if e < 11 && bytes >= two_to(53 + e) {
        float_shift(bytes, e + 1)
    } else {
        e
    }
}

/// The value of `bytes as f64`: the nearest double, ties to an even mantissa.
pub open spec fn as_double(bytes: nat) -> nat {
    let step = two_to(float_shift(bytes, 0));
    round_half_even(bytes, step) * step
}

/// Human-readable size: whole bytes below 1 KiB, otherwise the size (as a
/// double) in the chosen unit with one decimal, rounded half to even.
pub open spec fn bytes_text(bytes: nat) -> Seq<char> {
    let v = as_double(bytes);
    let k = unit_from(v, 0);
    if k == 0 {
        decimal(bytes) + " B"@
    } else {
        let t = round_half_even(v * 10, pow1024(k));
        decimal(t / 10) + "."@ + seq![digit_char(t % 10)] + " "@ + unit_name(k)
    }
}

proof fn lemma_two_to_bounds(n: nat)
    requires
        n <= 64,
    ensures
        two_to(n) >= 1,
        n == 53 ==> two_to(n) == 0x20_0000_0000_0000,
        n == 64 ==> two_to(n) == 0x1_0000_0000_0000_0000,
        two_to(n) <= 0x1_0000_0000_0000_0000,
{
    reveal_with_fuel(two_to, 65);
}

proof fn lemma_two_to_add(a: nat, b: nat)
    ensures
        two_to(a + b) == two_to(a) * two_to(b),
    decreases a,
{
    if a > 0 {
        let a1 = (a - 1) as nat;
        lemma_two_to_add(a1, b);
        assert(two_to(a + b) == 2 * two_to(a1 + b));
        assert(two_to(a) == 2 * two_to(a1));
        let x = two_to(a1);
        let y = two_to(b);
        assert(2 * (x * y) == (2 * x) * y) by (nonlinear_arith);
    } else {
        assert(a + b == b);
        assert(two_to(a) == 1);
        assert(two_to(a + b) == two_to(b));
        assert(two_to(a) * two_to(b) == two_to(b));
    }
}

/// `bytes as f64`, exactly, as an integer.
fn double_value(bytes: u64) -> (v: u128)
    ensures
        v == as_double(bytes as nat),
        v <= 0x2_0000_0000_0000_0000,
{
    let mut e: u64 = 0;
    let mut step: u64 = 1;
    proof {
        lemma_two_to_bounds(53);
    }
    while e < 11 && bytes / step >= 0x20_0000_0000_0000
        invariant
            e <= 11,
            step == two_to(e as nat),
            step >= 1,
            step <= 2048,
            float_shift(bytes as nat, 0) == float_shift(bytes as nat, e as nat),
        decreases 11 - e,
    {
        proof {
            lemma_two_to_add(53, e as nat);
            lemma_two_to_bounds(53);
            assert(bytes >= 0x20_0000_0000_0000 * step) by (nonlinear_arith)
                requires
                    bytes / step >= 0x20_0000_0000_0000,
                    step >= 1,
            ;
            reveal_with_fuel(two_to, 12);
            assert(two_to((e + 1) as nat) == 2 * step);
        }
        step = step * 2;
        e += 1;
    }
    proof {
        if e < 11 {
            lemma_two_to_add(53, e as nat);
            lemma_two_to_bounds(53);
            assert(bytes < 0x20_0000_0000_0000 * step) by (nonlinear_arith)
                requires
                    bytes / step < 0x20_0000_0000_0000,
                    step >= 1,
            ;
        }
    }
    let q: u64 = bytes / step;
    let r: u64 = bytes % step;
    assert(step == 1 ==> r == 0);
    assert(step >= 2 ==> q <= bytes / 2) by (nonlinear_arith)
        requires
            q == bytes / step,
    ;
    let m: u64 = if 2 * r > step {
        q + 1
    } else if 2 * r < step {
        q
    } else if q % 2 == 0 {
        q
    } else {
        q + 1
    };
    assert(m <= bytes / step + 1);
    assert((m as int) * (step as int) <= bytes as int + step as int) by (nonlinear_arith)
        requires
            m <= bytes / step + 1,
            step >= 1,
    ;
    (m as u128) * (step as u128)
}

fn unit_label(k: u64) -> (s: &'static str)
    requires
        1 <= k <= 5,
    ensures
        s@ == unit_name(k as nat),
{
    if k == 1 {
        "KiB"
    } else if k == 2 {
        "MiB"
    } else if k == 3 {
        "GiB"
    } else if k == 4 {
        "TiB"
    } else {
        "PiB"
    }
}

proof fn lemma_pow1024_bounds(k: nat)
    requires
        k <= 6,
    ensures
        pow1024(k) >= 1,
        k <= 5 ==> pow1024(k) <= 0x4_0000_0000_0000_0000,
{
    reveal_with_fuel(pow1024, 7);
}

/// Binary-prefixed byte count with one decimal (`512 B`, `2.0 KiB`).
pub fn format_bytes(bytes: u64) -> (s: String)
    ensures
        s@ == bytes_text(bytes as nat),
{
    let v: u128 = double_value(bytes);
    let mut unit: u64 = 0;
    let mut div: u128 = 1;
    proof {
        reveal_with_fuel(pow1024, 7);
    }
    while unit < 5 && v / div >= 1024
        invariant
            unit <= 5,
            div == pow1024(unit as nat),
            div >= 1,
            unit_from(v as nat, 0) == unit_from(v as nat, unit as nat),
        decreases 5 - unit,
    {
        proof {
            lemma_pow1024_bounds((unit + 1) as nat);
            assert(pow1024((unit + 1) as nat) == 1024 * div);
            assert(v >= 1024 * div) by (nonlinear_arith)
                requires
                    v / div >= 1024,
                    div >= 1,
            ;
        }
        div = div * 1024;
        unit += 1;
    }
    proof {
        if unit < 5 {
            lemma_pow1024_bounds((unit + 1) as nat);
            assert(pow1024((unit + 1) as nat) == 1024 * div);
            assert(v < 1024 * div) by (nonlinear_arith)
                requires
                    v / div < 1024,
                    div >= 1,
            ;
        }
        lemma_pow1024_bounds(unit as nat);
    }
    if unit == 0 {
        let mut s = decimal_string(bytes);
        s.append(" B");
        return s;
    }
    let n: u128 = v * 10;
    let d: u128 = div;
    let q: u128 = n / d;
    let r: u128 = n % d;
    let t: u128 = if 2 * r > d {
        q + 1
    } else if 2 * r < d {
        q
    } else if q % 2 == 0 {
        q
    } else {
        q + 1
    };
    assert(q <= n) by (nonlinear_arith)
        requires
            q == n / d,
            d >= 1,
    ;
    assert(q <= 10 * 0x80_0000_0000_0000) by (nonlinear_arith)
        requires
            q == n / d,
            d >= 1024,
            n <= 10 * 0x2_0000_0000_0000_0000,
    ;
    let whole: u64 = (t / 10) as u64;
    let frac: u64 = (t % 10) as u64;
    let mut s = decimal_string(whole);
    s.append(".");
    push_char(&mut s, digit(frac));
    s.append(" ");
    s.append(unit_label(unit));
    proof {
        let t_spec = round_half_even(v as nat * 10, pow1024(unit as nat));
        assert(t_spec == t);
        assert(s@ =~= bytes_text(bytes as nat));
    }
    s
}

/// Uptime text: `Nd Nh` from one day, `Nh Nm` from one hour, else `Nm`.
pub open spec fn uptime_text(seconds: nat) -> Seq<char> {
    let days = seconds / 86_400;
    let hours = (seconds % 86_400) / 3600;
    let mins = (seconds % 3600) / 60;
    if days > 0 {
        decimal(days) + "d "@ + decimal(hours) + "h"@
    } else if hours > 0 {
        decimal(hours) + "h "@ + decimal(mins) + "m"@
    } else {
        decimal(mins) + "m"@
    }
}

pub fn format_uptime(seconds: u64) -> (s: String)
    ensures
        s@ == uptime_text(seconds as nat),
{
    let days = seconds / 86_400;
    let hours = (seconds % 86_400) / 3600;
    let mins = (seconds % 3600) / 60;
    if days > 0 {
        let mut s = decimal_string(days);
        s.append("d ");
        s.append(decimal_string(hours).as_str());
        s.append("h");
        s
    } else if hours > 0 {
        let mut s = decimal_string(hours);
        s.append("h ");
        s.append(decimal_string(mins).as_str());
        s.append("m");
        s
    } else {
        let mut s = decimal_string(mins);
        s.append("m");
        s
    }
}

} // verus!
