//! Pure numeric operations: wrapping 32-bit addition and the Fibonacci
//! sequence with silent 64-bit wraparound.
use vstd::prelude::*;

verus! {

use vstd::wrapping::i32_specs;
use vstd::wrapping::u64_specs;
use vstd::arithmetic::div_mod::lemma_add_mod_noop;
use vstd::arithmetic::div_mod::lemma_small_mod;
use vstd::arithmetic::div_mod::lemma_mod_add_multiples_vanish;

/// Adds two 32-bit integers, wrapping on overflow per two's-complement
/// semantics. No side effects and no failure mode.
pub fn add_numbers(a: i32, b: i32) -> (r: i32)
    ensures
        r == i32_specs::wrapping_add(a, b),
        i32::MIN <= a + b <= i32::MAX ==> r == a + b,
{
    a.wrapping_add(b)
}

/// The mathematical Fibonacci sequence.
pub open spec fn spec_fib(n: nat) -> nat
    decreases n,
{
    if n == 0 {
        0
    } else if n == 1 {
        1
    } else {
        spec_fib((n - 2) as nat) + spec_fib((n - 1) as nat)
    }
}

/// The Fibonacci number reduced to 64 bits: what an unchecked 64-bit
/// computation of the sequence produces.
pub open spec fn fib_wrapped(n: nat) -> nat {
    spec_fib(n) % 0x1_0000_0000_0000_0000
}

/// Returns the n-th Fibonacci number, computed iteratively with two running
/// accumulators. For large n the result silently wraps modulo 2^64: the
/// result is always the true Fibonacci number reduced to 64 bits.
pub fn fibonacci(n: u32) -> (r: u64)
    ensures
        r as nat == fib_wrapped(n as nat),
{
    if n == 0 {
        return 0;
    }
    if n == 1 {
        return 1;
    }
    let mut a: u64 = 0;
    let mut b: u64 = 1;
    let mut i: u64 = 2;
    while i <= n as u64
        invariant
            2 <= i <= n + 1,
            n >= 2,
            a as nat == fib_wrapped((i - 2) as nat),
            b as nat == fib_wrapped((i - 1) as nat),
        decreases n as int + 1 - i,
    {
        let t = a.wrapping_add(b);
        proof {
            lemma_wrapping_add_is_add_mod(a, b);
            lemma_add_mod_noop(
                spec_fib((i - 2) as nat) as int,
                spec_fib((i - 1) as nat) as int,
                0x1_0000_0000_0000_0000,
            );
            assert(spec_fib(i as nat) == spec_fib((i - 2) as nat) + spec_fib((i - 1) as nat));
        }
        a = b;
        b = t;
        i = i + 1;
    }
    b
}

/// A 64-bit wrapping addition produces the mathematical sum modulo 2^64.
proof fn lemma_wrapping_add_is_add_mod(x: u64, y: u64)
    ensures
        u64_specs::wrapping_add(x, y) as nat == (x + y) as nat % 0x1_0000_0000_0000_0000,
{
    if x + y > u64::MAX {
        lemma_mod_add_multiples_vanish((x + y - 0x1_0000_0000_0000_0000) as int,
            0x1_0000_0000_0000_0000);
        lemma_small_mod((x + y - 0x1_0000_0000_0000_0000) as nat, 0x1_0000_0000_0000_0000);
    } else {
        lemma_small_mod((x + y) as nat, 0x1_0000_0000_0000_0000);
    }
}

/// The Fibonacci sequence never decreases.
proof fn lemma_fib_monotone(i: nat, j: nat)
    requires
        i <= j,
    ensures
        spec_fib(i) <= spec_fib(j),
    decreases j,
{
    if i < j {
        if j >= 2 {
            lemma_fib_monotone(i, (j - 1) as nat);
        }
    }
}

/// The 93rd Fibonacci number still fits in 64 bits.
proof fn lemma_fib_93_fits()
    ensures
        spec_fib(93) == 12200160415121876738,
{
        assert(spec_fib(0) == 0);
        assert(spec_fib(1) == 1);
        assert(spec_fib(2) == 1);
        assert(spec_fib(3) == 2);
        assert(spec_fib(4) == 3);
        assert(spec_fib(5) == 5);
        assert(spec_fib(6) == 8);
        assert(spec_fib(7) == 13);
        assert(spec_fib(8) == 21);
        assert(spec_fib(9) == 34);
        assert(spec_fib(10) == 55);
        assert(spec_fib(11) == 89);
        assert(spec_fib(12) == 144);
        assert(spec_fib(13) == 233);
        assert(spec_fib(14) == 377);
        assert(spec_fib(15) == 610);
        assert(spec_fib(16) == 987);
        assert(spec_fib(17) == 1597);
        assert(spec_fib(18) == 2584);
        assert(spec_fib(19) == 4181);
        assert(spec_fib(20) == 6765);
        assert(spec_fib(21) == 10946);
        assert(spec_fib(22) == 17711);
        assert(spec_fib(23) == 28657);
        assert(spec_fib(24) == 46368);
        assert(spec_fib(25) == 75025);
        assert(spec_fib(26) == 121393);
        assert(spec_fib(27) == 196418);
        assert(spec_fib(28) == 317811);
        assert(spec_fib(29) == 514229);
        assert(spec_fib(30) == 832040);
        assert(spec_fib(31) == 1346269);
        assert(spec_fib(32) == 2178309);
        assert(spec_fib(33) == 3524578);
        assert(spec_fib(34) == 5702887);
        assert(spec_fib(35) == 9227465);
        assert(spec_fib(36) == 14930352);
        assert(spec_fib(37) == 24157817);
        assert(spec_fib(38) == 39088169);
        assert(spec_fib(39) == 63245986);
        assert(spec_fib(40) == 102334155);
        assert(spec_fib(41) == 165580141);
        assert(spec_fib(42) == 267914296);
        assert(spec_fib(43) == 433494437);
        assert(spec_fib(44) == 701408733);
        assert(spec_fib(45) == 1134903170);
        assert(spec_fib(46) == 1836311903);
        assert(spec_fib(47) == 2971215073);
        assert(spec_fib(48) == 4807526976);
        assert(spec_fib(49) == 7778742049);
        assert(spec_fib(50) == 12586269025);
        assert(spec_fib(51) == 20365011074);
        assert(spec_fib(52) == 32951280099);
        assert(spec_fib(53) == 53316291173);
        assert(spec_fib(54) == 86267571272);
        assert(spec_fib(55) == 139583862445);
        assert(spec_fib(56) == 225851433717);
        assert(spec_fib(57) == 365435296162);
        assert(spec_fib(58) == 591286729879);
        assert(spec_fib(59) == 956722026041);
        assert(spec_fib(60) == 1548008755920);
        assert(spec_fib(61) == 2504730781961);
        assert(spec_fib(62) == 4052739537881);
        assert(spec_fib(63) == 6557470319842);
        assert(spec_fib(64) == 10610209857723);
        assert(spec_fib(65) == 17167680177565);
        assert(spec_fib(66) == 27777890035288);
        assert(spec_fib(67) == 44945570212853);
        assert(spec_fib(68) == 72723460248141);
        assert(spec_fib(69) == 117669030460994);
        assert(spec_fib(70) == 190392490709135);
        assert(spec_fib(71) == 308061521170129);
        assert(spec_fib(72) == 498454011879264);
        assert(spec_fib(73) == 806515533049393);
        assert(spec_fib(74) == 1304969544928657);
        assert(spec_fib(75) == 2111485077978050);
        assert(spec_fib(76) == 3416454622906707);
        assert(spec_fib(77) == 5527939700884757);
        assert(spec_fib(78) == 8944394323791464);
        assert(spec_fib(79) == 14472334024676221);
        assert(spec_fib(80) == 23416728348467685);
        assert(spec_fib(81) == 37889062373143906);
        assert(spec_fib(82) == 61305790721611591);
        assert(spec_fib(83) == 99194853094755497);
        assert(spec_fib(84) == 160500643816367088);
        assert(spec_fib(85) == 259695496911122585);
        assert(spec_fib(86) == 420196140727489673);
        assert(spec_fib(87) == 679891637638612258);
        assert(spec_fib(88) == 1100087778366101931);
        assert(spec_fib(89) == 1779979416004714189);
        assert(spec_fib(90) == 2880067194370816120);
        assert(spec_fib(91) == 4660046610375530309);
        assert(spec_fib(92) == 7540113804746346429);
        assert(spec_fib(93) == 12200160415121876738);
}

/// Law: while the results fit in 64 bits (2 <= n <= 93), consecutive results
/// of `fibonacci` satisfy the recurrence exactly: the value for n is the sum
/// of the values for n-1 and n-2, with no wraparound involved.
pub proof fn lemma_fibonacci_recurrence(n: nat, r: u64, r1: u64, r2: u64)
    requires
        2 <= n <= 93,
        r as nat == fib_wrapped(n),
        r1 as nat == fib_wrapped((n - 1) as nat),
        r2 as nat == fib_wrapped((n - 2) as nat),
    ensures
        r as nat == r1 as nat + r2 as nat,
{
    lemma_fib_93_fits();
    lemma_fib_monotone(n, 93);
    lemma_fib_monotone((n - 1) as nat, 93);
    lemma_fib_monotone((n - 2) as nat, 93);
    lemma_small_mod(spec_fib(n), 0x1_0000_0000_0000_0000);
    lemma_small_mod(spec_fib((n - 1) as nat), 0x1_0000_0000_0000_0000);
    lemma_small_mod(spec_fib((n - 2) as nat), 0x1_0000_0000_0000_0000);
    assert(spec_fib(n) == spec_fib((n - 2) as nat) + spec_fib((n - 1) as nat));
}

/// Law: `add_numbers` has no hidden state. Its contract determines the result
/// from the arguments alone, so repeated calls with the same input yield
/// identical output.
pub proof fn lemma_add_numbers_repeatable(a: i32, b: i32, r1: i32, r2: i32)
    requires
        r1 == i32_specs::wrapping_add(a, b),
        r2 == i32_specs::wrapping_add(a, b),
    ensures
        r1 == r2,
{
}

/// Law: `fibonacci` has no hidden state. Its contract determines the result
/// from the argument alone, so repeated calls with the same input yield
/// identical output.
pub proof fn lemma_fibonacci_repeatable(n: u32, r1: u64, r2: u64)
    requires
        r1 as nat == fib_wrapped(n as nat),
        r2 as nat == fib_wrapped(n as nat),
    ensures
        r1 == r2,
{
}

} // verus!
