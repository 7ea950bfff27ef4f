//! Switch commands: which device the distribution loop should capture from.
//!
//! A command arrives as the payload of a control message. A payload that is
//! a decimal number selects that device; any other payload, the empty one
//! included, advances to the next device.

use vstd::prelude::*;
use vstd::arithmetic::div_mod::lemma_add_mod_noop;
use vstd::arithmetic::div_mod::lemma_mod_bound;
use vstd::arithmetic::div_mod::lemma_mod_twice;
use vstd::arithmetic::div_mod::lemma_small_mod;

verus! {

/// A request to replace the active capture device.
#[derive(Clone, Copy, Debug, PartialEq, Eq, Structural)]
pub enum SwitchCommand {
    /// Select the device at this index, taken modulo the device count.
    Select(usize),
    /// Advance to the device after the current one, wrapping at the end.
    Advance,
}

/// The byte `+`, which may precede the digits of a number.
pub const PLUS_SIGN: u8 = 0x2b;

/// The byte `0`.
pub const DIGIT_ZERO: u8 = 0x30;

/// The byte `9`.
pub const DIGIT_NINE: u8 = 0x39;

/// Whether `b` is an ASCII decimal digit.
pub open spec fn is_digit(b: u8) -> bool {
    DIGIT_ZERO <= b <= DIGIT_NINE
}

/// Whether every byte of `digits` is a decimal digit.
pub open spec fn all_digits(digits: Seq<u8>) -> bool {
    forall|i: int| 0 <= i < digits.len() ==> is_digit(#[trigger] digits[i])
}

/// The number that a run of decimal digits denotes, most significant first.
pub open spec fn decimal_value(digits: Seq<u8>) -> nat
    decreases digits.len(),
{
    if digits.len() == 0 {
        0
    } else {
        decimal_value(digits.drop_last()) * 10 + (digits.last() - DIGIT_ZERO) as nat
    }
}

/// The payload without its optional leading `+`.
pub open spec fn unsigned_part(payload: Seq<u8>) -> Seq<u8> {
    if payload.len() > 0 && payload[0] == PLUS_SIGN {
        payload.skip(1)
    } else {
        payload
    }
}

/// The index that a payload denotes: an optional `+`, then one or more
/// decimal digits whose value fits in `usize`. Anything else denotes none.
pub open spec fn parse_index(payload: Seq<u8>) -> Option<usize> {
    let digits = unsigned_part(payload);
    if digits.len() > 0 && all_digits(digits) && decimal_value(digits) <= usize::MAX {
        Some(decimal_value(digits) as usize)
    } else {
        None
    }
}

/// The command that a payload stands for.
pub open spec fn command_of(payload: Seq<u8>) -> SwitchCommand {
    match parse_index(payload) {
        Some(n) => SwitchCommand::Select(n),
        None => SwitchCommand::Advance,
    }
}

/// The device index that `command` leads to, from `current`, among `count`
/// devices.
pub open spec fn target_index(command: SwitchCommand, current: nat, count: nat) -> nat
    recommends
        count > 0,
{
    match command {
        SwitchCommand::Select(n) => n as nat % count,
        SwitchCommand::Advance => (current + 1) % count,
    }
}

/// A longer run of digits denotes at least what its prefixes denote.
proof fn lemma_decimal_value_grows(digits: Seq<u8>, k: int)
    requires
        0 <= k <= digits.len(),
        all_digits(digits),
    ensures
        decimal_value(digits.take(k)) <= decimal_value(digits),
    decreases digits.len() - k,
{
    if k == digits.len() {
        assert(digits.take(k) =~= digits);
    } else {
        lemma_decimal_value_grows(digits, k + 1);
        assert(digits.take(k + 1).drop_last() =~= digits.take(k));
        assert(is_digit(digits.take(k + 1).last()));
    }
}

/// Reads a decimal index from a payload.
pub fn parse_payload(payload: &[u8]) -> (r: Option<usize>)
    ensures
        r == parse_index(payload@),
{
    let n: usize = payload.len();
    let start: usize = if n > 0 && payload[0] == PLUS_SIGN { 1 } else { 0 };
    let ghost digits = unsigned_part(payload@);
    assert(digits =~= payload@.skip(start as int));
    if start == n {
        return None;
    }
    let mut value: usize = 0;
    let mut i: usize = start;
    proof {
        assert(digits.take(0) =~= Seq::<u8>::empty());
    }
    while i < n
        invariant
            start <= i <= n,
            n == payload@.len(),
            digits == payload@.skip(start as int),
            digits == unsigned_part(payload@),
            all_digits(digits.take(i - start)),
            value == decimal_value(digits.take(i - start)),
        decreases n - i,
    {
        let b: u8 = payload[i];
        let ghost k: int = i - start;
        assert(digits[k] == b);
        if b < DIGIT_ZERO || b > DIGIT_NINE {
            assert(!is_digit(digits[k]));
            return None;
        }
        proof {
            assert(digits.take(k + 1).drop_last() =~= digits.take(k));
            assert(digits.take(k + 1).last() == b);
            assert forall|j: int| 0 <= j < k + 1 implies is_digit(#[trigger] digits.take(k + 1)[j]) by {
                if j < k {
                    assert(digits.take(k + 1)[j] == digits.take(k)[j]);
                }
            }
        }
        let digit: usize = (b - DIGIT_ZERO) as usize;
        let next: Option<usize> = match value.checked_mul(10) {
            Some(tens) => tens.checked_add(digit),
            None => None,
        };
        match next {
            Some(v) => {
                value = v;
            },
            None => {
                proof {
                    assert(decimal_value(digits.take(k + 1)) > usize::MAX);
                    if all_digits(digits) {
                        lemma_decimal_value_grows(digits, k + 1);
                    }
                }
                return None;
            },
        }
        i += 1;
    }
    proof {
        assert(digits.take(i - start) =~= digits);
    }
    Some(value)
}

impl SwitchCommand {
    /// The command that a control payload stands for.
    pub fn from_payload(payload: &[u8]) -> (command: SwitchCommand)
        ensures
            command == command_of(payload@),
    {
        match parse_payload(payload) {
            Some(n) => SwitchCommand::Select(n),
            None => SwitchCommand::Advance,
        }
    }

    /// The device index that this command leads to.
    pub fn target(&self, current: usize, count: usize) -> (index: usize)
        requires
            count > 0,
        ensures
            index == target_index(*self, current as nat, count as nat),
            index < count,
    {
        match self {
            SwitchCommand::Select(n) => *n % count,
            SwitchCommand::Advance => {
                let here: usize = current % count;
                proof {
                    lemma_mod_bound(current as int, count as int);
                    lemma_add_mod_noop(current as int, 1, count as int);
                    if count > 1 {
                        lemma_small_mod(1, count as nat);
                    }
                    if here + 1 < count {
                        lemma_small_mod((here + 1) as nat, count as nat);
                    } else {
                        assert(count as int % count as int == 0) by (nonlinear_arith)
                            requires
                                count > 0,
                        ;
                    }
                }
                if here == count - 1 {
                    0
                } else {
                    here + 1
                }
            },
        }
    }
}

/// Selection is taken modulo the device count: an index and the same index
/// one full round further lead to the same device, and selecting the count
/// itself leads to device 0.
pub proof fn lemma_select_wraps(n: usize, current: nat, count: usize)
    requires
        count > 0,
        n + count <= usize::MAX,
    ensures
        target_index(SwitchCommand::Select((n + count) as usize), current, count as nat)
            == target_index(SwitchCommand::Select(n), current, count as nat),
        target_index(SwitchCommand::Select(count), current, count as nat)
            == target_index(SwitchCommand::Select(0), current, count as nat),
        target_index(SwitchCommand::Select(count), current, count as nat) == 0,
{
    lemma_add_mod_noop(n as int, count as int, count as int);
    lemma_mod_twice(n as int, count as int);
    assert(count as int % count as int == 0) by (nonlinear_arith)
        requires
            count > 0,
    ;
    lemma_small_mod(0, count as nat);
}

/// Whatever the command, its target is a valid device index.
pub proof fn lemma_target_in_range(command: SwitchCommand, current: nat, count: nat)
    requires
        count > 0,
    ensures
        target_index(command, current, count) < count,
{
    match command {
        SwitchCommand::Select(n) => lemma_mod_bound(n as int, count as int),
        SwitchCommand::Advance => lemma_mod_bound((current + 1) as int, count as int),
    }
}

} // verus!
