//! Numbers across the boundary: the host's numbers, and the unsigned integers
//! of 53 bits, which a host number can carry exactly.

use vstd::arithmetic::power2::pow2;
use vstd::prelude::*;

verus! {

/// Largest value that a [`u53`] can hold: two to the power 53, minus one.
pub const U53_MAX: u64 = 0x1f_ffff_ffff_ffff;

/// An unsigned integer of 53 bits.
#[allow(non_camel_case_types)]
#[derive(Clone, Copy, Debug, PartialEq, Eq, Structural, PartialOrd, Ord)]
pub struct u53(u64);

impl View for u53 {
    type V = nat;

    closed spec fn view(&self) -> nat {
        self.0 as nat
    }
}

impl u53 {
    /// A value lies within 53 bits.
    #[verifier::type_invariant]
    pub closed spec fn within_53_bits(self) -> bool {
        self.0 <= U53_MAX
    }

    /// The value that stands for `x`.
    pub closed spec fn of(x: u64) -> u53 {
        u53(x)
    }

    /// The 53-bit integer with value `x`.
    pub fn new(x: u64) -> (r: u53)
        requires
            x <= U53_MAX,
        ensures
            r == u53::of(x),
            r@ == x,
    {
        u53(x)
    }

    /// A value is known by the number it stands for.
    pub proof fn lemma_view_of(x: u64)
        ensures
            u53::of(x)@ == x,
            forall|other: u53| other@ == x ==> other == u53::of(x),
    {
    }
}

/// A number that cannot be carried over into the wanted integer type, with
/// the reason in words.
#[derive(Debug)]
pub struct ProjectionError(pub String);

impl View for ProjectionError {
    type V = Seq<char>;

    open spec fn view(&self) -> Seq<char> {
        self.0@
    }
}

/// Narrowing of a number to the integer type `T`, which succeeds exactly
/// where `T` can hold the number.
pub trait Project<T>: From<T> + Sized {
    /// The value of `T` that stands for `self`, where there is one.
    spec fn projection(self) -> Option<T>;

    /// The message of the error for a number that `T` cannot hold.
    spec fn refusal(self) -> Seq<char>;

    /// Carries the number over into `T`, or says why it cannot be.
    fn project(self) -> (r: Result<T, ProjectionError>)
        ensures
            match r {
                Ok(value) => self.projection() == Some(value),
                Err(error) => self.projection() is None && error@ == self.refusal(),
            },
    ;
}

impl From<u53> for u64 {
    fn from(x: u53) -> (r: u64) {
        x.0
    }
}

impl vstd::std_specs::convert::FromSpecImpl<u53> for u64 {
    open spec fn obeys_from_spec() -> bool {
        true
    }

    open spec fn from_spec(x: u53) -> u64 {
        x@ as u64
    }
}

/// Two to the power 52: the weight of the hidden bit of a host number.
pub const HIDDEN_BIT: u64 = 0x10_0000_0000_0000;

/// Two to the power 63: the weight of the sign bit of a host number.
pub const SIGN_BIT: u64 = 0x8000_0000_0000_0000;

/// A number of the host: a binary floating-point number of 64 bits, held as
/// its bit pattern. From the top, the bits are the sign, eleven bits of
/// exponent and 52 bits of fraction.
#[derive(Clone, Copy, Debug, PartialEq, Eq, Structural)]
pub struct HostNumber {
    pub bits: u64,
}

/// How a host number fares as an unsigned integer with a given maximum.
#[derive(Clone, Copy, Debug, PartialEq, Eq, Structural)]
pub enum Narrowed {
    /// The number is no integer: it has a fractional part, or is no number.
    NotAnInteger,
    /// The number is an integer below zero or above the maximum, or is
    /// infinite.
    OutOfRange,
    /// The number is this integer.
    Value(u64),
}

impl HostNumber {
    /// Whether the sign bit is set.
    pub open spec fn negative(self) -> bool {
        self.bits >= SIGN_BIT
    }

    /// The exponent field.
    pub open spec fn exponent(self) -> int {
        (self.bits / HIDDEN_BIT) as int % 2048
    }

    /// The fraction field.
    pub open spec fn fraction(self) -> int {
        (self.bits % HIDDEN_BIT) as int
    }

    /// Whether the number is no number at all.
    pub open spec fn is_nan(self) -> bool {
        self.exponent() == 2047 && self.fraction() != 0
    }

    /// Whether the number is infinite.
    pub open spec fn is_infinite(self) -> bool {
        self.exponent() == 2047 && self.fraction() == 0
    }

    /// The significand of a finite number with a non-zero exponent field: the
    /// fraction with the hidden bit in front.
    pub open spec fn significand(self) -> int {
        HIDDEN_BIT + self.fraction()
    }

    /// The absolute value of the number, where the number is a finite
    /// integer.
    ///
    /// With a zero exponent field the number is below one, and an integer
    /// only where it is zero. Otherwise its absolute value is the
    /// significand times two to the power of the exponent field less 1075.
    pub open spec fn magnitude(self) -> Option<nat> {
        let e = self.exponent();
        let m = self.significand();
        if e == 2047 {
            None
        } else if e == 0 {
            if self.fraction() == 0 {
                Some(0nat)
            } else {
                None
            }
        } else if e >= 1075 {
            Some((m * pow2((e - 1075) as nat)) as nat)
        } else if m % (pow2((1075 - e) as nat) as int) == 0 {
            Some((m / (pow2((1075 - e) as nat) as int)) as nat)
        } else {
            None
        }
    }

    /// The integer that the number is, where it is a finite integer. Zero
    /// with the sign bit set is zero.
    pub open spec fn integer(self) -> Option<int> {
        match self.magnitude() {
            Some(n) => Some(
                if self.negative() {
                    -(n as int)
                } else {
                    n as int
                },
            ),
            None => None,
        }
    }

    /// How the number fares as an unsigned integer up to `max`.
    pub open spec fn narrowed(self, max: u64) -> Narrowed {
        if self.is_nan() {
            Narrowed::NotAnInteger
        } else if self.is_infinite() {
            Narrowed::OutOfRange
        } else {
            match self.integer() {
                None => Narrowed::NotAnInteger,
                Some(n) => if 0 <= n <= max {
                    Narrowed::Value(n as u64)
                } else {
                    Narrowed::OutOfRange
                },
            }
        }
    }

    /// The number with the given bit pattern.
    pub fn from_bits(bits: u64) -> (r: HostNumber)
        ensures
            r.bits == bits,
    {
        HostNumber { bits }
    }

    /// The number's bit pattern.
    pub fn to_bits(self) -> (r: u64)
        ensures
            r == self.bits,
    {
        self.bits
    }
}

/// Two to the power `e`.
fn power_of_two(e: u64) -> (r: u64)
    requires
        e < 64,
    ensures
        r == pow2(e as nat),
{
    let mut r: u64 = 1;
    let mut i: u64 = 0;
    proof {
        vstd::arithmetic::power2::lemma2_to64();
    }
    while i < e
        invariant
            i <= e < 64,
            r == pow2(i as nat),
        decreases e - i,
    {
        proof {
            vstd::arithmetic::power2::lemma_pow2_unfold((i + 1) as nat);
            vstd::arithmetic::power2::lemma_pow2_strictly_increases((i + 1) as nat, 64);
            vstd::arithmetic::power2::lemma2_to64_rest();
        }
        r = r * 2;
        i += 1;
    }
    r
}

impl HostNumber {
    /// Finds out how the number fares as an unsigned integer up to `max`.
    pub fn narrow(self, max: u64) -> (r: Narrowed)
        ensures
            r == self.narrowed(max),
    {
        let negative = self.bits >= SIGN_BIT;
        let e = (self.bits / HIDDEN_BIT) % 2048;
        let f = self.bits % HIDDEN_BIT;
        if e == 2047 {
            return if f != 0 {
                Narrowed::NotAnInteger
            } else {
                Narrowed::OutOfRange
            };
        }
        if e == 0 {
            return if f == 0 {
                Narrowed::Value(0)
            } else {
                Narrowed::NotAnInteger
            };
        }
        let m = HIDDEN_BIT + f;
        proof {
            vstd::arithmetic::power2::lemma2_to64();
            vstd::arithmetic::power2::lemma2_to64_rest();
        }
        if e >= 1075 {
            let shift = e - 1075;
            if shift > 11 {
                proof {
                    if shift > 12 {
                        vstd::arithmetic::power2::lemma_pow2_strictly_increases(12, shift as nat);
                    }
                    let p = pow2(shift as nat) as int;
                    assert(m * p >= 0x10_0000_0000_0000 * 0x1000) by (nonlinear_arith)
                        requires
                            m >= 0x10_0000_0000_0000,
                            p >= 0x1000,
                    ;
                }
                return Narrowed::OutOfRange;
            }
            let p = power_of_two(shift);
            proof {
                if shift < 11 {
                    vstd::arithmetic::power2::lemma_pow2_strictly_increases(shift as nat, 11);
                }
                assert(0 < m * p <= 0x1f_ffff_ffff_ffff * 0x800) by (nonlinear_arith)
                    requires
                        0 < m <= 0x1f_ffff_ffff_ffff,
                        0 < p <= 0x800,
                ;
            }
            let n = m * p;
            return if negative || n > max {
                Narrowed::OutOfRange
            } else {
                Narrowed::Value(n)
            };
        }
        let k = 1075 - e;
        if k > 52 {
            proof {
                if k > 53 {
                    vstd::arithmetic::power2::lemma_pow2_strictly_increases(53, k as nat);
                }
                let p = pow2(k as nat) as int;
                assert(m as int % p == m) by {
                    vstd::arithmetic::div_mod::lemma_small_mod(m as nat, p as nat);
                }
            }
            return Narrowed::NotAnInteger;
        }
        let p = power_of_two(k);
        proof {
            if k < 52 {
                vstd::arithmetic::power2::lemma_pow2_strictly_increases(k as nat, 52);
            }
            vstd::arithmetic::power2::lemma_pow2_pos(k as nat);
        }
        if m % p != 0 {
            return Narrowed::NotAnInteger;
        }
        let n = m / p;
        proof {
            assert(n >= 1) by (nonlinear_arith)
                requires
                    n == m as int / p as int,
                    0 < p <= 0x10_0000_0000_0000,
                    m >= 0x10_0000_0000_0000,
            ;
        }
        if negative || n > max {
            Narrowed::OutOfRange
        } else {
            Narrowed::Value(n)
        }
    }
}

/// The exponent of the greatest power of two that is not above `x`, for an
/// `x` above zero.
pub open spec fn top_bit(x: nat) -> nat
    decreases x,
{
    if x < 2 {
        0
    } else {
        1 + top_bit(x / 2)
    }
}

/// The bit pattern of the host number that is the integer `x`, for an `x` of
/// at most 53 bits: zero for zero; otherwise the exponent field is 1023 more
/// than the exponent of the top bit, and the fraction holds the bits below
/// the top bit, moved up against the hidden bit.
pub open spec fn integer_bits(x: nat) -> u64 {
    if x == 0 {
        0
    } else {
        let p = top_bit(x);
        ((1023 + p) * HIDDEN_BIT + (x - pow2(p)) * pow2((52 - p) as nat)) as u64
    }
}

proof fn lemma_top_bit(x: nat)
    requires
        x > 0,
    ensures
        pow2(top_bit(x)) <= x < pow2(top_bit(x) + 1),
    decreases x,
{
    vstd::arithmetic::power2::lemma2_to64();
    if x >= 2 {
        lemma_top_bit(x / 2);
        vstd::arithmetic::power2::lemma_pow2_unfold(top_bit(x));
        vstd::arithmetic::power2::lemma_pow2_unfold(top_bit(x) + 1);
    }
}

proof fn lemma_top_bit_of_53_bits(x: nat)
    requires
        0 < x <= U53_MAX,
    ensures
        top_bit(x) <= 52,
{
    lemma_top_bit(x);
    vstd::arithmetic::power2::lemma2_to64();
    vstd::arithmetic::power2::lemma2_to64_rest();
    if top_bit(x) > 52 {
        if top_bit(x) > 53 {
            vstd::arithmetic::power2::lemma_pow2_strictly_increases(53, top_bit(x));
        }
    }
}

/// The parts of the bit pattern of an integer above zero.
proof fn lemma_integer_bits(x: nat)
    requires
        0 < x <= U53_MAX,
    ensures
        integer_bits(x) == (1023 + top_bit(x)) * HIDDEN_BIT + (x - pow2(top_bit(x))) * pow2(
            (52 - top_bit(x)) as nat,
        ),
        0 <= (x - pow2(top_bit(x))) * pow2((52 - top_bit(x)) as nat) < HIDDEN_BIT,
        HIDDEN_BIT + (x - pow2(top_bit(x))) * pow2((52 - top_bit(x)) as nat) == x * pow2(
            (52 - top_bit(x)) as nat,
        ),
{
    let p = top_bit(x);
    lemma_top_bit(x);
    lemma_top_bit_of_53_bits(x);
    let a = pow2(p) as int;
    let b = pow2((52 - p) as nat) as int;
    vstd::arithmetic::power2::lemma_pow2_adds(p, (52 - p) as nat);
    vstd::arithmetic::power2::lemma_pow2_unfold(p + 1);
    vstd::arithmetic::power2::lemma_pow2_pos((52 - p) as nat);
    vstd::arithmetic::power2::lemma2_to64();
    vstd::arithmetic::power2::lemma2_to64_rest();
    assert(a * b == HIDDEN_BIT);
    let d = x - a;
    assert(0 <= d < a);
    assert(0 <= d * b < a * b) by (nonlinear_arith)
        requires
            0 <= d < a,
            b > 0,
    ;
    assert(a * b + d * b == (a + d) * b) by (nonlinear_arith);
    assert((1023 + p) * HIDDEN_BIT <= 1075 * HIDDEN_BIT) by (nonlinear_arith)
        requires
            p <= 52,
    ;
}

impl HostNumber {
    /// The host number that is the integer `x`, for an `x` of at most 53
    /// bits.
    pub open spec fn of(x: nat) -> HostNumber {
        HostNumber { bits: integer_bits(x) }
    }

    /// Every integer of at most 53 bits is a host number: the number made
    /// from it is that integer again.
    pub proof fn lemma_integer_round_trip(x: nat)
        requires
            x <= U53_MAX,
        ensures
            !HostNumber::of(x).negative(),
            HostNumber::of(x).integer() == Some(x as int),
            forall|max: u64| x <= max ==> HostNumber::of(x).narrowed(max) == Narrowed::Value(x as u64),
    {
        let n = HostNumber::of(x);
        if x > 0 {
            let p = top_bit(x);
            lemma_integer_bits(x);
            lemma_top_bit_of_53_bits(x);
            let k = (52 - p) as nat;
            let b = pow2(k) as int;
            let f = (x - pow2(p)) * b;
            vstd::arithmetic::power2::lemma_pow2_pos(k);
            vstd::arithmetic::power2::lemma2_to64();
            vstd::arithmetic::div_mod::lemma_fundamental_div_mod_converse(
                n.bits as int,
                HIDDEN_BIT as int,
                (1023 + p) as int,
                f,
            );
            assert(n.exponent() == 1023 + p);
            assert(n.fraction() == f);
            assert(n.significand() == x * b);
            let m = n.significand();
            assert(m == b * x) by (nonlinear_arith)
                requires
                    m == x * b,
            ;
            if p == 52 {
                assert(b == 1);
                assert(n.exponent() == 1075);
                assert(m == x && m * (pow2(0) as int) == x) by (nonlinear_arith)
                    requires
                        m == b * x,
                        b == 1,
                        pow2(0) == 1,
                ;
            } else {
                assert(1 <= n.exponent() < 1075);
                assert(1075 - n.exponent() == k);
                vstd::arithmetic::div_mod::lemma_mod_multiples_basic(x as int, b);
                vstd::arithmetic::div_mod::lemma_div_multiples_vanish(x as int, b);
                assert(m % b == 0);
                assert(m / b == x);
            }
            assert(n.magnitude() == Some(x));
        } else {
            assert(n.bits == 0);
        }
    }
}

impl HostNumber {
    /// The host number that is the integer `x`.
    pub fn from_integer(x: u64) -> (r: HostNumber)
        requires
            x <= U53_MAX,
        ensures
            r == HostNumber::of(x as nat),
    {
        if x == 0 {
            return HostNumber { bits: 0 };
        }
        let mut p: u64 = 0;
        let mut q: u64 = 1;
        let mut y: u64 = x;
        proof {
            vstd::arithmetic::power2::lemma2_to64();
            vstd::arithmetic::power2::lemma2_to64_rest();
            lemma_top_bit_of_53_bits(x as nat);
        }
        while y >= 2
            invariant
                0 < x <= U53_MAX,
                y >= 1,
                q == pow2(p as nat),
                q * y <= x,
                p + top_bit(y as nat) == top_bit(x as nat),
                top_bit(x as nat) <= 52,
            decreases y,
        {
            proof {
                vstd::arithmetic::power2::lemma_pow2_unfold((p + 1) as nat);
                assert(q * 2 * (y / 2) <= q * y && q * 2 <= q * y) by (nonlinear_arith)
                    requires
                        q >= 0,
                        y >= 2,
                ;
            }
            y = y / 2;
            p = p + 1;
            q = q * 2;
        }
        proof {
            lemma_integer_bits(x as nat);
            lemma_top_bit(x as nat);
        }
        let scale = power_of_two(52 - p);
        let f = (x - q) * scale;
        HostNumber { bits: (1023 + p) * HIDDEN_BIT + f }
    }
}

impl From<u53> for HostNumber {
    fn from(x: u53) -> (r: HostNumber) {
        proof {
            use_type_invariant(&x);
        }
        HostNumber::from_integer(x.0)
    }
}

impl vstd::std_specs::convert::FromSpecImpl<u53> for HostNumber {
    open spec fn obeys_from_spec() -> bool {
        true
    }

    open spec fn from_spec(x: u53) -> HostNumber {
        HostNumber::of(x@)
    }
}

/// The reason for which a number that fares as `narrowed` is refused as a
/// value of the type called `target`: it is no integer, or it is out of the
/// type's range.
pub open spec fn refusal_text(narrowed: Narrowed, target: Seq<char>) -> Seq<char> {
    match narrowed {
        Narrowed::NotAnInteger => "is not an integer"@,
        _ => "is out of range for "@ + target,
    }
}

fn refuse(narrowed: Narrowed, target: &str) -> (r: ProjectionError)
    requires
        !(narrowed is Value),
    ensures
        r@ == refusal_text(narrowed, target@),
{
    match narrowed {
        Narrowed::NotAnInteger => ProjectionError(String::from_str("is not an integer")),
        _ => {
            let mut message = String::from_str("is out of range for ");
            message.append(target);
            ProjectionError(message)
        },
    }
}

impl Project<u53> for HostNumber {
    open spec fn projection(self) -> Option<u53> {
        match self.narrowed(U53_MAX) {
            Narrowed::Value(n) => Some(u53::of(n)),
            _ => None,
        }
    }

    open spec fn refusal(self) -> Seq<char> {
        refusal_text(self.narrowed(U53_MAX), "u53"@)
    }

    fn project(self) -> (r: Result<u53, ProjectionError>) {
        match self.narrow(U53_MAX) {
            Narrowed::Value(n) => Ok(u53::new(n)),
            other => Err(refuse(other, "u53")),
        }
    }
}

impl From<u32> for HostNumber {
    fn from(x: u32) -> (r: HostNumber) {
        HostNumber::from_integer(x as u64)
    }
}

impl vstd::std_specs::convert::FromSpecImpl<u32> for HostNumber {
    open spec fn obeys_from_spec() -> bool {
        true
    }

    open spec fn from_spec(x: u32) -> HostNumber {
        HostNumber::of(x as nat)
    }
}

impl Project<u32> for HostNumber {
    open spec fn projection(self) -> Option<u32> {
        match self.narrowed(u32::MAX as u64) {
            Narrowed::Value(n) => Some(n as u32),
            _ => None,
        }
    }

    open spec fn refusal(self) -> Seq<char> {
        refusal_text(self.narrowed(u32::MAX as u64), "u32"@)
    }

    fn project(self) -> (r: Result<u32, ProjectionError>) {
        match self.narrow(u32::MAX as u64) {
            Narrowed::Value(n) => Ok(n as u32),
            other => Err(refuse(other, "u32")),
        }
    }
}

impl From<u16> for HostNumber {
    fn from(x: u16) -> (r: HostNumber) {
        HostNumber::from_integer(x as u64)
    }
}

impl vstd::std_specs::convert::FromSpecImpl<u16> for HostNumber {
    open spec fn obeys_from_spec() -> bool {
        true
    }

    open spec fn from_spec(x: u16) -> HostNumber {
        HostNumber::of(x as nat)
    }
}

impl Project<u16> for HostNumber {
    open spec fn projection(self) -> Option<u16> {
        match self.narrowed(u16::MAX as u64) {
            Narrowed::Value(n) => Some(n as u16),
            _ => None,
        }
    }

    open spec fn refusal(self) -> Seq<char> {
        refusal_text(self.narrowed(u16::MAX as u64), "u16"@)
    }

    fn project(self) -> (r: Result<u16, ProjectionError>) {
        match self.narrow(u16::MAX as u64) {
            Narrowed::Value(n) => Ok(n as u16),
            other => Err(refuse(other, "u16")),
        }
    }
}

impl From<u8> for HostNumber {
    fn from(x: u8) -> (r: HostNumber) {
        HostNumber::from_integer(x as u64)
    }
}

impl vstd::std_specs::convert::FromSpecImpl<u8> for HostNumber {
    open spec fn obeys_from_spec() -> bool {
        true
    }

    open spec fn from_spec(x: u8) -> HostNumber {
        HostNumber::of(x as nat)
    }
}

impl Project<u8> for HostNumber {
    open spec fn projection(self) -> Option<u8> {
        match self.narrowed(u8::MAX as u64) {
            Narrowed::Value(n) => Some(n as u8),
            _ => None,
        }
    }

    open spec fn refusal(self) -> Seq<char> {
        refusal_text(self.narrowed(u8::MAX as u64), "u8"@)
    }

    fn project(self) -> (r: Result<u8, ProjectionError>) {
        match self.narrow(u8::MAX as u64) {
            Narrowed::Value(n) => Ok(n as u8),
            other => Err(refuse(other, "u8")),
        }
    }
}

} // verus!
