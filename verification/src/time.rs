use vstd::prelude::*;

verus! {

/// Nanoseconds in one second.
pub const NANOS_PER_SEC: u32 = 1_000_000_000;

/// Nanoseconds in one millisecond.
pub const NANOS_PER_MILLI: u32 = 1_000_000;

/// A length of time with nanosecond precision, held as whole seconds and the
/// nanoseconds past them. Points in time are spans measured from a fixed start.
///
/// Its view is the whole length in nanoseconds.
#[derive(Clone, Copy, Debug, PartialEq, Eq)]
pub struct Span {
    secs: u64,
    nanos: u32,
}

/// Whole seconds in a length of `n` nanoseconds.
pub open spec fn secs_of(n: int) -> int {
    n / (NANOS_PER_SEC as int)
}

/// Nanoseconds past the whole seconds in a length of `n` nanoseconds.
pub open spec fn subsec_of(n: int) -> int {
    n % (NANOS_PER_SEC as int)
}

/// The smaller of two lengths.
pub open spec fn min_int(a: int, b: int) -> int {
    if a <= b {
        a
    } else {
        b
    }
}

/// `a - b`, or zero where `b` is the longer.
pub open spec fn sub_or_zero(a: int, b: int) -> int {
    if a >= b {
        a - b
    } else {
        0
    }
}

/// The length that dividing `n` nanoseconds by `d` gives: the seconds are
/// divided, the remainder of the seconds is carried into nanoseconds and
/// divided, and the nanoseconds past the seconds are divided on their own.
pub open spec fn div_span(n: int, d: int) -> int {
    (secs_of(n) / d) * (NANOS_PER_SEC as int) + ((secs_of(n) % d) * (NANOS_PER_SEC as int)) / d
        + subsec_of(n) / d
}

/// The largest length a span can hold.
pub open spec fn max_span() -> int {
    (u64::MAX as int) * (NANOS_PER_SEC as int) + (NANOS_PER_SEC as int) - 1
}

proof fn lemma_split(s: int, n: int)
    requires
        0 <= s,
        0 <= n,
        n < NANOS_PER_SEC,
    ensures
        secs_of(s * (NANOS_PER_SEC as int) + n) == s,
        subsec_of(s * (NANOS_PER_SEC as int) + n) == n,
{
    let t = s * (NANOS_PER_SEC as int) + n;
    vstd::arithmetic::div_mod::lemma_fundamental_div_mod_converse(
        t as int,
        NANOS_PER_SEC as int,
        s as int,
        n as int,
    );
}

proof fn lemma_mul_split(s: int, n: int, r: int)
    requires
        0 <= s,
        0 <= n,
        0 <= r,
        n < NANOS_PER_SEC,
    ensures
        (s * (NANOS_PER_SEC as int) + n) * r == (s * r) * (NANOS_PER_SEC as int) + n * r,
        secs_of((s * (NANOS_PER_SEC as int) + n) * r) == s * r + secs_of(n * r),
        subsec_of((s * (NANOS_PER_SEC as int) + n) * r) == subsec_of(n * r),
{
    let k = NANOS_PER_SEC as int;
    assert((s * k + n) * r == (s * r) * k + n * r) by (nonlinear_arith);
    let q = n * r / k;
    let m = n * r % k;
    assert(n * r == q * k + m && m < k) by {
        vstd::arithmetic::div_mod::lemma_fundamental_div_mod((n * r) as int, k as int);
    }
    assert((s * r) * k + n * r == (s * r + q) * k + m) by (nonlinear_arith)
        requires
            n * r == q * k + m,
    ;
    lemma_split(s * r + q, m);
}

impl Span {
    #[verifier::type_invariant]
    spec fn well_formed(self) -> bool {
        self.nanos < NANOS_PER_SEC
    }

    /// The whole length in nanoseconds.
    pub closed spec fn total_nanos(self) -> int {
        (self.secs as int) * (NANOS_PER_SEC as int) + (self.nanos as int)
    }

    proof fn lemma_parts(self)
        requires
            self.well_formed(),
        ensures
            secs_of(self.total_nanos()) == self.secs,
            subsec_of(self.total_nanos()) == self.nanos,
            0 <= self.total_nanos() <= max_span(),
    {
        lemma_split(self.secs as int, self.nanos as int);
        assert((self.secs as int) * (NANOS_PER_SEC as int) <= (u64::MAX as int) * (
        NANOS_PER_SEC as int)) by (nonlinear_arith)
            requires
                self.secs <= u64::MAX,
        ;
    }

    /// The empty span, as a value.
    pub closed spec fn empty() -> Span {
        Span { secs: 0, nanos: 0 }
    }

    /// No span is shorter than the empty one.
    pub proof fn lemma_nonnegative(self)
        ensures
            self@ >= 0,
    {
    }

    /// The empty span is zero nanoseconds long.
    pub proof fn lemma_zero_view()
        ensures
            Span::empty()@ == 0,
    {
    }

    /// The empty span.
    pub fn zero() -> (r: Span)
        ensures
            r == Span::empty(),
            r@ == 0,
    {
        Span { secs: 0, nanos: 0 }
    }

    /// A span of `secs` whole seconds.
    pub fn from_secs(secs: u64) -> (r: Span)
        ensures
            r@ == secs * (NANOS_PER_SEC as int),
    {
        Span { secs, nanos: 0 }
    }

    /// A span of `nanos` nanoseconds.
    pub fn from_nanos(nanos: u64) -> (r: Span)
        ensures
            r@ == nanos,
    {
        let secs = nanos / (NANOS_PER_SEC as u64);
        let rest = (nanos % (NANOS_PER_SEC as u64)) as u32;
        proof {
            vstd::arithmetic::div_mod::lemma_fundamental_div_mod(
                nanos as int,
                NANOS_PER_SEC as int,
            );
        }
        Span { secs, nanos: rest }
    }

    /// A span of `millis` milliseconds.
    pub fn from_millis(millis: u64) -> (r: Span)
        ensures
            r@ == millis * (NANOS_PER_MILLI as int),
    {
        let secs = millis / 1000;
        let rest = millis % 1000;
        assert(secs * (NANOS_PER_SEC as int) + rest * (NANOS_PER_MILLI as int) == millis * (
        NANOS_PER_MILLI as int)) by (nonlinear_arith)
            requires
                secs == millis / 1000,
                rest == millis % 1000,
        ;
        let nanos: u32 = (rest as u32) * NANOS_PER_MILLI;
        Span { secs, nanos }
    }

    /// A span of `secs` seconds and `nanos` nanoseconds; nanoseconds past a
    /// whole second are carried into the seconds.
    pub fn new(secs: u64, nanos: u32) -> (r: Span)
        requires
            secs + nanos / NANOS_PER_SEC <= u64::MAX,
        ensures
            r@ == secs * (NANOS_PER_SEC as int) + nanos,
    {
        if nanos < NANOS_PER_SEC {
            Span { secs, nanos }
        } else {
            let extra = (nanos / NANOS_PER_SEC) as u64;
            let rest = nanos % NANOS_PER_SEC;
            assert(extra * (NANOS_PER_SEC as int) + rest == nanos) by {
                vstd::arithmetic::div_mod::lemma_fundamental_div_mod(
                    nanos as int,
                    NANOS_PER_SEC as int,
                );
            }
            assert((secs + extra) * (NANOS_PER_SEC as int) == secs * (NANOS_PER_SEC as int) + extra
                * (NANOS_PER_SEC as int)) by (nonlinear_arith);
            Span { secs: secs + extra, nanos: rest }
        }
    }

    /// The whole seconds of the span.
    pub fn as_secs(&self) -> (r: u64)
        ensures
            r == secs_of(self@),
    {
        proof {
            use_type_invariant(self);
            self.lemma_parts();
        }
        self.secs
    }

    /// The nanoseconds past the whole seconds.
    pub fn subsec_nanos(&self) -> (r: u32)
        ensures
            r == subsec_of(self@),
            r < NANOS_PER_SEC,
    {
        proof {
            use_type_invariant(self);
            self.lemma_parts();
        }
        self.nanos
    }

    /// Whether the span is empty.
    pub fn is_zero(&self) -> (r: bool)
        ensures
            r == (self@ == 0),
    {
        self.secs == 0 && self.nanos == 0
    }

    /// Whether this span is shorter than `other`.
    pub fn shorter_than(&self, other: &Span) -> (r: bool)
        ensures
            r == (self@ < other@),
    {
        proof {
            use_type_invariant(self);
            use_type_invariant(other);
        }
        if self.secs != other.secs {
            proof {
                if self.secs < other.secs {
                    assert((self.secs as int) * (NANOS_PER_SEC as int) + (NANOS_PER_SEC as int) <= (
                    other.secs as int) * (NANOS_PER_SEC as int)) by (nonlinear_arith)
                        requires
                            self.secs < other.secs,
                    ;
                } else {
                    assert((other.secs as int) * (NANOS_PER_SEC as int) + (NANOS_PER_SEC as int)
                        <= (self.secs as int) * (NANOS_PER_SEC as int)) by (nonlinear_arith)
                        requires
                            other.secs < self.secs,
                    ;
                }
            }
            self.secs < other.secs
        } else {
            self.nanos < other.nanos
        }
    }

    /// The shorter of the two spans (this one where they are equal).
    pub fn min(self, other: Span) -> (r: Span)
        ensures
            r@ == min_int(self@, other@),
    {
        if other.shorter_than(&self) {
            other
        } else {
            self
        }
    }

    /// The sum of two spans.
    pub fn add(self, other: Span) -> (r: Span)
        requires
            self@ + other@ <= max_span(),
        ensures
            r@ == self@ + other@,
    {
        proof {
            use_type_invariant(&self);
            use_type_invariant(&other);
            self.lemma_parts();
            other.lemma_parts();
        }
        let nanos_sum: u32 = self.nanos + other.nanos;
        if nanos_sum >= NANOS_PER_SEC {
            assert(self.secs + other.secs + 1 <= u64::MAX) by {
                assert((self.secs + other.secs + 1) * (NANOS_PER_SEC as int) <= self@ + other@);
                if self.secs + other.secs + 1 > u64::MAX {
                    assert((self.secs + other.secs + 1) * (NANOS_PER_SEC as int) >= (u64::MAX + 1)
                        * (NANOS_PER_SEC as int)) by (nonlinear_arith)
                        requires
                            self.secs + other.secs + 1 > u64::MAX,
                    ;
                }
            }
            Span { secs: self.secs + other.secs + 1, nanos: nanos_sum - NANOS_PER_SEC }
        } else {
            assert(self.secs + other.secs <= u64::MAX) by {
                if self.secs + other.secs > u64::MAX {
                    assert((self.secs + other.secs) * (NANOS_PER_SEC as int) >= (u64::MAX + 1) * (
                    NANOS_PER_SEC as int)) by (nonlinear_arith)
                        requires
                            self.secs + other.secs > u64::MAX,
                    ;
                }
            }
            Span { secs: self.secs + other.secs, nanos: nanos_sum }
        }
    }

    /// The sum of two spans, or nothing where it is longer than a span can hold.
    pub fn checked_add(self, other: Span) -> (r: Option<Span>)
        ensures
            r is Some <==> self@ + other@ <= max_span(),
            r matches Some(sum) ==> sum@ == self@ + other@,
    {
        proof {
            use_type_invariant(&self);
            use_type_invariant(&other);
            self.lemma_parts();
            other.lemma_parts();
        }
        let carry: u64 = if self.nanos + other.nanos >= NANOS_PER_SEC {
            1
        } else {
            0
        };
        if self.secs > u64::MAX - other.secs || self.secs + other.secs > u64::MAX - carry {
            proof {
                assert((self.secs + other.secs + carry) * (NANOS_PER_SEC as int) >= (u64::MAX + 1)
                    * (NANOS_PER_SEC as int)) by (nonlinear_arith)
                    requires
                        self.secs + other.secs + carry > u64::MAX,
                ;
                assert((self.secs + other.secs + carry) * (NANOS_PER_SEC as int) <= self@ + other@);
            }
            None
        } else {
            Some(self.add(other))
        }
    }

    /// `self - other`, or the empty span where `other` is the longer.
    pub fn saturating_sub(self, other: Span) -> (r: Span)
        ensures
            r@ == sub_or_zero(self@, other@),
    {
        if self.shorter_than(&other) {
            Span::zero()
        } else {
            proof {
                use_type_invariant(&self);
                use_type_invariant(&other);
            }
            if self.nanos >= other.nanos {
                Span { secs: self.secs - other.secs, nanos: self.nanos - other.nanos }
            } else {
                Span {
                    secs: self.secs - other.secs - 1,
                    nanos: self.nanos + NANOS_PER_SEC - other.nanos,
                }
            }
        }
    }

    /// The span `rhs` times over.
    pub fn mul(self, rhs: u32) -> (r: Span)
        requires
            secs_of(self@ * rhs) <= u64::MAX,
        ensures
            r@ == self@ * rhs,
    {
        proof {
            use_type_invariant(&self);
            lemma_mul_split(self.secs as int, self.nanos as int, rhs as int);
            assert(self.nanos * rhs <= (NANOS_PER_SEC as int) * (u32::MAX as int)) by (
            nonlinear_arith)
                requires
                    self.nanos < NANOS_PER_SEC,
            ;
        }
        let total_nanos: u64 = (self.nanos as u64) * (rhs as u64);
        let extra_secs: u64 = total_nanos / (NANOS_PER_SEC as u64);
        let nanos: u32 = (total_nanos % (NANOS_PER_SEC as u64)) as u32;
        let secs: u64 = self.secs * (rhs as u64) + extra_secs;
        proof {
            lemma_split(secs as int, nanos as int);
        }
        Span { secs, nanos }
    }

    /// The span `rhs` times over, or nothing where it is longer than a span
    /// can hold.
    pub fn checked_mul(self, rhs: u32) -> (r: Option<Span>)
        ensures
            r is Some <==> secs_of(self@ * rhs) <= u64::MAX,
            r matches Some(product) ==> product@ == self@ * rhs,
    {
        proof {
            use_type_invariant(&self);
            lemma_mul_split(self.secs as int, self.nanos as int, rhs as int);
            assert(self.nanos * rhs <= (NANOS_PER_SEC as int) * (u32::MAX as int)) by (
            nonlinear_arith)
                requires
                    self.nanos < NANOS_PER_SEC,
            ;
        }
        let total_nanos: u64 = (self.nanos as u64) * (rhs as u64);
        let extra_secs: u64 = total_nanos / (NANOS_PER_SEC as u64);
        match self.secs.checked_mul(rhs as u64) {
            Some(whole) => match whole.checked_add(extra_secs) {
                Some(_) => Some(self.mul(rhs)),
                None => None,
            },
            None => {
                proof {
                    assert(self.secs * rhs + extra_secs >= self.secs * rhs);
                }
                None
            },
        }
    }

    /// The span divided by `rhs`, in the way `div_span` states.
    pub fn div(self, rhs: u32) -> (r: Span)
        requires
            rhs != 0,
        ensures
            r@ == div_span(self@, rhs as int),
    {
        proof {
            use_type_invariant(&self);
            self.lemma_parts();
        }
        let secs: u64 = self.secs / (rhs as u64);
        let carry: u64 = self.secs % (rhs as u64);
        proof {
            assert(carry * (NANOS_PER_SEC as int) < (rhs as int) * (NANOS_PER_SEC as int)) by (
            nonlinear_arith)
                requires
                    carry < rhs,
            ;
        }
        let extra: u64 = carry * (NANOS_PER_SEC as u64) / (rhs as u64);
        proof {
            let k = NANOS_PER_SEC as int;
            let r = rhs as int;
            let c = carry as int;
            let n = self.nanos as int;
            assert(n / r + (c * k) / r < k) by (nonlinear_arith)
                requires
                    0 <= c < r,
                    0 <= n < k,
                    r > 0,
                    k > 0,
            {
                assert(n / r * r <= n);
                assert((c * k) / r * r <= c * k);
                assert((n / r + (c * k) / r) * r <= n + c * k);
                assert(n + c * k < k + c * k);
                assert(k + c * k == (c + 1) * k);
                assert((c + 1) * k <= r * k);
            }
            assert(extra as int == (c * k) / r);
            assert((self.nanos / rhs) as int == n / r);
        }
        let nanos: u32 = self.nanos / rhs + (extra as u32);
        Span { secs, nanos }
    }
}

impl View for Span {
    type V = int;

    closed spec fn view(&self) -> int {
        self.total_nanos()
    }
}

} // verus!
