//! An exact percentage: a ratio of two unsigned integers.

use vstd::prelude::*;

verus! {

/// The mathematical value of a [`Percentage`]: `elapsed` parts out of `span`
/// parts, read as the rational number `100 * elapsed / span` percent.
pub struct Ratio {
    pub elapsed: nat,
    pub span: nat,
}

impl Ratio {
    /// The percentage is at most one hundred.
    pub open spec fn at_most_whole(self) -> bool {
        self.elapsed <= self.span
    }

    /// The percentage is strictly below one hundred.
    pub open spec fn below_whole(self) -> bool {
        self.elapsed < self.span
    }

    /// Column `n` of a bar `width` columns wide lies strictly to the left of
    /// the point that the percentage marks: `n / width * 100 < percentage`,
    /// written without division.
    pub open spec fn passes_column(self, n: nat, width: nat) -> bool {
        n * self.span < self.elapsed * width
    }

    /// The percentage in hundredths of a percent, rounded to the nearest
    /// integer; a value exactly half way between two integers goes to the
    /// even one.
    pub open spec fn hundredths(self) -> nat
        recommends
            self.span > 0,
    {
        let scaled = self.elapsed * 10_000;
        let quotient = scaled / self.span;
        let twice_rest = 2 * (scaled % self.span);
        if twice_rest > self.span || (twice_rest == self.span && quotient % 2 == 1) {
            quotient + 1
        } else {
            quotient
        }
    }

    /// This percentage is not below `other`.
    pub open spec fn at_least(self, other: Ratio) -> bool {
        other.elapsed * self.span <= self.elapsed * other.span
    }

    /// This percentage exceeds `other` by no more than the share of one
    /// column of a bar `width` columns wide: `self - other <= 1 / width`.
    pub open spec fn within_a_column_above(self, other: Ratio, width: nat) -> bool {
        (self.elapsed * other.span - other.elapsed * self.span) * width <= self.span * other.span
    }

    /// This percentage exceeds `earlier` by exactly `delta / unit * 100`:
    /// the equation `self - earlier == delta / unit` of rational numbers,
    /// multiplied through by the three denominators.
    pub open spec fn ahead_by(self, earlier: Ratio, delta: nat, unit: nat) -> bool {
        (self.elapsed * earlier.span - earlier.elapsed * self.span) * unit == delta * (self.span
            * earlier.span)
    }
}

/// Two percentages of the same span whose elapsed parts differ by `delta`
/// differ by exactly `delta / span * 100`.
pub proof fn lemma_same_span_ahead_by(earlier: Ratio, later: Ratio, delta: nat)
    requires
        later.span == earlier.span,
        later.elapsed == earlier.elapsed + delta,
    ensures
        later.ahead_by(earlier, delta, earlier.span),
{
    let span = earlier.span as int;
    let e = earlier.elapsed as int;
    let d = delta as int;
    assert(((e + d) * span - e * span) * span == d * (span * span)) by (nonlinear_arith);
}

/// How much of a period has gone by, as an exact ratio.
///
/// The span is never zero. The elapsed part may exceed the span, in which
/// case the percentage is above one hundred.
#[derive(Clone, Copy, Debug)]
pub struct Percentage {
    elapsed: u64,
    span: u64,
}

impl View for Percentage {
    type V = Ratio;

    closed spec fn view(&self) -> Ratio {
        Ratio { elapsed: self.elapsed as nat, span: self.span as nat }
    }
}

impl Percentage {
    #[verifier::type_invariant]
    spec fn span_is_positive(self) -> bool {
        self.span > 0
    }

    /// `elapsed` parts out of `span`; there is no percentage of an empty span.
    pub fn new(elapsed: u64, span: u64) -> (r: Option<Percentage>)
        ensures
            r is Some <==> span > 0,
            r matches Some(p) ==> p@ == (Ratio { elapsed: elapsed as nat, span: span as nat }),
    {
        if span == 0 {
            None
        } else {
            Some(Percentage { elapsed, span })
        }
    }

    /// The parts that have gone by.
    pub fn elapsed(&self) -> (r: u64)
        ensures
            r == self@.elapsed,
    {
        self.elapsed
    }

    /// The parts that make up the whole period; never zero.
    pub fn span(&self) -> (r: u64)
        ensures
            r == self@.span,
            r > 0,
    {
        proof {
            use_type_invariant(self);
        }
        self.span
    }

    /// Whether column `n` of a bar `width` columns wide is reached, that is
    /// whether `n / width * 100` is strictly below the percentage. The test
    /// is made on whole numbers, by cross-multiplication.
    pub fn passes(&self, n: u32, width: u32) -> (r: bool)
        ensures
            r == self@.passes_column(n as nat, width as nat),
    {
        let left: u128 = self.span as u128;
        let right: u128 = self.elapsed as u128;
        assert(n * left <= 0xffff_ffff * 0xffff_ffff_ffff_ffff) by (nonlinear_arith)
            requires
                n <= 0xffff_ffff,
                left <= 0xffff_ffff_ffff_ffff,
        ;
        assert(right * width <= 0xffff_ffff_ffff_ffff * 0xffff_ffff) by (nonlinear_arith)
            requires
                width <= 0xffff_ffff,
                right <= 0xffff_ffff_ffff_ffff,
        ;
        (n as u128) * left < right * (width as u128)
    }

    /// The percentage in hundredths of a percent, rounded half to even.
    pub fn hundredths(&self) -> (r: u128)
        ensures
            r == self@.hundredths(),
    {
        proof {
            use_type_invariant(self);
        }
        let span: u128 = self.span as u128;
        let scaled: u128 = (self.elapsed as u128) * 10_000;
        let quotient: u128 = scaled / span;
        let twice_rest: u128 = 2 * (scaled % span);
        if twice_rest > span || (twice_rest == span && quotient % 2 == 1) {
            quotient + 1
        } else {
            quotient
        }
    }
}

} // verus!
