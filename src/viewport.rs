use vstd::prelude::*;

verus! {

/// A size as exact fractions: `width / denom` by `height / denom`.
pub struct Dims {
    pub width: int,
    pub height: int,
    pub denom: int,
}

impl Dims {
    /// Both sides and the denominator are positive.
    pub open spec fn wf(self) -> bool {
        self.width > 0 && self.height > 0 && self.denom > 0
    }

    /// The two values denote the same width and the same height.
    pub open spec fn same_size(self, o: Dims) -> bool {
        self.width * o.denom == o.width * self.denom
            && self.height * o.denom == o.height * self.denom
    }

    /// The two values have the same ratio of width to height.
    pub open spec fn same_aspect(self, o: Dims) -> bool {
        self.width * o.height == o.width * self.height
    }

    /// This size multiplied by the fraction `num / den`.
    pub open spec fn scaled_by(self, num: int, den: int) -> Dims {
        Dims { width: self.width * num, height: self.height * num, denom: self.denom * den }
    }
}

/// A size held as `width / denom` by `height / denom`; a whole-pixel size has
/// `denom == 1`.
#[derive(Clone, Copy, Debug, PartialEq, Eq, Structural)]
pub struct Extent {
    pub width: u64,
    pub height: u64,
    pub denom: u64,
}

impl View for Extent {
    type V = Dims;

    open spec fn view(&self) -> Dims {
        Dims { width: self.width as int, height: self.height as int, denom: self.denom as int }
    }
}

impl Extent {
    /// The size of `width` by `height` whole pixels.
    pub fn pixels(width: u32, height: u32) -> (r: Extent)
        ensures
            r@ == (Dims { width: width as int, height: height as int, denom: 1 }),
    {
        Extent { width: width as u64, height: height as u64, denom: 1 }
    }
}

/// The largest display area, in whole pixels, that a window may take.
#[derive(Clone, Copy, Debug, PartialEq, Eq, Structural)]
pub struct Scaling {
    pub max_x: u32,
    pub max_y: u32,
}

impl Scaling {
    /// Both bounds are positive.
    pub open spec fn wf(self) -> bool {
        self.max_x > 0 && self.max_y > 0
    }

    /// The width of `d` is over the horizontal bound.
    pub open spec fn exceeds_x(self, d: Dims) -> bool {
        d.width > self.max_x * d.denom
    }

    /// The height of `d` is over the vertical bound.
    pub open spec fn exceeds_y(self, d: Dims) -> bool {
        d.height > self.max_y * d.denom
    }

    /// `d` fits the display area on both axes.
    pub open spec fn within(self, d: Dims) -> bool {
        !self.exceeds_x(d) && !self.exceeds_y(d)
    }

    /// The factor, as `(numerator, denominator)`, by which `d` is scaled:
    /// `max_x / width` when only the width is over its bound, `max_y / height`
    /// when only the height is, the smaller of the two when both are, and one
    /// when neither is.
    pub open spec fn factor(self, d: Dims) -> (int, int) {
        let fx = (self.max_x * d.denom, d.width);
        let fy = (self.max_y * d.denom, d.height);
        if self.exceeds_x(d) && self.exceeds_y(d) {
            if fx.0 * fy.1 <= fy.0 * fx.1 {
                fx
            } else {
                fy
            }
        } else if self.exceeds_x(d) {
            fx
        } else if self.exceeds_y(d) {
            fy
        } else {
            (1, 1)
        }
    }

    /// The horizontal bound decides the factor.
    pub open spec fn binds_x(self, d: Dims) -> bool {
        self.exceeds_x(d) && (!self.exceeds_y(d) || self.max_x * d.height <= self.max_y * d.width)
    }

    /// The fitted size in the form that `scale` returns: `d` itself when it
    /// fits, else over the denominator `width` (horizontal bound) or `height`
    /// (vertical bound).
    pub open spec fn fitted(self, d: Dims) -> Dims {
        if self.within(d) {
            d
        } else if self.binds_x(d) {
            Dims { width: self.max_x * d.width, height: self.max_x * d.height, denom: d.width }
        } else {
            Dims { width: self.max_y * d.width, height: self.max_y * d.height, denom: d.height }
        }
    }

    /// The products that scaling `d` computes fit in a `u64`.
    pub open spec fn products_fit(self, d: Dims) -> bool {
        self.max_x * d.width <= u64::MAX && self.max_x * d.height <= u64::MAX
            && self.max_y * d.width <= u64::MAX && self.max_y * d.height <= u64::MAX
    }

    /// A display area of `max_x` by `max_y` pixels.
    pub fn new(max_x: u32, max_y: u32) -> (r: Scaling)
        ensures
            r.max_x == max_x,
            r.max_y == max_y,
    {
        Scaling { max_x, max_y }
    }

    /// The size at which an image of size `size` is shown: `size` itself when
    /// it fits the display area, else `size` scaled by `factor`, which keeps
    /// its aspect ratio.
    pub fn scale(&self, size: Extent) -> (r: Extent)
        requires
            self.wf(),
            size@.wf(),
            self.within(size@) || self.products_fit(size@),
        ensures
            r@ == self.fitted(size@),
            r@.same_size(size@.scaled_by(self.factor(size@).0, self.factor(size@).1)),
            r@.wf(),
    {
        let mx = self.max_x as u128;
        let my = self.max_y as u128;
        let w = size.width as u128;
        let h = size.height as u128;
        let d = size.denom as u128;
        assert(mx * d <= u32::MAX * u64::MAX) by (nonlinear_arith)
            requires mx <= u32::MAX, d <= u64::MAX;
        assert(my * d <= u32::MAX * u64::MAX) by (nonlinear_arith)
            requires my <= u32::MAX, d <= u64::MAX;
        let over_x = w > mx * d;
        let over_y = h > my * d;
        proof {
            lemma_fitted_is_scaled(*self, size@);
            lemma_fitted_within(*self, size@);
        }
        if !over_x && !over_y {
            return size;
        }
        assert(mx * h <= u32::MAX * u64::MAX) by (nonlinear_arith)
            requires mx <= u32::MAX, h <= u64::MAX;
        assert(my * w <= u32::MAX * u64::MAX) by (nonlinear_arith)
            requires my <= u32::MAX, w <= u64::MAX;
        if over_x && (!over_y || mx * h <= my * w) {
            Extent {
                width: self.max_x as u64 * size.width,
                height: self.max_x as u64 * size.height,
                denom: size.width,
            }
        } else {
            Extent {
                width: self.max_y as u64 * size.width,
                height: self.max_y as u64 * size.height,
                denom: size.height,
            }
        }
    }
}

/// `fitted` denotes the input size multiplied by `factor`.
proof fn lemma_fitted_is_scaled(s: Scaling, d: Dims)
    requires
        s.wf(),
        d.wf(),
    ensures
        s.fitted(d).same_size(d.scaled_by(s.factor(d).0, s.factor(d).1)),
{
    let (mx, my) = (s.max_x as int, s.max_y as int);
    let (w, h, den) = (d.width, d.height, d.denom);
    assert(mx * den * h <= my * den * w <==> mx * h <= my * w) by (nonlinear_arith)
        requires den > 0;
    if s.within(d) {
        assert(d.scaled_by(1, 1) == d);
    } else if s.binds_x(d) {
        assert(s.factor(d) == (mx * den, w));
        assert(mx * w * (den * w) == w * (mx * den) * w) by (nonlinear_arith);
        assert(mx * h * (den * w) == h * (mx * den) * w) by (nonlinear_arith);
    } else {
        assert(s.factor(d) == (my * den, h));
        assert(my * w * (den * h) == w * (my * den) * h) by (nonlinear_arith);
        assert(my * h * (den * h) == h * (my * den) * h) by (nonlinear_arith);
    }
}

/// Whatever the input, the fitted size is positive and fits the display area.
pub proof fn lemma_fitted_within(s: Scaling, d: Dims)
    requires
        s.wf(),
        d.wf(),
    ensures
        s.fitted(d).wf(),
        s.within(s.fitted(d)),
{
    let (mx, my) = (s.max_x as int, s.max_y as int);
    let (w, h, den) = (d.width, d.height, d.denom);
    assert(mx * w > 0 && mx * h > 0 && my * w > 0 && my * h > 0) by (nonlinear_arith)
        requires mx > 0, my > 0, w > 0, h > 0;
    if s.within(d) {
    } else if s.binds_x(d) {
        if !s.exceeds_y(d) {
            assert(mx * h < my * w) by (nonlinear_arith)
                requires w > mx * den, h <= my * den, mx > 0, my > 0;
        }
    } else {
        if s.exceeds_x(d) {
            assert(my * w < mx * h);
        } else {
            assert(my * w < mx * h) by (nonlinear_arith)
                requires w <= mx * den, h > my * den, mx > 0, my > 0;
        }
    }
}

/// A size that already fits the display area is kept as it is.
pub proof fn lemma_fit_keeps_small(s: Scaling, d: Dims)
    requires
        s.wf(),
        d.wf(),
        s.within(d),
    ensures
        s.fitted(d) == d,
{
}

/// When only the width is over its bound, the fitted width is `max_x` and the
/// fitted height is `height * max_x / width`; the height then also fits.
pub proof fn lemma_fit_width_over(s: Scaling, d: Dims)
    requires
        s.wf(),
        d.wf(),
        s.exceeds_x(d),
        !s.exceeds_y(d),
    ensures
        s.fitted(d).width == s.max_x * s.fitted(d).denom,
        s.fitted(d).height * d.width == d.height * s.max_x * s.fitted(d).denom,
        s.within(s.fitted(d)),
{
    let (mx, w, h) = (s.max_x as int, d.width, d.height);
    assert(mx * w == w * mx && mx * h * w == h * mx * w) by (nonlinear_arith);
    lemma_fitted_within(s, d);
}

/// When both sides are over their bounds, the fitted size keeps the aspect
/// ratio and fits the display area.
pub proof fn lemma_fit_both_over(s: Scaling, d: Dims)
    requires
        s.wf(),
        d.wf(),
        s.exceeds_x(d),
        s.exceeds_y(d),
    ensures
        s.fitted(d).same_aspect(d),
        s.within(s.fitted(d)),
{
    let (mx, my, w, h) = (s.max_x as int, s.max_y as int, d.width, d.height);
    assert(mx * w * h == w * (mx * h)) by (nonlinear_arith);
    assert(my * w * h == w * (my * h)) by (nonlinear_arith);
    lemma_fitted_within(s, d);
}

/// Fitting a fitted size again changes nothing.
pub proof fn lemma_fit_idempotent(s: Scaling, d: Dims)
    requires
        s.wf(),
        d.wf(),
    ensures
        s.fitted(s.fitted(d)) == s.fitted(d),
{
    lemma_fitted_within(s, d);
}

} // verus!
