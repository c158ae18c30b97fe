use vstd::prelude::*;

use crate::rational::{rat_add, rat_eq, rat_int, rat_lt, rat_sub, Ratio};

verus! {

/// Axis of the plane along which scene space is allowed to stretch.
#[derive(Clone, Copy, Debug, PartialEq, Eq, Structural)]
pub enum Axis2 {
    X,
    Y,
}

/// Settings that decide how to scale the camera's matrix when the aspect
/// ratio changes.
#[derive(Clone, Copy, Debug, PartialEq, Eq, Structural)]
pub enum CameraNormalizeMode {
    /// Using an aspect ratio of 1:1, adjusts the camera bounds so that the
    /// axis opposite to `stretch_direction` always spans exactly [0, 1].
    /// Scene space can be lost (or gained) on the stretched axis.
    Lossy { stretch_direction: Axis2 },
    /// Picks the stretched axis dynamically so that no space is lost in the
    /// [0, 1] range on either axis.
    Shrink,
}

/// Bounds when stretching on X for aspect ratio `r`: the horizontal axis
/// becomes `[-o, 1 + o]` with `o = (r - 1) / 2`, the vertical axis stays
/// `[0, 1]`. Over the fraction `num/den` the offset is
/// `(num - den) / (2*den)`, so left and right share denominator `2*den`.
pub open spec fn lossy_x_spec(r: Ratio) -> (Ratio, Ratio, Ratio, Ratio) {
    (
        Ratio { num: (r.den - r.num) as i64, den: (2 * r.den) as i64 },
        Ratio { num: (r.den + r.num) as i64, den: (2 * r.den) as i64 },
        Ratio { num: 0, den: 1 },
        Ratio { num: 1, den: 1 },
    )
}

/// Bounds when stretching on Y for aspect ratio `r`: the vertical axis
/// becomes `[-o, 1 + o]` with `o = (1/r - 1) / 2`, the horizontal axis
/// stays `[0, 1]`. Over the fraction `num/den` the offset is
/// `(den - num) / (2*num)`, so bottom and top share denominator `2*num`.
pub open spec fn lossy_y_spec(r: Ratio) -> (Ratio, Ratio, Ratio, Ratio) {
    (
        Ratio { num: 0, den: 1 },
        Ratio { num: 1, den: 1 },
        Ratio { num: (r.num - r.den) as i64, den: (2 * r.num) as i64 },
        Ratio { num: (r.num + r.den) as i64, den: (2 * r.num) as i64 },
    )
}

/// The unit square (0, 1, 0, 1): the bounds at an aspect ratio of exactly 1.
pub open spec fn unit_square_spec() -> (Ratio, Ratio, Ratio, Ratio) {
    (
        Ratio { num: 0, den: 1 },
        Ratio { num: 1, den: 1 },
        Ratio { num: 0, den: 1 },
        Ratio { num: 1, den: 1 },
    )
}

/// The (left, right, bottom, top) bounds that `mode` yields for aspect
/// ratio `r`. `Shrink` stretches on X above ratio 1, on Y below it, and
/// returns the unit square at exactly 1.
pub open spec fn camera_offsets_spec(mode: CameraNormalizeMode, r: Ratio) -> (
    Ratio,
    Ratio,
    Ratio,
    Ratio,
) {
    match mode {
        CameraNormalizeMode::Lossy { stretch_direction } => match stretch_direction {
            Axis2::X => lossy_x_spec(r),
            Axis2::Y => lossy_y_spec(r),
        },
        CameraNormalizeMode::Shrink => if r.num > r.den {
            lossy_x_spec(r)
        } else if r.num < r.den {
            lossy_y_spec(r)
        } else {
            unit_square_spec()
        },
    }
}

impl CameraNormalizeMode {
    /// The camera bounds offsets according to the chosen mode, as exact
    /// fractions, for a positive aspect ratio.
    pub fn camera_offsets(&self, aspect_ratio: Ratio) -> (r: (Ratio, Ratio, Ratio, Ratio))
        requires
            aspect_ratio.bounded(),
        ensures
            r == camera_offsets_spec(*self, aspect_ratio),
            r.0.wf() && r.1.wf() && r.2.wf() && r.3.wf(),
    {
        match *self {
            CameraNormalizeMode::Lossy { stretch_direction } => match stretch_direction {
                Axis2::X => Self::lossy_x(aspect_ratio),
                Axis2::Y => Self::lossy_y(aspect_ratio),
            },
            CameraNormalizeMode::Shrink => {
                if aspect_ratio.num > aspect_ratio.den {
                    Self::lossy_x(aspect_ratio)
                } else if aspect_ratio.num < aspect_ratio.den {
                    Self::lossy_y(aspect_ratio)
                } else {
                    (
                        Ratio { num: 0, den: 1 },
                        Ratio { num: 1, den: 1 },
                        Ratio { num: 0, den: 1 },
                        Ratio { num: 1, den: 1 },
                    )
                }
            },
        }
    }

    fn lossy_x(aspect_ratio: Ratio) -> (r: (Ratio, Ratio, Ratio, Ratio))
        requires
            aspect_ratio.bounded(),
        ensures
            r == lossy_x_spec(aspect_ratio),
    {
        let double_den = 2 * aspect_ratio.den;
        (
            Ratio { num: aspect_ratio.den - aspect_ratio.num, den: double_den },
            Ratio { num: aspect_ratio.den + aspect_ratio.num, den: double_den },
            Ratio { num: 0, den: 1 },
            Ratio { num: 1, den: 1 },
        )
    }

    fn lossy_y(aspect_ratio: Ratio) -> (r: (Ratio, Ratio, Ratio, Ratio))
        requires
            aspect_ratio.bounded(),
        ensures
            r == lossy_y_spec(aspect_ratio),
    {
        let double_num = 2 * aspect_ratio.num;
        (
            Ratio { num: 0, den: 1 },
            Ratio { num: 1, den: 1 },
            Ratio { num: aspect_ratio.num - aspect_ratio.den, den: double_num },
            Ratio { num: aspect_ratio.num + aspect_ratio.den, den: double_num },
        )
    }
}

impl Default for CameraNormalizeMode {
    /// The default mode loses no scene space on either axis.
    fn default() -> (r: Self)
        ensures
            r == CameraNormalizeMode::Shrink,
    {
        CameraNormalizeMode::Shrink
    }
}

/// Component attached to a camera's entity that allows automatically
/// adjusting the camera's bounds according to the preferences in `mode`.
#[derive(Clone, Copy, Debug, PartialEq, Eq, Structural)]
pub struct NormalOrthoCamera {
    /// How the camera's bounds change when the window's aspect ratio does.
    pub mode: CameraNormalizeMode,
}

impl NormalOrthoCamera {
    /// The camera bounds offsets for this component's mode.
    pub fn camera_offsets(&self, ratio: Ratio) -> (r: (Ratio, Ratio, Ratio, Ratio))
        requires
            ratio.bounded(),
        ensures
            r == camera_offsets_spec(self.mode, ratio),
    {
        self.mode.camera_offsets(ratio)
    }
}

impl Default for NormalOrthoCamera {
    /// A fresh component uses the default mode, `Shrink`.
    fn default() -> (r: Self)
        ensures
            r == (NormalOrthoCamera { mode: CameraNormalizeMode::Shrink }),
    {
        NormalOrthoCamera { mode: CameraNormalizeMode::Shrink }
    }
}

/// An orthographic projection descriptor: the six clip bounds.
#[derive(Clone, Copy, Debug, PartialEq, Eq, Structural)]
pub struct Ortho {
    pub left: Ratio,
    pub right: Ratio,
    pub bottom: Ratio,
    pub top: Ratio,
    pub near: Ratio,
    pub far: Ratio,
}

/// A camera: the projection it renders with.
#[derive(Clone, Copy, Debug, PartialEq, Eq, Structural)]
pub struct Camera {
    pub proj: Ortho,
}

/// `Shrink` agrees with `Lossy(X)` for every aspect ratio above 1, with
/// `Lossy(Y)` for every aspect ratio below 1, and yields the unit square at
/// exactly 1. (`num > den` is `r > 1` since the denominator is positive.)
pub proof fn lemma_shrink_matches_lossy(r: Ratio)
    requires
        r.bounded(),
    ensures
        r.num > r.den ==> camera_offsets_spec(CameraNormalizeMode::Shrink, r)
            == camera_offsets_spec(
            CameraNormalizeMode::Lossy { stretch_direction: Axis2::X },
            r,
        ),
        r.num < r.den ==> camera_offsets_spec(CameraNormalizeMode::Shrink, r)
            == camera_offsets_spec(
            CameraNormalizeMode::Lossy { stretch_direction: Axis2::Y },
            r,
        ),
        r.num == r.den ==> camera_offsets_spec(CameraNormalizeMode::Shrink, r)
            == unit_square_spec(),
{
}

/// Stretching on X spans exactly the aspect ratio on the horizontal axis,
/// symmetric around one half, while the vertical axis stays [0, 1]:
/// `right - left == r`, `left + right == 1`, `left < right`,
/// `bottom == 0`, `top == 1`.
pub proof fn lemma_lossy_x_spans(r: Ratio)
    requires
        r.bounded(),
    ensures
        ({
            let o = camera_offsets_spec(
                CameraNormalizeMode::Lossy { stretch_direction: Axis2::X },
                r,
            );
            &&& rat_eq(rat_sub(o.1@, o.0@), r@)
            &&& rat_eq(rat_add(o.0@, o.1@), rat_int(1))
            &&& rat_lt(o.0@, o.1@)
            &&& o.2 == (Ratio { num: 0, den: 1 })
            &&& o.3 == (Ratio { num: 1, den: 1 })
        }),
{
    let n = r.num as int;
    let d = r.den as int;
    assert(((d + n) * (2 * d) - (d - n) * (2 * d)) * d == n * ((2 * d) * (2 * d)))
        by (nonlinear_arith);
    assert(((d - n) * (2 * d) + (d + n) * (2 * d)) * 1 == 1 * ((2 * d) * (2 * d)))
        by (nonlinear_arith);
    assert((d - n) * (2 * d) < (d + n) * (2 * d)) by (nonlinear_arith)
        requires
            1 <= n,
            1 <= d,
    ;
}

/// Stretching on Y spans exactly the inverse aspect ratio on the vertical
/// axis, symmetric around one half, while the horizontal axis stays [0, 1]:
/// `bottom + top == 1`, `bottom < top`, `left == 0`, `right == 1`.
pub proof fn lemma_lossy_y_spans(r: Ratio)
    requires
        r.bounded(),
    ensures
        ({
            let o = camera_offsets_spec(
                CameraNormalizeMode::Lossy { stretch_direction: Axis2::Y },
                r,
            );
            &&& rat_eq(rat_add(o.2@, o.3@), rat_int(1))
            &&& rat_lt(o.2@, o.3@)
            &&& o.0 == (Ratio { num: 0, den: 1 })
            &&& o.1 == (Ratio { num: 1, den: 1 })
        }),
{
    let n = r.num as int;
    let d = r.den as int;
    assert(((n - d) * (2 * n) + (n + d) * (2 * n)) * 1 == 1 * ((2 * n) * (2 * n)))
        by (nonlinear_arith);
    assert((n - d) * (2 * n) < (n + d) * (2 * n)) by (nonlinear_arith)
        requires
            1 <= n,
            1 <= d,
    ;
}

/// The invariant of the computed bounds, for every mode and every positive
/// aspect ratio: `left < right` and `bottom < top`, each axis is symmetric
/// around one half (`left + right == 1` and `bottom + top == 1`), and at
/// least one axis spans exactly [0, 1].
pub proof fn lemma_offsets_invariant(mode: CameraNormalizeMode, r: Ratio)
    requires
        r.bounded(),
    ensures
        ({
            let o = camera_offsets_spec(mode, r);
            &&& rat_lt(o.0@, o.1@)
            &&& rat_lt(o.2@, o.3@)
            &&& rat_eq(rat_add(o.0@, o.1@), rat_int(1))
            &&& rat_eq(rat_add(o.2@, o.3@), rat_int(1))
            &&& (o.0 == (Ratio { num: 0, den: 1 }) && o.1 == (Ratio { num: 1, den: 1 })) || (o.2
                == (Ratio { num: 0, den: 1 }) && o.3 == (Ratio { num: 1, den: 1 }))
        }),
{
    lemma_lossy_x_spans(r);
    lemma_lossy_y_spans(r);
    let o = camera_offsets_spec(mode, r);
    assert(o == lossy_x_spec(r) || o == lossy_y_spec(r) || o == unit_square_spec());
    if o == lossy_x_spec(r) {
        assert(rat_lt(o.2@, o.3@));
        assert(rat_eq(rat_add(o.2@, o.3@), rat_int(1)));
    } else if o == lossy_y_spec(r) {
        assert(rat_lt(o.0@, o.1@));
        assert(rat_eq(rat_add(o.0@, o.1@), rat_int(1)));
    } else {
        assert(rat_lt(o.0@, o.1@));
        assert(rat_lt(o.2@, o.3@));
        assert(rat_eq(rat_add(o.0@, o.1@), rat_int(1)));
        assert(rat_eq(rat_add(o.2@, o.3@), rat_int(1)));
    }
}

} // verus!
