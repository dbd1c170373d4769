//! Choice of the dominant axis and the cyclic order of the other two.
use vstd::prelude::*;

verus! {

/// The axis that the selector picks, given for each pair of axes whether the
/// magnitude of the first strictly exceeds that of the second.
///
/// Axis 0 needs to beat both others, axis 1 needs not to be beaten by axis 0
/// and to beat axis 2, and every tie falls to axis 2.
pub open spec fn dominant_axis(x_gt_y: bool, x_gt_z: bool, y_gt_z: bool) -> int {
    if x_gt_y && x_gt_z {
        0
    } else if !x_gt_y && y_gt_z {
        1
    } else {
        2
    }
}

/// `kz` is an axis, and `kx` and `ky` are the next two in the cycle 0, 1, 2, 0.
pub open spec fn cyclic(kx: int, ky: int, kz: int) -> bool {
    &&& 0 <= kz < 3
    &&& kx == (kz + 1) % 3
    &&& ky == (kz + 2) % 3
}

/// Picks the dominant axis from the three strict comparisons of magnitudes.
pub fn select_axis(x_gt_y: bool, x_gt_z: bool, y_gt_z: bool) -> (k: usize)
    ensures
        k == dominant_axis(x_gt_y, x_gt_z, y_gt_z),
        k < 3,
{
    if x_gt_y {
        // y is not the largest, so it is x or z
        if x_gt_z {
            0
        } else {
            2
        }
    } else if y_gt_z {
        // x is not the largest, so it is y or z
        1
    } else {
        2
    }
}

/// The axes of a frame whose dominant axis is `kz`: `(kx, ky, kz)`, in cyclic
/// order.
///
/// The order is kept whatever the sign of the dominant component. Exchanging
/// `kx` and `ky` for a negative one would preserve the winding of the
/// triangle, which matters only for backface culling.
pub fn axes_of(kz: usize) -> (k: (usize, usize, usize))
    requires
        kz < 3,
    ensures
        k.2 == kz,
        cyclic(k.0 as int, k.1 as int, k.2 as int),
        set![k.0, k.1, k.2] =~= set![0usize, 1usize, 2usize],
        k.0 != k.1,
        k.1 != k.2,
        k.2 != k.0,
{
    ((kz + 1) % 3, (kz + 2) % 3, kz)
}

/// The axes `(kx, ky, kz)` of the frame of a ray, from the three strict
/// comparisons of the magnitudes of its direction's components: `kz` is the
/// dominant axis, and the three are in cyclic order.
pub fn frame_axes(x_gt_y: bool, x_gt_z: bool, y_gt_z: bool) -> (k: (usize, usize, usize))
    ensures
        k.2 == dominant_axis(x_gt_y, x_gt_z, y_gt_z),
        cyclic(k.0 as int, k.1 as int, k.2 as int),
        set![k.0, k.1, k.2] =~= set![0usize, 1usize, 2usize],
        k.0 != k.1,
        k.1 != k.2,
        k.2 != k.0,
{
    axes_of(select_axis(x_gt_y, x_gt_z, y_gt_z))
}

/// Three axes in cyclic order are a permutation of 0, 1, 2: each is an axis,
/// no two are the same, and together they are all three.
pub proof fn cyclic_is_permutation(kx: int, ky: int, kz: int)
    requires
        cyclic(kx, ky, kz),
    ensures
        0 <= kx < 3,
        0 <= ky < 3,
        0 <= kz < 3,
        kx != ky,
        ky != kz,
        kz != kx,
        set![kx, ky, kz] =~= set![0int, 1int, 2int],
        ky == (kx + 1) % 3,
        kz == (ky + 1) % 3,
{
}

/// Over totally ordered magnitudes the selected axis is a largest one: no
/// other component exceeds it.
pub proof fn dominant_axis_is_largest(mx: real, my: real, mz: real)
    ensures
        ({
            let k = dominant_axis(mx > my, mx > mz, my > mz);
            let m = if k == 0 {
                mx
            } else if k == 1 {
                my
            } else {
                mz
            };
            0 <= k < 3 && m >= mx && m >= my && m >= mz
        }),
{
}

/// Ties fall to the later axis: axis 0 is selected only where it strictly
/// exceeds both others, and axis 1 only where it strictly exceeds axis 2 and
/// is not exceeded by axis 0.
pub proof fn dominant_axis_breaks_ties(mx: real, my: real, mz: real)
    ensures
        dominant_axis(mx > my, mx > mz, my > mz) == 0 <==> mx > my && mx > mz,
        dominant_axis(mx > my, mx > mz, my > mz) == 1 <==> my >= mx && my > mz,
        dominant_axis(mx > my, mx > mz, my > mz) == 2 <==> mz >= mx && mz >= my,
{
}

} // verus!
