//! The pixels of a line segment, by Bresenham's algorithm.

use vstd::prelude::*;

verus! {

/// `|v|`.
pub open spec fn abs_int(v: int) -> int {
    if v < 0 { -v } else { v }
}

/// The larger of two integers.
pub open spec fn max_int(a: int, b: int) -> int {
    if a >= b { a } else { b }
}

/// The error term a line starts with: half the longer extent, counted
/// against the shorter axis.
pub open spec fn start_error(dx: int, dy: int) -> int {
    if dx > dy { dx / 2 } else { -(dy / 2) }
}

/// One step of the walk over (x steps taken, y steps taken, error): x
/// moves while the error is above `-dx`, y while it is below `dy`, both
/// judged on the error before the step.
pub open spec fn walk_step(dx: int, dy: int, s: (int, int, int)) -> (int, int, int) {
    let moved_x = s.2 > -dx;
    let moved_y = s.2 < dy;
    (
        if moved_x { s.0 + 1 } else { s.0 },
        if moved_y { s.1 + 1 } else { s.1 },
        s.2 - (if moved_x { dy } else { 0 }) + (if moved_y { dx } else { 0 }),
    )
}

/// The walk's state after `k` steps.
pub open spec fn walk_state(dx: int, dy: int, k: nat) -> (int, int, int)
    decreases k,
{
    if k == 0 {
        (0, 0, start_error(dx, dy))
    } else {
        walk_step(dx, dy, walk_state(dx, dy, (k - 1) as nat))
    }
}

/// The direction from `a` towards `b` along one axis.
pub open spec fn direction(a: int, b: int) -> int {
    if a < b { 1 } else { -1 }
}

/// `next` is one unit step from `prev`, straight or diagonal, in the
/// directions `sx` and `sy`.
pub open spec fn unit_step_toward(prev: (i32, i32), next: (i32, i32), sx: int, sy: int) -> bool {
    let d0 = (next.0 - prev.0) * sx;
    let d1 = (next.1 - prev.1) * sy;
    &&& 0 <= d0 <= 1
    &&& 0 <= d1 <= 1
    &&& d0 + d1 >= 1
}

/// The `k`-th pixel of the line from (x1, y1) to (x2, y2).
pub open spec fn line_point(x1: int, y1: int, x2: int, y2: int, k: nat) -> (int, int) {
    let s = walk_state(abs_int(x2 - x1), abs_int(y2 - y1), k);
    (x1 + direction(x1, x2) * s.0, y1 + direction(y1, y2) * s.1)
}

/// What the walk keeps from one step to the next, while it has not reached
/// the far end: each count stays within its extent, at least one of them
/// grows, the error follows the counts, and it stays on its side of zero.
proof fn lemma_walk_step(dx: int, dy: int, e0: int, a: int, b: int, e: int)
    requires
        0 <= dx,
        0 <= dy,
        dx > dy ==> 0 <= e0 < dx,
        dx <= dy ==> -dy <= e0 <= 0 && (dy >= 1 ==> e0 > -dy),
        0 <= a <= dx,
        0 <= b <= dy,
        !(a == dx && b == dy),
        e == e0 + b * dx - a * dy,
        dx > dy ==> 0 <= e <= dx,
        dx <= dy ==> -dy <= e <= 0,
    ensures
        ({
            let n = walk_step(dx, dy, (a, b, e));
            &&& 0 <= n.0 <= dx
            &&& 0 <= n.1 <= dy
            &&& 0 <= n.0 - a <= 1
            &&& 0 <= n.1 - b <= 1
            &&& n.0 - a + n.1 - b >= 1
            &&& n.2 == e0 + n.1 * dx - n.0 * dy
            &&& dx > dy ==> 0 <= n.2 <= dx && n.0 == a + 1
            &&& dx <= dy ==> -dy <= n.2 <= 0 && n.1 == b + 1
        }),
{
    if a == dx {
        assert(e <= -dx) by (nonlinear_arith)
            requires
                0 <= dx,
                e == e0 + b * dx - a * dy,
                a == dx,
                0 <= b < dy,
                dx > dy ==> 0 <= e && e0 < dx,
                dx <= dy ==> e0 <= 0,
        ;
    }
    if b == dy {
        assert(e >= dy) by (nonlinear_arith)
            requires
                0 <= dy,
                e == e0 + b * dx - a * dy,
                b == dy,
                0 <= a < dx,
                dx > dy ==> 0 <= e0,
                dx <= dy ==> e <= 0 && e0 > -dy,
        ;
    }
    let n = walk_step(dx, dy, (a, b, e));
    assert(n.2 == e0 + n.1 * dx - n.0 * dy) by (nonlinear_arith)
        requires
            n.2 == e - (if e > -dx { dy } else { 0int }) + (if e < dy { dx } else { 0int }),
            e == e0 + b * dx - a * dy,
            n.0 == a + (if e > -dx { 1int } else { 0int }),
            n.1 == b + (if e < dy { 1int } else { 0int }),
    ;
}

/// The pixels of the line from (x1, y1) to (x2, y2), in drawing order: one
/// per step along the longer axis, from the first end to the second, each
/// a unit step (straight or diagonal) towards the second end.
#[verifier::rlimit(40)]
pub fn line_points(x1: i32, y1: i32, x2: i32, y2: i32) -> (pts: Vec<(i32, i32)>)
    requires
        i32::MIN < x2 - x1 <= i32::MAX,
        i32::MIN < y2 - y1 <= i32::MAX,
    ensures
        pts.len() == max_int(abs_int(x2 - x1), abs_int(y2 - y1)) + 1,
        forall|k: int|
            0 <= k < pts.len() ==> (#[trigger] pts@[k]).0 as int == line_point(x1 as int, y1 as int, x2 as int, y2 as int, k as nat).0
                && pts@[k].1 as int == line_point(x1 as int, y1 as int, x2 as int, y2 as int, k as nat).1,
        pts@[0] == (x1, y1),
        pts@[pts.len() - 1] == (x2, y2),
        forall|k: int|
            0 < k < pts.len() ==> unit_step_toward(
                pts@[k - 1],
                #[trigger] pts@[k],
                direction(x1 as int, x2 as int),
                direction(y1 as int, y2 as int),
            ),
{
    let dx: i64 = if x2 >= x1 { x2 as i64 - x1 as i64 } else { x1 as i64 - x2 as i64 };
    let dy: i64 = if y2 >= y1 { y2 as i64 - y1 as i64 } else { y1 as i64 - y2 as i64 };
    let sx: i64 = if x1 < x2 { 1 } else { -1 };
    let sy: i64 = if y1 < y2 { 1 } else { -1 };
    let ghost gdx = dx as int;
    let ghost gdy = dy as int;
    let ghost e0 = start_error(gdx, gdy);
    let mut err: i64 = if dx > dy { dx / 2 } else { -(dy / 2) };
    let mut x: i64 = x1 as i64;
    let mut y: i64 = y1 as i64;
    let mut pts: Vec<(i32, i32)> = Vec::new();
    let ghost mut a: int = 0;
    let ghost mut b: int = 0;
    let ghost mut pa: int = 0;
    let ghost mut pb: int = 0;
    let ghost mut k: nat = 0;
    assert(gdx > gdy ==> 0 <= e0 < gdx);
    assert(gdx <= gdy ==> -gdy <= e0 <= 0 && (gdy >= 1 ==> e0 > -gdy));
    loop
        invariant_except_break
            dx == gdx,
            dy == gdy,
            gdx == abs_int(x2 - x1),
            gdy == abs_int(y2 - y1),
            0 <= gdx <= i32::MAX,
            0 <= gdy <= i32::MAX,
            sx == direction(x1 as int, x2 as int),
            sy == direction(y1 as int, y2 as int),
            e0 == start_error(gdx, gdy),
            gdx > gdy ==> 0 <= e0 < gdx,
            gdx <= gdy ==> -gdy <= e0 <= 0 && (gdy >= 1 ==> e0 > -gdy),
            0 <= a <= gdx,
            0 <= b <= gdy,
            x == x1 + sx * a,
            y == y1 + sy * b,
            x2 == x1 + sx * gdx,
            y2 == y1 + sy * gdy,
            err == e0 + b * gdx - a * gdy,
            gdx > gdy ==> 0 <= err <= gdx && a == k,
            gdx <= gdy ==> -gdy <= err <= 0 && b == k,
            (a, b, err as int) == walk_state(gdx, gdy, k),
            pts.len() == k,
            forall|j: int|
                0 <= j < k ==> (#[trigger] pts@[j]).0 as int == line_point(x1 as int, y1 as int, x2 as int, y2 as int, j as nat).0
                    && pts@[j].1 as int == line_point(x1 as int, y1 as int, x2 as int, y2 as int, j as nat).1,
            k > 0 ==> pts@[0] == (x1, y1),
            forall|j: int|
                0 < j < k ==> unit_step_toward(pts@[j - 1], #[trigger] pts@[j], sx as int, sy as int),
            k > 0 ==> pts@[k - 1].0 as int == x1 + sx * pa && pts@[k - 1].1 as int == y1 + sy * pb
                && 0 <= a - pa <= 1 && 0 <= b - pb <= 1 && a - pa + b - pb >= 1,
        ensures
            pts.len() == max_int(gdx, gdy) + 1,
            pts@[0] == (x1, y1),
            pts@[pts.len() - 1] == (x2, y2),
            forall|j: int|
                0 <= j < pts.len() ==> (#[trigger] pts@[j]).0 as int == line_point(x1 as int, y1 as int, x2 as int, y2 as int, j as nat).0
                    && pts@[j].1 as int == line_point(x1 as int, y1 as int, x2 as int, y2 as int, j as nat).1,
            forall|j: int|
                0 < j < pts.len() ==> unit_step_toward(pts@[j - 1], #[trigger] pts@[j], sx as int, sy as int),
        decreases (gdx - a) + (gdy - b) + 1,
    {
        assert((x1 <= x <= x2 || x2 <= x <= x1) && (y1 <= y <= y2 || y2 <= y <= y1)) by (nonlinear_arith)
            requires
                x == x1 + sx * a,
                x2 == x1 + sx * gdx,
                0 <= a <= gdx,
                sx == 1 || sx == -1,
                y == y1 + sy * b,
                y2 == y1 + sy * gdy,
                0 <= b <= gdy,
                sy == 1 || sy == -1,
        ;
        let ghost before = pts@;
        pts.push((x as i32, y as i32));
        proof {
            assert(pts@[k as int] == (x as i32, y as i32));
            assert forall|j: int| 0 <= j < k implies pts@[j] == before[j] by {}
            let lp = line_point(x1 as int, y1 as int, x2 as int, y2 as int, k);
            assert(lp.0 == x && lp.1 == y);
            if k > 0 {
                let d0 = (pts@[k as int].0 - pts@[k - 1].0) * sx;
                let d1 = (pts@[k as int].1 - pts@[k - 1].1) * sy;
                assert(d0 == a - pa && d1 == b - pb) by (nonlinear_arith)
                    requires
                        d0 == (pts@[k as int].0 - pts@[k - 1].0) * sx,
                        d1 == (pts@[k as int].1 - pts@[k - 1].1) * sy,
                        pts@[k as int].0 == x1 + sx * a,
                        pts@[k - 1].0 == x1 + sx * pa,
                        pts@[k as int].1 == y1 + sy * b,
                        pts@[k - 1].1 == y1 + sy * pb,
                        sx == 1 || sx == -1,
                        sy == 1 || sy == -1,
                ;
            } else {
                assert(pts@[0] == (x1, y1));
            }
        }
        if x == x2 as i64 && y == y2 as i64 {
            assert(a == gdx && b == gdy) by (nonlinear_arith)
                requires
                    x1 + sx * a == x1 + sx * gdx,
                    y1 + sy * b == y1 + sy * gdy,
                    sx == 1 || sx == -1,
                    sy == 1 || sy == -1,
            ;
            proof {
                k = k + 1;
            }
            break;
        }
        assert(!(a == gdx && b == gdy)) by (nonlinear_arith)
            requires
                !(x == x1 + sx * gdx && y == y1 + sy * gdy),
                x == x1 + sx * a,
                y == y1 + sy * b,
        ;
        let e2 = err;
        proof {
            lemma_walk_step(gdx, gdy, e0, a, b, err as int);
        }
        let ghost oa = a;
        let ghost ob = b;
        proof {
            pa = a;
            pb = b;
        }
        if e2 > -dx {
            err = err - dy;
            x = x + sx;
            proof {
                a = a + 1;
            }
        }
        if e2 < dy {
            err = err + dx;
            y = y + sy;
            proof {
                b = b + 1;
            }
        }
        proof {
            assert(x == x1 + sx * a && y == y1 + sy * b) by (nonlinear_arith)
                requires
                    x == x1 + sx * oa + (if e2 > -gdx { sx as int } else { 0int }),
                    a == oa + (if e2 > -gdx { 1int } else { 0int }),
                    y == y1 + sy * ob + (if e2 < gdy { sy as int } else { 0int }),
                    b == ob + (if e2 < gdy { 1int } else { 0int }),
            ;
            k = k + 1;
        }
    }
    pts
}

} // verus!
