use vstd::prelude::*;

verus! {

/// Host-side cursor state for the sampled reuse check. `texture_size` is the size of
/// the cursor texture built from `last_data`, or `None` when there is no texture.
#[derive(Debug, Clone)]
pub struct CursorState {
    pub texture_size: Option<(i32, i32)>,
    pub x: i32,
    pub y: i32,
    pub visible: bool,
    pub hot_x: u32,
    pub hot_y: u32,
    pub last_data: Vec<u8>,
}

/// Byte offsets of the nine pixels the sampled check compares in a `w` x `h` image of
/// `bpp` bytes per pixel, stored without row padding: the four corners, the centre, and
/// the middles of the four edges.
pub open spec fn sample_points(w: int, h: int, bpp: int) -> Seq<int> {
    let stride = w * bpp;
    seq![
        0,
        (w - 1) * bpp,
        (h - 1) * stride,
        (h - 1) * stride + (w - 1) * bpp,
        (h / 2) * stride + (w / 2) * bpp,
        (w / 2) * bpp,
        (h - 1) * stride + (w / 2) * bpp,
        (h / 2) * stride,
        (h / 2) * stride + (w - 1) * bpp,
    ]
}

/// Whether the pixel at byte offset `p` is the same in `a` and `b`; a pixel that does not
/// fit in `b` is not compared.
pub open spec fn sample_matches(a: Seq<u8>, b: Seq<u8>, p: int, bpp: int) -> bool {
    p + bpp <= b.len() ==> a.subrange(p, p + bpp) == b.subrange(p, p + bpp)
}

/// The sampled reuse check: same hotspot, byte count and texture size, then for images of
/// at least 3 x 3 pixels the nine sample pixels agree; smaller images are compared whole.
pub open spec fn spec_looks_same_sampled(
    c: CursorState,
    width: u32,
    height: u32,
    hot_x: u32,
    hot_y: u32,
    data: Seq<u8>,
    bpp: usize,
) -> bool {
    &&& bpp != 0
    &&& c.hot_x == hot_x
    &&& c.hot_y == hot_y
    &&& c.last_data@.len() == data.len()
    &&& c.texture_size == Some((width as i32, height as i32))
    &&& if width < 3 || height < 3 {
        c.last_data@ == data
    } else {
        forall|k: int|
            0 <= k < 9 ==> #[trigger] sample_matches(
                c.last_data@,
                data,
                sample_points(width as int, height as int, bpp as int)[k],
                bpp as int,
            )
    }
}

/// Whether `a[p..p + n]` equals `b[p..p + n]`, both ranges lying in the slices.
fn range_equal(a: &[u8], b: &[u8], p: usize, n: usize) -> (r: bool)
    requires
        p + n <= a@.len(),
        p + n <= b@.len(),
    ensures
        r == (a@.subrange(p as int, p + n) == b@.subrange(p as int, p + n)),
{
    let alen = a.len();
    let mut i: usize = 0;
    while i < n
        invariant
            0 <= i <= n,
            alen == a@.len(),
            p + n <= a@.len(),
            p + n <= b@.len(),
            forall|k: int| 0 <= k < i ==> #[trigger] a@[p + k] == b@[p + k],
        decreases n - i,
    {
        if a[p + i] != b[p + i] {
            assert(a@.subrange(p as int, p + n)[i as int] != b@.subrange(p as int, p + n)[i as int]);
            return false;
        }
        i = i + 1;
    }
    assert forall|k: int| 0 <= k < n implies #[trigger] a@.subrange(p as int, p + n)[k] == b@.subrange(p as int, p + n)[k] by {
        assert(a@[p + k] == b@[p + k]);
    }
    assert(a@.subrange(p as int, p + n) =~= b@.subrange(p as int, p + n));
    true
}

/// Whether two byte strings are equal.
fn all_equal(a: &[u8], b: &[u8]) -> (r: bool)
    ensures
        r == (a@ == b@),
{
    if a.len() != b.len() {
        return false;
    }
    let r = range_equal(a, b, 0, a.len());
    assert(a@.subrange(0, a@.len() as int) =~= a@);
    assert(b@.subrange(0, b@.len() as int) =~= b@);
    r
}

impl CursorState {
    /// Fast-path check for cursor image reuse.
    ///
    /// Compares metadata first, then a few key sample pixels, to avoid rebuilding the
    /// texture when the cursor payload is effectively unchanged.
    pub fn looks_same(&self, width: u32, height: u32, hot_x: u32, hot_y: u32, new_data: &[u8], bytes_per_pixel: usize) -> (r: bool)
        requires
            width > 0,
            height > 0,
            width * height * bytes_per_pixel <= usize::MAX,
        ensures
            r == spec_looks_same_sampled(*self, width, height, hot_x, hot_y, new_data@, bytes_per_pixel),
    {
        let bpp = bytes_per_pixel;
        if bpp == 0 {
            return false;
        }
        let size_differs = match self.texture_size {
            None => true,
            Some((tw, th)) => tw != #[verifier::truncate] (width as i32) || th != #[verifier::truncate] (height as i32),
        };
        if self.hot_x != hot_x || self.hot_y != hot_y || self.last_data.len() != new_data.len() || size_differs {
            return false;
        }
        if width < 3 || height < 3 {
            return all_equal(self.last_data.as_slice(), new_data);
        }
        let len = new_data.len();
        let w = width as usize;
        let h = height as usize;
        let b = bpp;
        proof {
            assert(w * b <= w * h * b && (h - 1) * (w * b) + (w - 1) * b + b <= w * h * b && (h / 2) * (w * b) + (w
                - 1) * b + b <= w * h * b && (w - 1) * b <= w * b && (w / 2) * b <= (w - 1) * b) by (nonlinear_arith)
                requires
                    w >= 3,
                    h >= 3,
                    b >= 1,
            ;
            assert((h / 2) * (w * b) <= (h - 1) * (w * b)) by (nonlinear_arith)
                requires
                    w >= 3,
                    h >= 3,
                    b >= 1,
            ;
        }
        let stride = w * b;
        let points: [usize; 9] = [
            0,
            (w - 1) * b,
            (h - 1) * stride,
            (h - 1) * stride + (w - 1) * b,
            (h / 2) * stride + (w / 2) * b,
            (w / 2) * b,
            (h - 1) * stride + (w / 2) * b,
            (h / 2) * stride,
            (h / 2) * stride + (w - 1) * b,
        ];
        let ghost spec_points = sample_points(width as int, height as int, bpp as int);
        proof {
            assert forall|j: int| 0 <= j < 9 implies points@[j] == spec_points[j] && points@[j] + b <= w * h * b by {
            }
        }
        let mut k: usize = 0;
        while k < 9
            invariant
                0 <= k <= 9,
                points@.len() == 9,
                forall|j: int| 0 <= j < 9 ==> points@[j] == spec_points[j] && points@[j] + b <= w * h * b,
                w * h * b <= usize::MAX,
                spec_points == sample_points(width as int, height as int, bpp as int),
                len == new_data@.len(),
                b == bpp,
                bpp == bytes_per_pixel,
                bpp != 0,
                width >= 3,
                height >= 3,
                self.hot_x == hot_x,
                self.hot_y == hot_y,
                self.texture_size == Some((#[verifier::truncate] (width as i32), #[verifier::truncate] (height as i32))),
                self.last_data@.len() == new_data@.len(),
                forall|j: int|
                    0 <= j < k ==> #[trigger] sample_matches(self.last_data@, new_data@, spec_points[j], bpp as int),
            decreases 9 - k,
        {
            let p = points[k];
            if p + b <= len {
                if !range_equal(self.last_data.as_slice(), new_data, p, bpp) {
                    assert(!sample_matches(
                        self.last_data@,
                        new_data@,
                        sample_points(width as int, height as int, bytes_per_pixel as int)[k as int],
                        bytes_per_pixel as int,
                    ));
                    return false;
                }
            }
            k = k + 1;
        }
        true
    }
}

} // verus!
