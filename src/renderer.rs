use vstd::prelude::*;

use crate::image::Image;
use crate::pixel::Pixel;

verus! {

/// How much work goes into each pixel.
pub struct RenderOption {
    /// Camera rays traced and averaged per pixel.
    pub samples_per_pixel: i32,
    /// Bounces a ray may take before it contributes black.
    pub max_depth: usize,
}

/// The camera-space row for screen row `y`: screen rows count down from the
/// top of the image, camera rows count up from the bottom of the viewport.
pub open spec fn camera_row(height: nat, y: nat) -> int {
    height - 1 - y
}

/// Fills every pixel of `image`: the pixel in column `x` of screen row `y` is
/// what `shade_pixel` gives for column `x` of the camera row that `y` faces.
/// Rows are done top to bottom, and left to right within a row.
pub fn render<F: Fn(usize, usize) -> Pixel>(image: &mut Image, shade_pixel: F)
    requires
        old(image).wf(),
        forall|x: usize, v: usize|
            x < old(image).width && v < old(image).height ==> #[trigger] shade_pixel.requires((x, v)),
    ensures
        final(image).wf(),
        final(image).width == old(image).width,
        final(image).height == old(image).height,
        final(image).filename == old(image).filename,
        forall|y: int, x: int|
            0 <= y < final(image).height && 0 <= x < final(image).width ==> shade_pixel.ensures(
                (x as usize, camera_row(final(image).height as nat, y as nat) as usize),
                #[trigger] final(image).rows()[y][x],
            ),
{
    let width: usize = image.width;
    let height: usize = image.height;
    let mut y: usize = 0;
    while y < height
        invariant
            image.wf(),
            image.width == width,
            image.height == height,
            image.filename == old(image).filename,
            y <= height,
            forall|x: usize, v: usize| x < width && v < height ==> #[trigger] shade_pixel.requires((x, v)),
            forall|k: int, x: int|
                0 <= k < y && 0 <= x < width ==> shade_pixel.ensures(
                    (x as usize, camera_row(height as nat, k as nat) as usize),
                    #[trigger] image.rows()[k][x],
                ),
        decreases height - y,
    {
        let v: usize = height - 1 - y;
        let mut x: usize = 0;
        while x < width
            invariant
                image.wf(),
                image.width == width,
                image.height == height,
                image.filename == old(image).filename,
                y < height,
                v == camera_row(height as nat, y as nat),
                x <= width,
                forall|x: usize, v: usize|
                    x < width && v < height ==> #[trigger] shade_pixel.requires((x, v)),
                forall|k: int, c: int|
                    0 <= k < y && 0 <= c < width ==> shade_pixel.ensures(
                        (c as usize, camera_row(height as nat, k as nat) as usize),
                        #[trigger] image.rows()[k][c],
                    ),
                forall|c: int|
                    0 <= c < x ==> shade_pixel.ensures(
                        (c as usize, v),
                        #[trigger] image.rows()[y as int][c],
                    ),
            decreases width - x,
        {
            let pixel: Pixel = shade_pixel(x, v);
            image.set(x, y, pixel);
            x = x + 1;
        }
        y = y + 1;
    }
}

/// What a ray meets when it is traced into a scene.
pub enum Bounce<C, R> {
    /// Nothing is hit: the ray sees the background, of this color.
    Miss(C),
    /// A surface is hit and absorbs the ray.
    Absorbed,
    /// A surface is hit and scatters the ray: the attenuation and the outgoing ray.
    Scattered(C, R),
}

/// Whether `c` is a color that `ray_color` may give for `ray` with `depth`
/// bounces left: black when no bounce is left; otherwise, for some outcome of
/// tracing the ray, the background it sees, black if it is absorbed, or the
/// attenuation applied to a color that the scattered ray may give with one bounce less.
pub open spec fn is_ray_color<C, R, F: Fn(R) -> Bounce<C, R>, M: Fn(C, C) -> C>(
    trace: F,
    attenuate: M,
    black: C,
    ray: R,
    depth: nat,
    c: C,
) -> bool
    decreases depth,
{
    if depth == 0 {
        c == black
    } else {
        exists|b: Bounce<C, R>|
            #[trigger] trace.ensures((ray,), b) && match b {
                Bounce::Miss(background) => c == background,
                Bounce::Absorbed => c == black,
                Bounce::Scattered(attenuation, next) => exists|rest: C|
                    is_ray_color(trace, attenuate, black, next, (depth - 1) as nat, rest)
                        && #[trigger] attenuate.ensures((attenuation, rest), c),
            }
    }
}

/// The color seen along `ray`, following at most `depth` bounces: each bounce
/// multiplies the light by the attenuation of the surface, a ray that is out of
/// bounces or absorbed contributes `black`, and a ray that escapes sees the
/// background.
pub fn ray_color<C: Copy, R: Copy, F: Fn(R) -> Bounce<C, R>, M: Fn(C, C) -> C>(
    ray: R,
    depth: usize,
    trace: &F,
    attenuate: &M,
    black: C,
) -> (c: C)
    requires
        forall|r: R| #[trigger] trace.requires((r,)),
        forall|a: C, b: C| #[trigger] attenuate.requires((a, b)),
    ensures
        is_ray_color(*trace, *attenuate, black, ray, depth as nat, c),
        depth == 0 ==> c == black,
    decreases depth,
{
    if depth == 0 {
        return black;
    }
    let bounce = trace(ray);
    match bounce {
        Bounce::Miss(background) => {
            assert(trace.ensures((ray,), bounce));
            background
        },
        Bounce::Absorbed => {
            assert(trace.ensures((ray,), bounce));
            black
        },
        Bounce::Scattered(attenuation, next) => {
            let rest: C = ray_color(next, depth - 1, trace, attenuate, black);
            let c: C = attenuate(attenuation, rest);
            assert(trace.ensures((ray,), bounce));
            assert(is_ray_color(*trace, *attenuate, black, next, (depth - 1) as nat, rest));
            c
        },
    }
}

/// With no bounce left, the color is black, whatever the scene.
pub proof fn lemma_no_depth_is_black<C, R, F: Fn(R) -> Bounce<C, R>, M: Fn(C, C) -> C>(
    trace: F,
    attenuate: M,
    black: C,
    ray: R,
    c: C,
)
    requires
        is_ray_color(trace, attenuate, black, ray, 0, c),
    ensures
        c == black,
{
}

} // verus!
