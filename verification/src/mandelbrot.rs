use vstd::prelude::*;

verus! {

/// The name of the image file that the Mandelbrot task with id text
/// `task_id` writes.
pub fn mandelbrot_filename(task_id: &str) -> (name: String)
    ensures
        name@ == "mandelbrot_"@ + task_id@ + ".png"@,
{
    let mut name = String::from_str("mandelbrot_");
    name.append(task_id);
    name.append(".png");
    name
}

/// The grey level of a pixel whose orbit stayed bounded for `iteration` of
/// at most `max_iterations` steps: 255 for a pixel that never escaped,
/// proportionally darker for one that escaped sooner.
pub fn pixel_shade(iteration: u32, max_iterations: u32) -> (shade: u8)
    requires
        0 < max_iterations,
        iteration <= max_iterations,
        iteration * 255 <= u32::MAX,
    ensures
        shade as int == (iteration as int * 255) / (max_iterations as int),
{
    let scaled: u32 = iteration * 255;
    let level: u32 = scaled / max_iterations;
    assert(level <= 255) by (nonlinear_arith)
        requires
            level == scaled / max_iterations,
            scaled == iteration * 255,
            iteration <= max_iterations,
            0 < max_iterations,
    ;
    level as u8
}

} // verus!
