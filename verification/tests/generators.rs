//! Tests of the frame generators: grid shape and placement, repeatability,
//! the parallel merge, and the sequential and parallel pipelines producing
//! identical grids through a real worker pool and channel.

use std::sync::mpsc::channel;

use angular_units::Deg;
use mandelbrot::PixelMessage;
use mandelbrot::PixelResult;
use mandelbrot::Rgba;
use mandelbrot::StepOutcome;
use mandelbrot::ZoomLocation;
use mandelbrot::colorize;
use mandelbrot::colorize_frame;
use mandelbrot::escape_step;
use mandelbrot::generate_frame;
use mandelbrot::generate_rgb_frame_parallel;
use mandelbrot::plan_parallel;
use num::complex::Complex64;
use prisma::Color;
use prisma::FromColor;
use prisma::Hsl;
use prisma::Rgb;
use threadpool::ThreadPool;

fn view(re: f64, im: f64, zoom: f64, iterations: u64) -> ZoomLocation {
    ZoomLocation {
        re_bits: re.to_bits(),
        im_bits: im.to_bits(),
        zoom_bits: zoom.to_bits(),
        iterations,
    }
}

fn evaluate_pixel(re: f64, im: f64, budget: u64) -> PixelResult {
    let c = Complex64::new(re, im);
    let mut z = c.clone();
    let mut done: u64 = 0;
    loop {
        z = z.powu(2) + c;
        let escaped = z.norm() > 2.0;
        match escape_step(done, budget, escaped) {
            StepOutcome::Done { result } => return result,
            StepOutcome::Continue { done: next } => done = next,
        }
    }
}

/// Maps a pixel offset to its coordinate and evaluates it: the row offset
/// moves along the real axis, the column offset along the imaginary axis.
fn evaluate_offset(zl: ZoomLocation, row: i64, col: i64) -> PixelResult {
    let zoom = f64::from_bits(zl.zoom_bits);
    let re = f64::from_bits(zl.re_bits) + row as f64 / zoom;
    let im = f64::from_bits(zl.im_bits) + col as f64 / zoom;
    evaluate_pixel(re, im, zl.iterations)
}

fn to_rgb_bits(numerator: u64, denominator: u64) -> (u32, u32, u32) {
    let degrees = (numerator as f64 / denominator as f64) as f32;
    let hsl = Hsl::new(Deg(degrees), 0.8f32, 0.8f32);
    let (r, g, b) = Rgb::from_color(&hsl).to_tuple();
    (r.to_bits(), g.to_bits(), b.to_bits())
}

#[test]
fn frame_shape_follows_the_half_extent_convention() {
    let zl = view(-0.5, 0.0, 50.0, 8);
    let eval = move |row: i64, col: i64| evaluate_offset(zl, row, col);

    let f = generate_frame(10, 6, &eval);
    assert_eq!(f.cells.len(), 10);
    for row in &f.cells {
        assert_eq!(row.len(), 6);
    }

    // odd dimensions are halved rounding down: 7 -> 3 -> 6 rows, 5 -> 2 -> 4
    let g = generate_frame(7, 5, &eval);
    assert_eq!(g.cells.len(), 6);
    for row in &g.cells {
        assert_eq!(row.len(), 4);
    }

    let empty = generate_frame(1, 1, &eval);
    assert_eq!(empty.cells.len(), 0);
}

#[test]
fn frame_entries_sit_at_their_offset_index() {
    // an evaluator that encodes its own offset, so that any misplacement or
    // axis swap in the assembly would show
    let encode = |row: i64, col: i64| PixelResult::EscapedAt {
        step: ((row + 16) * 100 + (col + 16)) as u64,
    };
    let f = generate_frame(8, 4, &encode);
    assert_eq!(f.cells.len(), 8);
    for i in 0..8i64 {
        for j in 0..4i64 {
            let expected = ((i - 4 + 16) * 100 + (j - 2 + 16)) as u64;
            assert_eq!(f.cells[i as usize][j as usize], PixelResult::EscapedAt { step: expected });
        }
    }
}

#[test]
fn generating_twice_yields_identical_grids() {
    let zl = view(-1.74999841099374081749002, -0.00000000000000165712469, 100.0, 256);
    let eval = move |row: i64, col: i64| evaluate_offset(zl, row, col);
    let first = generate_frame(20, 14, &eval);
    let second = generate_frame(20, 14, &eval);
    assert_eq!(first.cells, second.cells);
}

#[test]
fn plan_counts_one_task_per_row_and_one_message_per_pixel() {
    let plan = plan_parallel(10, 6);
    assert!(plan.workers >= 1);
    assert_eq!(plan.row_tasks, 10);
    assert_eq!(plan.expected_messages, 60);

    let odd = plan_parallel(7, 5);
    assert_eq!(odd.row_tasks, 6);
    assert_eq!(odd.expected_messages, 24);
}

#[test]
fn merge_rejects_a_tag_outside_the_grid() {
    let messages = vec![PixelMessage { row: 99, col: 0, color: None }];
    assert!(generate_rgb_frame_parallel(4, 4, &messages).is_none());
}

#[test]
fn merge_keeps_the_last_duplicate_and_leaves_unreported_pixels_absent() {
    let a = Rgba { r_bits: 1, g_bits: 2, b_bits: 3, a_bits: 1.0f32.to_bits() };
    let b = Rgba { r_bits: 7, g_bits: 8, b_bits: 9, a_bits: 1.0f32.to_bits() };
    let messages = vec![
        PixelMessage { row: 1, col: 1, color: Some(a) },
        PixelMessage { row: 1, col: 1, color: Some(b) },
        PixelMessage { row: 0, col: 3, color: Some(a) },
    ];
    let frame = generate_rgb_frame_parallel(4, 4, &messages).expect("tags are in range");
    assert_eq!(frame.pixels.len(), 4);
    assert_eq!(frame.pixels[1][1], Some(b));
    assert_eq!(frame.pixels[0][3], Some(a));
    assert_eq!(frame.pixels[0][0], None);
    assert_eq!(frame.pixels[3][3], None);
}

#[test]
fn parallel_pipeline_matches_the_sequential_pipeline() {
    let zl = view(-0.6, 0.1, 150.0, 128);
    let width: usize = 24;
    let height: usize = 16;

    // the sequential pipeline: generate the fraction grid, then color it
    let eval = move |row: i64, col: i64| evaluate_offset(zl, row, col);
    let frame = generate_frame(width, height, &eval);
    let sequential: Vec<Vec<Option<Rgba>>> = colorize_frame(&frame, zl.iterations, &to_rgb_bits);

    // the parallel pipeline: one task per row over a real pool, one message
    // per pixel through a real channel, exactly as many receives as planned
    let plan = plan_parallel(width, height);
    let pool = ThreadPool::new(plan.workers);
    let (tx, rx) = channel();
    let rows = (width / 2) as i64;
    let columns = (height / 2) as i64;
    for row in -rows..rows {
        let tx = tx.clone();
        pool.execute(move || {
            for col in -columns..columns {
                let result = evaluate_offset(zl, row, col);
                let color = colorize(&result, zl.iterations, &to_rgb_bits);
                let message = PixelMessage {
                    row: (row + rows) as usize,
                    col: (col + columns) as usize,
                    color,
                };
                tx.send(message).expect("the collector outlives the tasks");
            }
        });
    }
    let mut messages: Vec<PixelMessage> = Vec::new();
    for _ in 0..plan.expected_messages {
        messages.push(rx.recv().expect("every task sends one message per pixel"));
    }
    let parallel = generate_rgb_frame_parallel(width, height, &messages).expect(
        "row tasks tag only grid pixels",
    );

    assert_eq!(parallel.pixels, sequential);
}
