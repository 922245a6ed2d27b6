//! End-to-end checks of the transform the planned passes compute: a
//! reference butterfly executor runs the decimation-in-time schedule the
//! shaders implement, reading its twiddle factors straight out of the
//! library's table by the mandated `base + k` indexing. If the table
//! layout were wrong in any slot the spectra below would be wrong too.

use std::f64::consts::PI;

use fft_core::twiddle::{FftRoots, TwiddleEntry};

type C = (f64, f64);

/// The root for stage span `base`, index `k`, resolved from the table by
/// the layout invariant: it sits at slot `base + k`.
fn twiddle(table: &FftRoots, base: usize, k: usize, inverse: bool) -> C {
    match table.roots[base + k] {
        TwiddleEntry::Root { k: slot_k, base: slot_base } => {
            assert_eq!(slot_k as usize, k);
            assert_eq!(slot_base as usize, base);
            let theta = -2.0 * PI * (slot_k as f64) / (slot_base as f64);
            let (s, c) = theta.sin_cos();
            if inverse {
                (c, -s)
            } else {
                (c, s)
            }
        }
        TwiddleEntry::Zero => panic!("slot {} holds no root", base + k),
    }
}

/// Iterative radix-2 decimation-in-time transform over one axis.
fn fft_1d(data: &mut [C], table: &FftRoots, inverse: bool) {
    let n = data.len();
    assert!(n.is_power_of_two());

    // Bit-reversal permutation.
    let mut j = 0usize;
    for i in 1..n {
        let mut bit = n >> 1;
        while j & bit != 0 {
            j ^= bit;
            bit >>= 1;
        }
        j |= bit;
        if i < j {
            data.swap(i, j);
        }
    }

    // Butterfly stages: spans 2, 4, ..., n.
    let mut len = 2usize;
    while len <= n {
        let half = len / 2;
        let mut start = 0usize;
        while start < n {
            for k in 0..half {
                let (wr, wi) = twiddle(table, len, k, inverse);
                let (ur, ui) = data[start + k];
                let (vr, vi) = data[start + k + half];
                let tr = wr * vr - wi * vi;
                let ti = wr * vi + wi * vr;
                data[start + k] = (ur + tr, ui + ti);
                data[start + k + half] = (ur - tr, ui - ti);
            }
            start += len;
        }
        len *= 2;
    }
}

/// Two-dimensional transform: rows first, then columns, exactly the
/// horizontal-then-vertical pass structure of the dispatch plan. The
/// inverse scales once, by `1 / (width * height)`.
fn fft_2d(grid: &mut Vec<Vec<C>>, table: &FftRoots, inverse: bool) {
    let height = grid.len();
    let width = grid[0].len();
    for row in grid.iter_mut() {
        fft_1d(row, table, inverse);
    }
    for x in 0..width {
        let mut column: Vec<C> = (0..height).map(|y| grid[y][x]).collect();
        fft_1d(&mut column, table, inverse);
        for y in 0..height {
            grid[y][x] = column[y];
        }
    }
    if inverse {
        let scale = 1.0 / ((width * height) as f64);
        for row in grid.iter_mut() {
            for v in row.iter_mut() {
                *v = (v.0 * scale, v.1 * scale);
            }
        }
    }
}

fn zero_grid(side: usize) -> Vec<Vec<C>> {
    vec![vec![(0.0, 0.0); side]; side]
}

/// A 256×256 all-zero input transforms to an all-zero spectrum, exactly.
#[test]
fn zero_input_yields_zero_spectrum() {
    let table = FftRoots::build(13, false);
    let mut grid = zero_grid(256);
    fft_2d(&mut grid, &table, false);
    for row in &grid {
        for &(re, im) in row {
            assert_eq!(re, 0.0);
            assert_eq!(im, 0.0);
        }
    }
}

/// A 256×256 constant-one input concentrates everything in the DC bin:
/// `width * height` at frequency (0,0), zero elsewhere.
#[test]
fn constant_input_yields_single_dc_bin() {
    let table = FftRoots::build(13, false);
    let mut grid = zero_grid(256);
    for row in grid.iter_mut() {
        for v in row.iter_mut() {
            *v = (1.0, 0.0);
        }
    }
    fft_2d(&mut grid, &table, false);
    let tolerance = 1e-3;
    assert!((grid[0][0].0 - 65536.0).abs() < tolerance);
    assert!(grid[0][0].1.abs() < tolerance);
    for y in 0..256 {
        for x in 0..256 {
            if (y, x) != (0, 0) {
                let (re, im) = grid[y][x];
                assert!(re.abs() < tolerance, "bin ({y},{x}) re = {re}");
                assert!(im.abs() < tolerance, "bin ({y},{x}) im = {im}");
            }
        }
    }
}

/// Forward then inverse (with the inverse normalization) reproduces an
/// arbitrary 256×256 grid within tolerance.
#[test]
fn round_trip_restores_the_input() {
    let table = FftRoots::build(13, false);
    let side = 256usize;
    let mut grid = zero_grid(side);
    // A deterministic pseudo-random input in [-1, 1).
    let mut state: u64 = 0x2545_F491_4F6C_DD1D;
    for row in grid.iter_mut() {
        for v in row.iter_mut() {
            state = state.wrapping_mul(6364136223846793005).wrapping_add(1442695040888963407);
            let re = ((state >> 11) as f64) / ((1u64 << 53) as f64) * 2.0 - 1.0;
            state = state.wrapping_mul(6364136223846793005).wrapping_add(1442695040888963407);
            let im = ((state >> 11) as f64) / ((1u64 << 53) as f64) * 2.0 - 1.0;
            *v = (re, im);
        }
    }
    let original = grid.clone();
    fft_2d(&mut grid, &table, false);
    fft_2d(&mut grid, &table, true);
    let mut worst = 0.0f64;
    for y in 0..side {
        for x in 0..side {
            let dr = (grid[y][x].0 - original[y][x].0).abs();
            let di = (grid[y][x].1 - original[y][x].1).abs();
            worst = worst.max(dr).max(di);
        }
    }
    assert!(worst < 1e-3, "worst per-pixel error {worst}");
}

/// A small exact spot check: the forward transform of a length-4 impulse
/// line matches the analytic spectrum.
#[test]
fn small_line_matches_analytic_spectrum() {
    let table = FftRoots::build(13, false);
    // Input [1, 0, 0, 0]: every bin of the spectrum is 1.
    let mut impulse = vec![(1.0, 0.0), (0.0, 0.0), (0.0, 0.0), (0.0, 0.0)];
    fft_1d(&mut impulse, &table, false);
    for &(re, im) in &impulse {
        assert!((re - 1.0).abs() < 1e-12);
        assert!(im.abs() < 1e-12);
    }
    // Input [0, 1, 0, 1]: spectrum [2, 0, -2, 0].
    let mut alternating = vec![(0.0, 0.0), (1.0, 0.0), (0.0, 0.0), (1.0, 0.0)];
    fft_1d(&mut alternating, &table, false);
    let expected = [(2.0, 0.0), (0.0, 0.0), (-2.0, 0.0), (0.0, 0.0)];
    for (got, want) in alternating.iter().zip(expected.iter()) {
        assert!((got.0 - want.0).abs() < 1e-12);
        assert!((got.1 - want.1).abs() < 1e-12);
    }
}
