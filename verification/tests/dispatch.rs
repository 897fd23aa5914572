use pbrt::dispatch::{columns, from_byte, jittered, partition, quantise, Film};
use pbrt::math::{Scalar, Vector};

fn s(x: f64) -> Scalar {
    Scalar::from_bits(x.to_bits())
}

fn f(x: Scalar) -> f64 {
    f64::from_bits(x.to_bits())
}

fn grey(x: f64) -> Vector {
    Vector::new(s(x), s(x), s(x))
}

#[test]
fn the_columns_are_dealt_out_in_equal_ranges() {
    assert_eq!(columns(100, 4, 0), (0, 25));
    assert_eq!(columns(100, 4, 1), (25, 50));
    assert_eq!(columns(100, 4, 3), (75, 100));
    assert_eq!(columns(100, 1, 0), (0, 100));
    assert_eq!(partition(100, 4), vec![(0, 25), (25, 50), (50, 75), (75, 100)]);
}

#[test]
fn columns_that_are_left_over_go_to_the_last_worker() {
    assert_eq!(partition(3, 2), vec![(0, 1), (1, 3)]);
    assert_eq!(partition(100, 3), vec![(0, 33), (33, 66), (66, 100)]);
    assert_eq!(partition(2, 3), vec![(0, 0), (0, 0), (0, 2)]);
    assert_eq!(partition(0, 2), vec![(0, 0), (0, 0)]);
    assert_eq!(columns(3, 2, 1), (1, 3));
    assert_eq!(columns(u32::MAX, 2, 1), (u32::MAX / 2, u32::MAX));
}

#[test]
fn every_column_has_one_worker() {
    for width in 0..40u32 {
        for nthreads in 1..12u32 {
            let ranges = partition(width, nthreads);
            for x in 0..width {
                let owners = ranges.iter().filter(|r| r.0 <= x && x < r.1).count();
                assert_eq!(owners, 1, "column {} of {} among {}", x, width, nthreads);
            }
            assert!(ranges.iter().all(|r| r.0 <= r.1 && r.1 <= width));
        }
    }
}

#[test]
fn an_image_that_the_workers_do_not_divide_is_rendered_whole() {
    // Three columns, one row, two workers, every pixel black.
    let mut film = Film::new(3, 1).unwrap();
    for (xstart, xend) in partition(3, 2) {
        for x in xstart..xend {
            assert!(film.insert(x, 0, grey(0.0)));
        }
    }
    let bytes: Vec<u8> = film
        .colours()
        .unwrap()
        .into_iter()
        .flat_map(|c| vec![quantise(c.x), quantise(c.y), quantise(c.z)])
        .collect();
    assert_eq!(bytes, vec![0u8; 9]);
}

#[test]
fn the_ranges_follow_each_other_without_overlap() {
    for &(width, nthreads) in [(640u32, 8u32), (1920, 7), (u32::MAX, 3), (5, 5), (17, 16)].iter() {
        let ranges = partition(width, nthreads);
        assert_eq!(ranges.len(), nthreads as usize);
        assert_eq!(ranges[0].0, 0);
        for i in 0..ranges.len() {
            assert_eq!(ranges[i], columns(width, nthreads, i as u32));
            if i + 1 < ranges.len() {
                assert_eq!(ranges[i].1 - ranges[i].0, width / nthreads);
                assert_eq!(ranges[i].1, ranges[i + 1].0);
            }
        }
        let last = ranges[ranges.len() - 1];
        assert_eq!(last.1, width);
        assert_eq!(last.1 - last.0, width / nthreads + width % nthreads);
    }
}

#[test]
fn samples_are_jittered_unless_there_is_one() {
    assert!(!jittered(1));
    assert!(jittered(2));
    assert!(jittered(3));
    assert!(jittered(0));
}

#[test]
fn a_film_gathers_pixels_in_any_order() {
    let mut film = Film::new(3, 2).unwrap();
    assert_eq!((film.width(), film.height()), (3, 2));
    assert!(film.get(0, 0).is_none());
    assert!(film.colours().is_none());
    let order = [(2, 1), (0, 0), (1, 1), (2, 0), (0, 1), (1, 0)];
    for (k, &(x, y)) in order.iter().enumerate() {
        assert!(film.colours().is_none(), "pixel {} is still missing", k);
        assert!(film.insert(x, y, grey((y * 3 + x) as f64)));
    }
    let image: Vec<f64> = film.colours().unwrap().into_iter().map(|c| f(c.x)).collect();
    assert_eq!(image, vec![0.0, 1.0, 2.0, 3.0, 4.0, 5.0]);
    assert_eq!(f(film.get(1, 1).unwrap().y), 4.0);
}

#[test]
fn a_pixel_that_arrives_again_replaces_the_first() {
    let mut film = Film::new(1, 1).unwrap();
    assert!(film.insert(0, 0, grey(0.25)));
    assert!(film.insert(0, 0, grey(0.75)));
    assert_eq!(f(film.get(0, 0).unwrap().z), 0.75);
    assert_eq!(film.colours().unwrap().len(), 1);
}

#[test]
fn a_pixel_outside_the_image_is_dropped() {
    let mut film = Film::new(2, 2).unwrap();
    assert!(!film.insert(2, 0, grey(1.0)));
    assert!(!film.insert(0, 2, grey(1.0)));
    assert!(film.get(2, 0).is_none());
    assert!(film.get(0, 0).is_none());
    assert!(film.colours().is_none());
}

#[test]
fn an_image_without_pixels_is_complete() {
    let film = Film::new(0, 5).unwrap();
    assert_eq!(film.colours().unwrap().len(), 0);
    let film = Film::new(5, 0).unwrap();
    assert_eq!(film.colours().unwrap().len(), 0);
}

#[test]
fn a_byte_stands_for_a_whole_number() {
    for k in 0..=255u8 {
        assert_eq!(from_byte(k).to_bits(), (k as f64).to_bits());
    }
}

#[test]
fn a_channel_is_cut_off_and_rounded_towards_zero() {
    assert_eq!(quantise(s(0.0)), 0);
    assert_eq!(quantise(s(-0.0)), 0);
    assert_eq!(quantise(s(-3.5)), 0);
    assert_eq!(quantise(s(f64::NEG_INFINITY)), 0);
    assert_eq!(quantise(s(f64::NAN)), 0);
    assert_eq!(quantise(s(0.999)), 0);
    assert_eq!(quantise(s(1.0)), 1);
    assert_eq!(quantise(s(127.5)), 127);
    assert_eq!(quantise(s(254.999999)), 254);
    assert_eq!(quantise(s(255.0)), 255);
    assert_eq!(quantise(s(255.5)), 255);
    assert_eq!(quantise(s(1e300)), 255);
    assert_eq!(quantise(s(f64::INFINITY)), 255);
    // Half of full brightness.
    assert_eq!(quantise(s(0.5 * 255.0)), 127);
}

#[test]
fn quantising_agrees_with_cutting_off_and_casting() {
    let mut x = -2.0f64;
    while x < 260.0 {
        let wanted = if x < 0.0 { 0.0 } else if x > 255.0 { 255.0 } else { x } as u8;
        assert_eq!(quantise(s(x)), wanted, "{}", x);
        x += 0.0625 + x.abs() * 1e-3;
    }
    for k in 1..=255u32 {
        let exact = k as f64;
        let below = f64::from_bits(exact.to_bits() - 1);
        let above = f64::from_bits(exact.to_bits() + 1);
        assert_eq!(quantise(s(exact)) as u32, k);
        assert_eq!(quantise(s(below)) as u32, k - 1);
        assert_eq!(quantise(s(above)) as u32, k);
    }
}
