use cg_util::manifold::from_fn;
use cg_util::manifold::Manifold2d;

#[test]
fn from_fn_reports_its_size_and_samples() {
    let m = from_fn(4, 3, |x: usize, y: usize| (x * 10 + y) as i64);
    assert_eq!(m.width(), 4);
    assert_eq!(m.height(), 3);
    assert_eq!(m.get(0, 0), 0);
    assert_eq!(m.get(3, 2), 32);
    assert_eq!(m.get(2, 1), 21);
}

#[test]
fn from_fn_recomputes_each_sample() {
    let m = from_fn(2, 2, |x: usize, y: usize| vec![x, y]);
    assert_eq!(m.get(1, 0), vec![1, 0]);
    assert_eq!(m.get(1, 0), vec![1, 0]);
}

#[test]
fn by_ref_forwards_every_sample() {
    let m = from_fn(5, 4, |x: usize, y: usize| (x as i64 - 2) * (y as i64 + 7));
    let r = m.by_ref();
    assert_eq!(r.width(), m.width());
    assert_eq!(r.height(), m.height());
    for x in 0..5 {
        for y in 0..4 {
            assert_eq!(r.get(x, y), m.get(x, y));
        }
    }
}

#[test]
fn by_ref_leaves_the_grid_usable() {
    let m = from_fn(2, 3, |x: usize, y: usize| x + y);
    let doubled = m.by_ref().transformed(|c: usize| 2 * c);
    assert_eq!(doubled.get(1, 2), 6);
    assert_eq!(m.get(1, 2), 3);
}

#[test]
fn transformed_keeps_the_size_and_maps_samples() {
    let m = from_fn(3, 2, |x: usize, y: usize| (x, y));
    let t = m.transformed(|(x, y): (usize, usize)| x as i64 - y as i64);
    assert_eq!(t.width(), 3);
    assert_eq!(t.height(), 2);
    assert_eq!(t.get(0, 1), -1);
    assert_eq!(t.get(2, 0), 2);
}

#[test]
fn transformed_twice_equals_composed_transform() {
    let f = |c: i64| c * 3 + 1;
    let g = |c: i64| (c - 5) * (c - 5);
    let twice = from_fn(6, 5, |x: usize, y: usize| x as i64 - y as i64)
        .transformed(f)
        .transformed(g);
    let once = from_fn(6, 5, |x: usize, y: usize| x as i64 - y as i64).transformed(move |c: i64| g(f(c)));
    assert_eq!(twice.width(), once.width());
    assert_eq!(twice.height(), once.height());
    for x in 0..6 {
        for y in 0..5 {
            assert_eq!(twice.get(x, y), once.get(x, y));
        }
    }
    assert_eq!(twice.get(4, 1), 25);
}
