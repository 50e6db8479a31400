//! Grids of coordinates that are computed on demand.
use std::marker::PhantomData;
use vstd::prelude::*;

verus! {

/// `f` can be called on `(a,)`, and whatever it returns there is always the
/// same value.
pub open spec fn computes_at<A, R, F: Fn(A) -> R>(f: F, a: A) -> bool {
    &&& f.requires((a,))
    &&& forall|r1: R, r2: R| f.ensures((a,), r1) && f.ensures((a,), r2) ==> r1 == r2
}

/// The value that `f` gives on `(a,)`.
pub open spec fn value_at<A, R, F: Fn(A) -> R>(f: F, a: A) -> R {
    choose|r: R| f.ensures((a,), r)
}

/// `f` can be called on `(x, y)`, and whatever it returns there is always
/// the same value.
pub open spec fn computes_at2<R, F: Fn(usize, usize) -> R>(f: F, x: usize, y: usize) -> bool {
    &&& f.requires((x, y))
    &&& forall|r1: R, r2: R| f.ensures((x, y), r1) && f.ensures((x, y), r2) ==> r1 == r2
}

/// The value that `f` gives on `(x, y)`.
pub open spec fn value_at2<R, F: Fn(usize, usize) -> R>(f: F, x: usize, y: usize) -> R {
    choose|r: R| f.ensures((x, y), r)
}

/// A `width` by `height` grid of coordinates. A sample is computed each time
/// it is asked for, and the same position always gives the same coordinate.
pub trait Manifold2d<Coord>: Sized {
    /// Number of sample columns.
    spec fn spec_width(&self) -> usize;

    /// Number of sample rows.
    spec fn spec_height(&self) -> usize;

    /// The coordinate at column `x`, row `y`.
    spec fn spec_get(&self, x: int, y: int) -> Coord;

    /// Every in-range sample can be computed.
    spec fn wf(&self) -> bool;

    fn width(&self) -> (r: usize)
        ensures
            r == self.spec_width(),
    ;

    fn height(&self) -> (r: usize)
        ensures
            r == self.spec_height(),
    ;

    fn get(&self, x: usize, y: usize) -> (r: Coord)
        requires
            self.wf(),
            x < self.spec_width(),
            y < self.spec_height(),
        ensures
            r == self.spec_get(x as int, y as int),
    ;

    /// A view of this grid that borrows it.
    fn by_ref(&self) -> (r: ByRef2d<'_, Self>)
        ensures
            r.source() == *self,
    {
        ByRef2d { orig_manifold: self }
    }

    /// This grid with `transform` applied to each sample as it is taken. It
    /// can be sampled where `transform` computes a value on each sample of
    /// this grid (see `lemma_transformed_samples`).
    fn transformed<T, F: Fn(Coord) -> T>(self, transform: F) -> (r: Transformed<Self, Coord, F>)
        ensures
            r.source() == self,
            r.mapping() == transform,
    {
        Transformed { orig_manifold: self, transform, coord: PhantomData }
    }
}

/// A grid whose samples are the values of a function of the position.
pub struct FromFn<F> {
    width: usize,
    height: usize,
    function: F,
}

impl<F> FromFn<F> {
    /// The function that computes the samples.
    pub closed spec fn function(&self) -> F {
        self.function
    }
}

impl<T, F: Fn(usize, usize) -> T> Manifold2d<T> for FromFn<F> {
    closed spec fn spec_width(&self) -> usize {
        self.width
    }

    closed spec fn spec_height(&self) -> usize {
        self.height
    }

    closed spec fn spec_get(&self, x: int, y: int) -> T {
        value_at2(self.function, x as usize, y as usize)
    }

    closed spec fn wf(&self) -> bool {
        forall|x: usize, y: usize|
            x < self.width && y < self.height ==> #[trigger] computes_at2(self.function, x, y)
    }

    fn width(&self) -> (r: usize) {
        self.width
    }

    fn height(&self) -> (r: usize) {
        self.height
    }

    fn get(&self, x: usize, y: usize) -> (r: T)
        ensures
            self.function().ensures((x, y), r),
    {
        assert(computes_at2(self.function, x, y));
        assert(x as int as usize == x);
        (self.function)(x, y)
    }
}

/// A `width` by `height` grid whose sample at `(x, y)` is `function(x, y)`.
pub fn from_fn<T, F: Fn(usize, usize) -> T>(width: usize, height: usize, function: F) -> (r: FromFn<F>)
    requires
        forall|x: usize, y: usize| x < width && y < height ==> #[trigger] computes_at2(function, x, y),
    ensures
        r.wf(),
        r.spec_width() == width,
        r.spec_height() == height,
        r.function() == function,
        forall|x: int, y: int| #[trigger] r.spec_get(x, y) == value_at2(function, x as usize, y as usize),
{
    FromFn { width, height, function }
}

/// A borrowed grid, seen as a grid of its own.
pub struct ByRef2d<'a, M> {
    orig_manifold: &'a M,
}

impl<'a, M> ByRef2d<'a, M> {
    /// The grid that is borrowed.
    pub closed spec fn source(&self) -> M {
        *self.orig_manifold
    }
}

impl<'a, C, M: Manifold2d<C>> Manifold2d<C> for ByRef2d<'a, M> {
    closed spec fn spec_width(&self) -> usize {
        self.orig_manifold.spec_width()
    }

    closed spec fn spec_height(&self) -> usize {
        self.orig_manifold.spec_height()
    }

    closed spec fn spec_get(&self, x: int, y: int) -> C {
        self.orig_manifold.spec_get(x, y)
    }

    closed spec fn wf(&self) -> bool {
        self.orig_manifold.wf()
    }

    fn width(&self) -> (r: usize) {
        self.orig_manifold.width()
    }

    fn height(&self) -> (r: usize) {
        self.orig_manifold.height()
    }

    fn get(&self, x: usize, y: usize) -> (r: C) {
        self.orig_manifold.get(x, y)
    }
}

/// A borrowed grid has the size and the samples of the grid it borrows, and
/// can be sampled exactly where that grid can.
pub proof fn lemma_by_ref_forwards<'a, C, M: Manifold2d<C>>(r: ByRef2d<'a, M>)
    ensures
        r.wf() == r.source().wf(),
        r.spec_width() == r.source().spec_width(),
        r.spec_height() == r.source().spec_height(),
        forall|x: int, y: int| #[trigger] r.spec_get(x, y) == r.source().spec_get(x, y),
{
}

/// A grid whose samples are those of another grid, mapped by a function
/// each time they are taken.
pub struct Transformed<M, C, F> {
    orig_manifold: M,
    transform: F,
    coord: PhantomData<C>,
}

impl<M, C, F> Transformed<M, C, F> {
    /// The grid whose samples are mapped.
    pub closed spec fn source(&self) -> M {
        self.orig_manifold
    }

    /// The function applied to each sample.
    pub closed spec fn mapping(&self) -> F {
        self.transform
    }
}

impl<C, T, M: Manifold2d<C>, F: Fn(C) -> T> Manifold2d<T> for Transformed<M, C, F> {
    closed spec fn spec_width(&self) -> usize {
        self.orig_manifold.spec_width()
    }

    closed spec fn spec_height(&self) -> usize {
        self.orig_manifold.spec_height()
    }

    closed spec fn spec_get(&self, x: int, y: int) -> T {
        value_at(self.transform, self.orig_manifold.spec_get(x, y))
    }

    closed spec fn wf(&self) -> bool {
        &&& self.orig_manifold.wf()
        &&& forall|x: int, y: int|
            0 <= x < self.orig_manifold.spec_width() && 0 <= y < self.orig_manifold.spec_height()
                ==> computes_at(self.transform, #[trigger] self.orig_manifold.spec_get(x, y))
    }

    fn width(&self) -> (r: usize) {
        self.orig_manifold.width()
    }

    fn height(&self) -> (r: usize) {
        self.orig_manifold.height()
    }

    fn get(&self, x: usize, y: usize) -> (r: T)
        ensures
            self.mapping().ensures((self.source().spec_get(x as int, y as int),), r),
    {
        let c = self.orig_manifold.get(x, y);
        assert(computes_at(self.transform, self.orig_manifold.spec_get(x as int, y as int)));
        (self.transform)(c)
    }
}

/// A mapped grid has the size of its source, and its sample at `(x, y)` is
/// the mapping's value on the source's sample there. It can be sampled
/// wherever its source can and the mapping computes a value on each sample.
pub proof fn lemma_transformed_samples<C, T, M: Manifold2d<C>, F: Fn(C) -> T>(t: Transformed<M, C, F>)
    ensures
        t.spec_width() == t.source().spec_width(),
        t.spec_height() == t.source().spec_height(),
        forall|x: int, y: int| #[trigger]
            t.spec_get(x, y) == value_at(t.mapping(), t.source().spec_get(x, y)),
        t.wf() <==> (t.source().wf() && forall|x: int, y: int|
            0 <= x < t.source().spec_width() && 0 <= y < t.source().spec_height() ==> computes_at(
                t.mapping(),
                #[trigger] t.source().spec_get(x, y),
            )),
{
}

/// Whatever `g` returns on a value that `f` returns on `a`, `h` may return
/// on `a`.
pub open spec fn is_composition<A, B, C, F: Fn(A) -> B, G: Fn(B) -> C, H: Fn(A) -> C>(
    h: H,
    f: F,
    g: G,
) -> bool {
    forall|a: A, b: B, c: C|
        #[trigger] f.ensures((a,), b) && #[trigger] g.ensures((b,), c) ==> h.ensures((a,), c)
}

/// Mapping a grid by `f` and then by `g` samples as mapping it once by the
/// composition of the two: where `f` and then `g` give a value on a sample,
/// both grids give that value there.
pub proof fn lemma_transformed_composition<C, S, T, M: Manifold2d<C>, F: Fn(C) -> S, G: Fn(S) -> T, H: Fn(C) -> T>(
    twice: Transformed<Transformed<M, C, F>, S, G>,
    once: Transformed<M, C, H>,
)
    requires
        twice.wf(),
        once.wf(),
        once.source() == twice.source().source(),
        is_composition(once.mapping(), twice.source().mapping(), twice.mapping()),
    ensures
        twice.spec_width() == once.spec_width(),
        twice.spec_height() == once.spec_height(),
        forall|x: int, y: int, s: S, r: T|
            0 <= x < once.spec_width() && 0 <= y < once.spec_height() && #[trigger] twice.source().mapping().ensures(
                (once.source().spec_get(x, y),),
                s,
            ) && #[trigger] twice.mapping().ensures((s,), r) ==> twice.spec_get(x, y) == r
                && once.spec_get(x, y) == r,
{
    let m = once.source();
    let f = twice.source().mapping();
    let g = twice.mapping();
    let h = once.mapping();
    assert forall|x: int, y: int, s: S, r: T|
        0 <= x < m.spec_width() && 0 <= y < m.spec_height() && #[trigger] f.ensures((m.spec_get(x, y),), s)
            && #[trigger] g.ensures((s,), r) implies twice.spec_get(x, y) == r && once.spec_get(x, y)
        == r by {
        let c = m.spec_get(x, y);
        assert(computes_at(f, c));
        assert(value_at(f, c) == s);
        assert(twice.source().spec_get(x, y) == s);
        assert(computes_at(g, s));
        assert(value_at(g, s) == r);
        assert(h.ensures((c,), r));
        assert(computes_at(h, c));
        assert(value_at(h, c) == r);
    }
}

} // verus!
