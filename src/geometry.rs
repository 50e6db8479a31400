//! Vertex lists ready for drawing, and the tessellation of grids into them.
use crate::manifold::Manifold2d;
use vstd::prelude::*;

verus! {

/// How a vertex list is read as primitives.
#[derive(Clone, Copy, Debug, PartialEq, Eq, Structural)]
pub enum PrimitiveType {
    /// Each three vertices in turn are a triangle.
    TrianglesList,
    /// Each vertex is joined to the one before it.
    LineStrip,
    /// Each two vertices in turn are a line segment.
    LinesList,
}

/// A vertex: its position and, where it has one, its normal.
#[derive(Clone, Copy, Debug)]
pub struct VertexAttribute<C> {
    pub position: C,
    pub normal: Option<C>,
}

impl<C> VertexAttribute<C> {
    pub fn new(position: C, normal: Option<C>) -> (r: Self)
        ensures
            r.position == position,
            r.normal == normal,
    {
        VertexAttribute { position, normal }
    }

    pub fn without_normal(position: C) -> (r: Self)
        ensures
            r.position == position,
            r.normal is None,
    {
        VertexAttribute { position, normal: None }
    }
}

/// The vertex at `position`, without a normal.
pub open spec fn bare_vertex<C>(position: C) -> VertexAttribute<C> {
    VertexAttribute { position, normal: None }
}

/// A mesh: a primitive type and the vertices it reads, in order.
pub struct Geometry<C> {
    pub primitive_type: PrimitiveType,
    pub vertices: Vec<VertexAttribute<C>>,
}

/// The three vertices from index `i` on are the triangle `(a, b, c)`, and
/// share one normal, a value that `facet_normal` gives for that triangle.
pub open spec fn triangle_at<C, FN: Fn(C, C, C) -> Option<C>>(
    vs: Seq<VertexAttribute<C>>,
    i: int,
    a: C,
    b: C,
    c: C,
    facet_normal: FN,
) -> bool {
    &&& 0 <= i
    &&& i + 3 <= vs.len()
    &&& vs[i].position == a
    &&& vs[i + 1].position == b
    &&& vs[i + 2].position == c
    &&& vs[i + 1].normal == vs[i].normal
    &&& vs[i + 2].normal == vs[i].normal
    &&& facet_normal.ensures((a, b, c), vs[i].normal)
}

proof fn lemma_triangle_at_prefix<C, FN: Fn(C, C, C) -> Option<C>>(
    vs: Seq<VertexAttribute<C>>,
    longer: Seq<VertexAttribute<C>>,
    i: int,
    a: C,
    b: C,
    c: C,
    facet_normal: FN,
)
    requires
        triangle_at(vs, i, a, b, c, facet_normal),
        vs.len() <= longer.len(),
        longer.subrange(0, vs.len() as int) == vs,
    ensures
        triangle_at(longer, i, a, b, c, facet_normal),
{
    assert(longer[i] == longer.subrange(0, vs.len() as int)[i]);
    assert(longer[i + 1] == longer.subrange(0, vs.len() as int)[i + 1]);
    assert(longer[i + 2] == longer.subrange(0, vs.len() as int)[i + 2]);
}

/// The twelve vertices from `12 * (x * (h - 1) + y)` on, with `h` the grid's
/// height, are the fan of the cell whose north-west corner is `(x, y)`: a
/// centroid that `centroid` gives for the cell's corners `(nw, sw, ne, se)`,
/// and the triangles `(mid, nw, sw)`, `(mid, sw, se)`, `(mid, se, ne)`,
/// `(mid, ne, nw)` in that order.
pub open spec fn cell_at<C, M: Manifold2d<C>, FC: Fn(C, C, C, C) -> C, FN: Fn(C, C, C) -> Option<C>>(
    vs: Seq<VertexAttribute<C>>,
    m: M,
    x: int,
    y: int,
    centroid: FC,
    facet_normal: FN,
) -> bool {
    let i = 12 * (x * (m.spec_height() - 1) + y);
    let nw = m.spec_get(x, y);
    let sw = m.spec_get(x, y + 1);
    let ne = m.spec_get(x + 1, y);
    let se = m.spec_get(x + 1, y + 1);
    let mid = vs[i].position;
    &&& centroid.ensures((nw, sw, ne, se), mid)
    &&& triangle_at(vs, i, mid, nw, sw, facet_normal)
    &&& triangle_at(vs, i + 3, mid, sw, se, facet_normal)
    &&& triangle_at(vs, i + 6, mid, se, ne, facet_normal)
    &&& triangle_at(vs, i + 9, mid, ne, nw, facet_normal)
}

proof fn lemma_cell_at_prefix<C, M: Manifold2d<C>, FC: Fn(C, C, C, C) -> C, FN: Fn(C, C, C) -> Option<C>>(
    vs: Seq<VertexAttribute<C>>,
    longer: Seq<VertexAttribute<C>>,
    m: M,
    x: int,
    y: int,
    centroid: FC,
    facet_normal: FN,
)
    requires
        cell_at(vs, m, x, y, centroid, facet_normal),
        vs.len() <= longer.len(),
        longer.subrange(0, vs.len() as int) == vs,
    ensures
        cell_at(longer, m, x, y, centroid, facet_normal),
{
    let i = 12 * (x * (m.spec_height() - 1) + y);
    let nw = m.spec_get(x, y);
    let sw = m.spec_get(x, y + 1);
    let ne = m.spec_get(x + 1, y);
    let se = m.spec_get(x + 1, y + 1);
    let mid = vs[i].position;
    assert(longer[i] == longer.subrange(0, vs.len() as int)[i]);
    lemma_triangle_at_prefix(vs, longer, i, mid, nw, sw, facet_normal);
    lemma_triangle_at_prefix(vs, longer, i + 3, mid, sw, se, facet_normal);
    lemma_triangle_at_prefix(vs, longer, i + 6, mid, se, ne, facet_normal);
    lemma_triangle_at_prefix(vs, longer, i + 9, mid, ne, nw, facet_normal);
}

impl<C: Copy> Geometry<C> {
    /// An empty mesh of the given primitive type.
    pub fn new(primitive_type: PrimitiveType) -> (r: Self)
        ensures
            r.primitive_type == primitive_type,
            r.vertices@.len() == 0,
    {
        Geometry { primitive_type, vertices: Vec::new() }
    }

    /// Appends the triangle `(v1, v2, v3)`, each vertex with the normal that
    /// `facet_normal` gives for the triangle.
    pub fn push_triangle<FN: Fn(C, C, C) -> Option<C>>(&mut self, v1: C, v2: C, v3: C, facet_normal: &FN)
        requires
            facet_normal.requires((v1, v2, v3)),
        ensures
            final(self).primitive_type == old(self).primitive_type,
            final(self).vertices@.len() == old(self).vertices@.len() + 3,
            final(self).vertices@.subrange(0, old(self).vertices@.len() as int) == old(self).vertices@,
            triangle_at(final(self).vertices@, old(self).vertices@.len() as int, v1, v2, v3, *facet_normal),
    {
        let normal = facet_normal(v1, v2, v3);
        self.vertices.push(VertexAttribute::new(v1, normal));
        self.vertices.push(VertexAttribute::new(v2, normal));
        self.vertices.push(VertexAttribute::new(v3, normal));
    }
}

impl<C: Copy> Geometry<C> {
    /// The centroid-fan tessellation of a grid: for each cell between four
    /// neighbouring samples, columns outermost, a centroid and four triangles
    /// fanned from it, each vertex with its triangle's normal. A grid with
    /// fewer than two columns or rows gives an empty mesh.
    pub fn from_manifold<M: Manifold2d<C>, FC: Fn(C, C, C, C) -> C, FN: Fn(C, C, C) -> Option<C>>(
        coordinates: M,
        centroid: FC,
        facet_normal: FN,
    ) -> (r: Self)
        requires
            coordinates.wf(),
            forall|a: C, b: C, c: C, d: C| #[trigger] centroid.requires((a, b, c, d)),
            forall|a: C, b: C, c: C| #[trigger] facet_normal.requires((a, b, c)),
        ensures
            r.primitive_type == PrimitiveType::TrianglesList,
            coordinates.spec_width() >= 1 && coordinates.spec_height() >= 1 ==> r.vertices@.len()
                == 4 * 3 * (coordinates.spec_width() - 1) * (coordinates.spec_height() - 1),
            coordinates.spec_width() < 2 || coordinates.spec_height() < 2 ==> r.vertices@.len() == 0,
            forall|x: int, y: int|
                0 <= x && x + 1 < coordinates.spec_width() && 0 <= y && y + 1 < coordinates.spec_height() ==> #[trigger] cell_at(
                    r.vertices@,
                    coordinates,
                    x,
                    y,
                    centroid,
                    facet_normal,
                ),
    {
        let mut surface = Geometry::new(PrimitiveType::TrianglesList);
        let w = coordinates.width();
        let h = coordinates.height();
        proof {
            let (wi, hi) = (w as int, h as int);
            assert(12 * ((wi - 1) * (hi - 1)) == 4 * 3 * (wi - 1) * (hi - 1)) by (nonlinear_arith);
            assert(wi == 1 || hi == 1 ==> (wi - 1) * (hi - 1) == 0) by (nonlinear_arith);
        }
        if w < 2 || h < 2 {
            return surface;
        }
        let mut x: usize = 0;
        while x < w - 1
            invariant
                w == coordinates.spec_width(),
                h == coordinates.spec_height(),
                2 <= w,
                2 <= h,
                x <= w - 1,
                coordinates.wf(),
                forall|a: C, b: C, c: C, d: C| #[trigger] centroid.requires((a, b, c, d)),
                forall|a: C, b: C, c: C| #[trigger] facet_normal.requires((a, b, c)),
                surface.primitive_type == PrimitiveType::TrianglesList,
                surface.vertices@.len() == 12 * (x * (h - 1)),
                forall|x0: int, y0: int|
                    0 <= x0 < x && 0 <= y0 && y0 + 1 < h ==> #[trigger] cell_at(
                        surface.vertices@,
                        coordinates,
                        x0,
                        y0,
                        centroid,
                        facet_normal,
                    ),
            decreases w - x,
        {
            let mut y: usize = 0;
            while y < h - 1
                invariant
                    w == coordinates.spec_width(),
                    h == coordinates.spec_height(),
                    2 <= w,
                    2 <= h,
                    x < w - 1,
                    y <= h - 1,
                    coordinates.wf(),
                    forall|a: C, b: C, c: C, d: C| #[trigger] centroid.requires((a, b, c, d)),
                    forall|a: C, b: C, c: C| #[trigger] facet_normal.requires((a, b, c)),
                    surface.primitive_type == PrimitiveType::TrianglesList,
                    surface.vertices@.len() == 12 * (x * (h - 1) + y),
                    forall|x0: int, y0: int|
                        (0 <= x0 < x && 0 <= y0 && y0 + 1 < h) || (x0 == x && 0 <= y0 < y) ==> #[trigger] cell_at(
                            surface.vertices@,
                            coordinates,
                            x0,
                            y0,
                            centroid,
                            facet_normal,
                        ),
                decreases h - y,
            {
                let ghost before = surface.vertices@;
                let nw = coordinates.get(x, y);
                let sw = coordinates.get(x, y + 1);
                let ne = coordinates.get(x + 1, y);
                let se = coordinates.get(x + 1, y + 1);
                let mid = centroid(nw, sw, ne, se);

                surface.push_triangle(mid, nw, sw, &facet_normal);
                let ghost after1 = surface.vertices@;
                surface.push_triangle(mid, sw, se, &facet_normal);
                let ghost after2 = surface.vertices@;
                surface.push_triangle(mid, se, ne, &facet_normal);
                let ghost after3 = surface.vertices@;
                surface.push_triangle(mid, ne, nw, &facet_normal);
                proof {
                    let vs = surface.vertices@;
                    let i = before.len() as int;
                    assert(vs.subrange(0, after3.len() as int) == after3);
                    assert(vs.subrange(0, after2.len() as int) =~= after2);
                    assert(vs.subrange(0, after1.len() as int) =~= after1);
                    assert(vs.subrange(0, before.len() as int) =~= before);
                    lemma_triangle_at_prefix(after1, vs, i, mid, nw, sw, facet_normal);
                    lemma_triangle_at_prefix(after2, vs, i + 3, mid, sw, se, facet_normal);
                    lemma_triangle_at_prefix(after3, vs, i + 6, mid, se, ne, facet_normal);
                    assert(vs[i].position == mid);
                    assert(cell_at(vs, coordinates, x as int, y as int, centroid, facet_normal));
                    assert forall|x0: int, y0: int|
                        (0 <= x0 < x && 0 <= y0 && y0 + 1 < h) || (x0 == x && 0 <= y0 <= y) implies #[trigger] cell_at(
                            vs,
                            coordinates,
                            x0,
                            y0,
                            centroid,
                            facet_normal,
                        ) by {
                        if x0 != x as int || y0 != y as int {
                            lemma_cell_at_prefix(before, vs, coordinates, x0, y0, centroid, facet_normal);
                        }
                    }
                    assert(vs.len() == 12 * (x * (h - 1) + y + 1));
                }
                y = y + 1;
            }
            proof {
                assert(12 * (x * (h - 1) + (h - 1)) == 12 * ((x + 1) * (h - 1))) by (nonlinear_arith);
            }
            x = x + 1;
        }
        surface
    }
}

impl<C: Copy> Geometry<C> {
    /// A line strip through the given points, in order, without normals.
    pub fn from_line_points(coordinates: Vec<C>) -> (r: Self)
        ensures
            r.primitive_type == PrimitiveType::LineStrip,
            r.vertices@.len() == coordinates@.len(),
            forall|i: int|
                0 <= i < coordinates@.len() ==> #[trigger] r.vertices@[i] == bare_vertex(coordinates@[i]),
    {
        let mut geometry = Geometry::new(PrimitiveType::LineStrip);
        let mut i: usize = 0;
        while i < coordinates.len()
            invariant
                i <= coordinates@.len(),
                geometry.primitive_type == PrimitiveType::LineStrip,
                geometry.vertices@.len() == i,
                forall|j: int|
                    0 <= j < i ==> #[trigger] geometry.vertices@[j] == bare_vertex(coordinates@[j]),
            decreases coordinates@.len() - i,
        {
            geometry.vertices.push(VertexAttribute::without_normal(coordinates[i]));
            i = i + 1;
        }
        geometry
    }
}

/// The coordinate `-1 + 2 * step / steps`: the end of the `step`-th of
/// `steps` equal parts of `[-1, 1]`.
#[derive(Clone, Copy, Debug, PartialEq, Eq, Structural)]
pub struct GridCoord {
    pub step: usize,
    pub steps: usize,
}

/// A point `(x, y, 0)` of the plane `z = 0`.
#[derive(Clone, Copy, Debug, PartialEq, Eq, Structural)]
pub struct GridPoint {
    pub x: GridCoord,
    pub y: GridCoord,
}

/// The coordinate `-1`.
pub open spec fn minus_one() -> GridCoord {
    GridCoord { step: 0, steps: 1 }
}

/// The coordinate `1`.
pub open spec fn plus_one() -> GridCoord {
    GridCoord { step: 1, steps: 1 }
}

/// The vertex at `(x, y, 0)`, without a normal.
pub open spec fn grid_vertex(x: GridCoord, y: GridCoord) -> VertexAttribute<GridPoint> {
    bare_vertex(GridPoint { x, y })
}

impl Geometry<GridPoint> {
    /// Appends the line from `(at, minus)` to `(at, plus)` where `vertical`,
    /// else the line from `(minus, at)` to `(plus, at)`.
    fn push_grid_line(&mut self, at: GridCoord, minus: GridCoord, plus: GridCoord, vertical: bool)
        ensures
            final(self).primitive_type == old(self).primitive_type,
            final(self).vertices@ == old(self).vertices@ + if vertical {
                seq![grid_vertex(at, minus), grid_vertex(at, plus)]
            } else {
                seq![grid_vertex(minus, at), grid_vertex(plus, at)]
            },
    {
        if vertical {
            self.vertices.push(VertexAttribute::without_normal(GridPoint { x: at, y: minus }));
            self.vertices.push(VertexAttribute::without_normal(GridPoint { x: at, y: plus }));
        } else {
            self.vertices.push(VertexAttribute::without_normal(GridPoint { x: minus, y: at }));
            self.vertices.push(VertexAttribute::without_normal(GridPoint { x: plus, y: at }));
        }
    }
}

/// The lines of a grid over `[-1, 1] x [-1, 1]` in the plane `z = 0`, as a
/// line list: `divisions.0 + 1` evenly spaced lines of constant `x`, from
/// `x = -1` to `x = 1`, each from `y = -1` to `y = 1`; then `divisions.1 + 1`
/// lines of constant `y` in the same way.
pub fn xy_grid(divisions: (usize, usize)) -> (r: Geometry<GridPoint>)
    ensures
        r.primitive_type == PrimitiveType::LinesList,
        r.vertices@.len() == 2 * (divisions.0 + 1) + 2 * (divisions.1 + 1),
        forall|i: int|
            0 <= i <= divisions.0 ==> {
                let x = GridCoord { step: i as usize, steps: divisions.0 };
                &&& #[trigger] r.vertices@[2 * i] == grid_vertex(x, minus_one())
                &&& r.vertices@[2 * i + 1] == grid_vertex(x, plus_one())
            },
        forall|j: int|
            0 <= j <= divisions.1 ==> {
                let y = GridCoord { step: j as usize, steps: divisions.1 };
                &&& #[trigger] r.vertices@[2 * (divisions.0 + 1) + 2 * j] == grid_vertex(minus_one(), y)
                &&& r.vertices@[2 * (divisions.0 + 1) + 2 * j + 1] == grid_vertex(plus_one(), y)
            },
{
    let mut geometry = Geometry::new(PrimitiveType::LinesList);
    let (columns, rows) = divisions;
    let minus = GridCoord { step: 0, steps: 1 };
    let plus = GridCoord { step: 1, steps: 1 };

    let mut i: usize = 0;
    while i < columns
        invariant
            i <= columns,
            minus == minus_one(),
            plus == plus_one(),
            geometry.primitive_type == PrimitiveType::LinesList,
            geometry.vertices@.len() == 2 * i,
            forall|i0: int|
                0 <= i0 < i ==> {
                    let x = GridCoord { step: i0 as usize, steps: columns };
                    &&& #[trigger] geometry.vertices@[2 * i0] == grid_vertex(x, minus_one())
                    &&& geometry.vertices@[2 * i0 + 1] == grid_vertex(x, plus_one())
                },
        decreases columns - i,
    {
        geometry.push_grid_line(GridCoord { step: i, steps: columns }, minus, plus, true);
        i = i + 1;
    }
    let ghost before_last = geometry.vertices@;
    geometry.push_grid_line(GridCoord { step: columns, steps: columns }, minus, plus, true);
    proof {
        let vs = geometry.vertices@;
        assert forall|i0: int| 0 <= i0 <= columns implies {
            let x = GridCoord { step: i0 as usize, steps: columns };
            &&& #[trigger] vs[2 * i0] == grid_vertex(x, minus_one())
            &&& vs[2 * i0 + 1] == grid_vertex(x, plus_one())
        } by {
            if i0 < columns {
                assert(vs[2 * i0] == before_last[2 * i0]);
                assert(vs[2 * i0 + 1] == before_last[2 * i0 + 1]);
            }
        }
    }

    let ghost lines_of_x = geometry.vertices@;
    let mut j: usize = 0;
    while j < rows
        invariant
            j <= rows,
            minus == minus_one(),
            plus == plus_one(),
            geometry.primitive_type == PrimitiveType::LinesList,
            geometry.vertices@.len() == 2 * (columns + 1) + 2 * j,
            geometry.vertices@.subrange(0, 2 * (columns + 1)) == lines_of_x,
            forall|j0: int|
                0 <= j0 < j ==> {
                    let y = GridCoord { step: j0 as usize, steps: rows };
                    &&& #[trigger] geometry.vertices@[2 * (columns + 1) + 2 * j0] == grid_vertex(minus_one(), y)
                    &&& geometry.vertices@[2 * (columns + 1) + 2 * j0 + 1] == grid_vertex(plus_one(), y)
                },
        decreases rows - j,
    {
        geometry.push_grid_line(GridCoord { step: j, steps: rows }, minus, plus, false);
        j = j + 1;
    }
    let ghost before_last_row = geometry.vertices@;
    geometry.push_grid_line(GridCoord { step: rows, steps: rows }, minus, plus, false);
    proof {
        let vs = geometry.vertices@;
        let n = 2 * (columns + 1);
        assert forall|i0: int| 0 <= i0 <= columns implies {
            let x = GridCoord { step: i0 as usize, steps: columns };
            &&& #[trigger] vs[2 * i0] == grid_vertex(x, minus_one())
            &&& vs[2 * i0 + 1] == grid_vertex(x, plus_one())
        } by {
            assert(before_last_row[2 * i0] == before_last_row.subrange(0, n)[2 * i0]);
            assert(before_last_row[2 * i0 + 1] == before_last_row.subrange(0, n)[2 * i0 + 1]);
            assert(vs[2 * i0] == before_last_row[2 * i0]);
            assert(vs[2 * i0 + 1] == before_last_row[2 * i0 + 1]);
        }
    }
    geometry
}

} // verus!
