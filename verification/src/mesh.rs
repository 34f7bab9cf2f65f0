//! Terrain-chunk mesh generation: boundary and interior point placement on an
//! exact integer lattice, Delaunay triangulation, and vertex assembly.
//!
//! A chunk of edge length `size` covers the square `[0, size-1]` in both
//! axes. To keep every coordinate exact, positions are stored scaled by
//! `subdiv`: a vertex at stored coordinates `(x, y)` sits at world position
//! `(x / subdiv, y / subdiv)` and has texture coordinates
//! `(x, y) / (subdiv * extent)`, each in `[0, 1]`.

use vstd::prelude::*;
use vstd::arithmetic::div_mod::{lemma_div_is_ordered, lemma_div_multiples_vanish};
use vstd::arithmetic::mul::lemma_mul_inequality;

verus! {

/// The largest accepted chunk edge length; keeps every scaled coordinate and
/// every point count within `u32`.
pub const MAX_CHUNK_SIZE: u32 = 32768;

/// An interior point density in `(0, 1]`, held as the exact ratio
/// `num / den`.
#[derive(Clone, Copy, PartialEq, Eq, Structural, Debug)]
pub struct Density {
    pub num: u32,
    pub den: u32,
}

impl Density {
    /// A density is valid when it lies in `(0, 1]`.
    pub open spec fn valid(&self) -> bool {
        0 < self.num <= self.den
    }
}

/// Triangulation was asked of a degenerate input: a chunk too small to hold
/// three non-collinear points, or a point set whose triangulation is empty.
#[derive(Clone, Copy, PartialEq, Eq, Structural, Debug)]
pub struct DegenerateInputError;

/// A mesh vertex: the scaled integer position. World position and texture
/// coordinates follow from the owning mesh's `subdiv` and `extent`.
#[derive(Clone, Copy, PartialEq, Eq, Structural, Debug)]
pub struct Vertex {
    pub x: u32,
    pub y: u32,
}

/// A triangulated chunk mesh: vertices, triangle index triples, and the
/// scaling that maps stored coordinates back to world and texture space.
#[derive(Debug)]
pub struct Mesh {
    pub vertices: Vec<Vertex>,
    pub indices: Vec<u32>,
    /// Scaled coordinates divided by this give world coordinates.
    pub subdiv: u32,
    /// The chunk edge length in world units: `size - 1`.
    pub extent: u32,
}

impl Mesh {
    /// Well-formedness: the index count is a multiple of three, every index
    /// refers to a vertex, and every coordinate stays within the chunk, so
    /// every texture coordinate lies in `[0, 1]`.
    pub open spec fn wf(&self) -> bool {
        &&& self.subdiv >= 1
        &&& self.extent >= 1
        &&& self.extent * self.subdiv <= u32::MAX
        &&& self.indices@.len() % 3 == 0
        &&& forall|i: int|
            0 <= i < self.indices@.len() ==> (#[trigger] self.indices@[i]) < self.vertices@.len()
        &&& forall|i: int|
            0 <= i < self.vertices@.len() ==> (#[trigger] self.vertices@[i]).x <= self.extent
                * self.subdiv && self.vertices@[i].y <= self.extent * self.subdiv
    }

    /// The denominator of every vertex's texture coordinates.
    pub fn uv_denominator(&self) -> (d: u64)
        ensures
            d == self.extent * self.subdiv,
    {
        proof {
            assert((self.extent as int) * (self.subdiv as int) <= 0xffff_ffff * 0xffff_ffff)
                by (nonlinear_arith)
                requires
                    self.extent <= 0xffff_ffffu32,
                    self.subdiv <= 0xffff_ffffu32,
            ;
        }
        (self.extent as u64) * (self.subdiv as u64)
    }
}

/// The number of interior points per axis: `(size - 2) * density`, rounded
/// up.
pub open spec fn interior_per_axis(size: int, d: Density) -> int {
    ((size - 2) * d.num + (d.den - 1)) / (d.den as int)
}

/// The scaled x coordinate of point `k` of a chunk: first the two lattice
/// rows `y = 0` and `y = extent` interleaved, then the two lattice columns
/// `x = 0` and `x = extent` without their corners, then the `n * n` interior
/// grid, row-major, strictly inside the boundary.
pub open spec fn point_x(size: int, n: int, k: int) -> int {
    let sub = n + 1;
    let ext = size - 1;
    if k < 2 * size {
        (k / 2) * sub
    } else if k < 4 * size - 4 {
        if (k - 2 * size) % 2 == 0 {
            0
        } else {
            ext * sub
        }
    } else {
        ((k - (4 * size - 4)) / n + 1) * ext
    }
}

/// The scaled y coordinate of point `k` of a chunk; see `point_x`.
pub open spec fn point_y(size: int, n: int, k: int) -> int {
    let sub = n + 1;
    let ext = size - 1;
    if k < 2 * size {
        if k % 2 == 0 {
            0
        } else {
            ext * sub
        }
    } else if k < 4 * size - 4 {
        ((k - 2 * size) / 2 + 1) * sub
    } else {
        ((k - (4 * size - 4)) % n + 1) * ext
    }
}

/// The number of points of a chunk: the boundary ring plus the interior grid.
pub open spec fn point_count(size: int, n: int) -> int {
    4 * size - 4 + n * n
}

/// The full scaled point set of a chunk, in generation order.
pub open spec fn chunk_points(size: int, n: int) -> Seq<(u32, u32)> {
    Seq::new(
        point_count(size, n) as nat,
        |k: int| (point_x(size, n, k) as u32, point_y(size, n, k) as u32),
    )
}

/// The triangle list that Delaunay triangulation yields for a point set, as a
/// flat sequence of index triples. The triangulation is a function of the
/// point set alone: identical input yields the identical triangle list.
pub uninterp spec fn delaunay_triangles(points: Seq<(u32, u32)>) -> Seq<usize>;

/// Relies on delaunator::triangulate: the returned `triangles` list the
/// vertex indices of each triangle as flat triples, so its length is a
/// multiple of three and every entry indexes into the input slice; for
/// degenerate (collinear) input it is empty. The result depends on the input
/// points alone.
#[verifier::external_body]
fn triangulate_scaled(points: &Vec<(u32, u32)>) -> (r: Vec<usize>)
    ensures
        r@ == delaunay_triangles(points@),
        r@.len() % 3 == 0,
        forall|i: int| 0 <= i < r@.len() ==> (#[trigger] r@[i]) < points@.len(),
{
    let pts: Vec<delaunator::Point> = points
        .iter()
        .map(|p| delaunator::Point { x: p.0.into(), y: p.1.into() })
        .collect();
    delaunator::triangulate(&pts).triangles
}

/// Whether a mesh is exactly the one that chunk generation yields for this
/// size and density: same scaling, the chunk's point set as vertices, and the
/// point set's Delaunay triangles as indices.
pub open spec fn mesh_matches(m: Mesh, size: u32, d: Density) -> bool {
    let n = interior_per_axis(size as int, d);
    let pts = chunk_points(size as int, n);
    let tri = delaunay_triangles(pts);
    &&& m.subdiv == n + 1
    &&& m.extent == size - 1
    &&& m.vertices@.len() == pts.len()
    &&& forall|i: int|
        0 <= i < pts.len() ==> (#[trigger] m.vertices@[i]) == (Vertex {
            x: pts[i].0,
            y: pts[i].1,
        })
    &&& m.indices@.len() == tri.len()
    &&& forall|i: int| 0 <= i < tri.len() ==> (#[trigger] m.indices@[i]) == tri[i] as u32
}

/// Mesh generation is deterministic: two meshes that generation yields for
/// the same size and density are equal in every observable part.
pub proof fn lemma_generate_deterministic(m1: Mesh, m2: Mesh, size: u32, d: Density)
    requires
        mesh_matches(m1, size, d),
        mesh_matches(m2, size, d),
    ensures
        m1.vertices@ == m2.vertices@,
        m1.indices@ == m2.indices@,
        m1.subdiv == m2.subdiv,
        m1.extent == m2.extent,
{
    assert(m1.vertices@ =~= m2.vertices@);
    assert(m1.indices@ =~= m2.indices@);
}

fn interior_count(size: u32, d: Density) -> (n: u32)
    requires
        d.valid(),
        3 <= size <= MAX_CHUNK_SIZE,
    ensures
        n == interior_per_axis(size as int, d),
        1 <= n <= size - 2,
{
    proof {
        assert((size as int - 2) * (d.num as int) + (d.den as int - 1) < 0x8000_0000_0000_0000)
            by (nonlinear_arith)
            requires
                3 <= size <= 32768,
                d.num <= 0xffff_ffffu32,
                d.den <= 0xffff_ffffu32,
        ;
    }
    let num = ((size - 2) as u64) * (d.num as u64) + ((d.den - 1) as u64);
    let n = num / (d.den as u64);
    proof {
        let s = size as int;
        let nu = d.num as int;
        let de = d.den as int;
        assert((s - 2) * nu + (de - 1) >= 1 * de) by (nonlinear_arith)
            requires
                s >= 3,
                nu >= 1,
                de >= 1,
                nu <= de,
        ;
        assert((s - 2) * nu + (de - 1) < (s - 1) * de) by (nonlinear_arith)
            requires
                s >= 3,
                nu >= 1,
                de >= 1,
                nu <= de,
        ;
        lemma_div_is_ordered(1 * de, (s - 2) * nu + (de - 1), de);
        lemma_div_multiples_vanish(1, de);
        lemma_div_is_ordered((s - 2) * nu + (de - 1), (s - 1) * de - 1, de);
        assert(((s - 1) * de - 1) / de == s - 2) by {
            assert((s - 1) * de - 1 == de * (s - 2) + (de - 1)) by (nonlinear_arith);
            vstd::arithmetic::div_mod::lemma_div_multiples_vanish_fancy(s - 2, de - 1, de);
        };
    }
    n as u32
}

proof fn lemma_point_coord_bounds(size: int, n: int, k: int)
    requires
        3 <= size,
        1 <= n <= size - 2,
        0 <= k < point_count(size, n),
    ensures
        0 <= point_x(size, n, k) <= (size - 1) * (n + 1),
        0 <= point_y(size, n, k) <= (size - 1) * (n + 1),
{
    let sub = n + 1;
    let ext = size - 1;
    if k < 2 * size {
        assert(0 <= k / 2 <= ext);
        lemma_mul_inequality(k / 2, ext, sub);
    } else if k < 4 * size - 4 {
        let j = k - 2 * size;
        assert(0 <= j / 2 + 1 <= ext);
        lemma_mul_inequality(j / 2 + 1, ext, sub);
    } else {
        let m = k - (4 * size - 4);
        assert(0 <= m < n * n);
        assert(m / n <= n - 1) by {
            assert((n * n - 1) / n == n - 1) by {
                assert(n * n - 1 == n * (n - 1) + (n - 1)) by (nonlinear_arith);
                vstd::arithmetic::div_mod::lemma_div_multiples_vanish_fancy(n - 1, n - 1, n);
            };
            lemma_div_is_ordered(m, n * n - 1, n);
        };
        vstd::arithmetic::div_mod::lemma_mod_division_less_than_divisor(m, n);
        assert(m / n + 1 <= sub && m % n + 1 <= sub);
        lemma_mul_inequality(m / n + 1, sub, ext);
        lemma_mul_inequality(m % n + 1, sub, ext);
        vstd::arithmetic::div_mod::lemma_div_pos_is_pos(m, n);
        assert(ext * sub == sub * ext) by (nonlinear_arith);
    }
}

proof fn lemma_scale_fits(size: int, n: int)
    requires
        3 <= size <= MAX_CHUNK_SIZE,
        1 <= n <= size - 2,
    ensures
        (size - 1) * (n + 1) <= 0x4000_0000,
        point_count(size, n) <= 0x4000_0000,
{
    assert((size - 1) * (n + 1) <= 0x4000_0000 && 4 * size - 4 + n * n <= 0x4000_0000)
        by (nonlinear_arith)
        requires
            3 <= size <= 32768,
            1 <= n <= size - 2,
    ;
}

fn build_points(size: u32, n: u32) -> (points: Vec<(u32, u32)>)
    requires
        3 <= size <= MAX_CHUNK_SIZE,
        1 <= n <= size - 2,
    ensures
        points@ == chunk_points(size as int, n as int),
{
    proof {
        lemma_scale_fits(size as int, n as int);
    }
    let sub = n + 1;
    let ext = size - 1;
    let top = ext * sub;
    let mut points: Vec<(u32, u32)> = Vec::new();

    let mut i: u32 = 0;
    while i < size
        invariant
            0 <= i <= size,
            3 <= size <= MAX_CHUNK_SIZE,
            1 <= n <= size - 2,
            sub == n + 1,
            ext == size - 1,
            top == ext * sub,
            top <= 0x4000_0000,
            points@.len() == 2 * i,
            forall|k: int|
                0 <= k < 2 * i ==> #[trigger] points@[k] == (
                    point_x(size as int, n as int, k) as u32,
                    point_y(size as int, n as int, k) as u32,
                ),
        decreases size - i,
    {
        proof {
            lemma_mul_inequality(i as int, ext as int, sub as int);
        }
        points.push((i * sub, 0));
        points.push((i * sub, top));
        i = i + 1;
    }

    let mut j: u32 = 1;
    while j < size - 1
        invariant
            1 <= j <= size - 1,
            3 <= size <= MAX_CHUNK_SIZE,
            1 <= n <= size - 2,
            sub == n + 1,
            ext == size - 1,
            top == ext * sub,
            top <= 0x4000_0000,
            points@.len() == 2 * size + 2 * (j - 1),
            forall|k: int|
                0 <= k < points@.len() ==> #[trigger] points@[k] == (
                    point_x(size as int, n as int, k) as u32,
                    point_y(size as int, n as int, k) as u32,
                ),
        decreases size - j,
    {
        proof {
            lemma_mul_inequality(j as int, ext as int, sub as int);
        }
        points.push((0, j * sub));
        points.push((top, j * sub));
        j = j + 1;
    }

    let mut a: u32 = 0;
    while a < n
        invariant
            0 <= a <= n,
            3 <= size <= MAX_CHUNK_SIZE,
            1 <= n <= size - 2,
            sub == n + 1,
            ext == size - 1,
            top == ext * sub,
            top <= 0x4000_0000,
            points@.len() == 4 * size - 4 + a * n,
            forall|k: int|
                0 <= k < points@.len() ==> #[trigger] points@[k] == (
                    point_x(size as int, n as int, k) as u32,
                    point_y(size as int, n as int, k) as u32,
                ),
        decreases n - a,
    {
        let mut b: u32 = 0;
        while b < n
            invariant
                0 <= a < n,
                0 <= b <= n,
                3 <= size <= MAX_CHUNK_SIZE,
                1 <= n <= size - 2,
                sub == n + 1,
                ext == size - 1,
                top == ext * sub,
                top <= 0x4000_0000,
                points@.len() == 4 * size - 4 + a * n + b,
                forall|k: int|
                    0 <= k < points@.len() ==> #[trigger] points@[k] == (
                        point_x(size as int, n as int, k) as u32,
                        point_y(size as int, n as int, k) as u32,
                    ),
            decreases n - b,
        {
            proof {
                lemma_mul_inequality(a as int + 1, sub as int, ext as int);
                lemma_mul_inequality(b as int + 1, sub as int, ext as int);
                assert(sub as int * ext as int == ext as int * sub as int) by (nonlinear_arith);
                let m = (a * n + b) as int;
                assert(m / (n as int) == a as int && m % (n as int) == b as int) by (nonlinear_arith)
                    requires
                        0 <= (a as int),
                        0 <= (b as int),
                        (b as int) < (n as int),
                        m == (a * n + b) as int,
                ;
                assert(a * n + b < n * n) by (nonlinear_arith)
                    requires
                        0 <= (a as int),
                        (a as int) < (n as int),
                        0 <= (b as int),
                        (b as int) < (n as int),
                ;
            }
            points.push(((a + 1) * ext, (b + 1) * ext));
            b = b + 1;
        }
        proof {
            assert((a as int + 1) * (n as int) == (a as int) * (n as int) + (n as int))
                by (nonlinear_arith);
        }
        a = a + 1;
    }

    proof {
        assert(points@ =~= chunk_points(size as int, n as int));
    }
    points
}

/// Generates the triangulated mesh of a terrain chunk. The chunk's boundary
/// ring holds a point at every lattice step of its four edges; the interior
/// holds an `n * n` grid strictly inside the boundary, `n` being
/// `(size - 2) * density` rounded up. The point set is Delaunay-triangulated
/// and every vertex's texture coordinates normalize its position over
/// `size - 1`. A chunk smaller than 3, or a point set whose triangulation
/// comes back empty, is rejected as degenerate; no partial mesh is returned.
pub fn generate(size: u32, density: Density) -> (r: Result<Mesh, DegenerateInputError>)
    requires
        density.valid(),
        size <= MAX_CHUNK_SIZE,
    ensures
        r is Ok <==> (size >= 3 && delaunay_triangles(
            chunk_points(size as int, interior_per_axis(size as int, density)),
        ).len() > 0),
        r is Ok ==> mesh_matches(r->Ok_0, size, density) && r->Ok_0.wf(),
{
    if size < 3 {
        return Err(DegenerateInputError);
    }
    let n = interior_count(size, density);
    let points = build_points(size, n);
    let tri = triangulate_scaled(&points);
    if tri.len() == 0 {
        return Err(DegenerateInputError);
    }

    proof {
        lemma_scale_fits(size as int, n as int);
    }
    let mut vertices: Vec<Vertex> = Vec::new();
    let mut i: usize = 0;
    while i < points.len()
        invariant
            0 <= i <= points@.len(),
            vertices@.len() == i,
            forall|k: int|
                0 <= k < i ==> #[trigger] vertices@[k] == (Vertex {
                    x: points@[k].0,
                    y: points@[k].1,
                }),
        decreases points@.len() - i,
    {
        let (x, y) = points[i];
        vertices.push(Vertex { x, y });
        i = i + 1;
    }

    let mut indices: Vec<u32> = Vec::new();
    let mut j: usize = 0;
    while j < tri.len()
        invariant
            0 <= j <= tri@.len(),
            indices@.len() == j,
            points@.len() <= 0x4000_0000,
            forall|k: int| 0 <= k < tri@.len() ==> (#[trigger] tri@[k]) < points@.len(),
            forall|k: int| 0 <= k < j ==> (#[trigger] indices@[k]) == tri@[k] as u32,
        decreases tri@.len() - j,
    {
        let idx = tri[j];
        indices.push(idx as u32);
        j = j + 1;
    }

    let mesh = Mesh { vertices, indices, subdiv: n + 1, extent: size - 1 };
    proof {
        let s = size as int;
        let ni = n as int;
        assert forall|k: int| 0 <= k < mesh.vertices@.len() implies (#[trigger] mesh.vertices@[k]).x
            <= mesh.extent * mesh.subdiv && mesh.vertices@[k].y <= mesh.extent * mesh.subdiv by {
            lemma_point_coord_bounds(s, ni, k);
            lemma_scale_fits(s, ni);
        };
    }
    Ok(mesh)
}

} // verus!
