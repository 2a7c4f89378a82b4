use vstd::prelude::*;

verus! {

/// A configuration that no shape can be built from.
#[derive(Clone, Copy, Debug, PartialEq, Eq, Structural)]
pub enum ConfigError {
    /// A polygon needs at least three rim points.
    TooFewSegments,
    /// A radius must be a fraction with a positive numerator and denominator.
    NonPositiveRadius,
    /// A registry must hold at least one shape.
    EmptyRegistry,
}

/// A length written as the fraction `num / den`.
#[derive(Clone, Copy, Debug, PartialEq, Eq, Structural)]
pub struct Radius {
    pub num: u32,
    pub den: u32,
}

impl Radius {
    pub open spec fn is_valid(self) -> bool {
        self.num > 0 && self.den > 0
    }

    pub fn check(&self) -> (r: bool)
        ensures
            r == self.is_valid(),
    {
        self.num > 0 && self.den > 0
    }
}

/// Where a vertex lies, in exact terms.
///
/// Positions are kept as integers and ratios so that the geometry can be
/// reasoned about exactly; turning them into coordinates is left to the
/// renderer.
#[derive(Clone, Copy, Debug, PartialEq, Eq, Structural)]
pub enum VertexPos {
    /// The point `(x / scale, y / scale)`.
    Grid { x: i32, y: i32, scale: u32 },
    /// The point at distance `radius` from the origin, at angle
    /// `2π · step / steps`.
    Rim { step: u16, steps: u16, radius: Radius },
}

/// How the vertex sequence of a shape is assembled into triangles.
#[derive(Debug, PartialEq, Eq)]
pub enum Topology {
    /// Every three consecutive vertices form one triangle.
    Unindexed,
    /// Every three consecutive indices name the vertices of one triangle.
    Indexed(Vec<u16>),
}

impl View for Topology {
    type V = Option<Seq<u16>>;

    open spec fn view(&self) -> Option<Seq<u16>> {
        match self {
            Topology::Unindexed => None,
            Topology::Indexed(v) => Some(v@),
        }
    }
}

/// A generated figure: its vertices and how they form triangles.
#[derive(Debug, PartialEq, Eq)]
pub struct Shape {
    pub vertices: Vec<VertexPos>,
    pub topology: Topology,
}

/// The mathematical content of a [`Shape`].
pub struct ShapeModel {
    pub vertices: Seq<VertexPos>,
    pub indices: Option<Seq<u16>>,
}

impl View for Shape {
    type V = ShapeModel;

    open spec fn view(&self) -> ShapeModel {
        ShapeModel { vertices: self.vertices@, indices: self.topology@ }
    }
}

impl ShapeModel {
    /// Number of triangle corners that the draw call assembles.
    pub open spec fn corner_count(self) -> int {
        match self.indices {
            None => self.vertices.len() as int,
            Some(ix) => ix.len() as int,
        }
    }

    /// The vertex used at corner `k` of the triangle list.
    pub open spec fn corner(self, k: int) -> int {
        match self.indices {
            None => k,
            Some(ix) => ix[k] as int,
        }
    }

    pub open spec fn triangle_count(self) -> int {
        self.corner_count() / 3
    }

    /// Every corner names an existing vertex.
    pub open spec fn references_in_range(self) -> bool {
        forall|k: int| 0 <= k < self.corner_count() ==> 0 <= #[trigger] self.corner(k) < self.vertices.len()
    }

    /// The corners split into whole triangles, each over existing vertices.
    pub open spec fn wf(self) -> bool {
        self.corner_count() % 3 == 0 && self.references_in_range()
    }

    /// Vertex `v` is a corner of some triangle.
    pub open spec fn uses_vertex(self, v: int) -> bool {
        exists|k: int| 0 <= k < self.corner_count() && #[trigger] self.corner(k) == v
    }
}

pub open spec fn grid(x: int, y: int, scale: int) -> VertexPos {
    VertexPos::Grid { x: x as i32, y: y as i32, scale: scale as u32 }
}

/// The origin.
pub open spec fn origin() -> VertexPos {
    grid(0, 0, 1)
}

pub open spec fn triangle_model() -> ShapeModel {
    ShapeModel { vertices: seq![grid(-1, -1, 2), grid(-1, 1, 2), grid(1, -1, 2)], indices: None }
}

pub open spec fn rectangle_model() -> ShapeModel {
    ShapeModel {
        vertices: seq![grid(-1, -1, 2), grid(-1, 1, 2), grid(1, -1, 2), grid(1, 1, 2)],
        indices: Some(seq![0u16, 1u16, 2u16, 1u16, 2u16, 3u16]),
    }
}

/// Vertex `i` of the circle fan: the centre, then the rim points in order.
pub open spec fn circle_vertex(segments: u16, radius: Radius, i: int) -> VertexPos {
    if i == 0 {
        origin()
    } else {
        VertexPos::Rim { step: (i - 1) as u16, steps: segments, radius }
    }
}

/// Corner `k` of the circle fan: wedge `k / 3` joins the centre, rim point
/// `k / 3` and the rim point after it.
pub open spec fn circle_index(segments: int, k: int) -> int {
    if k % 3 == 0 {
        0
    } else if k % 3 == 1 {
        k / 3 + 1
    } else {
        (k / 3 + 1) % segments + 1
    }
}

pub open spec fn circle_model(segments: u16, radius: Radius) -> ShapeModel {
    ShapeModel {
        vertices: Seq::new((segments + 1) as nat, |i: int| circle_vertex(segments, radius, i)),
        indices: Some(Seq::new(3 * segments as nat, |k: int| circle_index(segments as int, k) as u16)),
    }
}

pub open spec fn circle_error(segments: u16, radius: Radius) -> Option<ConfigError> {
    if segments < 3 {
        Some(ConfigError::TooFewSegments)
    } else if !radius.is_valid() {
        Some(ConfigError::NonPositiveRadius)
    } else {
        None
    }
}

/// A right isosceles triangle around the centre of the view, drawn without an
/// index list.
pub fn generate_triangle() -> (r: Shape)
    ensures
        r@ == triangle_model(),
{
    let vertices = vec![
        VertexPos::Grid { x: -1, y: -1, scale: 2 },
        VertexPos::Grid { x: -1, y: 1, scale: 2 },
        VertexPos::Grid { x: 1, y: -1, scale: 2 },
    ];
    let r = Shape { vertices, topology: Topology::Unindexed };
    assert(r@.vertices =~= triangle_model().vertices);
    r
}

/// A square of side one around the centre of the view, as two triangles
/// that share a diagonal.
pub fn generate_rectangle() -> (r: Shape)
    ensures
        r@ == rectangle_model(),
{
    let vertices = vec![
        VertexPos::Grid { x: -1, y: -1, scale: 2 },
        VertexPos::Grid { x: -1, y: 1, scale: 2 },
        VertexPos::Grid { x: 1, y: -1, scale: 2 },
        VertexPos::Grid { x: 1, y: 1, scale: 2 },
    ];
    let indices: Vec<u16> = vec![0, 1, 2, 1, 2, 3];
    let r = Shape { vertices, topology: Topology::Indexed(indices) };
    assert(r@.vertices =~= rectangle_model().vertices);
    assert(r@.indices->Some_0 =~= rectangle_model().indices->Some_0);
    r
}

/// A regular polygon with `segments` rim points on the circle of the given
/// radius, triangulated as a fan around the centre.
pub fn generate_polygon_approximating_circle(segments: u16, radius: Radius) -> (r: Result<Shape, ConfigError>)
    ensures
        match circle_error(segments, radius) {
            Some(e) => r == Err::<Shape, ConfigError>(e),
            None => r is Ok && r->Ok_0@ == circle_model(segments, radius),
        },
{
    if segments < 3 {
        return Err(ConfigError::TooFewSegments);
    }
    if !radius.check() {
        return Err(ConfigError::NonPositiveRadius);
    }
    let mut vertices: Vec<VertexPos> = Vec::new();
    vertices.push(VertexPos::Grid { x: 0, y: 0, scale: 1 });
    let mut i: u16 = 0;
    while i < segments
        invariant
            i <= segments,
            vertices@.len() == i + 1,
            forall|j: int| 0 <= j < i + 1 ==> vertices@[j] == circle_vertex(segments, radius, j),
        decreases segments - i,
    {
        vertices.push(VertexPos::Rim { step: i, steps: segments, radius });
        i = i + 1;
    }
    let mut indices: Vec<u16> = Vec::new();
    let mut w: u16 = 0;
    while w < segments
        invariant
            3 <= segments,
            w <= segments,
            indices@.len() == 3 * w,
            forall|k: int| 0 <= k < 3 * w ==> indices@[k] as int == circle_index(segments as int, k),
        decreases segments - w,
    {
        let next: u16 = (w + 1) % segments + 1;
        indices.push(0);
        indices.push(w + 1);
        indices.push(next);
        assert forall|k: int| 0 <= k < 3 * (w + 1) implies indices@[k] as int == circle_index(segments as int, k) by {
            if k >= 3 * w {
                assert(k / 3 == w as int);
            }
        }
        w = w + 1;
    }
    let r = Shape { vertices, topology: Topology::Indexed(indices) };
    let ghost m = circle_model(segments, radius);
    assert(r@.vertices =~= m.vertices);
    assert forall|k: int| 0 <= k < 3 * segments implies r@.indices->Some_0[k] == m.indices->Some_0[k] by {
        assert(0 <= circle_index(segments as int, k) <= segments);
    }
    assert(r@.indices->Some_0 =~= m.indices->Some_0);
    Ok(r)
}

} // verus!

verus! {

/// Every corner of the built-in triangle names one of its three vertices.
pub proof fn lemma_triangle_in_range()
    ensures
        triangle_model().wf(),
        triangle_model().triangle_count() == 1,
{
}

/// The square has four vertices and six indices forming two triangles, and
/// each of its four corners belongs to one of them.
pub proof fn lemma_rectangle_covers_corners()
    ensures
        rectangle_model().wf(),
        rectangle_model().vertices.len() == 4,
        rectangle_model().corner_count() == 6,
        rectangle_model().triangle_count() == 2,
        forall|v: int| 0 <= v < 4 ==> #[trigger] rectangle_model().uses_vertex(v),
{
    let m = rectangle_model();
    assert(m.corner(0) == 0);
    assert(m.corner(1) == 1);
    assert(m.corner(2) == 2);
    assert(m.corner(5) == 3);
}

/// A fan of `segments` wedges has the centre and `segments` rim points,
/// `segments` triangles over existing vertices, the centre at the origin,
/// and every rim point at the given radius.
pub proof fn lemma_circle_fan(segments: u16, radius: Radius)
    requires
        segments >= 3,
    ensures
        circle_model(segments, radius).wf(),
        circle_model(segments, radius).vertices.len() == segments + 1,
        circle_model(segments, radius).corner_count() == 3 * segments,
        circle_model(segments, radius).triangle_count() == segments,
        circle_model(segments, radius).vertices[0] == origin(),
        forall|i: int|
            1 <= i <= segments ==> match #[trigger] circle_model(segments, radius).vertices[i] {
                VertexPos::Rim { step, steps, radius: r } => step == i - 1 && steps == segments && r == radius,
                VertexPos::Grid { .. } => false,
            },
{
    let m = circle_model(segments, radius);
    assert forall|k: int| 0 <= k < m.corner_count() implies 0 <= #[trigger] m.corner(k) < m.vertices.len() by {
        assert(0 <= circle_index(segments as int, k) <= segments);
    }
}

} // verus!
