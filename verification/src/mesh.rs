//! Vertex layouts: attribute type tags, the byte stride of an interleaved
//! vertex, and the byte offset of each attribute within it.

use vstd::prelude::*;

verus! {

/// Just a vertex attribute types enum. Float, Vec2, etc.
#[derive(Clone, Copy, PartialEq, Eq, Structural, Debug)]
pub enum Attribute {
    Float,
    Vec2,
    Vec3,
    Vec4,

    Double,
    DVec2,
    DVec3,
    DVec4,

    Int,
    IVec2,
    IVec3,
    IVec4,

    UInt,
    UVec2,
    UVec3,
    UVec4,
}

impl Attribute {
    /// How many scalar components the attribute has (1 for scalars, up to 4
    /// for the widest vectors).
    pub open spec fn spec_component_count(self) -> nat {
        match self {
            Attribute::Float | Attribute::Double | Attribute::Int | Attribute::UInt => 1,
            Attribute::Vec2 | Attribute::DVec2 | Attribute::IVec2 | Attribute::UVec2 => 2,
            Attribute::Vec3 | Attribute::DVec3 | Attribute::IVec3 | Attribute::UVec3 => 3,
            Attribute::Vec4 | Attribute::DVec4 | Attribute::IVec4 | Attribute::UVec4 => 4,
        }
    }

    /// The size in bytes of one scalar component: 8 for double-precision
    /// attributes, 4 for all others.
    pub open spec fn spec_component_size(self) -> nat {
        match self {
            Attribute::Double | Attribute::DVec2 | Attribute::DVec3 | Attribute::DVec4 => 8,
            _ => 4,
        }
    }

    /// The size in bytes of the whole attribute.
    pub open spec fn spec_size_in_bytes(self) -> nat {
        self.spec_component_count() * self.spec_component_size()
    }

    /// Returns size in bytes of current attribute.
    /// # Example
    /// **[Attribute::Float] = 4 bytes**
    /// **[Attribute::DVec2] = 16 bytes**
    pub fn size_in_bytes(&self) -> (size: usize)
        ensures
            size == self.spec_size_in_bytes(),
            4 <= size <= 32,
    {
        match self {
            Attribute::Float => 4,
            Attribute::Vec2 => 2 * 4,
            Attribute::Vec3 => 3 * 4,
            Attribute::Vec4 => 4 * 4,

            Attribute::Double => 8,
            Attribute::DVec2 => 2 * 8,
            Attribute::DVec3 => 3 * 8,
            Attribute::DVec4 => 4 * 8,

            Attribute::Int => 4,
            Attribute::IVec2 => 2 * 4,
            Attribute::IVec3 => 3 * 4,
            Attribute::IVec4 => 4 * 4,

            Attribute::UInt => 4,
            Attribute::UVec2 => 2 * 4,
            Attribute::UVec3 => 3 * 4,
            Attribute::UVec4 => 4 * 4,
        }
    }

    /// How many scalar components the attribute has, as an executable value.
    pub fn component_count(&self) -> (count: usize)
        ensures
            count == self.spec_component_count(),
            1 <= count <= 4,
    {
        match self {
            Attribute::Float | Attribute::Double | Attribute::Int | Attribute::UInt => 1,
            Attribute::Vec2 | Attribute::DVec2 | Attribute::IVec2 | Attribute::UVec2 => 2,
            Attribute::Vec3 | Attribute::DVec3 | Attribute::IVec3 | Attribute::UVec3 => 3,
            Attribute::Vec4 | Attribute::DVec4 | Attribute::IVec4 | Attribute::UVec4 => 4,
        }
    }
}

/// The byte stride of one interleaved vertex under the given attributes: the
/// sum of their sizes in bytes.
pub open spec fn spec_stride(attrs: Seq<Attribute>) -> nat
    decreases attrs.len(),
{
    if attrs.len() == 0 {
        0
    } else {
        spec_stride(attrs.drop_last()) + attrs.last().spec_size_in_bytes()
    }
}

/// The byte offset of attribute `i` within one interleaved vertex: the sum
/// of the sizes of the attributes before it.
pub open spec fn spec_offset(attrs: Seq<Attribute>, i: int) -> nat {
    spec_stride(attrs.take(i))
}

/// Offsets are the partial sums of the attribute sizes: each attribute's
/// offset is the previous attribute's offset plus that attribute's size, and
/// the offset just past the last attribute is the whole stride.
pub proof fn lemma_offsets_are_partial_sums(attrs: Seq<Attribute>, i: int)
    requires
        0 <= i < attrs.len(),
    ensures
        spec_offset(attrs, i + 1) == spec_offset(attrs, i) + attrs[i].spec_size_in_bytes(),
        spec_offset(attrs, attrs.len() as int) == spec_stride(attrs),
{
    assert(attrs.take(i + 1).drop_last() =~= attrs.take(i));
    assert(attrs.take(attrs.len() as int) =~= attrs);
}

/// A prefix of the attributes never has a larger stride than the whole.
proof fn lemma_stride_of_prefix(attrs: Seq<Attribute>, i: int)
    requires
        0 <= i <= attrs.len(),
    ensures
        spec_stride(attrs.take(i)) <= spec_stride(attrs),
    decreases attrs.len(),
{
    if i == attrs.len() {
        assert(attrs.take(i) =~= attrs);
    } else if attrs.len() > 0 {
        assert(attrs.drop_last().take(i) =~= attrs.take(i));
        lemma_stride_of_prefix(attrs.drop_last(), i);
    }
}

/// One entry of the pointer layout built from a [Layout]: which attribute
/// stands at which index, and at which byte offset within a vertex it
/// begins.
pub struct AttributePointer {
    /// The attribute's index in the layout (its shader location).
    pub index: usize,
    /// The attribute itself.
    pub attribute: Attribute,
    /// The byte offset of the attribute's first component within one
    /// interleaved vertex.
    pub offset: usize,
}

/// A system for creating custom layouts for meshes.
pub struct Layout {
    attributes: Vec<Attribute>,
}

impl View for Layout {
    type V = Seq<Attribute>;

    closed spec fn view(&self) -> Seq<Attribute> {
        self.attributes@
    }
}

impl Layout {
    /// Best for 3D games with more improved graphics.
    /// # Layout
    /// position: [Attribute::Vec3]
    /// uv: [Attribute::Vec2]
    /// normal: [Attribute::Vec3]
    pub fn default_3d() -> (r: Self)
        ensures
            r@ == seq![Attribute::Vec3, Attribute::Vec2, Attribute::Vec3],
    {
        let r = Layout { attributes: vec![Attribute::Vec3, Attribute::Vec2, Attribute::Vec3] };
        proof {
            assert(r@ =~= seq![Attribute::Vec3, Attribute::Vec2, Attribute::Vec3]);
        }
        r
    }

    /// Best for 3D games with workbench graphics.
    /// # Layout
    /// position: [Attribute::Vec3]
    /// normal: [Attribute::Vec3]
    pub fn simple_3d() -> (r: Self)
        ensures
            r@ == seq![Attribute::Vec3, Attribute::Vec3],
    {
        let r = Layout { attributes: vec![Attribute::Vec3, Attribute::Vec3] };
        proof {
            assert(r@ =~= seq![Attribute::Vec3, Attribute::Vec3]);
        }
        r
    }

    /// Best for 2D games with simple graphics.
    /// # Layout
    /// position: [Attribute::Vec2]
    /// uv: [Attribute::Vec2]
    pub fn default_2d() -> (r: Self)
        ensures
            r@ == seq![Attribute::Vec2, Attribute::Vec2],
    {
        let r = Layout { attributes: vec![Attribute::Vec2, Attribute::Vec2] };
        proof {
            assert(r@ =~= seq![Attribute::Vec2, Attribute::Vec2]);
        }
        r
    }

    /// Best for 2D games with workbench graphics.
    /// position: [Attribute::Vec2]
    pub fn basic_2d() -> (r: Self)
        ensures
            r@ == seq![Attribute::Vec2],
    {
        let r = Layout { attributes: vec![Attribute::Vec2] };
        proof {
            assert(r@ =~= seq![Attribute::Vec2]);
        }
        r
    }

    /// Set next vertex attribute.
    /// # Example
    /// ```
    /// Layout::default()
    ///     .next_attribute(Attribute::Vec3) // Position [layout(location=0)]
    ///     .next_attribute(Attribute::Vec2) // UV [layout(location=1)]
    /// ```
    pub fn next_attribute(self, attribute: Attribute) -> (r: Self)
        ensures
            r@ == self@.push(attribute),
    {
        let mut this = self;
        this.attributes.push(attribute);
        this
    }

    /// Returns all attributes built using [Layout::next_attribute()]
    pub fn attributes(&self) -> (r: &[Attribute])
        ensures
            r@ == self@,
    {
        self.attributes.as_slice()
    }

    /// Returns size in bytes of one interleaved vertex under this layout:
    /// the sum of the attribute sizes.
    pub fn stride_in_bytes(&self) -> (stride: usize)
        requires
            spec_stride(self@) <= usize::MAX,
        ensures
            stride == spec_stride(self@),
    {
        let mut stride: usize = 0;
        let mut i: usize = 0;
        while i < self.attributes.len()
            invariant
                i <= self.attributes.len(),
                spec_stride(self@) <= usize::MAX,
                stride == spec_stride(self@.take(i as int)),
            decreases self.attributes.len() - i,
        {
            proof {
                lemma_offsets_are_partial_sums(self@, i as int);
                lemma_stride_of_prefix(self@, i + 1);
            }
            stride = stride + self.attributes[i].size_in_bytes();
            i = i + 1;
        }
        proof {
            assert(self@.take(self@.len() as int) =~= self@);
        }
        stride
    }

    /// Builds the pointer layout for this layout's attributes: attribute `i`
    /// keeps its index and gets the byte offset at which it begins within one
    /// interleaved vertex, the sum of the sizes of the attributes before it.
    pub fn attribute_pointers(&self) -> (pointers: Vec<AttributePointer>)
        requires
            spec_stride(self@) <= usize::MAX,
        ensures
            pointers@.len() == self@.len(),
            forall|i: int|
                0 <= i < self@.len() ==> {
                    &&& (#[trigger] pointers@[i]).index == i
                    &&& pointers@[i].attribute == self@[i]
                    &&& pointers@[i].offset == spec_offset(self@, i)
                },
    {
        let mut pointers: Vec<AttributePointer> = Vec::new();
        let mut offset: usize = 0;
        let mut i: usize = 0;
        while i < self.attributes.len()
            invariant
                i <= self.attributes.len(),
                spec_stride(self@) <= usize::MAX,
                offset == spec_offset(self@, i as int),
                pointers@.len() == i,
                forall|k: int|
                    0 <= k < i ==> {
                        &&& (#[trigger] pointers@[k]).index == k
                        &&& pointers@[k].attribute == self@[k]
                        &&& pointers@[k].offset == spec_offset(self@, k)
                    },
            decreases self.attributes.len() - i,
        {
            proof {
                lemma_offsets_are_partial_sums(self@, i as int);
                lemma_stride_of_prefix(self@, i + 1);
            }
            let attribute = self.attributes[i];
            pointers.push(AttributePointer { index: i, attribute, offset });
            offset = offset + attribute.size_in_bytes();
            i = i + 1;
        }
        pointers
    }

    /// How many whole vertices a flat buffer of the given byte size holds
    /// under this layout. Trailing bytes that do not fill a vertex are not
    /// counted.
    pub fn vertex_count(&self, data_size_in_bytes: usize) -> (count: usize)
        requires
            spec_stride(self@) > 0,
            spec_stride(self@) <= usize::MAX,
        ensures
            count == data_size_in_bytes as nat / spec_stride(self@),
    {
        data_size_in_bytes / self.stride_in_bytes()
    }
}

impl Default for Layout {
    /// An empty layout with no attributes; chain [Layout::next_attribute]
    /// onto it.
    fn default() -> (r: Self)
        ensures
            r@ == Seq::<Attribute>::empty(),
    {
        let r = Layout { attributes: Vec::new() };
        proof {
            assert(r@ =~= Seq::<Attribute>::empty());
        }
        r
    }
}

/// The six indices of the sphere quad at latitude row `i` and longitude
/// column `j` stand at their place in `s`: two triangles over the grid
/// corners `current`, `next` (the same column one row down), and their right
/// neighbours.
pub open spec fn spec_sphere_quad(x_divisions: int, s: Seq<u32>, i: int, j: int) -> bool {
    let base = 6 * (i * x_divisions + j);
    let current = i * (x_divisions + 1) + j;
    let next = current + x_divisions + 1;
    &&& s[base] == current
    &&& s[base + 1] == next
    &&& s[base + 2] == current + 1
    &&& s[base + 3] == next
    &&& s[base + 4] == next + 1
    &&& s[base + 5] == current + 1
}

/// The triangle indices of a sphere mesh whose vertices form a grid of
/// `y_divisions + 1` latitude rows with `x_divisions + 1` vertices each, row
/// by row. Every grid cell becomes two triangles, six indices, so quad
/// `(i, j)` begins at position `6 * (i * x_divisions + j)`. Every index is
/// smaller than the number of grid vertices.
pub fn sphere_indices(x_divisions: usize, y_divisions: usize) -> (indices: Vec<u32>)
    requires
        (x_divisions + 1) * (y_divisions + 1) <= u32::MAX,
    ensures
        indices@.len() == 6 * x_divisions * y_divisions,
        forall|i: int, j: int|
            0 <= i < y_divisions && 0 <= j < x_divisions ==> spec_sphere_quad(
                x_divisions as int,
                indices@,
                i,
                j,
            ),
        forall|k: int|
            0 <= k < indices@.len() ==> #[trigger] indices@[k] < (x_divisions + 1) * (y_divisions
                + 1),
{
    let ghost x = x_divisions as int;
    let ghost y = y_divisions as int;
    let ghost grid = (x + 1) * (y + 1);
    let mut indices: Vec<u32> = Vec::new();
    let mut i: usize = 0;
    while i < y_divisions
        invariant
            i <= y_divisions,
            (x + 1) * (y + 1) <= u32::MAX,
            x == x_divisions as int,
            y == y_divisions as int,
            grid == (x + 1) * (y + 1),
            indices@.len() == 6 * (i * x),
            forall|a: int, b: int|
                0 <= a < i && 0 <= b < x ==> spec_sphere_quad(x, indices@, a, b),
            forall|k: int| 0 <= k < indices@.len() ==> #[trigger] indices@[k] < grid,
        decreases y_divisions - i,
    {
        let mut j: usize = 0;
        while j < x_divisions
            invariant
                i < y_divisions,
                j <= x_divisions,
                (x + 1) * (y + 1) <= u32::MAX,
                x == x_divisions as int,
                y == y_divisions as int,
                grid == (x + 1) * (y + 1),
                indices@.len() == 6 * (i * x + j),
                forall|a: int, b: int|
                    0 <= a < i && 0 <= b < x ==> spec_sphere_quad(x, indices@, a, b),
                forall|b: int| 0 <= b < j ==> spec_sphere_quad(x, indices@, i as int, b),
                forall|k: int| 0 <= k < indices@.len() ==> #[trigger] indices@[k] < grid,
            decreases x_divisions - j,
        {
            proof {
                assert(x + 1 <= (x + 1) * (y + 1) && i * (x + 1) + x + j + 3 <= (x + 1) * (y + 1))
                    by (nonlinear_arith)
                    requires
                        0 <= i < y,
                        0 <= j < x,
                ;
            }
            let current: usize = i * (x_divisions + 1) + j;
            let next: usize = current + x_divisions + 1;

            let ghost before = indices@;
            indices.push(current as u32);
            indices.push(next as u32);
            indices.push((current + 1) as u32);

            indices.push(next as u32);
            indices.push((next + 1) as u32);
            indices.push((current + 1) as u32);

            proof {
                assert forall|a: int, b: int| 0 <= a < i && 0 <= b < x implies spec_sphere_quad(
                    x,
                    indices@,
                    a,
                    b,
                ) by {
                    assert(a * x + b < i * x + j) by (nonlinear_arith)
                        requires
                            0 <= a < i,
                            0 <= b < x,
                            0 <= j,
                    ;
                    assert(spec_sphere_quad(x, before, a, b));
                }
                assert forall|b: int| 0 <= b <= j implies spec_sphere_quad(
                    x,
                    indices@,
                    i as int,
                    b,
                ) by {
                    if b < j {
                        assert(spec_sphere_quad(x, before, i as int, b));
                    }
                }
            }
            j = j + 1;
        }
        proof {
            assert(6 * (i * x + x) == 6 * ((i + 1) * x)) by (nonlinear_arith);
        }
        i = i + 1;
    }
    proof {
        assert(6 * (y * x) == 6 * x * y) by (nonlinear_arith);
    }
    indices
}

/// The six indices of cube face `f` stand at their place in `s`: the two
/// triangles `(4f, 4f+1, 4f+2)` and `(4f, 4f+2, 4f+3)` over the face's four
/// vertices.
pub open spec fn spec_cube_face(s: Seq<u32>, f: int) -> bool {
    &&& s[6 * f] == 4 * f
    &&& s[6 * f + 1] == 4 * f + 1
    &&& s[6 * f + 2] == 4 * f + 2
    &&& s[6 * f + 3] == 4 * f
    &&& s[6 * f + 4] == 4 * f + 2
    &&& s[6 * f + 5] == 4 * f + 3
}

/// The 36 triangle indices of a cube mesh of 24 vertices, four per face:
/// face `f` becomes the two triangles `(4f, 4f+1, 4f+2)` and
/// `(4f, 4f+2, 4f+3)`.
pub fn cube_indices() -> (indices: Vec<u32>)
    ensures
        indices@.len() == 36,
        forall|f: int| 0 <= f < 6 ==> #[trigger] spec_cube_face(indices@, f),
        forall|k: int| 0 <= k < indices@.len() ==> #[trigger] indices@[k] < 24,
{
    let mut indices: Vec<u32> = Vec::new();
    let mut f: usize = 0;
    while f < 6
        invariant
            f <= 6,
            indices@.len() == 6 * f,
            forall|g: int| 0 <= g < f ==> #[trigger] spec_cube_face(indices@, g),
            forall|k: int| 0 <= k < indices@.len() ==> #[trigger] indices@[k] < 24,
        decreases 6 - f,
    {
        let ghost before = indices@;
        let corner: u32 = 4 * (f as u32);
        indices.push(corner);
        indices.push(corner + 1);
        indices.push(corner + 2);

        indices.push(corner);
        indices.push(corner + 2);
        indices.push(corner + 3);
        proof {
            assert(indices@[6 * (f as int)] == corner);
            assert(indices@[6 * (f as int) + 1] == corner + 1);
            assert(indices@[6 * (f as int) + 2] == corner + 2);
            assert(indices@[6 * (f as int) + 3] == corner);
            assert(indices@[6 * (f as int) + 4] == corner + 2);
            assert(indices@[6 * (f as int) + 5] == corner + 3);
            assert(spec_cube_face(indices@, f as int));
            assert forall|g: int| 0 <= g < f implies spec_cube_face(indices@, g) by {
                assert(spec_cube_face(before, g));
                assert(indices@[6 * g] == before[6 * g]);
                assert(indices@[6 * g + 1] == before[6 * g + 1]);
                assert(indices@[6 * g + 2] == before[6 * g + 2]);
                assert(indices@[6 * g + 3] == before[6 * g + 3]);
                assert(indices@[6 * g + 4] == before[6 * g + 4]);
                assert(indices@[6 * g + 5] == before[6 * g + 5]);
            }
        }
        f = f + 1;
    }
    indices
}

/// Component `c` of gathered vertex `k` equals component `c` of the vertex
/// that index `k` points at in the flat vertex buffer.
pub open spec fn spec_gathered<T>(
    r: Seq<T>,
    vertices: Seq<T>,
    indices: Seq<u32>,
    comps: int,
    k: int,
    c: int,
) -> bool {
    r[k * comps + c] == vertices[indices[k] * comps + c]
}

/// Flattens an indexed vertex list: for every index in order, the indexed
/// vertex's `components_per_vertex` scalars are copied from the flat vertex
/// buffer into the result. Every index must point at a whole vertex inside
/// the buffer.
pub fn gather_vertices<T: Copy>(
    indices: &Vec<u32>,
    vertices: &Vec<T>,
    components_per_vertex: usize,
) -> (r: Vec<T>)
    requires
        forall|k: int|
            0 <= k < indices@.len() ==> (#[trigger] indices@[k] + 1) * components_per_vertex
                <= vertices@.len(),
        indices@.len() * components_per_vertex <= usize::MAX,
    ensures
        r@.len() == indices@.len() * components_per_vertex,
        forall|k: int, c: int|
            0 <= k < indices@.len() && 0 <= c < components_per_vertex ==> #[trigger] spec_gathered(
                r@,
                vertices@,
                indices@,
                components_per_vertex as int,
                k,
                c,
            ),
{
    let ghost comps = components_per_vertex as int;
    let mut r: Vec<T> = Vec::new();
    let mut k: usize = 0;
    while k < indices.len()
        invariant
            k <= indices@.len(),
            comps == components_per_vertex as int,
            forall|k2: int|
                0 <= k2 < indices@.len() ==> (#[trigger] indices@[k2] + 1) * comps
                    <= vertices@.len(),
            indices@.len() * comps <= usize::MAX,
            r@.len() == k * comps,
            forall|k2: int, c: int|
                0 <= k2 < k && 0 <= c < comps ==> #[trigger] spec_gathered(
                    r@,
                    vertices@,
                    indices@,
                    comps,
                    k2,
                    c,
                ),
        decreases indices@.len() - k,
    {
        proof {
            assert(vertices.len() == vertices@.len());
            assert((indices@[k as int] + 1) * comps <= vertices@.len());
            assert((indices@[k as int] + 1) * comps == indices@[k as int] * comps + comps)
                by (nonlinear_arith);
            assert((k + 1) * comps <= indices@.len() * comps) by (nonlinear_arith)
                requires
                    0 <= k < indices@.len(),
                    0 <= comps,
            ;
            assert((k + 1) * comps == k * comps + comps) by (nonlinear_arith);
        }
        let base: usize = (indices[k] as usize) * components_per_vertex;
        let ghost before_row = r@;
        let ghost row_start = r@.len() as int;
        let mut c: usize = 0;
        while c < components_per_vertex
            invariant
                c <= components_per_vertex,
                comps == components_per_vertex as int,
                base == indices@[k as int] * comps,
                base + comps <= vertices@.len(),
                vertices@.len() <= usize::MAX,
                k < indices@.len(),
                row_start == k * comps,
                before_row.len() == row_start,
                r@ == before_row + vertices@.subrange(base as int, base + c),
            decreases components_per_vertex - c,
        {
            r.push(vertices[base + c]);
            proof {
                assert(vertices@.subrange(base as int, base + c + 1) =~= vertices@.subrange(
                    base as int,
                    base + c,
                ).push(vertices@[base + c]));
                assert(r@ =~= before_row + vertices@.subrange(base as int, base + c + 1));
            }
            c = c + 1;
        }
        proof {
            assert forall|k2: int, c2: int| 0 <= k2 < k + 1 && 0 <= c2 < comps implies
                #[trigger] spec_gathered(r@, vertices@, indices@, comps, k2, c2) by {
                if k2 < k {
                    assert(k2 * comps + comps <= k * comps) by (nonlinear_arith)
                        requires
                            0 <= k2 < k,
                            0 <= comps,
                    ;
                    assert(spec_gathered(before_row, vertices@, indices@, comps, k2, c2));
                    assert(r@[k2 * comps + c2] == before_row[k2 * comps + c2]);
                } else {
                    assert(r@[k2 * comps + c2] == vertices@.subrange(
                        base as int,
                        base + comps,
                    )[c2]);
                }
            }
        }
        k = k + 1;
    }
    r
}

} // verus!
