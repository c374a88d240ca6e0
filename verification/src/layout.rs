//! Layout of an interleaved vertex buffer: where each attribute starts within
//! a vertex, how far apart vertices are, and how many bytes the buffer takes.

use vstd::prelude::*;

verus! {

/// Where one vertex attribute lies within each vertex.
#[derive(Clone, Copy, Debug, PartialEq, Eq, Structural)]
pub struct AttributePointer {
    /// The attribute's location in the shader.
    pub location: usize,
    /// How many components the attribute has.
    pub components: i32,
    /// Byte offset of the attribute from the start of a vertex.
    pub offset: usize,
}

/// Byte distance between consecutive vertices, and the attributes in order.
pub struct VertexLayout {
    pub stride: i32,
    pub attributes: Vec<AttributePointer>,
}

/// The sum of a sequence of component counts.
pub open spec fn sum_components(components: Seq<u32>) -> int
    decreases components.len(),
{
    if components.len() == 0 {
        0
    } else {
        sum_components(components.drop_last()) + components.last()
    }
}

/// Whether a vertex of these attributes, at `component_bytes` per component,
/// has a stride and component counts that a `GLint` can hold.
pub open spec fn layout_fits(components: Seq<u32>, component_bytes: u32) -> bool {
    &&& sum_components(components) <= i32::MAX
    &&& sum_components(components) * component_bytes <= i32::MAX
}

/// A prefix of component counts sums to no more than the whole.
proof fn lemma_prefix_sum_le(components: Seq<u32>, i: int)
    requires
        0 <= i <= components.len(),
    ensures
        sum_components(components.take(i)) <= sum_components(components),
    decreases components.len(),
{
    if i < components.len() {
        assert(components.take(i) =~= components.drop_last().take(i));
        lemma_prefix_sum_le(components.drop_last(), i);
    } else {
        assert(components.take(i) =~= components);
    }
}

/// Lays out attributes with the given component counts one after another in
/// each vertex, in the order given, at `component_bytes` bytes per component.
/// Attribute `i` gets location `i`. Gives `None` when the stride or a
/// component count would not fit in a `GLint`.
pub fn interleaved_layout(components: &Vec<u32>, component_bytes: u32) -> (layout: Option<
    VertexLayout,
>)
    ensures
        layout is Some <==> layout_fits(components@, component_bytes),
        layout is Some <==> (sum_components(components@) <= i32::MAX && sum_components(components@)
            * component_bytes <= i32::MAX),
        layout matches Some(l) ==> {
            &&& components@.len() == 0 ==> l.stride == 0
            &&& components@.len() > 0 ==> l.attributes@[0].offset == 0
            &&& components@.len() > 0 ==> l.stride == l.attributes@.last().offset
                + components@.last() * component_bytes
            &&& forall|i: int|
                0 <= i < components@.len() - 1 ==> #[trigger] l.attributes@[i + 1].offset
                    == l.attributes@[i].offset + components@[i] * component_bytes
        },
        layout matches Some(l) ==> {
            &&& l.stride == sum_components(components@) * component_bytes
            &&& l.attributes@.len() == components@.len()
            &&& forall|i: int|
                0 <= i < components@.len() ==> {
                    &&& (#[trigger] l.attributes@[i]).location == i
                    &&& l.attributes@[i].components == components@[i]
                    &&& l.attributes@[i].offset == sum_components(components@.take(i))
                        * component_bytes
                }
        },
{
    let n = components.len();
    let mut attributes: Vec<AttributePointer> = Vec::new();
    let mut total: u64 = 0;
    let mut total_bytes: u64 = 0;
    let mut i: usize = 0;
    while i < n
        invariant
            n == components@.len(),
            i <= n,
            total == sum_components(components@.take(i as int)),
            total <= i32::MAX,
            total_bytes == total * component_bytes,
            total_bytes <= i32::MAX,
            attributes@.len() == i,
            forall|k: int|
                0 <= k < i ==> {
                    &&& (#[trigger] attributes@[k]).location == k
                    &&& attributes@[k].components == components@[k]
                    &&& attributes@[k].offset == sum_components(components@.take(k))
                        * component_bytes
                },
        decreases n - i,
    {
        let c = components[i];
        assert(components@.take(i + 1).drop_last() =~= components@.take(i as int));
        let next = total + c as u64;
        assert(c * component_bytes <= 0xffff_ffffu64 * 0xffff_ffffu64) by (nonlinear_arith)
            requires
                c <= 0xffff_ffffu64,
                component_bytes <= 0xffff_ffffu64,
        ;
        let c_bytes = c as u64 * component_bytes as u64;
        let next_bytes = total_bytes + c_bytes;
        assert(next_bytes == next * component_bytes) by (nonlinear_arith)
            requires
                next_bytes == total_bytes + c_bytes,
                total_bytes == total * component_bytes,
                c_bytes == c * component_bytes,
                next == total + c,
        ;
        if next > 0x7fff_ffffu64 || next_bytes > 0x7fff_ffffu64 {
            proof {
                lemma_prefix_sum_le(components@, i + 1);
                let whole = sum_components(components@);
                assert(next * component_bytes <= whole * component_bytes) by (nonlinear_arith)
                    requires
                        next <= whole,
                ;
            }
            return None;
        }
        attributes.push(
            AttributePointer { location: i, components: c as i32, offset: total_bytes as usize },
        );
        total = next;
        total_bytes = next_bytes;
        i = i + 1;
    }
    assert(components@.take(n as int) =~= components@);
    proof {
        assert(components@.take(0) =~= Seq::<u32>::empty());
        assert forall|k: int| 0 <= k < n implies #[trigger] sum_components(components@.take(k + 1))
            * component_bytes == sum_components(components@.take(k)) * component_bytes
            + components@[k] * component_bytes by {
            crate::laws::lemma_attributes_tile_vertex(components@, component_bytes, k);
        }
        if n > 0 {
            crate::laws::lemma_attributes_tile_vertex(components@, component_bytes, n - 1);
            assert(components@.take(n - 1 + 1) =~= components@.take(n as int));
            assert(sum_components(components@.take(n as int)) * component_bytes == sum_components(
                components@.take(n - 1),
            ) * component_bytes + components@[n - 1] * component_bytes);
        }
        assert forall|i: int| 0 <= i < n - 1 implies #[trigger] attributes@[i + 1].offset
            == attributes@[i].offset + components@[i] * component_bytes by {
            assert(sum_components(components@.take(i + 1)) * component_bytes == sum_components(
                components@.take(i),
            ) * component_bytes + components@[i] * component_bytes);
        }
    }
    Some(VertexLayout { stride: total_bytes as i32, attributes })
}

/// The byte size of a buffer of `count` elements of `element_bytes` bytes each,
/// as the `GLsizeiptr` that uploading it takes; `None` when it does not fit.
pub fn buffer_size(count: usize, element_bytes: usize) -> (size: Option<isize>)
    ensures
        size is Some <==> count * element_bytes <= isize::MAX,
        size matches Some(s) ==> s == count * element_bytes,
{
    match count.checked_mul(element_bytes) {
        Some(bytes) => {
            if bytes <= isize::MAX as usize {
                Some(bytes as isize)
            } else {
                None
            }
        },
        None => {
            assert(count * element_bytes > isize::MAX);
            None
        },
    }
}

} // verus!
