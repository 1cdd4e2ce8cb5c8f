//! The data types of block members, and the memory layout of a uniform
//! block as the host has to write it.

use vstd::prelude::*;
use crate::text::same_text;

verus! {

/// The type of a block member.
#[derive(Clone, Copy, Debug, PartialEq, Eq, Structural)]
pub enum GlslType {
    Float,
    Int,
    UInt,
    Vec2,
    Vec3,
    Vec4,
    Mat2,
    Mat3,
    Mat4,
}

impl GlslType {
    /// The bytes that a member of this type takes in a uniform block. The
    /// columns of a matrix take 16 bytes each.
    pub open spec fn size_spec(self) -> nat {
        match self {
            GlslType::Float | GlslType::Int | GlslType::UInt => 4,
            GlslType::Vec2 => 8,
            GlslType::Vec3 => 12,
            GlslType::Vec4 => 16,
            GlslType::Mat2 => 32,
            GlslType::Mat3 => 48,
            GlslType::Mat4 => 64,
        }
    }

    /// The alignment of a member of this type in a uniform block: 16 bytes
    /// for matrices and for vectors of three or four components.
    pub open spec fn align_spec(self) -> nat {
        match self {
            GlslType::Float | GlslType::Int | GlslType::UInt => 4,
            GlslType::Vec2 => 8,
            _ => 16,
        }
    }

    /// The bytes that a value of this type takes in a vertex buffer, where
    /// nothing is padded.
    pub open spec fn packed_size_spec(self) -> nat {
        match self {
            GlslType::Float | GlslType::Int | GlslType::UInt => 4,
            GlslType::Vec2 => 8,
            GlslType::Vec3 => 12,
            GlslType::Vec4 => 16,
            GlslType::Mat2 => 16,
            GlslType::Mat3 => 36,
            GlslType::Mat4 => 64,
        }
    }

    /// The number of consecutive input or output locations that a member of
    /// this type takes: one for each column of a matrix, else one.
    pub open spec fn slots_spec(self) -> nat {
        match self {
            GlslType::Mat2 => 2,
            GlslType::Mat3 => 3,
            GlslType::Mat4 => 4,
            _ => 1,
        }
    }

    /// Whether the type is a matrix.
    pub open spec fn is_matrix_spec(self) -> bool {
        self == GlslType::Mat2 || self == GlslType::Mat3 || self == GlslType::Mat4
    }

    /// The type's name in shader source.
    pub open spec fn name_spec(self) -> Seq<char> {
        match self {
            GlslType::Float => "float"@,
            GlslType::Int => "int"@,
            GlslType::UInt => "uint"@,
            GlslType::Vec2 => "vec2"@,
            GlslType::Vec3 => "vec3"@,
            GlslType::Vec4 => "vec4"@,
            GlslType::Mat2 => "mat2"@,
            GlslType::Mat3 => "mat3"@,
            GlslType::Mat4 => "mat4"@,
        }
    }

    /// The type that `name` denotes in shader source, if any.
    pub open spec fn from_name_spec(name: Seq<char>) -> Option<GlslType> {
        if name == "float"@ {
            Some(GlslType::Float)
        } else if name == "int"@ {
            Some(GlslType::Int)
        } else if name == "uint"@ {
            Some(GlslType::UInt)
        } else if name == "vec2"@ {
            Some(GlslType::Vec2)
        } else if name == "vec3"@ {
            Some(GlslType::Vec3)
        } else if name == "vec4"@ {
            Some(GlslType::Vec4)
        } else if name == "mat2"@ {
            Some(GlslType::Mat2)
        } else if name == "mat3"@ {
            Some(GlslType::Mat3)
        } else if name == "mat4"@ {
            Some(GlslType::Mat4)
        } else {
            None
        }
    }

    /// Returns the size of a member of this type in a uniform block.
    pub fn size(&self) -> (n: usize)
        ensures
            n == self.size_spec(),
    {
        match self {
            GlslType::Float | GlslType::Int | GlslType::UInt => 4,
            GlslType::Vec2 => 8,
            GlslType::Vec3 => 12,
            GlslType::Vec4 => 16,
            GlslType::Mat2 => 32,
            GlslType::Mat3 => 48,
            GlslType::Mat4 => 64,
        }
    }

    /// Returns the alignment of a member of this type in a uniform block.
    pub fn align(&self) -> (n: usize)
        ensures
            n == self.align_spec(),
    {
        match self {
            GlslType::Float | GlslType::Int | GlslType::UInt => 4,
            GlslType::Vec2 => 8,
            _ => 16,
        }
    }

    /// Returns the size of a value of this type in a vertex buffer.
    pub fn packed_size(&self) -> (n: usize)
        ensures
            n == self.packed_size_spec(),
    {
        match self {
            GlslType::Float | GlslType::Int | GlslType::UInt => 4,
            GlslType::Vec2 => 8,
            GlslType::Vec3 => 12,
            GlslType::Vec4 => 16,
            GlslType::Mat2 => 16,
            GlslType::Mat3 => 36,
            GlslType::Mat4 => 64,
        }
    }

    /// Returns the number of locations that a member of this type takes.
    pub fn slots(&self) -> (n: usize)
        ensures
            n == self.slots_spec(),
    {
        match self {
            GlslType::Mat2 => 2,
            GlslType::Mat3 => 3,
            GlslType::Mat4 => 4,
            _ => 1,
        }
    }

    /// Tells whether the type is a matrix.
    pub fn is_matrix(&self) -> (r: bool)
        ensures
            r == self.is_matrix_spec(),
    {
        match self {
            GlslType::Mat2 | GlslType::Mat3 | GlslType::Mat4 => true,
            _ => false,
        }
    }

    /// Returns the type's name in shader source.
    pub fn name(&self) -> (name: &'static str)
        ensures
            name@ == self.name_spec(),
    {
        match self {
            GlslType::Float => "float",
            GlslType::Int => "int",
            GlslType::UInt => "uint",
            GlslType::Vec2 => "vec2",
            GlslType::Vec3 => "vec3",
            GlslType::Vec4 => "vec4",
            GlslType::Mat2 => "mat2",
            GlslType::Mat3 => "mat3",
            GlslType::Mat4 => "mat4",
        }
    }

    /// Returns the type that `name` denotes in shader source, if any.
    pub fn from_name(name: &str) -> (ty: Option<GlslType>)
        ensures
            ty == Self::from_name_spec(name@),
    {
        if same_text(name, "float") {
            Some(GlslType::Float)
        } else if same_text(name, "int") {
            Some(GlslType::Int)
        } else if same_text(name, "uint") {
            Some(GlslType::UInt)
        } else if same_text(name, "vec2") {
            Some(GlslType::Vec2)
        } else if same_text(name, "vec3") {
            Some(GlslType::Vec3)
        } else if same_text(name, "vec4") {
            Some(GlslType::Vec4)
        } else if same_text(name, "mat2") {
            Some(GlslType::Mat2)
        } else if same_text(name, "mat3") {
            Some(GlslType::Mat3)
        } else if same_text(name, "mat4") {
            Some(GlslType::Mat4)
        } else {
            None
        }
    }
}

/// The least multiple of `align` that is not below `n` (`n` itself for an
/// alignment of zero).
pub open spec fn round_up(n: nat, align: nat) -> nat {
    if align == 0 || n % align == 0 {
        n
    } else {
        (n + (align - n % align)) as nat
    }
}

/// The offset of member `i` of a uniform block whose members have the types
/// `types`: the first member starts the block, each later one starts at the
/// end of the one before it, rounded up to its own alignment.
pub open spec fn offset_spec(types: Seq<GlslType>, i: int) -> nat
    decreases i,
{
    if i <= 0 {
        0
    } else {
        round_up(offset_spec(types, i - 1) + types[i - 1].size_spec(), types[i].align_spec())
    }
}

/// The end of the last of the first `n` members: zero for none.
pub open spec fn end_spec(types: Seq<GlslType>, n: int) -> nat {
    if n <= 0 {
        0
    } else {
        offset_spec(types, n - 1) + types[n - 1].size_spec()
    }
}

/// The size of a uniform block: the end of its last member, rounded up to
/// a multiple of 16.
pub open spec fn block_size_spec(types: Seq<GlslType>) -> nat {
    round_up(end_spec(types, types.len() as int), 16)
}

/// The sum of the sizes of the first `n` members.
pub open spec fn sizes_sum(types: Seq<GlslType>, n: int) -> nat
    decreases n,
{
    if n <= 0 {
        0
    } else {
        sizes_sum(types, n - 1) + types[n - 1].size_spec()
    }
}

/// The gap that alignment leaves before member `i`.
pub open spec fn gap_spec(types: Seq<GlslType>, i: int) -> nat {
    (offset_spec(types, i) - end_spec(types, i)) as nat
}

/// The sum of the gaps before the first `n` members.
pub open spec fn gaps_sum(types: Seq<GlslType>, n: int) -> nat
    decreases n,
{
    if n <= 0 {
        0
    } else {
        gaps_sum(types, n - 1) + gap_spec(types, n - 1)
    }
}

/// Rounding up gives the least multiple of the alignment at or above the
/// number.
pub proof fn lemma_round_up(n: nat, align: nat)
    requires
        align > 0,
    ensures
        n <= round_up(n, align) < n + align,
        round_up(n, align) % align == 0,
{
    if n % align != 0 {
        let a = align as int;
        let m = n as int;
        let r = m % a;
        assert((m + (a - r)) % a == 0) by (nonlinear_arith)
            requires
                r == m % a,
                0 < r < a,
        ;
    }
}

/// Every member starts at or after the end of the member before it, at a
/// multiple of its alignment.
pub proof fn lemma_offset(types: Seq<GlslType>, i: int)
    requires
        0 <= i < types.len(),
    ensures
        end_spec(types, i) <= offset_spec(types, i) < end_spec(types, i) + types[i].align_spec(),
        offset_spec(types, i) % types[i].align_spec() == 0,
{
    if i > 0 {
        lemma_round_up(end_spec(types, i), types[i].align_spec());
    }
}

/// The offsets of a block's members do not decrease in the order of
/// declaration, and no member reaches into a later one.
pub proof fn lemma_offsets_monotonic(types: Seq<GlslType>, i: int, j: int)
    requires
        0 <= i < j < types.len(),
    ensures
        offset_spec(types, i) + types[i].size_spec() <= offset_spec(types, j),
        offset_spec(types, i) < offset_spec(types, j),
    decreases j - i,
{
    lemma_offset(types, j);
    if i + 1 < j {
        lemma_offsets_monotonic(types, i, j - 1);
    }
}

/// The end of the first `n` members is the sum of their sizes and of the
/// gaps before them.
pub proof fn lemma_end_is_sum(types: Seq<GlslType>, n: int)
    requires
        0 <= n <= types.len(),
    ensures
        end_spec(types, n) == sizes_sum(types, n) + gaps_sum(types, n),
    decreases n,
{
    if n > 0 {
        lemma_end_is_sum(types, n - 1);
        lemma_offset(types, n - 1);
    }
}

/// The size of a uniform block is the sum of its members' sizes and of the
/// gaps that their alignment asks for, rounded up to a multiple of 16; it
/// is a multiple of 16 and holds every member.
pub proof fn lemma_block_size(types: Seq<GlslType>)
    ensures
        block_size_spec(types) == round_up(
            sizes_sum(types, types.len() as int) + gaps_sum(types, types.len() as int),
            16,
        ),
        block_size_spec(types) % 16 == 0,
        sizes_sum(types, types.len() as int) <= block_size_spec(types),
        forall|i: int|
            0 <= i < types.len() ==> #[trigger] offset_spec(types, i) + types[i].size_spec()
                <= block_size_spec(types),
{
    let n = types.len() as int;
    lemma_end_is_sum(types, n);
    lemma_round_up(end_spec(types, n), 16);
    assert forall|i: int| 0 <= i < types.len() implies #[trigger] offset_spec(types, i)
        + types[i].size_spec() <= block_size_spec(types) by {
        if i < n - 1 {
            lemma_offsets_monotonic(types, i, n - 1);
        }
    }
}

/// Whether the size of every member is a multiple of 16, as it is for
/// matrices and for vectors of four components.
pub open spec fn all_full_width(types: Seq<GlslType>) -> bool {
    forall|i: int| 0 <= i < types.len() ==> (#[trigger] types[i]).size_spec() % 16 == 0
}

/// A block of members whose sizes are multiples of 16 has no gaps: its size
/// is the sum of the sizes of its members.
pub proof fn lemma_full_width_block(types: Seq<GlslType>, n: int)
    requires
        all_full_width(types),
        0 <= n <= types.len(),
    ensures
        end_spec(types, n) == sizes_sum(types, n),
        end_spec(types, n) % 16 == 0,
        n == types.len() ==> block_size_spec(types) == sizes_sum(types, n),
    decreases n,
{
    if n > 0 {
        lemma_full_width_block(types, n - 1);
        let t = types[n - 1];
        assert(t.size_spec() % 16 == 0);
        assert(t.align_spec() == 16);
        assert(offset_spec(types, n - 1) == end_spec(types, n - 1));
    }
}

/// Rounds `n` up to a multiple of `align`, if the result fits.
pub fn round_up_to(n: usize, align: usize) -> (r: Option<usize>)
    ensures
        r is Some <==> round_up(n as nat, align as nat) <= usize::MAX,
        r matches Some(v) ==> v == round_up(n as nat, align as nat),
{
    if align == 0 {
        return Some(n);
    }
    let rest = n % align;
    if rest == 0 {
        Some(n)
    } else {
        n.checked_add(align - rest)
    }
}

/// The layout of a uniform block: the offset of each member, and the size
/// of the block.
#[derive(Debug)]
pub struct BlockLayout {
    pub offsets: Vec<usize>,
    pub size: usize,
}

impl BlockLayout {
    /// Whether this is the layout of a block with members of the types
    /// `types`.
    pub open spec fn is_layout_of(&self, types: Seq<GlslType>) -> bool {
        &&& self.offsets@.len() == types.len()
        &&& forall|i: int| 0 <= i < types.len() ==> self.offsets@[i] == offset_spec(types, i)
        &&& self.size == block_size_spec(types)
    }
}

/// Computes the layout of a uniform block with members of the given types,
/// in the order of declaration. There is none only where the block's size
/// does not fit the machine's address range.
pub fn block_layout(types: &Vec<GlslType>) -> (layout: Option<BlockLayout>)
    ensures
        layout is Some <==> block_size_spec(types@) <= usize::MAX,
        layout matches Some(l) ==> l.is_layout_of(types@),
{
    let mut offsets: Vec<usize> = Vec::new();
    let mut end: usize = 0;
    let mut i: usize = 0;
    while i < types.len()
        invariant
            i <= types.len(),
            offsets@.len() == i,
            forall|k: int| 0 <= k < i ==> offsets@[k] == offset_spec(types@, k),
            end == end_spec(types@, i as int),
        decreases types.len() - i,
    {
        let ty = types[i];
        let offset = match round_up_to(end, ty.align()) {
            Some(offset) => offset,
            None => {
                proof {
                    lemma_too_large(types@, i as int);
                }
                return None;
            },
        };
        assert(offset == offset_spec(types@, i as int));
        end = match offset.checked_add(ty.size()) {
            Some(end) => end,
            None => {
                proof {
                    lemma_too_large(types@, i as int);
                }
                return None;
            },
        };
        offsets.push(offset);
        i = i + 1;
    }
    match round_up_to(end, 16) {
        Some(size) => Some(BlockLayout { offsets, size }),
        None => None,
    }
}

/// The size of a block is at least the end of each of its members.
pub proof fn lemma_too_large(types: Seq<GlslType>, i: int)
    requires
        0 <= i < types.len(),
    ensures
        offset_spec(types, i) + types[i].size_spec() <= block_size_spec(types),
{
    lemma_block_size(types);
}

} // verus!
