//! The layout in host memory of the blocks for which bindings are
//! generated: what the host has to write, byte for byte.

use vstd::prelude::*;
use crate::annotation::{BindgenFieldType, BindgenStruct, BindgenStructView, MemberView};
use crate::bindgen::push_str;
use crate::layout::{GlslType, block_layout, block_size_spec, end_spec, gap_spec, lemma_block_size, lemma_offset, offset_spec};
use crate::report::{decimal, decimal_spec, push_all};
use crate::text::string_of;

verus! {

/// The types of a list of members.
pub open spec fn member_types(members: Seq<MemberView>) -> Seq<GlslType> {
    Seq::new(members.len(), |i: int| members[i].0)
}

/// The offset of element `i` in a vertex, where the values follow one
/// another without gaps.
pub open spec fn packed_offset(types: Seq<GlslType>, i: int) -> nat
    decreases i,
{
    if i <= 0 {
        0
    } else {
        packed_offset(types, i - 1) + types[i - 1].packed_size_spec()
    }
}

/// The packed offsets grow with the number of elements.
pub proof fn lemma_packed_monotonic(types: Seq<GlslType>, i: int, j: int)
    requires
        0 <= i <= j,
    ensures
        packed_offset(types, i) <= packed_offset(types, j),
    decreases j - i,
{
    if i < j {
        lemma_packed_monotonic(types, i, j - 1);
    }
}

/// The place of one member in host memory: its offset and size in bytes,
/// and the gap that is left before it.
#[derive(Debug)]
pub struct HostField {
    pub name: String,
    pub ty: GlslType,
    pub offset: usize,
    pub size: usize,
    pub gap: usize,
}

/// The mathematical value of a [`HostField`].
pub struct HostFieldView {
    pub name: Seq<char>,
    pub ty: GlslType,
    pub offset: nat,
    pub size: nat,
    pub gap: nat,
}

impl View for HostField {
    type V = HostFieldView;

    open spec fn view(&self) -> HostFieldView {
        HostFieldView {
            name: self.name@,
            ty: self.ty,
            offset: self.offset as nat,
            size: self.size as nat,
            gap: self.gap as nat,
        }
    }
}

/// The layout of a block in host memory.
#[derive(Debug)]
pub struct HostLayout {
    /// The name of the block's type.
    pub name: String,
    /// Whether the block is a uniform block, laid out by the rules for
    /// uniform buffers; the members of other blocks are packed.
    pub uniform: bool,
    pub fields: Vec<HostField>,
    /// The size of the whole block in bytes.
    pub size: usize,
}

/// Whether `s` is a uniform block.
pub open spec fn is_uniform(s: BindgenStructView) -> bool {
    s.meta.bind_type is Uniform
}

/// The place of member `i` of the block `s` in host memory.
pub open spec fn host_field_spec(s: BindgenStructView, i: int) -> HostFieldView {
    let types = member_types(s.members);
    if is_uniform(s) {
        HostFieldView {
            name: s.members[i].1,
            ty: types[i],
            offset: offset_spec(types, i),
            size: types[i].size_spec(),
            gap: gap_spec(types, i),
        }
    } else {
        HostFieldView {
            name: s.members[i].1,
            ty: types[i],
            offset: packed_offset(types, i),
            size: types[i].packed_size_spec(),
            gap: 0,
        }
    }
}

/// The size of the block `s` in host memory.
pub open spec fn host_size_spec(s: BindgenStructView) -> nat {
    let types = member_types(s.members);
    if is_uniform(s) {
        block_size_spec(types)
    } else {
        packed_offset(types, types.len() as int)
    }
}

/// The members of a block tile its host type: each begins where the one
/// before it ends, after the gap noted for it, and ends within the size of
/// the block.
pub proof fn lemma_fields_tile(s: BindgenStructView, i: int)
    requires
        0 <= i < s.members.len(),
    ensures
        host_field_spec(s, i).offset == (if i == 0 {
            0
        } else {
            host_field_spec(s, i - 1).offset + host_field_spec(s, i - 1).size
        }) + host_field_spec(s, i).gap,
        host_field_spec(s, i).offset + host_field_spec(s, i).size <= host_size_spec(s),
{
    let types = member_types(s.members);
    if is_uniform(s) {
        lemma_offset(types, i);
        lemma_block_size(types);
    } else {
        lemma_packed_monotonic(types, i + 1, types.len() as int);
    }
}

impl HostLayout {
    /// Whether this is the layout of the block `s`.
    pub open spec fn is_layout_of(&self, s: BindgenStructView) -> bool {
        &&& self.name@ == s.struct_name
        &&& self.uniform == is_uniform(s)
        &&& self.fields@.len() == s.members.len()
        &&& forall|i: int|
            0 <= i < s.members.len() ==> (#[trigger] self.fields@[i])@ == host_field_spec(s, i)
        &&& self.size == host_size_spec(s)
    }
}

impl BindgenStruct {
    /// Returns the types of the block's members, in order.
    pub fn types(&self) -> (types: Vec<GlslType>)
        ensures
            types@ == member_types(self@.members),
    {
        let mut types: Vec<GlslType> = Vec::new();
        let mut i: usize = 0;
        while i < self.members.len()
            invariant
                i <= self.members.len(),
                types@ == member_types(self@.members).take(i as int),
            decreases self.members.len() - i,
        {
            types.push(self.members[i].ty);
            assert(types@ =~= member_types(self@.members).take(i + 1));
            i = i + 1;
        }
        assert(member_types(self@.members).take(self.members.len() as int) =~= member_types(
            self@.members,
        ));
        types
    }

    /// Computes the layout of the block in host memory. There is none only
    /// where the block's size is beyond the machine's number range.
    pub fn host_layout(&self) -> (layout: Option<HostLayout>)
        ensures
            layout is Some <==> host_size_spec(self@) <= usize::MAX,
            layout matches Some(l) ==> l.is_layout_of(self@),
    {
        let types = self.types();
        let mut fields: Vec<HostField> = Vec::new();
        let n = self.members.len();
        let mut i: usize = 0;
        match self.meta.bind_type {
            BindgenFieldType::Uniform(_) => {
                let block = match block_layout(&types) {
                    Some(block) => block,
                    None => {
                        return None;
                    },
                };
                let mut end: usize = 0;
                while i < n
                    invariant
                        i <= n,
                        n == self.members.len(),
                        is_uniform(self@),
                        types@ == member_types(self@.members),
                        block.is_layout_of(types@),
                        fields@.len() == i,
                        end == end_spec(types@, i as int),
                        forall|k: int|
                            0 <= k < i ==> (#[trigger] fields@[k])@ == host_field_spec(self@, k),
                    decreases n - i,
                {
                    proof {
                        lemma_offset(types@, i as int);
                        lemma_block_size(types@);
                    }
                    let ty = types[i];
                    let offset = block.offsets[i];
                    fields.push(
                        HostField {
                            name: self.members[i].name.clone(),
                            ty,
                            offset,
                            size: ty.size(),
                            gap: offset - end,
                        },
                    );
                    end = offset + ty.size();
                    i = i + 1;
                }
                Some(
                    HostLayout {
                        name: self.struct_name.clone(),
                        uniform: true,
                        fields,
                        size: block.size,
                    },
                )
            },
            _ => {
                let mut offset: usize = 0;
                while i < n
                    invariant
                        i <= n,
                        n == self.members.len(),
                        !is_uniform(self@),
                        types@ == member_types(self@.members),
                        fields@.len() == i,
                        offset == packed_offset(types@, i as int),
                        forall|k: int|
                            0 <= k < i ==> (#[trigger] fields@[k])@ == host_field_spec(self@, k),
                    decreases n - i,
                {
                    let ty = types[i];
                    let next = match offset.checked_add(ty.packed_size()) {
                        Some(next) => next,
                        None => {
                            proof {
                                lemma_packed_monotonic(types@, i + 1, n as int);
                            }
                            return None;
                        },
                    };
                    fields.push(
                        HostField {
                            name: self.members[i].name.clone(),
                            ty,
                            offset,
                            size: ty.packed_size(),
                            gap: 0,
                        },
                    );
                    offset = next;
                    i = i + 1;
                }
                Some(
                    HostLayout {
                        name: self.struct_name.clone(),
                        uniform: false,
                        fields,
                        size: offset,
                    },
                )
            },
        }
    }
}

/// The mathematical value of a [`HostLayout`].
pub struct HostLayoutView {
    pub name: Seq<char>,
    pub uniform: bool,
    pub fields: Seq<HostFieldView>,
    pub size: nat,
}

impl View for HostLayout {
    type V = HostLayoutView;

    open spec fn view(&self) -> HostLayoutView {
        HostLayoutView {
            name: self.name@,
            uniform: self.uniform,
            fields: Seq::new(self.fields@.len(), |i: int| self.fields@[i]@),
            size: self.size as nat,
        }
    }
}

/// The host type that holds a value of the type `ty`, in a uniform block
/// or in a vertex: numbers and arrays of numbers, with the columns of the
/// smaller matrices widened to four numbers in a uniform block.
pub open spec fn host_type_spec(ty: GlslType, uniform: bool) -> Seq<char> {
    match ty {
        GlslType::Float => "f32"@,
        GlslType::Int => "i32"@,
        GlslType::UInt => "u32"@,
        GlslType::Vec2 => "[f32; 2]"@,
        GlslType::Vec3 => "[f32; 3]"@,
        GlslType::Vec4 => "[f32; 4]"@,
        GlslType::Mat2 => if uniform {
            "[[f32; 4]; 2]"@
        } else {
            "[[f32; 2]; 2]"@
        },
        GlslType::Mat3 => if uniform {
            "[[f32; 4]; 3]"@
        } else {
            "[[f32; 3]; 3]"@
        },
        GlslType::Mat4 => "[[f32; 4]; 4]"@,
    }
}

/// Returns the host type that holds a value of the type `ty`.
pub fn host_type(ty: GlslType, uniform: bool) -> (text: &'static str)
    ensures
        text@ == host_type_spec(ty, uniform),
{
    match ty {
        GlslType::Float => "f32",
        GlslType::Int => "i32",
        GlslType::UInt => "u32",
        GlslType::Vec2 => "[f32; 2]",
        GlslType::Vec3 => "[f32; 3]",
        GlslType::Vec4 => "[f32; 4]",
        GlslType::Mat2 => if uniform {
            "[[f32; 4]; 2]"
        } else {
            "[[f32; 2]; 2]"
        },
        GlslType::Mat3 => if uniform {
            "[[f32; 4]; 3]"
        } else {
            "[[f32; 3]; 3]"
        },
        GlslType::Mat4 => "[[f32; 4]; 4]",
    }
}

/// The declaration of `count` bytes that fill a gap, under the name made
/// of `stem` and `number`.
pub open spec fn filler_spec(stem: Seq<char>, number: Seq<char>, count: nat) -> Seq<char> {
    "    pub "@ + stem + number + ": [u8; "@ + decimal_spec(count) + "],\n"@
}

/// The declaration of field `i` of a host type: the bytes that fill the
/// gap before it, if there is one, and the field itself.
pub open spec fn host_field_text(layout: HostLayoutView, i: int) -> Seq<char> {
    let field = layout.fields[i];
    (if field.gap > 0 {
        filler_spec("_pad"@, decimal_spec(i as nat), field.gap)
    } else {
        Seq::empty()
    }) + "    pub "@ + field.name + ": "@ + host_type_spec(field.ty, layout.uniform) + ",\n"@
}

/// The declarations of the first `n` fields of a host type.
pub open spec fn host_fields_text(layout: HostLayoutView, n: int) -> Seq<char>
    decreases n,
{
    if n <= 0 {
        Seq::empty()
    } else {
        host_fields_text(layout, n - 1) + host_field_text(layout, n - 1)
    }
}

/// The bytes that a host type needs after its last field to reach the
/// size of the block.
pub open spec fn tail_spec(layout: HostLayoutView) -> nat {
    let end = if layout.fields.len() == 0 {
        0
    } else {
        layout.fields.last().offset + layout.fields.last().size
    };
    if layout.size > end {
        (layout.size - end) as nat
    } else {
        0
    }
}

/// The opening of the declaration of a host type.
pub open spec fn host_head_spec(name: Seq<char>) -> Seq<char> {
    "#[repr(C)]\n#[derive(Debug, Clone, Copy, PartialEq)]\npub struct "@ + name + " {\n"@
}

/// The declaration of the host type for a block: a structure laid out in
/// the order of declaration, with every member at its offset, the gaps
/// before members and after the last filled by bytes.
pub open spec fn host_struct_spec(layout: HostLayoutView) -> Seq<char> {
    host_head_spec(layout.name) + host_fields_text(layout, layout.fields.len() as int) + (if tail_spec(
        layout,
    ) > 0 {
        filler_spec("_tail"@, Seq::empty(), tail_spec(layout))
    } else {
        Seq::empty()
    }) + "}\n"@
}

impl HostLayout {
    /// Returns the bytes that the host type needs after its last field.
    pub fn tail(&self) -> (n: usize)
        ensures
            n == tail_spec(self@),
    {
        let count = self.fields.len();
        if count == 0 {
            self.size
        } else {
            let last = &self.fields[count - 1];
            assert(self@.fields.last() == last@);
            match last.offset.checked_add(last.size) {
                Some(end) => if self.size > end {
                    self.size - end
                } else {
                    0
                },
                None => 0,
            }
        }
    }

    /// Appends the declaration of field `i` to `out`.
    fn push_field(&self, out: &mut Vec<char>, i: usize)
        requires
            i < self.fields@.len(),
        ensures
            final(out)@ == old(out)@ + host_field_text(self@, i as int),
    {
        let field = &self.fields[i];
        assert(self@.fields[i as int] == field@);
        if field.gap > 0 {
            push_filler(out, "_pad", &decimal(i), field.gap);
        }
        let ghost mid = out@;
        push_str(out, "    pub ");
        push_str(out, field.name.as_str());
        push_str(out, ": ");
        push_str(out, host_type(field.ty, self.uniform));
        push_str(out, ",\n");
        assert(out@ =~= mid + ("    pub "@ + field.name@ + ": "@ + host_type_spec(
            field.ty,
            self.uniform,
        ) + ",\n"@));
        assert(out@ =~= old(out)@ + host_field_text(self@, i as int));
    }

    /// Returns the declaration of the host type for the block.
    pub fn to_rust(&self) -> (text: String)
        ensures
            text@ == host_struct_spec(self@),
    {
        let mut out: Vec<char> = Vec::new();
        push_str(&mut out, "#[repr(C)]\n#[derive(Debug, Clone, Copy, PartialEq)]\npub struct ");
        push_str(&mut out, self.name.as_str());
        push_str(&mut out, " {\n");
        let ghost head = out@;
        assert(head =~= host_head_spec(self@.name));
        assert(out@ =~= head + host_fields_text(self@, 0));
        let mut i: usize = 0;
        while i < self.fields.len()
            invariant
                i <= self.fields.len(),
                out@ == head + host_fields_text(self@, i as int),
            decreases self.fields.len() - i,
        {
            self.push_field(&mut out, i);
            assert(out@ =~= head + host_fields_text(self@, i + 1));
            i = i + 1;
        }
        let ghost body = out@;
        let tail = self.tail();
        if tail > 0 {
            push_filler(&mut out, "_tail", &Vec::new(), tail);
        }
        let ghost filled = out@;
        push_str(&mut out, "}\n");
        let text = string_of(&out);
        assert(text@ =~= filled + "}\n"@);
        text
    }
}

/// Appends to `out` the declaration of `count` bytes that fill a gap.
fn push_filler(out: &mut Vec<char>, stem: &str, number: &Vec<char>, count: usize)
    ensures
        final(out)@ == old(out)@ + filler_spec(stem@, number@, count as nat),
{
    push_str(out, "    pub ");
    push_str(out, stem);
    push_all(out, number);
    push_str(out, ": [u8; ");
    push_all(out, &decimal(count));
    push_str(out, "],\n");
    assert(out@ =~= old(out)@ + filler_spec(stem@, number@, count as nat));
}

} // verus!
