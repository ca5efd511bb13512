//! Vertex attributes: the input slots of a shader program, and the layout
//! calculator that binds a list of attribute descriptors to them.

use vstd::prelude::*;
use crate::command::Command;
use crate::shader::program::{spec_resolve, Program, ProgramView};

verus! {

/// The type of one component of a vertex attribute.
#[derive(Clone, Copy, Debug, PartialEq, Eq, Structural)]
pub enum AttributeType {
    Byte,
    UnsignedByte,
    Short,
    UnsignedShort,
    Float,
    HalfFloat,
    Double,
    Int,
    UnsignedInt,
    Fixed,
}

impl AttributeType {
    /// The number the backend knows this component type by.
    pub open spec fn spec_code(self) -> u32 {
        match self {
            AttributeType::Byte => 0x1400,
            AttributeType::UnsignedByte => 0x1401,
            AttributeType::Short => 0x1402,
            AttributeType::UnsignedShort => 0x1403,
            AttributeType::Float => 0x1406,
            AttributeType::HalfFloat => 0x140B,
            AttributeType::Double => 0x140A,
            AttributeType::Int => 0x1404,
            AttributeType::UnsignedInt => 0x1405,
            AttributeType::Fixed => 0x140C,
        }
    }

    /// The number the backend knows this component type by.
    #[verifier::when_used_as_spec(spec_code)]
    pub fn code(self) -> (code: u32)
        ensures
            code == self.spec_code(),
    {
        match self {
            AttributeType::Byte => 0x1400,
            AttributeType::UnsignedByte => 0x1401,
            AttributeType::Short => 0x1402,
            AttributeType::UnsignedShort => 0x1403,
            AttributeType::Float => 0x1406,
            AttributeType::HalfFloat => 0x140B,
            AttributeType::Double => 0x140A,
            AttributeType::Int => 0x1404,
            AttributeType::UnsignedInt => 0x1405,
            AttributeType::Fixed => 0x140C,
        }
    }
}

impl AttributeType {
    /// The size in bytes of one component of this type.
    pub open spec fn spec_byte_size(self) -> usize {
        match self {
            AttributeType::Byte => 1,
            AttributeType::UnsignedByte => 1,
            AttributeType::Short => 2,
            AttributeType::UnsignedShort => 2,
            AttributeType::Float => 4,
            AttributeType::HalfFloat => 2,
            AttributeType::Double => 8,
            AttributeType::Int => 4,
            AttributeType::UnsignedInt => 4,
            AttributeType::Fixed => 4,
        }
    }

    /// The size in bytes of one component of this type.
    #[verifier::when_used_as_spec(spec_byte_size)]
    pub fn byte_size(self) -> (size: usize)
        ensures
            size == self.spec_byte_size(),
    {
        match self {
            AttributeType::Byte => 1,
            AttributeType::UnsignedByte => 1,
            AttributeType::Short => 2,
            AttributeType::UnsignedShort => 2,
            AttributeType::Float => 4,
            AttributeType::HalfFloat => 2,
            AttributeType::Double => 8,
            AttributeType::Int => 4,
            AttributeType::UnsignedInt => 4,
            AttributeType::Fixed => 4,
        }
    }
}

/// A vertex input slot of a shader program.
#[derive(Clone, Copy, Debug, PartialEq, Eq)]
pub struct Attribute(u32);

impl View for Attribute {
    type V = u32;

    /// The number of the slot.
    closed spec fn view(&self) -> u32 {
        self.0
    }
}

impl Attribute {
    /// The input slot numbered `id`.
    pub fn at_pos(id: u32) -> (attribute: Self)
        ensures
            attribute@ == id,
    {
        Self(id)
    }

    /// Switches this input slot on.
    pub fn enable(&self, calls: &mut Vec<Command>) -> (same: &Self)
        ensures
            same == self,
            final(calls)@ == old(calls)@.push(Command::EnableVertexAttribArray { index: self@ }),
    {
        calls.push(Command::EnableVertexAttribArray { index: self.0 });
        self
    }

    /// Tells the backend where in each vertex record this slot finds its
    /// data.
    pub fn memory_layout(
        &self,
        size: i32,
        mem_type: AttributeType,
        normalized: bool,
        stride: i32,
        offset: usize,
        calls: &mut Vec<Command>,
    ) -> (same: &Self)
        ensures
            same == self,
            final(calls)@ == old(calls)@.push(
                Command::VertexAttribPointer {
                    index: self@,
                    size,
                    mem_type,
                    normalized,
                    stride,
                    offset,
                },
            ),
    {
        calls.push(
            Command::VertexAttribPointer {
                index: self.0,
                size,
                mem_type,
                normalized,
                stride,
                offset,
            },
        );
        self
    }
}

/// The shape of one vertex attribute: the name of the program input it feeds,
/// how many components it has, and the size in bytes and the type of one
/// component.
#[derive(Clone, Copy, Debug)]
pub struct AttributeDescriptor {
    pub name: &'static str,
    pub vector_size: i32,
    pub mem_size: usize,
    pub mem_type: AttributeType,
}

impl AttributeDescriptor {
    /// The bytes one value of this attribute takes up in a vertex record:
    /// component count times component size.
    pub open spec fn spec_byte_len(&self) -> int {
        self.vector_size as int * self.mem_size as int
    }

    pub fn new(
        name: &'static str,
        vector_size: i32,
        mem_size: usize,
        mem_type: AttributeType,
    ) -> (descriptor: Self)
        ensures
            descriptor == (AttributeDescriptor { name, vector_size, mem_size, mem_type }),
    {
        Self { name, vector_size, mem_size, mem_type }
    }

    /// A vector of `vector_size` components of type `mem_type`, each as
    /// large as the type says.
    pub fn vector(name: &'static str, mem_type: AttributeType, vector_size: i32) -> (descriptor:
        Self)
        ensures
            descriptor == (AttributeDescriptor {
                name,
                vector_size,
                mem_size: mem_type.spec_byte_size(),
                mem_type,
            }),
    {
        Self::new(name, vector_size, mem_type.byte_size(), mem_type)
    }
}

/// The stride of a vertex record laid out after `attrs`: the sum of the byte
/// lengths of all the descriptors.
pub open spec fn spec_stride(attrs: Seq<AttributeDescriptor>) -> int
    decreases attrs.len(),
{
    if attrs.len() == 0 {
        0
    } else {
        spec_stride(attrs.drop_last()) + attrs.last().spec_byte_len()
    }
}

/// The offset of descriptor `index` within a vertex record: the sum of the
/// byte lengths of the descriptors in front of it.
pub open spec fn spec_offset(attrs: Seq<AttributeDescriptor>, index: int) -> int {
    spec_stride(attrs.take(index))
}

/// Whether the backend's integer types can hold the layout of `attrs`: the
/// stride as a 32-bit signed integer, every offset as a `usize`.
pub open spec fn spec_fits(attrs: Seq<AttributeDescriptor>) -> bool {
    &&& i32::MIN <= spec_stride(attrs) <= i32::MAX
    &&& forall|index: int|
        0 <= index < attrs.len() ==> 0 <= #[trigger] spec_offset(attrs, index) <= usize::MAX
}

/// The input slot of `program` that `descriptor` names, if there is one.
pub open spec fn spec_slot(program: ProgramView, descriptor: AttributeDescriptor) -> Option<int> {
    spec_resolve(program.attributes, descriptor.name@)
}

/// The index of the first descriptor at or after `from` whose name `program`
/// does not resolve; the length of `attrs` if there is none.
pub open spec fn spec_first_unresolved(
    attrs: Seq<AttributeDescriptor>,
    program: ProgramView,
    from: int,
) -> int
    decreases attrs.len() - from,
{
    if from < 0 || from >= attrs.len() || spec_slot(program, attrs[from]) is None {
        from
    } else {
        spec_first_unresolved(attrs, program, from + 1)
    }
}

/// The two calls that register one attribute with the backend: switch its
/// slot on, then describe its place in the vertex record. Normalization is
/// always off.
pub open spec fn spec_attribute_calls(
    slot: u32,
    descriptor: AttributeDescriptor,
    stride: i32,
    offset: usize,
) -> Seq<Command> {
    seq![
        Command::EnableVertexAttribArray { index: slot },
        Command::VertexAttribPointer {
            index: slot,
            size: descriptor.vector_size,
            mem_type: descriptor.mem_type,
            normalized: false,
            stride,
            offset,
        },
    ]
}

/// The calls that register the first `count` descriptors of `attrs` with
/// `program`, in descriptor order.
pub open spec fn spec_layout_calls(
    attrs: Seq<AttributeDescriptor>,
    program: ProgramView,
    count: int,
) -> Seq<Command>
    decreases count,
{
    if count <= 0 {
        Seq::empty()
    } else {
        spec_layout_calls(attrs, program, count - 1) + spec_attribute_calls(
            spec_slot(program, attrs[count - 1]).unwrap() as u32,
            attrs[count - 1],
            spec_stride(attrs) as i32,
            spec_offset(attrs, count - 1) as usize,
        )
    }
}

/// Everything that applying `attrs` to `program` asks of the backend: nothing
/// if the layout does not fit the backend's integer types; otherwise the
/// calls for every descriptor in front of the first one that does not
/// resolve.
pub open spec fn spec_applied_calls(
    attrs: Seq<AttributeDescriptor>,
    program: ProgramView,
) -> Seq<Command> {
    if spec_fits(attrs) {
        spec_layout_calls(attrs, program, spec_first_unresolved(attrs, program, 0))
    } else {
        Seq::empty()
    }
}

/// Whether applying `attrs` to `program` succeeds: the layout fits and every
/// name resolves.
pub open spec fn spec_applies(attrs: Seq<AttributeDescriptor>, program: ProgramView) -> bool {
    spec_fits(attrs) && spec_first_unresolved(attrs, program, 0) == attrs.len()
}

/// The stride is the sum of the byte lengths: nothing for the empty list, and
/// for a list with one more descriptor, the stride so far plus the byte
/// length of that descriptor.
pub proof fn lemma_stride_sum(attrs: Seq<AttributeDescriptor>, descriptor: AttributeDescriptor)
    ensures
        spec_stride(Seq::<AttributeDescriptor>::empty()) == 0,
        spec_stride(attrs.push(descriptor)) == spec_stride(attrs) + descriptor.vector_size
            * descriptor.mem_size,
{
    assert(attrs.push(descriptor).drop_last() =~= attrs);
}

/// The offset of the first descriptor is zero.
pub proof fn lemma_first_offset(attrs: Seq<AttributeDescriptor>)
    ensures
        spec_offset(attrs, 0) == 0,
{
    assert(attrs.take(0).len() == 0);
}

/// Each later descriptor starts where the one in front of it ends: its
/// offset is the offset of its predecessor plus the predecessor's byte
/// length.
pub proof fn lemma_offset_step(attrs: Seq<AttributeDescriptor>, index: int)
    requires
        1 <= index <= attrs.len(),
    ensures
        spec_offset(attrs, index) == spec_offset(attrs, index - 1) + attrs[index
            - 1].spec_byte_len(),
{
    assert(attrs.take(index).drop_last() =~= attrs.take(index - 1));
    assert(attrs.take(index).last() == attrs[index - 1]);
}

/// The stride is the offset at which a descriptor appended to the list would
/// start.
pub proof fn lemma_stride_is_end_offset(attrs: Seq<AttributeDescriptor>)
    ensures
        spec_offset(attrs, attrs.len() as int) == spec_stride(attrs),
{
    assert(attrs.take(attrs.len() as int) =~= attrs);
}

/// Where the walk over the descriptors stops: at or after `from`, at most at
/// the end of the list; every descriptor between `from` and the stop
/// resolves; and a stop in front of the end is at a descriptor that does not
/// resolve.
pub proof fn lemma_first_unresolved(
    attrs: Seq<AttributeDescriptor>,
    program: ProgramView,
    from: int,
)
    requires
        0 <= from <= attrs.len(),
    ensures
        from <= spec_first_unresolved(attrs, program, from) <= attrs.len(),
        forall|index: int|
            from <= index < spec_first_unresolved(attrs, program, from) ==> (#[trigger] spec_slot(
                program,
                attrs[index],
            )) is Some,
        spec_first_unresolved(attrs, program, from) < attrs.len() ==> spec_slot(
            program,
            attrs[spec_first_unresolved(attrs, program, from)],
        ) is None,
    decreases attrs.len() - from,
{
    if from < attrs.len() && spec_slot(program, attrs[from]) is Some {
        lemma_first_unresolved(attrs, program, from + 1);
    }
}

/// Registering `count` descriptors takes two calls for each, in descriptor
/// order: descriptor `index` is registered by the calls at `2 * index` and
/// `2 * index + 1`, with the stride of the whole list and the descriptor's
/// own offset.
pub proof fn lemma_layout_calls(
    attrs: Seq<AttributeDescriptor>,
    program: ProgramView,
    count: int,
    index: int,
)
    requires
        0 <= index < count,
    ensures
        spec_layout_calls(attrs, program, count).len() == 2 * count,
        spec_layout_calls(attrs, program, count).subrange(2 * index, 2 * index + 2)
            == spec_attribute_calls(
            spec_slot(program, attrs[index]).unwrap() as u32,
            attrs[index],
            spec_stride(attrs) as i32,
            spec_offset(attrs, index) as usize,
        ),
    decreases count,
{
    lemma_layout_calls_len(attrs, program, count - 1);
    let front = spec_layout_calls(attrs, program, count - 1);
    let all = spec_layout_calls(attrs, program, count);
    if index == count - 1 {
        assert(all.subrange(2 * index, 2 * index + 2) =~= spec_attribute_calls(
            spec_slot(program, attrs[index]).unwrap() as u32,
            attrs[index],
            spec_stride(attrs) as i32,
            spec_offset(attrs, index) as usize,
        ));
    } else {
        lemma_layout_calls(attrs, program, count - 1, index);
        assert(all.subrange(2 * index, 2 * index + 2) =~= front.subrange(
            2 * index,
            2 * index + 2,
        ));
    }
}

/// Registering `count` descriptors takes two calls for each.
pub proof fn lemma_layout_calls_len(
    attrs: Seq<AttributeDescriptor>,
    program: ProgramView,
    count: int,
)
    requires
        0 <= count,
    ensures
        spec_layout_calls(attrs, program, count).len() == 2 * count,
    decreases count,
{
    if count > 0 {
        lemma_layout_calls_len(attrs, program, count - 1);
    }
}

/// An ordered list of attribute descriptors. The order is the order in
/// memory: the first descriptor sits at the start of each vertex record.
pub struct Attributes {
    attrs: Vec<AttributeDescriptor>,
}

impl View for Attributes {
    type V = Seq<AttributeDescriptor>;

    closed spec fn view(&self) -> Seq<AttributeDescriptor> {
        self.attrs@
    }
}

impl Attributes {
    pub fn new(attrs: Vec<AttributeDescriptor>) -> (attributes: Self)
        ensures
            attributes@ == attrs@,
    {
        Self { attrs }
    }

    /// This list with `descriptor` added behind its last descriptor.
    pub fn with(self, descriptor: AttributeDescriptor) -> (attributes: Self)
        ensures
            attributes@ == self@.push(descriptor),
    {
        let mut attrs = self.attrs;
        attrs.push(descriptor);
        Self { attrs }
    }

    /// The stride of the interleaved vertex record, if the layout fits the
    /// backend's integer types.
    pub fn stride(&self) -> (stride: Option<i32>)
        ensures
            stride is Some <==> spec_fits(self@),
            stride matches Some(bytes) ==> bytes == spec_stride(self@),
    {
        let n: usize = self.attrs.len();
        let mut total: i128 = 0;
        let mut i: usize = 0;
        proof {
            lemma_first_offset(self.attrs@);
        }
        while i < n
            invariant
                n == self.attrs.len(),
                i <= n,
                total == spec_offset(self.attrs@, i as int),
                forall|k: int|
                    0 <= k < i ==> 0 <= #[trigger] spec_offset(self.attrs@, k) <= usize::MAX,
            decreases n - i,
        {
            if total < 0 || total > usize::MAX as i128 {
                return None;
            }
            let descriptor = &self.attrs[i];
            let count: i128 = descriptor.vector_size as i128;
            let size: i128 = descriptor.mem_size as i128;
            proof {
                lemma_offset_step(self.attrs@, i + 1);
                lemma_byte_len_bounds(count as int, size as int);
            }
            total = total + count * size;
            i += 1;
        }
        proof {
            lemma_stride_is_end_offset(self.attrs@);
        }
        if total < i32::MIN as i128 || total > i32::MAX as i128 {
            None
        } else {
            Some(total as i32)
        }
    }

    /// Binds the descriptors of this list to the inputs of `program`.
    ///
    /// The stride is shared by all descriptors; each descriptor starts where
    /// the one in front of it ends. For every descriptor, in order, the name
    /// is resolved against `program`, the slot is switched on and its memory
    /// layout is described. The first name that does not resolve ends the
    /// work with `None`; calls for the descriptors in front of it have been
    /// appended by then and stay. A layout that the backend's integer types
    /// cannot hold yields `None` with no call at all. An empty list succeeds
    /// without a call.
    pub fn calculate_for(self, program: &Program, calls: &mut Vec<Command>) -> (applied: Option<()>)
        ensures
            final(calls)@ == old(calls)@ + spec_applied_calls(self@, program@),
            applied is Some <==> spec_applies(self@, program@),
    {
        let stride: i32 = match self.stride() {
            Some(stride) => stride,
            None => {
                assert(calls@ =~= old(calls)@ + Seq::<Command>::empty());
                return None;
            },
        };
        let n: usize = self.attrs.len();
        let mut offset: usize = 0;
        let mut i: usize = 0;
        proof {
            lemma_first_offset(self.attrs@);
            assert(calls@ =~= old(calls)@ + spec_layout_calls(self.attrs@, program@, 0));
        }
        while i < n
            invariant
                n == self.attrs.len(),
                i <= n,
                spec_fits(self.attrs@),
                stride == spec_stride(self.attrs@),
                i < n ==> offset == spec_offset(self.attrs@, i as int),
                spec_first_unresolved(self.attrs@, program@, 0) == spec_first_unresolved(
                    self.attrs@,
                    program@,
                    i as int,
                ),
                calls@ == old(calls)@ + spec_layout_calls(self.attrs@, program@, i as int),
            decreases n - i,
        {
            let descriptor = &self.attrs[i];
            if self.calculate_one_attribute(program, descriptor, stride, offset, calls).is_none() {
                return None;
            }
            assert(calls@ =~= old(calls)@ + spec_layout_calls(self.attrs@, program@, i + 1));
            i += 1;
            if i < n {
                let count: i128 = descriptor.vector_size as i128;
                let size: i128 = descriptor.mem_size as i128;
                proof {
                    lemma_offset_step(self.attrs@, i as int);
                    lemma_byte_len_bounds(count as int, size as int);
                }
                offset = (offset as i128 + count * size) as usize;
            }
        }
        Some(())
    }

    /// Registers one descriptor with the backend, at the given place in the
    /// vertex record, if `program` resolves its name.
    fn calculate_one_attribute(
        &self,
        program: &Program,
        descriptor: &AttributeDescriptor,
        stride: i32,
        offset: usize,
        calls: &mut Vec<Command>,
    ) -> (applied: Option<()>)
        ensures
            match spec_slot(program@, *descriptor) {
                Some(slot) => applied is Some && final(calls)@ == old(calls)@
                    + spec_attribute_calls(slot as u32, *descriptor, stride, offset),
                None => applied is None && final(calls)@ == old(calls)@,
            },
    {
        let attr = program.get_attribute(descriptor.name)?;
        attr.enable(calls);
        attr.memory_layout(
            descriptor.vector_size,
            descriptor.mem_type,
            false,
            stride,
            offset,
            calls,
        );
        assert(calls@ =~= old(calls)@ + spec_attribute_calls(
            attr@,
            *descriptor,
            stride,
            offset,
        ));
        Some(())
    }
}

/// A component count times a component size stays well inside 128 bits.
proof fn lemma_byte_len_bounds(count: int, size: int)
    requires
        i32::MIN <= count <= i32::MAX,
        0 <= size <= u64::MAX,
    ensures
        -0x8000_0000_0000_0000_0000_0000 <= count * size <= 0x8000_0000_0000_0000_0000_0000,
{
    assert(count * size <= 0x8000_0000 * size) by (nonlinear_arith)
        requires
            count <= 0x8000_0000,
            0 <= size,
    ;
    assert(count * size >= -0x8000_0000 * size) by (nonlinear_arith)
        requires
            count >= -0x8000_0000,
            0 <= size,
    ;
}

} // verus!
