//! The bookkeeping of GPU-visible buffers: how much a buffer holds, how
//! much was written, and the copy of host bytes into its mapped memory.

use vstd::prelude::*;

verus! {

/// Why a write was refused.
#[derive(Clone, Copy, Debug, PartialEq, Eq, Structural)]
pub enum BufferError {
    /// The written range would end beyond the buffer's capacity.
    Overflow,
    /// The bytes handed over are not as many as the elements take.
    SizeMismatch,
    /// The mapped range is shorter than the buffer.
    ShortMapping,
}

/// What a buffer records: its capacity in bytes, the number of elements of
/// the last write, and the size of one of them.
pub struct BufferModel {
    pub capacity: nat,
    pub count: nat,
    pub element_size: nat,
}

impl BufferModel {
    /// Whether the elements recorded fit the capacity.
    pub open spec fn within_capacity(self) -> bool {
        self.count * self.element_size <= self.capacity
    }
}

/// Whether a write of `elements` elements of `element_size` bytes each at
/// the byte offset `offset` is accepted by a buffer of `capacity` bytes,
/// given `data_len` bytes of data and a mapped range of `mapping_len`
/// bytes.
pub open spec fn write_check(
    capacity: nat,
    offset: nat,
    element_size: nat,
    elements: nat,
    data_len: nat,
    mapping_len: nat,
) -> Result<(), BufferError> {
    if offset + element_size * elements > capacity {
        Err(BufferError::Overflow)
    } else if data_len != element_size * elements {
        Err(BufferError::SizeMismatch)
    } else if mapping_len < capacity {
        Err(BufferError::ShortMapping)
    } else {
        Ok(())
    }
}

/// The mapped memory after `data` is copied to its start.
pub open spec fn copied(mapping: Seq<u8>, data: Seq<u8>) -> Seq<u8> {
    data + mapping.subrange(data.len() as int, mapping.len() as int)
}

/// The record of a buffer and its mapped memory after a write: an accepted
/// write puts the data at the start of the mapped memory and records the
/// number and size of the elements; a refused write changes nothing.
pub open spec fn write_spec(
    model: BufferModel,
    mapping: Seq<u8>,
    offset: nat,
    element_size: nat,
    elements: nat,
    data: Seq<u8>,
) -> (BufferModel, Seq<u8>) {
    match write_check(model.capacity, offset, element_size, elements, data.len(), mapping.len()) {
        Ok(()) => (BufferModel { count: elements, element_size, ..model }, copied(mapping, data)),
        Err(_) => (model, mapping),
    }
}

/// A write that would end beyond the capacity is always refused, and
/// leaves the record and the memory as they were.
pub proof fn lemma_overflow_refused(
    model: BufferModel,
    mapping: Seq<u8>,
    offset: nat,
    element_size: nat,
    elements: nat,
    data: Seq<u8>,
)
    requires
        offset + element_size * elements > model.capacity,
    ensures
        write_check(model.capacity, offset, element_size, elements, data.len(), mapping.len())
            == Err::<(), BufferError>(BufferError::Overflow),
        write_spec(model, mapping, offset, element_size, elements, data) == (model, mapping),
{
}

/// After an accepted write the record holds the number of elements written,
/// which fit the capacity, and the memory begins with the data.
pub proof fn lemma_write_recorded(
    model: BufferModel,
    mapping: Seq<u8>,
    offset: nat,
    element_size: nat,
    elements: nat,
    data: Seq<u8>,
)
    requires
        write_check(model.capacity, offset, element_size, elements, data.len(), mapping.len()) is Ok,
    ensures
        write_spec(model, mapping, offset, element_size, elements, data).0.count == elements,
        write_spec(model, mapping, offset, element_size, elements, data).0.within_capacity(),
        write_spec(model, mapping, offset, element_size, elements, data).1.len() == mapping.len(),
        write_spec(model, mapping, offset, element_size, elements, data).1.subrange(
            0,
            data.len() as int,
        ) == data,
{
    let after = write_spec(model, mapping, offset, element_size, elements, data);
    assert(elements * element_size == element_size * elements) by (nonlinear_arith);
    assert(after.1.subrange(0, data.len() as int) =~= data);
}

/// Writing the same data twice gives the same record and the same memory
/// as writing it once.
pub proof fn lemma_write_idempotent(
    model: BufferModel,
    mapping: Seq<u8>,
    offset: nat,
    element_size: nat,
    elements: nat,
    data: Seq<u8>,
)
    ensures
        ({
            let once = write_spec(model, mapping, offset, element_size, elements, data);
            write_spec(once.0, once.1, offset, element_size, elements, data) == once
        }),
{
    let once = write_spec(model, mapping, offset, element_size, elements, data);
    let twice = write_spec(once.0, once.1, offset, element_size, elements, data);
    if write_check(model.capacity, offset, element_size, elements, data.len(), mapping.len()) is Ok {
        assert(once.1.len() == mapping.len());
        assert(twice.1 =~= once.1);
    }
}

/// Copies `data` to the start of `mapping`.
pub fn copy_into(mapping: &mut [u8], data: &[u8])
    requires
        data@.len() <= old(mapping)@.len(),
    ensures
        final(mapping)@ == copied(old(mapping)@, data@),
{
    let mut i: usize = 0;
    let n = data.len();
    while i < n
        invariant
            i <= n,
            n == data@.len(),
            n <= mapping@.len(),
            mapping@.len() == old(mapping)@.len(),
            mapping@.subrange(0, i as int) == data@.subrange(0, i as int),
            mapping@.subrange(i as int, mapping@.len() as int) == old(mapping)@.subrange(
                i as int,
                mapping@.len() as int,
            ),
        decreases n - i,
    {
        let ghost before = mapping@;
        mapping[i] = data[i];
        assert(mapping@ == before.update(i as int, data@[i as int]));
        assert(mapping@.subrange(0, i + 1) =~= data@.subrange(0, i + 1)) by {
            assert forall|k: int| 0 <= k < i + 1 implies mapping@[k] == data@[k] by {
                if k < i {
                    assert(before.subrange(0, i as int)[k] == data@.subrange(0, i as int)[k]);
                }
            }
        }
        assert(mapping@.subrange(i + 1, mapping@.len() as int) =~= old(mapping)@.subrange(
            i + 1,
            mapping@.len() as int,
        )) by {
            assert forall|k: int| i + 1 <= k < mapping@.len() implies mapping@[k] == old(
                mapping,
            )@[k] by {
                assert(before.subrange(i as int, before.len() as int)[k - i] == old(
                    mapping,
                )@.subrange(i as int, before.len() as int)[k - i]);
            }
        }
        i = i + 1;
    }
    assert(mapping@ =~= copied(old(mapping)@, data@)) by {
        assert forall|k: int| 0 <= k < mapping@.len() implies mapping@[k] == copied(
            old(mapping)@,
            data@,
        )[k] by {
            if k < n {
                assert(mapping@.subrange(0, n as int)[k] == data@.subrange(0, n as int)[k]);
            } else {
                assert(mapping@.subrange(n as int, mapping@.len() as int)[k - n] == old(
                    mapping,
                )@.subrange(n as int, mapping@.len() as int)[k - n]);
            }
        }
    }
}

/// Checks a write and, where it is accepted, copies the data.
fn checked_write(
    capacity: usize,
    mapping: &mut [u8],
    offset: usize,
    element_size: usize,
    elements: usize,
    data: &[u8],
) -> (r: Result<(), BufferError>)
    ensures
        r == write_check(
            capacity as nat,
            offset as nat,
            element_size as nat,
            elements as nat,
            data@.len(),
            old(mapping)@.len(),
        ),
        r is Ok ==> final(mapping)@ == copied(old(mapping)@, data@),
        r is Err ==> final(mapping)@ == old(mapping)@,
{
    let size = match element_size.checked_mul(elements) {
        Some(size) => size,
        None => {
            return Err(BufferError::Overflow);
        },
    };
    let end = match offset.checked_add(size) {
        Some(end) => end,
        None => {
            return Err(BufferError::Overflow);
        },
    };
    if end > capacity {
        return Err(BufferError::Overflow);
    }
    if data.len() != size {
        return Err(BufferError::SizeMismatch);
    }
    if mapping.len() < capacity {
        return Err(BufferError::ShortMapping);
    }
    copy_into(mapping, data);
    Ok(())
}

/// A uniform buffer: the handles of the GPU buffer and of its memory, which
/// are only carried, the capacity in bytes that was fixed when the buffer
/// was made, and the record of the last write.
pub struct UniformBuffer<B, M> {
    buffer: B,
    memory: M,
    record: WriteRecord,
}

/// The capacity of a uniform buffer and the record of its last write,
/// which always fits the capacity.
struct WriteRecord {
    len: usize,
    count: usize,
    element_size: usize,
}

impl WriteRecord {
    #[verifier::type_invariant]
    spec fn inv(&self) -> bool {
        self.count * self.element_size <= self.len
    }

    /// What is recorded.
    closed spec fn model(&self) -> BufferModel {
        BufferModel {
            capacity: self.len as nat,
            count: self.count as nat,
            element_size: self.element_size as nat,
        }
    }

    /// Records a write of `elements` elements of `element_size` bytes.
    fn note(&mut self, element_size: usize, elements: usize)
        requires
            elements * element_size <= old(self).model().capacity,
        ensures
            final(self).model() == (BufferModel {
                count: elements as nat,
                element_size: element_size as nat,
                ..old(self).model()
            }),
    {
        self.count = 0;
        self.element_size = element_size;
        self.count = elements;
    }
}

impl<B, M> UniformBuffer<B, M> {
    /// What the buffer records.
    pub closed spec fn model(&self) -> BufferModel {
        self.record.model()
    }

    /// The handle of the GPU buffer.
    pub closed spec fn handle(&self) -> B {
        self.buffer
    }

    /// The handle of the buffer's memory.
    pub closed spec fn allocation(&self) -> M {
        self.memory
    }

    /// Makes the record of a buffer of `size` bytes, with nothing written,
    /// round the handles of the GPU buffer and of its memory.
    pub fn new(buffer: B, memory: M, size: usize) -> (made: Self)
        ensures
            made.model() == (BufferModel { capacity: size as nat, count: 0, element_size: 0 }),
            made.handle() == buffer,
            made.allocation() == memory,
    {
        UniformBuffer { buffer, memory, record: WriteRecord { len: size, count: 0, element_size: 0 } }
    }

    /// Tells whether a write of `elements` elements of `element_size` bytes
    /// each at the byte offset `offset` ends within the capacity.
    pub fn accepts(&self, offset: usize, element_size: usize, elements: usize) -> (r: bool)
        ensures
            r == (offset + element_size * elements <= self.model().capacity),
    {
        match element_size.checked_mul(elements) {
            Some(size) => match offset.checked_add(size) {
                Some(end) => end <= self.record.len,
                None => false,
            },
            None => false,
        }
    }

    /// Writes `elements` elements of `element_size` bytes each, whose bytes
    /// are `data`, into the mapped memory `mapping` of the buffer.
    ///
    /// A write that would end beyond the capacity is a mistake of the
    /// caller and must not be made: `accepts` tells beforehand. The write
    /// puts the data at the start of the mapped memory and records the
    /// number of elements; it is refused, and changes nothing, where the
    /// data or the mapped memory has not the size that it must have.
    pub fn write(
        &mut self,
        mapping: &mut [u8],
        offset: usize,
        element_size: usize,
        elements: usize,
        data: &[u8],
    ) -> (r: Result<(), BufferError>)
        requires
            offset + element_size * elements <= old(self).model().capacity,
        ensures
            r != Err::<(), BufferError>(BufferError::Overflow),
            r == write_check(
                old(self).model().capacity,
                offset as nat,
                element_size as nat,
                elements as nat,
                data@.len(),
                old(mapping)@.len(),
            ),
            (final(self).model(), final(mapping)@) == write_spec(
                old(self).model(),
                old(mapping)@,
                offset as nat,
                element_size as nat,
                elements as nat,
                data@,
            ),
            final(self).model().within_capacity(),
            final(self).handle() == old(self).handle(),
            final(self).allocation() == old(self).allocation(),
    {
        proof {
            use_type_invariant(&self.record);
        }
        match checked_write(self.record.len, mapping, offset, element_size, elements, data) {
            Ok(()) => {
                assert(elements * element_size <= self.record.len) by (nonlinear_arith)
                    requires
                        offset + element_size * elements <= self.record.len,
                ;
                self.record.note(element_size, elements);
                Ok(())
            },
            Err(e) => Err(e),
        }
    }

    /// Writes as `write` does where the write ends within the capacity, and
    /// refuses it with `Overflow`, changing nothing, where it does not.
    pub fn try_write(
        &mut self,
        mapping: &mut [u8],
        offset: usize,
        element_size: usize,
        elements: usize,
        data: &[u8],
    ) -> (r: Result<(), BufferError>)
        ensures
            r == write_check(
                old(self).model().capacity,
                offset as nat,
                element_size as nat,
                elements as nat,
                data@.len(),
                old(mapping)@.len(),
            ),
            (final(self).model(), final(mapping)@) == write_spec(
                old(self).model(),
                old(mapping)@,
                offset as nat,
                element_size as nat,
                elements as nat,
                data@,
            ),
            final(self).model().within_capacity(),
            final(self).handle() == old(self).handle(),
            final(self).allocation() == old(self).allocation(),
    {
        proof {
            use_type_invariant(&self.record);
        }
        if self.accepts(offset, element_size, elements) {
            self.write(mapping, offset, element_size, elements, data)
        } else {
            Err(BufferError::Overflow)
        }
    }

    /// Returns the number of elements of the last accepted write.
    pub fn count(&self) -> (n: usize)
        ensures
            n == self.model().count,
    {
        self.record.count
    }

    /// Returns the capacity in bytes.
    pub fn capacity(&self) -> (n: usize)
        ensures
            n == self.model().capacity,
    {
        self.record.len
    }

    /// Returns the handle of the GPU buffer.
    pub fn get<'a>(&'a self) -> (handle: &'a B)
        ensures
            *handle == self.handle(),
    {
        &self.buffer
    }

    /// Returns the handle of the buffer's memory.
    pub fn memory<'a>(&'a self) -> (memory: &'a M)
        ensures
            *memory == self.allocation(),
    {
        &self.memory
    }

    /// Lends the handle of the buffer's memory for mapping; the record
    /// stays as it is.
    pub fn memory_mut<'a>(&'a mut self) -> (memory: &'a mut M)
        ensures
            *memory == old(self).allocation(),
            final(self).allocation() == *final(memory),
            final(self).model() == old(self).model(),
            final(self).handle() == old(self).handle(),
    {
        &mut self.memory
    }

    /// Ends the record and hands back the handles of the buffer's memory
    /// and of the GPU buffer, which are to be freed in this order.
    pub fn destroy(self) -> (handles: (M, B))
        ensures
            handles == (self.allocation(), self.handle()),
    {
        (self.memory, self.buffer)
    }
}

/// What a vertex buffer records: the size of an element, the greatest
/// number of elements it holds, and the number of elements of the last
/// write.
pub struct VertexModel {
    pub element_size: nat,
    pub max: nat,
    pub count: nat,
}

/// Whether a write of `elements` elements from the element `offset` on is
/// accepted by a vertex buffer that holds up to `max` elements of
/// `element_size` bytes each, given `data_len` bytes of data and a mapped
/// range of `mapping_len` bytes.
pub open spec fn vertex_check(
    max: nat,
    element_size: nat,
    offset: nat,
    elements: nat,
    data_len: nat,
    mapping_len: nat,
) -> Result<(), BufferError> {
    if offset + elements > max {
        Err(BufferError::Overflow)
    } else if data_len != element_size * elements {
        Err(BufferError::SizeMismatch)
    } else if mapping_len < element_size * max {
        Err(BufferError::ShortMapping)
    } else {
        Ok(())
    }
}

/// The record of a vertex buffer and its mapped memory after a write: an
/// accepted write puts the data at the start of the mapped memory and
/// records the number of elements; a refused write changes nothing.
pub open spec fn vertex_write_spec(
    model: VertexModel,
    mapping: Seq<u8>,
    offset: nat,
    elements: nat,
    data: Seq<u8>,
) -> (VertexModel, Seq<u8>) {
    match vertex_check(
        model.max,
        model.element_size,
        offset,
        elements,
        data.len(),
        mapping.len(),
    ) {
        Ok(()) => (VertexModel { count: elements, ..model }, copied(mapping, data)),
        Err(_) => (model, mapping),
    }
}

/// A write of more elements than the vertex buffer holds is always refused,
/// and leaves the record and the memory as they were.
pub proof fn lemma_vertex_overflow_refused(
    model: VertexModel,
    mapping: Seq<u8>,
    offset: nat,
    elements: nat,
    data: Seq<u8>,
)
    requires
        offset + elements > model.max,
    ensures
        vertex_check(model.max, model.element_size, offset, elements, data.len(), mapping.len())
            == Err::<(), BufferError>(BufferError::Overflow),
        vertex_write_spec(model, mapping, offset, elements, data) == (model, mapping),
{
}

/// Writing the same vertices twice gives the same record and the same
/// memory as writing them once.
pub proof fn lemma_vertex_write_idempotent(
    model: VertexModel,
    mapping: Seq<u8>,
    offset: nat,
    elements: nat,
    data: Seq<u8>,
)
    ensures
        ({
            let once = vertex_write_spec(model, mapping, offset, elements, data);
            vertex_write_spec(once.0, once.1, offset, elements, data) == once
        }),
{
    let once = vertex_write_spec(model, mapping, offset, elements, data);
    let twice = vertex_write_spec(once.0, once.1, offset, elements, data);
    if vertex_check(model.max, model.element_size, offset, elements, data.len(), mapping.len())
        is Ok {
        assert(model.element_size * elements <= model.element_size * model.max)
            by (nonlinear_arith)
            requires
                elements <= model.max,
        ;
        assert(once.1.len() == mapping.len());
        assert(twice.1 =~= once.1);
    }
}

/// A vertex buffer: the handles of the GPU buffer and of its memory, the
/// size of an element and the greatest number of elements, both fixed when
/// the buffer was made, and the number of elements of the last write.
pub struct VertexBuffer<B, M> {
    buffer: B,
    memory: M,
    record: VertexRecord,
}

/// The size of a vertex buffer, which lies within the machine's number
/// range, and the number of elements of its last write, which is not above
/// the number it holds.
struct VertexRecord {
    element_size: usize,
    max: usize,
    count: usize,
}

impl VertexRecord {
    #[verifier::type_invariant]
    spec fn inv(&self) -> bool {
        self.count <= self.max && self.element_size * self.max <= usize::MAX
    }

    /// What is recorded.
    closed spec fn model(&self) -> VertexModel {
        VertexModel {
            element_size: self.element_size as nat,
            max: self.max as nat,
            count: self.count as nat,
        }
    }

    /// Records a write of `elements` elements.
    fn note(&mut self, elements: usize)
        requires
            elements <= old(self).model().max,
        ensures
            final(self).model() == (VertexModel { count: elements as nat, ..old(self).model() }),
    {
        proof {
            use_type_invariant(&*self);
        }
        self.count = elements;
    }
}

impl<B, M> VertexBuffer<B, M> {
    /// What the buffer records.
    pub closed spec fn model(&self) -> VertexModel {
        self.record.model()
    }

    /// The handle of the GPU buffer.
    pub closed spec fn handle(&self) -> B {
        self.buffer
    }

    /// The handle of the buffer's memory.
    pub closed spec fn allocation(&self) -> M {
        self.memory
    }

    /// Makes the record of a vertex buffer for up to `max` elements of
    /// `element_size` bytes each, with nothing written. There is none where
    /// the size of the buffer in bytes is beyond the machine's number range.
    pub fn new(buffer: B, memory: M, element_size: usize, max: usize) -> (made: Option<Self>)
        ensures
            made is Some <==> element_size * max <= usize::MAX,
            made matches Some(b) ==> b.model() == (VertexModel {
                element_size: element_size as nat,
                max: max as nat,
                count: 0,
            }) && b.handle() == buffer && b.allocation() == memory,
    {
        match element_size.checked_mul(max) {
            Some(_) => Some(
                VertexBuffer { buffer, memory, record: VertexRecord { element_size, max, count: 0 } },
            ),
            None => None,
        }
    }

    /// Tells whether a write of `elements` elements from the element
    /// `offset` on stays within the number of elements that the buffer
    /// holds.
    pub fn accepts(&self, offset: usize, elements: usize) -> (r: bool)
        ensures
            r == (offset + elements <= self.model().max),
    {
        match offset.checked_add(elements) {
            Some(end) => end <= self.record.max,
            None => false,
        }
    }

    /// Writes `elements` elements, whose bytes are `data`, into the mapped
    /// memory `mapping` of the buffer.
    ///
    /// A write of more elements than the buffer holds is a mistake of the
    /// caller and must not be made: `accepts` tells beforehand. The write
    /// puts the data at the start of the mapped memory and records the
    /// number of elements; it is refused, and changes nothing, where the
    /// data or the mapped memory has not the size that it must have.
    pub fn write(&mut self, mapping: &mut [u8], offset: usize, elements: usize, data: &[u8]) -> (r:
        Result<(), BufferError>)
        requires
            offset + elements <= old(self).model().max,
        ensures
            r != Err::<(), BufferError>(BufferError::Overflow),
            r == vertex_check(
                old(self).model().max,
                old(self).model().element_size,
                offset as nat,
                elements as nat,
                data@.len(),
                old(mapping)@.len(),
            ),
            (final(self).model(), final(mapping)@) == vertex_write_spec(
                old(self).model(),
                old(mapping)@,
                offset as nat,
                elements as nat,
                data@,
            ),
            final(self).model().count <= final(self).model().max,
            final(self).handle() == old(self).handle(),
            final(self).allocation() == old(self).allocation(),
    {
        proof {
            use_type_invariant(&self.record);
        }
        let end = match offset.checked_add(elements) {
            Some(end) => end,
            None => {
                return Err(BufferError::Overflow);
            },
        };
        let max = self.record.max;
        let element_size = self.record.element_size;
        if end > max {
            return Err(BufferError::Overflow);
        }
        assert(element_size * elements <= element_size * max) by (nonlinear_arith)
            requires
                elements <= max,
        ;
        let size = element_size * elements;
        if data.len() != size {
            return Err(BufferError::SizeMismatch);
        }
        if mapping.len() < element_size * max {
            return Err(BufferError::ShortMapping);
        }
        copy_into(mapping, data);
        self.record.note(elements);
        Ok(())
    }

    /// Writes as `write` does where the buffer holds that many elements, and
    /// refuses the write with `Overflow`, changing nothing, where it does
    /// not.
    pub fn try_write(
        &mut self,
        mapping: &mut [u8],
        offset: usize,
        elements: usize,
        data: &[u8],
    ) -> (r: Result<(), BufferError>)
        ensures
            r == vertex_check(
                old(self).model().max,
                old(self).model().element_size,
                offset as nat,
                elements as nat,
                data@.len(),
                old(mapping)@.len(),
            ),
            (final(self).model(), final(mapping)@) == vertex_write_spec(
                old(self).model(),
                old(mapping)@,
                offset as nat,
                elements as nat,
                data@,
            ),
            final(self).model().count <= final(self).model().max,
            final(self).handle() == old(self).handle(),
            final(self).allocation() == old(self).allocation(),
    {
        proof {
            use_type_invariant(&self.record);
        }
        if self.accepts(offset, elements) {
            self.write(mapping, offset, elements, data)
        } else {
            Err(BufferError::Overflow)
        }
    }

    /// Returns the number of elements of the last accepted write.
    pub fn count(&self) -> (n: usize)
        ensures
            n == self.model().count,
    {
        self.record.count
    }

    /// Returns the greatest number of elements that the buffer holds.
    pub fn capacity(&self) -> (n: usize)
        ensures
            n == self.model().max,
    {
        self.record.max
    }

    /// Returns the size of the buffer in bytes.
    pub fn byte_capacity(&self) -> (n: usize)
        ensures
            n == self.model().element_size * self.model().max,
    {
        proof {
            use_type_invariant(&self.record);
        }
        self.record.element_size * self.record.max
    }

    /// Returns the handle of the GPU buffer.
    pub fn get<'a>(&'a self) -> (handle: &'a B)
        ensures
            *handle == self.handle(),
    {
        &self.buffer
    }

    /// Returns the handle of the buffer's memory.
    pub fn memory<'a>(&'a self) -> (memory: &'a M)
        ensures
            *memory == self.allocation(),
    {
        &self.memory
    }

    /// Lends the handle of the buffer's memory for mapping; the record
    /// stays as it is.
    pub fn memory_mut<'a>(&'a mut self) -> (memory: &'a mut M)
        ensures
            *memory == old(self).allocation(),
            final(self).allocation() == *final(memory),
            final(self).model() == old(self).model(),
            final(self).handle() == old(self).handle(),
    {
        &mut self.memory
    }

    /// Ends the record and hands back the handles of the buffer's memory
    /// and of the GPU buffer, which are to be freed in this order.
    pub fn destroy(self) -> (handles: (M, B))
        ensures
            handles == (self.allocation(), self.handle()),
    {
        (self.memory, self.buffer)
    }
}

} // verus!
