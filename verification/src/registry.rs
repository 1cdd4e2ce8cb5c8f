//! The registry of the interface fields of a pipeline: which names are
//! declared in which stage, and which slots they take.

use vstd::prelude::*;
use crate::stage::ModuleType;

verus! {

/// The class of an interface field. Slots are counted for each class of
/// each stage apart.
#[derive(Clone, Copy, Debug, PartialEq, Eq, Structural)]
pub enum Direction {
    In,
    Out,
    Uniform,
}

/// A declared interface field: its name, the stage that declares it, its
/// class, and the slots that it takes, `width` of them from `slot` on.
#[derive(Debug)]
pub struct FieldDescriptor {
    pub name: String,
    pub stage: ModuleType,
    pub direction: Direction,
    pub slot: usize,
    pub width: usize,
}

/// The mathematical value of a [`FieldDescriptor`].
pub struct FieldView {
    pub name: Seq<char>,
    pub stage: ModuleType,
    pub direction: Direction,
    pub slot: nat,
    pub width: nat,
}

impl View for FieldDescriptor {
    type V = FieldView;

    open spec fn view(&self) -> FieldView {
        FieldView {
            name: self.name@,
            stage: self.stage,
            direction: self.direction,
            slot: self.slot as nat,
            width: self.width as nat,
        }
    }
}

/// Why a field could not be registered.
#[derive(Clone, Copy, Debug, PartialEq, Eq, Structural)]
pub enum RegistryError {
    /// The stage already declares a field of that name.
    Redeclared,
    /// The slots asked for are taken in part by another field of the same
    /// class and stage.
    SlotCollision,
    /// No run of slots of the width asked for lies within the machine's
    /// number range.
    OutOfSlots,
}

/// Whether `stage` declares a field named `name` among `fields`.
pub open spec fn has_field(fields: Seq<FieldView>, stage: ModuleType, name: Seq<char>) -> bool {
    exists|i: int|
        0 <= i < fields.len() && (#[trigger] fields[i]).stage == stage && fields[i].name == name
}

/// Whether field `f` takes any of the `width` slots from `slot` on in the
/// class `direction` of `stage`.
pub open spec fn takes(f: FieldView, stage: ModuleType, direction: Direction, slot: nat, width: nat) -> bool {
    f.stage == stage && f.direction == direction && f.slot < slot + width && slot < f.slot + f.width
}

/// Whether none of the `width` slots from `slot` on is taken in the class
/// `direction` of `stage`.
pub open spec fn range_free(
    fields: Seq<FieldView>,
    stage: ModuleType,
    direction: Direction,
    slot: nat,
    width: nat,
) -> bool {
    forall|i: int| 0 <= i < fields.len() ==> !takes(#[trigger] fields[i], stage, direction, slot, width)
}

/// Whether `slot` is the lowest slot from which `width` slots are free.
pub open spec fn lowest_free(
    fields: Seq<FieldView>,
    stage: ModuleType,
    direction: Direction,
    slot: nat,
    width: nat,
) -> bool {
    &&& range_free(fields, stage, direction, slot, width)
    &&& forall|s: nat| s < slot ==> !range_free(fields, stage, direction, s, width)
}

/// The lowest slot from which `width` slots are free.
pub open spec fn auto_slot(
    fields: Seq<FieldView>,
    stage: ModuleType,
    direction: Direction,
    width: nat,
) -> nat {
    choose|s: nat| lowest_free(fields, stage, direction, s, width)
}

/// There is only one lowest free slot.
pub proof fn lemma_lowest_free_unique(
    fields: Seq<FieldView>,
    stage: ModuleType,
    direction: Direction,
    width: nat,
    a: nat,
    b: nat,
)
    requires
        lowest_free(fields, stage, direction, a, width),
        lowest_free(fields, stage, direction, b, width),
    ensures
        a == b,
{
}

/// What registering a field gives: the field's first slot, or the reason
/// why it is refused.
///
/// A name that the stage already declares is refused. Slots asked for are
/// given as they stand, unless one of them is taken or beyond the machine's
/// number range. A field that asks for none gets the lowest slots that are
/// free, if they lie within that range.
pub open spec fn register_spec(
    fields: Seq<FieldView>,
    stage: ModuleType,
    name: Seq<char>,
    direction: Direction,
    width: nat,
    explicit: Option<usize>,
) -> Result<nat, RegistryError> {
    if has_field(fields, stage, name) {
        Err(RegistryError::Redeclared)
    } else {
        match explicit {
            Some(s) => {
                if s + width > usize::MAX {
                    Err(RegistryError::OutOfSlots)
                } else if !range_free(fields, stage, direction, s as nat, width) {
                    Err(RegistryError::SlotCollision)
                } else {
                    Ok(s as nat)
                }
            },
            None => {
                if exists|s: nat|
                    lowest_free(fields, stage, direction, s, width) && s + width <= usize::MAX {
                    Ok(auto_slot(fields, stage, direction, width))
                } else {
                    Err(RegistryError::OutOfSlots)
                }
            },
        }
    }
}

/// The fields after a field is registered: the field is added at the slot
/// it was given, and nothing changes where it is refused.
pub open spec fn registered_spec(
    fields: Seq<FieldView>,
    stage: ModuleType,
    name: Seq<char>,
    direction: Direction,
    width: nat,
    explicit: Option<usize>,
) -> Seq<FieldView> {
    match register_spec(fields, stage, name, direction, width, explicit) {
        Ok(slot) => fields.push(FieldView { name, stage, direction, slot, width }),
        Err(_) => fields,
    }
}

/// Whether within each stage no name is declared twice, and no slot of a
/// class is taken twice.
pub open spec fn consistent(fields: Seq<FieldView>) -> bool {
    &&& forall|i: int, j: int|
        0 <= i < j < fields.len() ==> !((#[trigger] fields[i]).stage == (#[trigger] fields[j]).stage
            && fields[i].name == fields[j].name)
    &&& forall|i: int, j: int|
        0 <= i < j < fields.len() ==> !takes(
            #[trigger] fields[i],
            (#[trigger] fields[j]).stage,
            fields[j].direction,
            fields[j].slot,
            fields[j].width,
        )
}

/// The fields of a pipeline build, in the order of registration, with the
/// places where the current stage and the stage before it begin.
#[derive(Debug)]
pub struct StructRegistry {
    fields: Vec<FieldDescriptor>,
    stage_start: usize,
    previous_start: usize,
}

impl StructRegistry {
    /// The registered fields, in the order of registration.
    pub closed spec fn fields(&self) -> Seq<FieldView> {
        Seq::new(self.fields@.len(), |i: int| self.fields@[i]@)
    }

    /// The number of fields that were registered before the current stage.
    pub closed spec fn stage_start(&self) -> nat {
        self.stage_start as nat
    }

    /// The number of fields that were registered before the stage that
    /// precedes the current one.
    pub closed spec fn previous_start(&self) -> nat {
        self.previous_start as nat
    }

    /// The registry's invariant.
    pub closed spec fn wf(&self) -> bool {
        &&& self.previous_start <= self.stage_start <= self.fields@.len()
        &&& consistent(self.fields())
        &&& forall|i: int|
            0 <= i < self.fields@.len() ==> (#[trigger] self.fields@[i]).slot + self.fields@[i].width
                <= usize::MAX
    }

    /// A well-formed registry declares no name twice in a stage and gives no
    /// slot of a class twice.
    pub proof fn lemma_consistent(&self)
        requires
            self.wf(),
        ensures
            consistent(self.fields()),
            self.previous_start() <= self.stage_start() <= self.fields().len(),
    {
    }

    /// Creates an empty registry.
    pub fn new() -> (registry: StructRegistry)
        ensures
            registry.wf(),
            registry.fields() == Seq::<FieldView>::empty(),
            registry.stage_start() == 0,
            registry.previous_start() == 0,
    {
        let registry = StructRegistry { fields: Vec::new(), stage_start: 0, previous_start: 0 };
        assert(registry.fields() =~= Seq::empty());
        registry
    }

    /// Begins the next stage: the fields registered so far stay, and those
    /// of the stage that ends become the fields of the preceding stage.
    pub fn next_module(&mut self)
        requires
            old(self).wf(),
        ensures
            final(self).wf(),
            final(self).fields() == old(self).fields(),
            final(self).previous_start() == old(self).stage_start(),
            final(self).stage_start() == old(self).fields().len(),
    {
        self.previous_start = self.stage_start;
        self.stage_start = self.fields.len();
        assert(self.fields() =~= old(self).fields());
    }

    /// Returns the number of registered fields.
    pub fn len(&self) -> (n: usize)
        ensures
            n == self.fields().len(),
    {
        self.fields.len()
    }

    /// Returns the field that was registered as number `i`, if there are
    /// so many.
    pub fn field(&self, i: usize) -> (f: Option<&FieldDescriptor>)
        ensures
            f is Some <==> i < self.fields().len(),
            f matches Some(d) ==> d@ == self.fields()[i as int],
    {
        if i < self.fields.len() {
            Some(&self.fields[i])
        } else {
            None
        }
    }

    /// Tells whether `stage` declares a field named `name`.
    pub fn contains(&self, stage: ModuleType, name: &str) -> (found: bool)
        ensures
            found == has_field(self.fields(), stage, name@),
    {
        let probe = name.to_owned();
        let mut i: usize = 0;
        while i < self.fields.len()
            invariant
                i <= self.fields.len(),
                probe@ == name@,
                forall|k: int|
                    0 <= k < i ==> !((#[trigger] self.fields()[k]).stage == stage
                        && self.fields()[k].name == name@),
            decreases self.fields.len() - i,
        {
            if self.fields[i].stage == stage && self.fields[i].name == probe {
                assert(self.fields()[i as int].stage == stage && self.fields()[i as int].name
                    == name@);
                return true;
            }
            i = i + 1;
        }
        false
    }

    /// Returns the place of a field that takes one of the `width` slots
    /// from `slot` on in the class `direction` of `stage`, if there is one.
    fn find_taker(&self, stage: ModuleType, direction: Direction, slot: usize, width: usize) -> (r:
        Option<usize>)
        ensures
            r is None <==> range_free(self.fields(), stage, direction, slot as nat, width as nat),
            r matches Some(j) ==> j < self.fields().len() && takes(
                self.fields()[j as int],
                stage,
                direction,
                slot as nat,
                width as nat,
            ),
    {
        let mut i: usize = 0;
        while i < self.fields.len()
            invariant
                i <= self.fields.len(),
                forall|k: int|
                    0 <= k < i ==> !takes(
                        #[trigger] self.fields()[k],
                        stage,
                        direction,
                        slot as nat,
                        width as nat,
                    ),
            decreases self.fields.len() - i,
        {
            let f = &self.fields[i];
            assert(self.fields()[i as int] == f@);
            if f.stage == stage && f.direction == direction && (f.slot as u128) < (slot as u128) + (
            width as u128) && (slot as u128) < (f.slot as u128) + (f.width as u128) {
                return Some(i);
            }
            i = i + 1;
        }
        None
    }

    /// Registers the field `name` of `stage` in the class `direction`, with
    /// `width` consecutive slots.
    ///
    /// A name that the stage already declares is refused, whatever slots
    /// are asked for. Slots asked for by `explicit` are given as they stand,
    /// unless one of them is taken; without `explicit` the field gets the
    /// lowest slots that are free. On success the first slot is returned
    /// and the field is added; on an error the registry is unchanged.
    pub fn register(
        &mut self,
        stage: ModuleType,
        name: &str,
        direction: Direction,
        width: usize,
        explicit: Option<usize>,
    ) -> (r: Result<usize, RegistryError>)
        requires
            old(self).wf(),
        ensures
            final(self).wf(),
            final(self).stage_start() == old(self).stage_start(),
            final(self).previous_start() == old(self).previous_start(),
            match r {
                Ok(slot) => register_spec(
                    old(self).fields(),
                    stage,
                    name@,
                    direction,
                    width as nat,
                    explicit,
                ) == Ok::<nat, RegistryError>(slot as nat),
                Err(e) => register_spec(
                    old(self).fields(),
                    stage,
                    name@,
                    direction,
                    width as nat,
                    explicit,
                ) == Err::<nat, RegistryError>(e),
            },
            final(self).fields() == registered_spec(
                old(self).fields(),
                stage,
                name@,
                direction,
                width as nat,
                explicit,
            ),
            r is Err ==> final(self).fields() == old(self).fields(),
            r == Err::<usize, RegistryError>(RegistryError::Redeclared) <==> has_field(
                old(self).fields(),
                stage,
                name@,
            ),
            r matches Ok(slot) ==> {
                &&& final(self).fields() == old(self).fields().push(
                    FieldView {
                        name: name@,
                        stage,
                        direction,
                        slot: slot as nat,
                        width: width as nat,
                    },
                )
                &&& range_free(old(self).fields(), stage, direction, slot as nat, width as nat)
                &&& slot + width <= usize::MAX
                &&& match explicit {
                    Some(s) => slot == s,
                    None => lowest_free(old(self).fields(), stage, direction, slot as nat, width as nat),
                }
            },
            r == Err::<usize, RegistryError>(RegistryError::SlotCollision) ==> explicit is Some
                && explicit->0 + width <= usize::MAX && !range_free(
                old(self).fields(),
                stage,
                direction,
                explicit->0 as nat,
                width as nat,
            ),
            r == Err::<usize, RegistryError>(RegistryError::OutOfSlots) ==> match explicit {
                Some(s) => s + width > usize::MAX,
                None => forall|s: nat|
                    s + width <= usize::MAX ==> !range_free(
                        old(self).fields(),
                        stage,
                        direction,
                        s,
                        width as nat,
                    ),
            },
    {
        if self.contains(stage, name) {
            return Err(RegistryError::Redeclared);
        }
        let slot = match explicit {
            Some(s) => {
                if s > usize::MAX - width {
                    return Err(RegistryError::OutOfSlots);
                }
                if self.find_taker(stage, direction, s, width).is_some() {
                    return Err(RegistryError::SlotCollision);
                }
                s
            },
            None => {
                let mut s: usize = 0;
                loop
                    invariant
                        self.wf(),
                        self.fields() == old(self).fields(),
                        self.stage_start() == old(self).stage_start(),
                        self.previous_start() == old(self).previous_start(),
                        explicit is None,
                        !has_field(old(self).fields(), stage, name@),
                        forall|t: nat|
                            t < s ==> !range_free(self.fields(), stage, direction, t, width as nat),
                    ensures
                        s + width <= usize::MAX,
                        lowest_free(self.fields(), stage, direction, s as nat, width as nat),
                        self.fields() == old(self).fields(),
                    decreases usize::MAX - s,
                {
                    if s > usize::MAX - width {
                        proof {
                            assert forall|t: nat| t + width <= usize::MAX implies !range_free(
                                self.fields(),
                                stage,
                                direction,
                                t,
                                width as nat,
                            ) by {
                                assert(t < s);
                            }
                        }
                        return Err(RegistryError::OutOfSlots);
                    }
                    match self.find_taker(stage, direction, s, width) {
                        None => {
                            break ;
                        },
                        Some(j) => {
                            let next = self.fields[j].slot + self.fields[j].width;
                            proof {
                                let f = self.fields()[j as int];
                                assert(f == self.fields@[j as int]@);
                                assert forall|t: nat| t < next implies !range_free(
                                    self.fields(),
                                    stage,
                                    direction,
                                    t,
                                    width as nat,
                                ) by {
                                    if t >= s {
                                        assert(takes(f, stage, direction, t, width as nat));
                                    }
                                }
                            }
                            s = next;
                        },
                    }
                }
                s
            },
        };
        let ghost before = self.fields();
        proof {
            if explicit is None {
                let chosen = auto_slot(before, stage, direction, width as nat);
                lemma_lowest_free_unique(before, stage, direction, width as nat, slot as nat, chosen);
            }
        }
        let ghost added = FieldView {
            name: name@,
            stage,
            direction,
            slot: slot as nat,
            width: width as nat,
        };
        self.fields.push(FieldDescriptor { name: name.to_owned(), stage, direction, slot, width });
        proof {
            assert(self.fields() =~= before.push(added));
            assert forall|i: int, j: int| 0 <= i < j < self.fields().len() implies !((
            #[trigger] self.fields()[i]).stage == (#[trigger] self.fields()[j]).stage
                && self.fields()[i].name == self.fields()[j].name) by {
                if j == before.len() {
                    assert(before[i] == self.fields()[i]);
                }
            }
            assert forall|i: int, j: int| 0 <= i < j < self.fields().len() implies !takes(
                #[trigger] self.fields()[i],
                (#[trigger] self.fields()[j]).stage,
                self.fields()[j].direction,
                self.fields()[j].slot,
                self.fields()[j].width,
            ) by {
                if j == before.len() {
                    assert(before[i] == self.fields()[i]);
                }
            }
        }
        Ok(slot)
    }

    /// Looks among the fields of the preceding stage for the output named
    /// `name`, and returns its first slot: the input of that name in the
    /// current stage receives what that output passes on.
    pub fn matching_output(&self, name: &str) -> (slot: Option<usize>)
        requires
            self.wf(),
        ensures
            slot is Some <==> exists|i: int|
                self.previous_start() <= i < self.stage_start() && is_output_named(
                    #[trigger] self.fields()[i],
                    name@,
                ),
            slot matches Some(s) ==> exists|i: int|
                self.previous_start() <= i < self.stage_start() && is_output_named(
                    #[trigger] self.fields()[i],
                    name@,
                ) && self.fields()[i].slot == s,
    {
        let probe = name.to_owned();
        let mut i: usize = self.previous_start;
        while i < self.stage_start
            invariant
                self.wf(),
                self.previous_start <= i <= self.stage_start,
                probe@ == name@,
                forall|k: int|
                    self.previous_start() <= k < i ==> !is_output_named(
                        #[trigger] self.fields()[k],
                        name@,
                    ),
            decreases self.stage_start - i,
        {
            let f = &self.fields[i];
            assert(self.fields()[i as int] == f@);
            if f.direction == Direction::Out && f.name == probe {
                return Some(f.slot);
            }
            i = i + 1;
        }
        None
    }
}

/// Whether `f` is an output named `name`.
pub open spec fn is_output_named(f: FieldView, name: Seq<char>) -> bool {
    f.direction == Direction::Out && f.name == name
}

/// Registering the same name twice in a stage always fails: once a field is
/// registered, its stage declares its name, whatever is registered after it,
/// and registering that name in that stage again is refused, whatever class
/// and slots are asked for.
pub proof fn lemma_registered_twice(
    fields: Seq<FieldView>,
    first: FieldView,
    later: Seq<FieldView>,
    direction: Direction,
    width: nat,
    explicit: Option<usize>,
)
    ensures
        has_field(fields.push(first) + later, first.stage, first.name),
        register_spec(
            fields.push(first) + later,
            first.stage,
            first.name,
            direction,
            width,
            explicit,
        ) == Err::<nat, RegistryError>(RegistryError::Redeclared),
{
    let all = fields.push(first) + later;
    assert(all[fields.len() as int] == first);
}

} // verus!
