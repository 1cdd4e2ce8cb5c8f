//! What is made of an annotated block: its registration, the plain
//! declaration that replaces it in the source, and the rule that renames
//! the accesses to its members.

use vstd::prelude::*;
use crate::annotation::{BindgenFieldType, BindgenStruct, BindgenStructView, Member, MemberView};
use crate::registry::{Direction, FieldView, RegistryError, StructRegistry, has_field, lowest_free, range_free, register_spec, registered_spec};
use crate::report::{decimal, decimal_spec, push_all};
use crate::text::{chars_of, string_of};

verus! {

/// The number of locations that the first `n` of `members` take.
pub open spec fn slots_sum(members: Seq<MemberView>, n: int) -> nat
    decreases n,
{
    if n <= 0 {
        0
    } else {
        slots_sum(members, n - 1) + members[n - 1].0.slots_spec()
    }
}

/// The sum of the locations grows with the number of members.
pub proof fn lemma_slots_sum_monotonic(members: Seq<MemberView>, i: int, j: int)
    requires
        0 <= i <= j,
    ensures
        slots_sum(members, i) <= slots_sum(members, j),
    decreases j - i,
{
    if i < j {
        lemma_slots_sum_monotonic(members, i, j - 1);
    }
}

impl BindgenStructView {
    /// The class under which the block is registered.
    pub open spec fn direction(self) -> Direction {
        match self.meta.bind_type {
            BindgenFieldType::Uniform(_) => Direction::Uniform,
            BindgenFieldType::In(_) => Direction::In,
            BindgenFieldType::Out(_) => Direction::Out,
        }
    }

    /// The number of slots that the block takes: one binding for a uniform
    /// block, else the locations of all its members.
    pub open spec fn width(self) -> nat {
        match self.meta.bind_type {
            BindgenFieldType::Uniform(_) => 1,
            _ => slots_sum(self.members, self.members.len() as int),
        }
    }

    /// The slot that the block's declaration asks for, if it names one.
    pub open spec fn explicit(self) -> Option<usize> {
        match self.meta.bind_type {
            BindgenFieldType::Uniform(binding) => Some(binding),
            BindgenFieldType::In(slot) => slot,
            BindgenFieldType::Out(slot) => slot,
        }
    }

    /// The first slot of the block: the one it was registered with, else
    /// the one that its declaration asks for, else zero.
    pub open spec fn first_slot(self) -> nat {
        match self.slot {
            Some(slot) => slot as nat,
            None => match self.explicit() {
                Some(slot) => slot as nat,
                None => 0,
            },
        }
    }

    /// Whether the slots of the block lie within the machine's number
    /// range. They do once the block is registered.
    pub open spec fn fits(self) -> bool {
        self.first_slot() + self.width() <= usize::MAX
    }

    /// The registry's entry for the block at the slot `slot`.
    pub open spec fn entry(self, slot: nat) -> FieldView {
        FieldView {
            name: self.field_name,
            stage: self.meta.in_module,
            direction: self.direction(),
            slot,
            width: self.width(),
        }
    }
}

/// What registering the block `s` among `fields` gives: its first slot, or
/// the reason why it is refused.
pub open spec fn generate_spec(s: BindgenStructView, fields: Seq<FieldView>) -> Result<
    nat,
    RegistryError,
> {
    register_spec(fields, s.meta.in_module, s.field_name, s.direction(), s.width(), s.explicit())
}

/// The fields after the block `s` is registered among `fields`.
pub open spec fn generated_fields(s: BindgenStructView, fields: Seq<FieldView>) -> Seq<FieldView> {
    registered_spec(fields, s.meta.in_module, s.field_name, s.direction(), s.width(), s.explicit())
}

/// The declaration of the member `member` of the block named `field` as an
/// input or output (`word` says which) at the location `location`: a
/// variable of its own, named after the block and the member.
pub open spec fn io_line(word: Seq<char>, location: nat, field: Seq<char>, member: MemberView) -> Seq<
    char,
> {
    "layout(location = "@ + decimal_spec(location) + ") "@ + word + " "@ + member.0.name_spec()
        + " _"@ + field + "_"@ + member.1 + ";\n"@
}

/// The declarations of the first `n` members of an input or output block
/// whose first location is `slot`: each member follows the locations of
/// those before it.
pub open spec fn io_lines(word: Seq<char>, slot: nat, field: Seq<char>, members: Seq<MemberView>, n: int) -> Seq<
    char,
>
    decreases n,
{
    if n <= 0 {
        Seq::empty()
    } else {
        io_lines(word, slot, field, members, n - 1) + io_line(
            word,
            slot + slots_sum(members, n - 1),
            field,
            members[n - 1],
        )
    }
}

/// The declaration of a member within a uniform block.
pub open spec fn member_line(member: MemberView) -> Seq<char> {
    "    "@ + member.0.name_spec() + " "@ + member.1 + ";\n"@
}

/// The declarations of the first `n` members within a uniform block.
pub open spec fn member_lines(members: Seq<MemberView>, n: int) -> Seq<char>
    decreases n,
{
    if n <= 0 {
        Seq::empty()
    } else {
        member_lines(members, n - 1) + member_line(members[n - 1])
    }
}

/// The opening of the declaration of a uniform block, after a line feed.
pub open spec fn uniform_head(binding: usize, struct_name: Seq<char>) -> Seq<char> {
    "\n"@ + "layout(binding = "@ + decimal_spec(binding as nat) + ") uniform "@ + struct_name
        + " {\n"@
}

/// The plain declaration that stands for the block in the source handed to
/// the compiler, after a line feed: a uniform block with its binding, or a
/// variable with its location for each member of an input or output block.
pub open spec fn glsl_spec(s: BindgenStructView) -> Seq<char> {
    match s.meta.bind_type {
        BindgenFieldType::Uniform(binding) => uniform_head(binding, s.struct_name) + member_lines(
            s.members,
            s.members.len() as int,
        ) + "} "@ + s.field_name + ";\n"@,
        BindgenFieldType::In(_) => "\n"@ + io_lines(
            "in"@,
            s.first_slot(),
            s.field_name,
            s.members,
            s.members.len() as int,
        ),
        BindgenFieldType::Out(_) => "\n"@ + io_lines(
            "out"@,
            s.first_slot(),
            s.field_name,
            s.members,
            s.members.len() as int,
        ),
    }
}

/// The pattern that finds the accesses to the members of the block named
/// `field`: the name as a whole word, a dot, and the start of a word.
pub open spec fn rename_pattern_spec(field: Seq<char>) -> Seq<char> {
    "\\b"@ + field + "\\.\\b"@
}

/// What an access to a member of the block named `field` begins with once
/// it is renamed.
pub open spec fn rename_prefix_spec(field: Seq<char>) -> Seq<char> {
    "_"@ + field + "_"@
}

/// Appends the characters of `part` to `text`.
pub(crate) fn push_str(text: &mut Vec<char>, part: &str)
    ensures
        final(text)@ == old(text)@ + part@,
{
    push_all(text, &chars_of(part));
}

/// Appends to `out` the declaration of `member` within a uniform block.
fn push_member_line(out: &mut Vec<char>, member: &Member)
    ensures
        final(out)@ == old(out)@ + member_line((member.ty, member.name@)),
{
    push_str(out, "    ");
    push_str(out, member.ty.name());
    push_str(out, " ");
    push_str(out, member.name.as_str());
    push_str(out, ";\n");
    assert(out@ =~= old(out)@ + member_line((member.ty, member.name@)));
}

/// Appends to `out` the declaration of `member` of the block named `field`
/// as an input or output at the location `location`.
fn push_io_line(out: &mut Vec<char>, word: &str, location: usize, field: &str, member: &Member)
    ensures
        final(out)@ == old(out)@ + io_line(
            word@,
            location as nat,
            field@,
            (member.ty, member.name@),
        ),
{
    push_str(out, "layout(location = ");
    push_all(out, &decimal(location));
    push_str(out, ") ");
    push_str(out, word);
    push_str(out, " ");
    push_str(out, member.ty.name());
    push_str(out, " _");
    push_str(out, field);
    push_str(out, "_");
    push_str(out, member.name.as_str());
    push_str(out, ";\n");
    assert(out@ =~= old(out)@ + io_line(word@, location as nat, field@, (member.ty, member.name@)));
}

impl BindgenStruct {
    /// Returns the class under which the block is registered.
    pub fn direction(&self) -> (d: Direction)
        ensures
            d == self@.direction(),
    {
        match self.meta.bind_type {
            BindgenFieldType::Uniform(_) => Direction::Uniform,
            BindgenFieldType::In(_) => Direction::In,
            BindgenFieldType::Out(_) => Direction::Out,
        }
    }

    /// Returns the slot that the block's declaration asks for, if any.
    pub fn explicit(&self) -> (slot: Option<usize>)
        ensures
            slot == self@.explicit(),
    {
        match self.meta.bind_type {
            BindgenFieldType::Uniform(binding) => Some(binding),
            BindgenFieldType::In(slot) => slot,
            BindgenFieldType::Out(slot) => slot,
        }
    }

    /// Returns the first slot of the block.
    pub fn first_slot(&self) -> (slot: usize)
        ensures
            slot == self@.first_slot(),
    {
        match self.slot {
            Some(slot) => slot,
            None => match self.explicit() {
                Some(slot) => slot,
                None => 0,
            },
        }
    }

    /// Returns the number of slots that the block takes, if that number
    /// lies within the machine's number range.
    pub fn width(&self) -> (w: Option<usize>)
        ensures
            w is Some <==> self@.width() <= usize::MAX,
            w matches Some(n) ==> n == self@.width(),
    {
        match self.meta.bind_type {
            BindgenFieldType::Uniform(_) => Some(1),
            _ => {
                let mut sum: usize = 0;
                let mut i: usize = 0;
                while i < self.members.len()
                    invariant
                        i <= self.members.len(),
                        !(self.meta.bind_type is Uniform),
                        sum == slots_sum(self@.members, i as int),
                    decreases self.members.len() - i,
                {
                    sum = match sum.checked_add(self.members[i].ty.slots()) {
                        Some(sum) => sum,
                        None => {
                            proof {
                                lemma_slots_sum_monotonic(
                                    self@.members,
                                    i + 1,
                                    self.members.len() as int,
                                );
                            }
                            return None;
                        },
                    };
                    i = i + 1;
                }
                Some(sum)
            },
        }
    }

    /// Registers the block under its name and stage, and notes the slot it
    /// was given.
    ///
    /// A block whose name the stage already declares is refused, however
    /// its slots are chosen. On an error neither the block nor the registry
    /// changes.
    pub fn generate(&mut self, registry: &mut StructRegistry) -> (r: Result<(), RegistryError>)
        requires
            old(registry).wf(),
        ensures
            final(registry).wf(),
            final(registry).stage_start() == old(registry).stage_start(),
            final(registry).previous_start() == old(registry).previous_start(),
            match generate_spec(old(self)@, old(registry).fields()) {
                Ok(slot) => r is Ok && final(self)@ == (BindgenStructView {
                    slot: Some(slot as usize),
                    ..old(self)@
                }) && slot <= usize::MAX,
                Err(e) => r == Err::<(), RegistryError>(e),
            },
            final(registry).fields() == generated_fields(old(self)@, old(registry).fields()),
            r is Err ==> final(registry).fields() == old(registry).fields() && final(self)@ == old(
                self,
            )@,
            r == Err::<(), RegistryError>(RegistryError::Redeclared) <==> has_field(
                old(registry).fields(),
                old(self)@.meta.in_module,
                old(self)@.field_name,
            ),
            r is Ok ==> {
                let s = old(self)@;
                &&& final(self)@.slot is Some
                &&& final(self)@ == BindgenStructView { slot: final(self)@.slot, ..s }
                &&& final(self)@.fits()
                &&& final(registry).fields() == old(registry).fields().push(
                    s.entry(final(self)@.first_slot()),
                )
                &&& range_free(
                    old(registry).fields(),
                    s.meta.in_module,
                    s.direction(),
                    final(self)@.first_slot(),
                    s.width(),
                )
                &&& match s.explicit() {
                    Some(slot) => final(self)@.slot == Some(slot),
                    None => lowest_free(
                        old(registry).fields(),
                        s.meta.in_module,
                        s.direction(),
                        final(self)@.first_slot(),
                        s.width(),
                    ),
                }
            },
    {
        if registry.contains(self.meta.in_module, self.field_name.as_str()) {
            return Err(RegistryError::Redeclared);
        }
        let width = match self.width() {
            Some(width) => width,
            None => {
                return Err(RegistryError::OutOfSlots);
            },
        };
        match registry.register(
            self.meta.in_module,
            self.field_name.as_str(),
            self.direction(),
            width,
            self.explicit(),
        ) {
            Ok(slot) => {
                self.slot = Some(slot);
                Ok(())
            },
            Err(e) => Err(e),
        }
    }

    /// Returns the plain declaration that stands for the block in the
    /// source handed to the compiler.
    pub fn to_glsl(&self) -> (text: String)
        requires
            self@.fits(),
        ensures
            text@ == glsl_spec(self@),
    {
        let mut out: Vec<char> = Vec::new();
        push_str(&mut out, "\n");
        match self.meta.bind_type {
            BindgenFieldType::Uniform(binding) => {
                push_str(&mut out, "layout(binding = ");
                push_all(&mut out, &decimal(binding));
                push_str(&mut out, ") uniform ");
                push_str(&mut out, self.struct_name.as_str());
                push_str(&mut out, " {\n");
                let ghost head = out@;
                let mut i: usize = 0;
                assert(head =~= uniform_head(binding, self@.struct_name));
                assert(out@ =~= head + member_lines(self@.members, 0));
                while i < self.members.len()
                    invariant
                        i <= self.members.len(),
                        out@ == head + member_lines(self@.members, i as int),
                    decreases self.members.len() - i,
                {
                    push_member_line(&mut out, &self.members[i]);
                    assert(out@ =~= head + member_lines(self@.members, i + 1));
                    i = i + 1;
                }
                let ghost body = out@;
                push_str(&mut out, "} ");
                push_str(&mut out, self.field_name.as_str());
                push_str(&mut out, ";\n");
                let text = string_of(&out);
                assert(text@ =~= body + "} "@ + self@.field_name + ";\n"@);
                text
            },
            _ => {
                let word = match self.meta.bind_type {
                    BindgenFieldType::Out(_) => "out",
                    _ => "in",
                };
                let slot = self.first_slot();
                let ghost head = out@;
                let mut location: usize = slot;
                let mut i: usize = 0;
                assert(out@ =~= head + io_lines(word@, slot as nat, self@.field_name, self@.members, 0));
                while i < self.members.len()
                    invariant
                        i <= self.members.len(),
                        self@.fits(),
                        !(self.meta.bind_type is Uniform),
                        slot == self@.first_slot(),
                        location == slot + slots_sum(self@.members, i as int),
                        out@ == head + io_lines(
                            word@,
                            slot as nat,
                            self@.field_name,
                            self@.members,
                            i as int,
                        ),
                    decreases self.members.len() - i,
                {
                    let member = &self.members[i];
                    push_io_line(&mut out, word, location, self.field_name.as_str(), member);
                    assert(out@ =~= head + io_lines(
                        word@,
                        slot as nat,
                        self@.field_name,
                        self@.members,
                        i + 1,
                    ));
                    proof {
                        lemma_slots_sum_monotonic(self@.members, i + 1, self.members.len() as int);
                    }
                    location = location + member.ty.slots();
                    i = i + 1;
                }
                let text = string_of(&out);
                assert(text@ =~= glsl_spec(self@));
                text
            },
        }
    }

    /// Returns the pattern that finds the accesses to the block's members.
    pub fn rename_pattern(&self) -> (pattern: String)
        ensures
            pattern@ == rename_pattern_spec(self@.field_name),
    {
        let mut out: Vec<char> = Vec::new();
        push_str(&mut out, "\\b");
        push_str(&mut out, self.field_name.as_str());
        push_str(&mut out, "\\.\\b");
        let pattern = string_of(&out);
        assert(pattern@ =~= rename_pattern_spec(self@.field_name));
        pattern
    }

    /// Returns what a renamed access to a member of the block begins with.
    pub fn rename_prefix(&self) -> (prefix: String)
        ensures
            prefix@ == rename_prefix_spec(self@.field_name),
    {
        let mut out: Vec<char> = Vec::new();
        push_str(&mut out, "_");
        push_str(&mut out, self.field_name.as_str());
        push_str(&mut out, "_");
        let prefix = string_of(&out);
        assert(prefix@ =~= rename_prefix_spec(self@.field_name));
        prefix
    }
}

} // verus!
