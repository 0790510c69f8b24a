//! The behaviour of the generated code, as a small semantic model: a
//! builder instance is its ordered field names and one optional-valued
//! storage slot per field. The factory, the setters and the two-phase
//! build operation are given here exactly as the emitted text behaves,
//! so that what the generated builder does can be stated and proved.

use vstd::prelude::*;
use crate::descriptor::NamedField;
use crate::emit::missing_field_message;
use crate::emit::missing_message_text;

verus! {

/// The construction-time failure of a build: it names the first field, in
/// declaration order, whose slot was still unset. The only error the build
/// operation can return; setters and the factory never fail.
#[derive(Debug)]
pub enum BuildError {
    MissingRequiredField(String),
}

impl BuildError {
    /// The name of the field the failure reports.
    pub open spec fn reported_field(self) -> Seq<char> {
        self->MissingRequiredField_0@
    }

    /// The message the generated check reports for this failure.
    pub fn message(&self) -> (r: String)
        ensures
            r@ == missing_message_text(self.reported_field()),
    {
        match self {
            BuildError::MissingRequiredField(name) => missing_field_message(name.as_str()),
        }
    }
}

/// Whether every slot holds a value.
pub open spec fn all_set<V>(slots: Seq<Option<V>>) -> bool {
    forall|i: int| 0 <= i < slots.len() ==> slots[i] is Some
}

/// Whether position `k` holds the first unset slot: unset itself, every
/// slot before it set.
pub open spec fn first_unset_at<V>(slots: Seq<Option<V>>, k: int) -> bool {
    &&& 0 <= k < slots.len()
    &&& slots[k] is None
    &&& forall|j: int| 0 <= j < k ==> slots[j] is Some
}

/// The record the slots assemble to, field by field, meaningful once every
/// slot is set.
pub open spec fn assembled<V>(slots: Seq<Option<V>>) -> Seq<V> {
    Seq::new(slots.len(), |i: int| slots[i].unwrap())
}

/// The slot state of a builder fresh from the factory: every slot unset.
pub open spec fn fresh_slots<V>(n: nat) -> Seq<Option<V>> {
    Seq::new(n, |i: int| Option::<V>::None)
}

/// The field names of a field list, in order.
pub open spec fn names_of(fields: Seq<NamedField>) -> Seq<Seq<char>> {
    Seq::new(fields.len(), |i: int| fields[i].name@)
}

/// A builder instance as the generated code maintains it. The fields are
/// private: the factory is the sole construction path, and the setters the
/// sole mutation path, exactly as in the emitted code.
pub struct BuilderState<V> {
    names: Vec<String>,
    slots: Vec<Option<V>>,
}

impl<V: Copy> BuilderState<V> {
    /// The field names this builder was made for, in declaration order.
    pub closed spec fn field_names(self) -> Seq<Seq<char>> {
        Seq::new(self.names@.len(), |i: int| self.names@[i]@)
    }

    /// The current contents of the storage slots, in declaration order.
    pub closed spec fn slot_values(self) -> Seq<Option<V>> {
        self.slots@
    }

    /// One slot per field.
    pub open spec fn wf(self) -> bool {
        self.field_names().len() == self.slot_values().len()
    }

    /// How many fields the builder covers.
    pub open spec fn field_count(self) -> nat {
        self.slot_values().len()
    }

    /// The factory: a fresh builder for the given fields, every storage
    /// slot initialized to unset. Never fails.
    pub fn builder(fields: &Vec<NamedField>) -> (b: Self)
        ensures
            b.wf(),
            b.field_names() == names_of(fields@),
            b.slot_values() == fresh_slots::<V>(fields@.len() as nat),
    {
        let mut names: Vec<String> = Vec::new();
        let mut slots: Vec<Option<V>> = Vec::new();
        let mut i: usize = 0;
        while i < fields.len()
            invariant
                i <= fields@.len(),
                names@.len() == i,
                slots@.len() == i,
                forall|j: int| 0 <= j < i ==> (#[trigger] names@[j])@ == fields@[j].name@,
                forall|j: int| 0 <= j < i ==> slots@[j] is None,
            decreases fields@.len() - i,
        {
            names.push(fields[i].name.clone());
            slots.push(None);
            i = i + 1;
        }
        let b = BuilderState { names, slots };
        proof {
            assert(b.field_names() =~= names_of(fields@));
            assert(b.slot_values() =~= fresh_slots::<V>(fields@.len() as nat));
        }
        b
    }

    /// One setter call on the field at position `i`: store the value into
    /// the corresponding slot, overwriting whatever was there. The names
    /// and every other slot are untouched; a setter never fails, and this
    /// is the only mutation path — a slot once set cannot be unset.
    pub fn set_field(&mut self, i: usize, value: V)
        requires
            i < old(self).field_count(),
        ensures
            final(self).field_names() == old(self).field_names(),
            final(self).slot_values() == old(self).slot_values().update(i as int, Some(value)),
    {
        self.slots[i] = Some(value);
    }

    /// The build operation: run every check in field declaration order,
    /// stopping at the first unset slot, whose field name the returned
    /// error carries; only when every check passed, assemble the record by
    /// copying each slot's value into its field position. The builder
    /// itself is left untouched either way and can be retried.
    pub fn build(&self) -> (r: Result<Vec<V>, BuildError>)
        requires
            self.wf(),
        ensures
            match r {
                Ok(record) => all_set(self.slot_values()) && record@ == assembled(
                    self.slot_values(),
                ),
                Err(e) => !all_set(self.slot_values()) && exists|k: int|
                    #[trigger] first_unset_at(self.slot_values(), k) && e.reported_field()
                        == self.field_names()[k],
            },
    {
        let mut i: usize = 0;
        while i < self.slots.len()
            invariant
                self.wf(),
                i <= self.slots@.len(),
                forall|j: int| 0 <= j < i ==> self.slots@[j] is Some,
            decreases self.slots@.len() - i,
        {
            if self.slots[i].is_none() {
                let e = BuildError::MissingRequiredField(self.names[i].clone());
                proof {
                    assert(first_unset_at(self.slot_values(), i as int));
                }
                return Err(e);
            }
            i = i + 1;
        }
        let mut record: Vec<V> = Vec::new();
        let mut j: usize = 0;
        while j < self.slots.len()
            invariant
                self.wf(),
                all_set(self.slot_values()),
                j <= self.slots@.len(),
                record@.len() == j,
                forall|k: int| 0 <= k < j ==> record@[k] == self.slots@[k].unwrap(),
            decreases self.slots@.len() - j,
        {
            record.push(self.slots[j].unwrap());
            j = j + 1;
        }
        proof {
            assert(record@ =~= assembled(self.slot_values()));
        }
        Ok(record)
    }
}

} // verus!
