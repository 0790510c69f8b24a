//! The input side of generation: a structural description of one record
//! type, and the extraction pass that normalizes its member list.

use vstd::prelude::*;

verus! {

/// One member of the described type, as the upstream parser hands it over.
/// The name may be absent (a tuple-style member carries no identifier); the
/// type reference is an opaque token text, copied verbatim into generated
/// code and never interpreted.
pub struct FieldDescriptor {
    pub name: Option<String>,
    pub ty: String,
}

/// The structural shape of the described type. Only a record shape can
/// receive a builder; the other shapes are rejected outright.
pub enum TypeShape {
    Record(Vec<FieldDescriptor>),
    Enumeration,
    Union,
}

/// The input to generation: the record's declared name together with its
/// ordered member list. Uniqueness of member names is guaranteed upstream
/// and not re-validated here.
pub struct TypeDescriptor {
    pub name: String,
    pub shape: TypeShape,
}

/// A member after extraction succeeded: its name and its type reference,
/// both present.
pub struct NamedField {
    pub name: String,
    pub ty: String,
}

/// The mathematical content of a named field: its name and its type
/// reference, each as a sequence of characters.
pub struct FieldView {
    pub name: Seq<char>,
    pub ty: Seq<char>,
}

impl View for NamedField {
    type V = FieldView;

    open spec fn view(&self) -> FieldView {
        FieldView { name: self.name@, ty: self.ty@ }
    }
}

/// The field views a well-formed member list extracts to, in order.
pub open spec fn members_view(members: Seq<FieldDescriptor>) -> Seq<FieldView> {
    Seq::new(members.len(), |i: int| FieldView { name: members[i].name.unwrap()@, ty: members[i].ty@ })
}

/// Rejection of the whole input at generation time. No partial output is
/// ever produced alongside one of these.
#[derive(Clone, Copy, Debug, PartialEq, Eq, Structural)]
pub enum GenError {
    /// The descriptor does not describe a record.
    UnsupportedShape,
    /// A member of the record carries no identifier.
    MissingFieldIdentifier,
}

impl TypeDescriptor {
    /// Whether the descriptor has the one shape generation accepts.
    pub open spec fn is_record(self) -> bool {
        self.shape is Record
    }

    /// The descriptor's member list, meaningful only for a record shape.
    pub open spec fn members(self) -> Seq<FieldDescriptor> {
        self.shape->Record_0@
    }
}

/// Whether every member of the list carries a name.
pub open spec fn all_members_named(members: Seq<FieldDescriptor>) -> bool {
    forall|i: int| 0 <= i < members.len() ==> members[i].name is Some
}

/// The extracted field at one position: same name, same type reference.
pub open spec fn extracts_member(member: FieldDescriptor, field: NamedField) -> bool {
    &&& member.name is Some
    &&& field.name@ == member.name.unwrap()@
    &&& field.ty@ == member.ty@
}

/// The whole extracted list: one field per member, in order.
pub open spec fn extracts_members(members: Seq<FieldDescriptor>, fields: Seq<NamedField>) -> bool {
    &&& fields.len() == members.len()
    &&& forall|i: int| 0 <= i < members.len() ==> extracts_member(members[i], #[trigger] fields[i])
}

/// The views of a list of extracted fields, in order.
pub open spec fn fields_view(fields: Seq<NamedField>) -> Seq<FieldView> {
    Seq::new(fields.len(), |i: int| fields[i]@)
}

/// Extraction is faithful: the extracted fields carry exactly the names and
/// type references of the members, position by position.
pub proof fn lemma_extraction_view(members: Seq<FieldDescriptor>, fields: Seq<NamedField>)
    requires
        extracts_members(members, fields),
    ensures
        fields_view(fields) == members_view(members),
{
    assert(fields_view(fields) =~= members_view(members));
}

/// Field extraction: produce the ordered list of named fields the
/// descriptor contains, or reject the input.
///
/// A non-record shape is rejected as `UnsupportedShape`; a record with a
/// nameless member is rejected as `MissingFieldIdentifier`. In both cases
/// nothing is extracted.
pub fn extract_fields(descriptor: &TypeDescriptor) -> (result: Result<Vec<NamedField>, GenError>)
    ensures
        match result {
            Ok(fields) => descriptor.is_record() && all_members_named(descriptor.members())
                && extracts_members(descriptor.members(), fields@),
            Err(e) => match e {
                GenError::UnsupportedShape => !descriptor.is_record(),
                GenError::MissingFieldIdentifier => descriptor.is_record()
                    && !all_members_named(descriptor.members()),
            },
        },
{
    let members = match &descriptor.shape {
        TypeShape::Record(members) => members,
        _ => {
            return Err(GenError::UnsupportedShape);
        },
    };
    let mut fields: Vec<NamedField> = Vec::new();
    let mut i: usize = 0;
    while i < members.len()
        invariant
            descriptor.shape is Record,
            members == descriptor.shape->Record_0,
            i <= members@.len(),
            fields@.len() == i,
            forall|j: int| 0 <= j < i ==> extracts_member(members@[j], #[trigger] fields@[j]),
        decreases members@.len() - i,
    {
        let member = &members[i];
        match &member.name {
            Some(name) => {
                fields.push(NamedField { name: name.clone(), ty: member.ty.clone() });
            },
            None => {
                return Err(GenError::MissingFieldIdentifier);
            },
        }
        i = i + 1;
    }
    proof {
        assert forall|k: int| 0 <= k < descriptor.members().len() implies descriptor.members()[k].name is Some by {
            assert(extracts_member(members@[k], fields@[k]));
        }
    }
    Ok(fields)
}

} // verus!
