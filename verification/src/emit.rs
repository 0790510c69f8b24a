//! The output side of generation: the text of each generated fragment,
//! fixed exactly by spec functions, and the emission passes that produce
//! one fragment per field.

use vstd::prelude::*;
use vstd::string::StringExecFns;
use crate::descriptor::FieldView;
use crate::descriptor::NamedField;

verus! {

/// The name of the synthesized companion type: the record's name with
/// `Builder` appended.
pub open spec fn builder_name_text(record_name: Seq<char>) -> Seq<char> {
    record_name + "Builder"@
}

/// One storage slot declaration: the field's own name, its type wrapped in
/// a nullable container so that "unset" is representable apart from every
/// value of the type, nesting preserved.
pub open spec fn slot_text(field: FieldView) -> Seq<char> {
    field.name + ": Option<"@ + field.ty + ">,\n"@
}

/// One setter method: named like the field, takes one value of the field's
/// original type, overwrites the slot, and returns the builder itself for
/// chaining.
pub open spec fn setter_text(field: FieldView) -> Seq<char> {
    "fn "@ + field.name + "(&mut self, "@ + field.name + ": "@ + field.ty
        + ") -> &mut Self { self."@ + field.name + " = Some("@ + field.name + "); self }\n"@
}

/// The error message a build reports for an unset field.
pub open spec fn missing_message_text(name: Seq<char>) -> Seq<char> {
    "field `"@ + name + "` must be specified"@
}

/// One validation check: if the slot is still unset, fail the build at once
/// with the message naming this field.
pub open spec fn check_text(name: Seq<char>) -> Seq<char> {
    "if self."@ + name + ".is_none() { return Err(\""@ + missing_message_text(name)
        + "\".into()); }\n"@
}

/// One assembly fragment: copy the slot's contained value, guaranteed
/// present once validation passed, into the record under construction.
pub open spec fn assembly_text(name: Seq<char>) -> Seq<char> {
    name + ": self."@ + name + ".clone().unwrap(),\n"@
}

/// One factory initializer: the slot starts out unset.
pub open spec fn init_text(name: Seq<char>) -> Seq<char> {
    name + ": None,\n"@
}

/// The builder type's name for this record.
pub fn builder_ident(record_name: &str) -> (r: String)
    ensures
        r@ == builder_name_text(record_name@),
{
    let mut s = String::from_str(record_name);
    s.append("Builder");
    s
}

/// Storage-shape derivation for one field.
pub fn storage_slot(field: &NamedField) -> (r: String)
    ensures
        r@ == slot_text(field@),
{
    let mut s = field.name.clone();
    s.append(": Option<");
    s.append(field.ty.as_str());
    s.append(">,\n");
    s
}

/// Setter emission for one field.
pub fn setter_method(field: &NamedField) -> (r: String)
    ensures
        r@ == setter_text(field@),
{
    let mut s = String::from_str("fn ");
    s.append(field.name.as_str());
    s.append("(&mut self, ");
    s.append(field.name.as_str());
    s.append(": ");
    s.append(field.ty.as_str());
    s.append(") -> &mut Self { self.");
    s.append(field.name.as_str());
    s.append(" = Some(");
    s.append(field.name.as_str());
    s.append("); self }\n");
    s
}

/// The message that a build reports when the named field is unset.
pub fn missing_field_message(name: &str) -> (r: String)
    ensures
        r@ == missing_message_text(name@),
{
    let mut s = String::from_str("field `");
    s.append(name);
    s.append("` must be specified");
    s
}

/// Validation-check emission for one field.
pub fn check_fragment(field: &NamedField) -> (r: String)
    ensures
        r@ == check_text(field@.name),
{
    let mut s = String::from_str("if self.");
    s.append(field.name.as_str());
    s.append(".is_none() { return Err(\"");
    let message = missing_field_message(field.name.as_str());
    s.append(message.as_str());
    s.append("\".into()); }\n");
    s
}

/// Assembly emission for one field.
pub fn assembly_fragment(field: &NamedField) -> (r: String)
    ensures
        r@ == assembly_text(field@.name),
{
    let mut s = field.name.clone();
    s.append(": self.");
    s.append(field.name.as_str());
    s.append(".clone().unwrap(),\n");
    s
}

/// Factory-initializer emission for one field.
pub fn init_fragment(field: &NamedField) -> (r: String)
    ensures
        r@ == init_text(field@.name),
{
    let mut s = field.name.clone();
    s.append(": None,\n");
    s
}

/// The concatenation of a list of texts, in order.
pub open spec fn joined(texts: Seq<Seq<char>>) -> Seq<char>
    decreases texts.len(),
{
    if texts.len() == 0 {
        Seq::<char>::empty()
    } else {
        joined(texts.drop_last()) + texts.last()
    }
}

/// The texts of a list of strings, in order.
pub open spec fn texts_of(strings: Seq<String>) -> Seq<Seq<char>> {
    Seq::new(strings.len(), |i: int| strings[i]@)
}

/// Appending one more text extends the concatenation by exactly that text.
pub proof fn lemma_joined_take_step(texts: Seq<Seq<char>>, i: int)
    requires
        0 <= i < texts.len(),
    ensures
        joined(texts.take(i + 1)) == joined(texts.take(i)) + texts[i],
{
    assert(texts.take(i + 1).drop_last() =~= texts.take(i));
}

/// Concatenate a list of strings into one.
pub fn concat_strings(parts: &Vec<String>) -> (r: String)
    ensures
        r@ == joined(texts_of(parts@)),
{
    let mut s = String::new();
    let mut i: usize = 0;
    while i < parts.len()
        invariant
            i <= parts@.len(),
            s@ == joined(texts_of(parts@).take(i as int)),
        decreases parts@.len() - i,
    {
        proof {
            lemma_joined_take_step(texts_of(parts@), i as int);
        }
        s.append(parts[i].as_str());
        i = i + 1;
    }
    proof {
        assert(texts_of(parts@).take(parts@.len() as int) =~= texts_of(parts@));
    }
    s
}

/// Storage-shape derivation: one slot declaration per field, in field order.
pub fn builder_fields(fields: &Vec<NamedField>) -> (r: Vec<String>)
    ensures
        r@.len() == fields@.len(),
        forall|i: int| 0 <= i < fields@.len() ==> (#[trigger] r@[i])@ == slot_text(fields@[i]@),
{
    let mut r: Vec<String> = Vec::new();
    let mut i: usize = 0;
    while i < fields.len()
        invariant
            i <= fields@.len(),
            r@.len() == i,
            forall|j: int| 0 <= j < i ==> (#[trigger] r@[j])@ == slot_text(fields@[j]@),
        decreases fields@.len() - i,
    {
        r.push(storage_slot(&fields[i]));
        i = i + 1;
    }
    r
}

/// Setter emission: one setter method per field, in field order.
pub fn builder_setters(fields: &Vec<NamedField>) -> (r: Vec<String>)
    ensures
        r@.len() == fields@.len(),
        forall|i: int| 0 <= i < fields@.len() ==> (#[trigger] r@[i])@ == setter_text(fields@[i]@),
{
    let mut r: Vec<String> = Vec::new();
    let mut i: usize = 0;
    while i < fields.len()
        invariant
            i <= fields@.len(),
            r@.len() == i,
            forall|j: int| 0 <= j < i ==> (#[trigger] r@[j])@ == setter_text(fields@[j]@),
        decreases fields@.len() - i,
    {
        r.push(setter_method(&fields[i]));
        i = i + 1;
    }
    r
}

/// Validation-check emission: one check per field, in field order.
pub fn builder_checks(fields: &Vec<NamedField>) -> (r: Vec<String>)
    ensures
        r@.len() == fields@.len(),
        forall|i: int| 0 <= i < fields@.len() ==> (#[trigger] r@[i])@ == check_text(fields@[i]@.name),
{
    let mut r: Vec<String> = Vec::new();
    let mut i: usize = 0;
    while i < fields.len()
        invariant
            i <= fields@.len(),
            r@.len() == i,
            forall|j: int| 0 <= j < i ==> (#[trigger] r@[j])@ == check_text(fields@[j]@.name),
        decreases fields@.len() - i,
    {
        r.push(check_fragment(&fields[i]));
        i = i + 1;
    }
    r
}

/// Assembly emission: one assembly fragment per field, in field order.
pub fn output(fields: &Vec<NamedField>) -> (r: Vec<String>)
    ensures
        r@.len() == fields@.len(),
        forall|i: int| 0 <= i < fields@.len() ==> (#[trigger] r@[i])@ == assembly_text(fields@[i]@.name),
{
    let mut r: Vec<String> = Vec::new();
    let mut i: usize = 0;
    while i < fields.len()
        invariant
            i <= fields@.len(),
            r@.len() == i,
            forall|j: int| 0 <= j < i ==> (#[trigger] r@[j])@ == assembly_text(fields@[j]@.name),
        decreases fields@.len() - i,
    {
        r.push(assembly_fragment(&fields[i]));
        i = i + 1;
    }
    r
}

/// Factory-initializer emission: one initializer per field, in field order.
pub fn factory_inits(fields: &Vec<NamedField>) -> (r: Vec<String>)
    ensures
        r@.len() == fields@.len(),
        forall|i: int| 0 <= i < fields@.len() ==> (#[trigger] r@[i])@ == init_text(fields@[i]@.name),
{
    let mut r: Vec<String> = Vec::new();
    let mut i: usize = 0;
    while i < fields.len()
        invariant
            i <= fields@.len(),
            r@.len() == i,
            forall|j: int| 0 <= j < i ==> (#[trigger] r@[j])@ == init_text(fields@[j]@.name),
        decreases fields@.len() - i,
    {
        r.push(init_fragment(&fields[i]));
        i = i + 1;
    }
    r
}

} // verus!
