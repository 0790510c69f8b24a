//! Unit assembly: the generated unit as a whole — factory, builder type
//! declaration, setters and the build method — and the `derive` entry point
//! that produces it from a descriptor.

use vstd::prelude::*;
use vstd::string::StringExecFns;
use crate::descriptor::FieldView;
use crate::descriptor::GenError;
use crate::descriptor::TypeDescriptor;
use crate::descriptor::all_members_named;
use crate::descriptor::extract_fields;
use crate::descriptor::fields_view;
use crate::descriptor::lemma_extraction_view;
use crate::descriptor::members_view;
use crate::emit::assembly_text;
use crate::emit::builder_checks;
use crate::emit::builder_fields;
use crate::emit::builder_name_text;
use crate::emit::builder_ident;
use crate::emit::builder_setters;
use crate::emit::check_text;
use crate::emit::concat_strings;
use crate::emit::factory_inits;
use crate::emit::init_text;
use crate::emit::joined;
use crate::emit::output;
use crate::emit::setter_text;
use crate::emit::slot_text;
use crate::emit::texts_of;

verus! {

/// The initializer texts of the fields, in order.
pub open spec fn init_texts(fields: Seq<FieldView>) -> Seq<Seq<char>> {
    Seq::new(fields.len(), |i: int| init_text(fields[i].name))
}

/// The slot declaration texts of the fields, in order.
pub open spec fn slot_texts(fields: Seq<FieldView>) -> Seq<Seq<char>> {
    Seq::new(fields.len(), |i: int| slot_text(fields[i]))
}

/// The setter method texts of the fields, in order.
pub open spec fn setter_texts(fields: Seq<FieldView>) -> Seq<Seq<char>> {
    Seq::new(fields.len(), |i: int| setter_text(fields[i]))
}

/// The validation check texts of the fields, in order.
pub open spec fn check_texts(fields: Seq<FieldView>) -> Seq<Seq<char>> {
    Seq::new(fields.len(), |i: int| check_text(fields[i].name))
}

/// The assembly fragment texts of the fields, in order.
pub open spec fn assembly_texts(fields: Seq<FieldView>) -> Seq<Seq<char>> {
    Seq::new(fields.len(), |i: int| assembly_text(fields[i].name))
}

/// The factory method attached to the original type: no parameters, returns
/// a fresh builder with every slot unset.
pub open spec fn factory_text(record_name: Seq<char>, fields: Seq<FieldView>) -> Seq<char> {
    "impl "@ + record_name + " {\nfn builder() -> "@ + builder_name_text(record_name) + " {\n"@
        + builder_name_text(record_name) + " {\n"@ + joined(init_texts(fields)) + "}\n}\n}\n"@
}

/// The builder type declaration: one optional-valued slot per field.
pub open spec fn builder_decl_text(record_name: Seq<char>, fields: Seq<FieldView>) -> Seq<char> {
    "pub struct "@ + builder_name_text(record_name) + " {\n"@ + joined(slot_texts(fields)) + "}\n"@
}

/// The build method: every check in field order, then the assembly of the
/// record — validation first, assembly only after all checks passed.
pub open spec fn build_method_text(record_name: Seq<char>, fields: Seq<FieldView>) -> Seq<char> {
    "pub fn build(&mut self) -> Result<"@ + record_name
        + ", Box<dyn std::error::Error>> {\n"@ + joined(check_texts(fields)) + "Ok("@
        + record_name + " {\n"@ + joined(assembly_texts(fields)) + "})\n}\n"@
}

/// The whole emitted unit: factory, builder declaration, and the builder's
/// impl block holding the setters and the build method.
pub open spec fn unit_text(record_name: Seq<char>, fields: Seq<FieldView>) -> Seq<char> {
    factory_text(record_name, fields) + builder_decl_text(record_name, fields) + "impl "@
        + builder_name_text(record_name) + " {\n"@ + joined(setter_texts(fields))
        + build_method_text(record_name, fields) + "}\n"@
}

/// The generated unit for one record: its per-field fragments, each list
/// with one entry per field at the field's own position, and the three
/// rendered pieces they are assembled into.
pub struct GeneratedUnit {
    pub record_name: String,
    pub builder_name: String,
    pub storage_slots: Vec<String>,
    pub setters: Vec<String>,
    pub checks: Vec<String>,
    pub assemblies: Vec<String>,
    pub factory: String,
    pub builder_decl: String,
    pub build_method: String,
}

impl GeneratedUnit {
    /// The unit is exactly the one derived for this record name and field
    /// list: each fragment list holds one fragment per field, associated by
    /// position, and every text is fixed.
    pub open spec fn describes(self, record_name: Seq<char>, fields: Seq<FieldView>) -> bool {
        &&& self.record_name@ == record_name
        &&& self.builder_name@ == builder_name_text(record_name)
        &&& self.storage_slots@.len() == fields.len()
        &&& (forall|i: int| 0 <= i < fields.len() ==> (#[trigger] self.storage_slots@[i])@
            == slot_text(fields[i]))
        &&& self.setters@.len() == fields.len()
        &&& (forall|i: int| 0 <= i < fields.len() ==> (#[trigger] self.setters@[i])@
            == setter_text(fields[i]))
        &&& self.checks@.len() == fields.len()
        &&& (forall|i: int| 0 <= i < fields.len() ==> (#[trigger] self.checks@[i])@
            == check_text(fields[i].name))
        &&& self.assemblies@.len() == fields.len()
        &&& (forall|i: int| 0 <= i < fields.len() ==> (#[trigger] self.assemblies@[i])@
            == assembly_text(fields[i].name))
        &&& self.factory@ == factory_text(record_name, fields)
        &&& self.builder_decl@ == builder_decl_text(record_name, fields)
        &&& self.build_method@ == build_method_text(record_name, fields)
    }

    /// The text of the whole unit as this value holds it.
    pub open spec fn rendered(self) -> Seq<char> {
        self.factory@ + self.builder_decl@ + "impl "@ + self.builder_name@ + " {\n"@
            + joined(texts_of(self.setters@)) + self.build_method@ + "}\n"@
    }

    /// Render the whole unit as one text.
    pub fn render(&self) -> (r: String)
        ensures
            r@ == self.rendered(),
    {
        let mut s = self.factory.clone();
        s.append(self.builder_decl.as_str());
        s.append("impl ");
        s.append(self.builder_name.as_str());
        s.append(" {\n");
        let setters = concat_strings(&self.setters);
        s.append(setters.as_str());
        s.append(self.build_method.as_str());
        s.append("}\n");
        s
    }
}

/// A unit that describes a record renders to exactly the unit text of that
/// record.
pub proof fn lemma_rendered_unit(unit: GeneratedUnit, record_name: Seq<char>, fields: Seq<FieldView>)
    requires
        unit.describes(record_name, fields),
    ensures
        unit.rendered() == unit_text(record_name, fields),
{
    assert(texts_of(unit.setters@) =~= setter_texts(fields));
}

/// Derive the builder companion for the described record.
///
/// On a record whose members all carry names, the result is the generated
/// unit for exactly those fields, in their order. A descriptor of any other
/// shape is rejected whole as `UnsupportedShape`; a record with a nameless
/// member is rejected whole as `MissingFieldIdentifier`. Nothing is emitted
/// alongside a rejection, and generation reads the descriptor only: it is a
/// pure function of its input.
pub fn derive(descriptor: &TypeDescriptor) -> (result: Result<GeneratedUnit, GenError>)
    ensures
        match result {
            Ok(unit) => descriptor.is_record() && all_members_named(descriptor.members())
                && unit.describes(descriptor.name@, members_view(descriptor.members())),
            Err(e) => match e {
                GenError::UnsupportedShape => !descriptor.is_record(),
                GenError::MissingFieldIdentifier => descriptor.is_record()
                    && !all_members_named(descriptor.members()),
            },
        },
{
    let fields = match extract_fields(descriptor) {
        Ok(fields) => fields,
        Err(e) => {
            return Err(e);
        },
    };
    let ghost fv = members_view(descriptor.members());
    proof {
        lemma_extraction_view(descriptor.members(), fields@);
    }
    let record_name = descriptor.name.clone();
    let builder_name = builder_ident(record_name.as_str());

    let storage_slots = builder_fields(&fields);
    let setters = builder_setters(&fields);
    let checks = builder_checks(&fields);
    let assemblies = output(&fields);
    let inits = factory_inits(&fields);
    proof {
        assert forall|i: int| 0 <= i < fv.len() implies fields@[i]@ == fv[i] by {
            assert(fields_view(fields@)[i] == fields@[i]@);
        }
        assert(texts_of(inits@) =~= init_texts(fv));
        assert(texts_of(storage_slots@) =~= slot_texts(fv));
        assert(texts_of(checks@) =~= check_texts(fv));
        assert(texts_of(assemblies@) =~= assembly_texts(fv));
    }

    let mut factory = String::from_str("impl ");
    factory.append(record_name.as_str());
    factory.append(" {\nfn builder() -> ");
    factory.append(builder_name.as_str());
    factory.append(" {\n");
    factory.append(builder_name.as_str());
    factory.append(" {\n");
    let inits_joined = concat_strings(&inits);
    factory.append(inits_joined.as_str());
    factory.append("}\n}\n}\n");

    let mut builder_decl = String::from_str("pub struct ");
    builder_decl.append(builder_name.as_str());
    builder_decl.append(" {\n");
    let slots_joined = concat_strings(&storage_slots);
    builder_decl.append(slots_joined.as_str());
    builder_decl.append("}\n");

    let mut build_method = String::from_str("pub fn build(&mut self) -> Result<");
    build_method.append(record_name.as_str());
    build_method.append(", Box<dyn std::error::Error>> {\n");
    let checks_joined = concat_strings(&checks);
    build_method.append(checks_joined.as_str());
    build_method.append("Ok(");
    build_method.append(record_name.as_str());
    build_method.append(" {\n");
    let assemblies_joined = concat_strings(&assemblies);
    build_method.append(assemblies_joined.as_str());
    build_method.append("})\n}\n");

    Ok(GeneratedUnit {
        record_name,
        builder_name,
        storage_slots,
        setters,
        checks,
        assemblies,
        factory,
        builder_decl,
        build_method,
    })
}

} // verus!
