//! The struct a `SyncableState` derive is applied to, read into fields.

use vstd::prelude::*;
use crate::derive_plan::attrs::{
    parse_sync_attrs, parse_sync_attrs_spec, AttrInput, Diagnostic, SyncAttrs,
};

verus! {

/// What the derive reads of a field's type: the name of the last path
/// segment, when the type is a path, and whether its first angle-bracketed
/// generic argument is a type.
#[derive(Debug, PartialEq, Eq)]
pub struct FieldType {
    pub last_segment: Option<String>,
    pub first_arg_is_type: bool,
}

impl Clone for FieldType {
    fn clone(&self) -> (r: Self)
        ensures
            r == *self,
    {
        FieldType {
            last_segment: crate::derive_plan::attrs::clone_text_option(&self.last_segment),
            first_arg_is_type: self.first_arg_is_type,
        }
    }
}

/// One named field as written in the struct.
#[derive(Debug, PartialEq, Eq)]
pub struct FieldInput {
    pub ident: String,
    pub ty: FieldType,
    pub attrs: Vec<AttrInput>,
}

/// The shape of the item the derive is applied to.
#[derive(Debug, PartialEq, Eq)]
pub enum DataShape {
    NamedStruct(Vec<FieldInput>),
    TupleStruct,
    UnitStruct,
    Enum,
    Union,
}

/// The item the derive is applied to.
#[derive(Debug, PartialEq, Eq)]
pub struct DeriveInput {
    pub ident: String,
    pub shape: DataShape,
}

/// A field with its `#[sync(..)]` settings read.
#[derive(Debug, PartialEq, Eq)]
pub struct ParsedField {
    pub ident: String,
    pub ty: FieldType,
    pub wire_name: String,
    pub attrs: SyncAttrs,
}

impl ParsedField {
    /// A field takes part in syncing unless it is skipped.
    pub open spec fn included(self) -> bool {
        !self.attrs.is_skip
    }

    /// A field is routed to by path when it takes part and is not the id.
    pub open spec fn routable(self) -> bool {
        self.included() && !self.attrs.is_id
    }

    pub fn is_included(&self) -> (r: bool)
        ensures
            r == self.included(),
    {
        !self.attrs.is_skip
    }

    pub fn is_routable(&self) -> (r: bool)
        ensures
            r == self.routable(),
    {
        self.is_included() && !self.attrs.is_id
    }
}

/// A struct read for the derive.
#[derive(Debug, PartialEq, Eq)]
pub struct ParsedState {
    pub ident: String,
    pub fields: Vec<ParsedField>,
}

/// Whether `parsed` is `field` with the settings its attributes give.
pub open spec fn reads_field(field: FieldInput, parsed: ParsedField) -> bool {
    &&& parse_sync_attrs_spec(field.attrs@) == Ok::<SyncAttrs, (Seq<char>, Seq<char>)>(parsed.attrs)
    &&& parsed.ident == field.ident
    &&& parsed.ty == field.ty
    &&& parsed.wire_name@ == parsed.attrs.wire_name_of(field.ident@)
}

/// Whether the attributes of field `i` are the first that fail to read, with `error`.
pub open spec fn first_failing_field(fields: Seq<FieldInput>, i: int, error: (Seq<char>, Seq<char>)) -> bool {
    &&& 0 <= i < fields.len()
    &&& forall|j: int| 0 <= j < i ==> #[trigger] parse_sync_attrs_spec(fields[j].attrs@) is Ok
    &&& parse_sync_attrs_spec(fields[i].attrs@) == Err::<SyncAttrs, (Seq<char>, Seq<char>)>(error)
}

/// Whether `state` is what reading `input` gives: a named-field struct whose
/// every field's attributes read.
pub open spec fn reads_state(input: DeriveInput, state: ParsedState) -> bool {
    match input.shape {
        DataShape::NamedStruct(fields) => state.ident == input.ident && state.fields@.len()
            == fields@.len() && forall|i: int|
            0 <= i < fields@.len() ==> reads_field(fields@[i], #[trigger] state.fields@[i]),
        _ => false,
    }
}

/// Whether reading `input` fails with diagnostic `d`.
pub open spec fn read_fails_with(input: DeriveInput, d: Diagnostic) -> bool {
    match input.shape {
        DataShape::NamedStruct(fields) => exists|i: int| #[trigger] first_failing_field(fields@, i, (d.at@, d.message@)),
        DataShape::TupleStruct | DataShape::UnitStruct => d.at@ == input.ident@ && d.message@
            == "SyncableState only supports named-field structs"@,
        _ => d.at@ == input.ident@ && d.message@ == "SyncableState can only be derived for structs"@,
    }
}

/// Reads the fields of a named-field struct; any other shape is refused at
/// the item's name, and the first field attribute that fails stops the reading.
pub fn parse_state(input: DeriveInput) -> (r: Result<ParsedState, Diagnostic>)
    ensures
        match r {
            Ok(state) => reads_state(input, state),
            Err(d) => read_fails_with(input, d),
        },
{
    let ghost original = input;
    let DeriveInput { ident, shape } = input;
    let named = match shape {
        DataShape::NamedStruct(named) => named,
        DataShape::TupleStruct | DataShape::UnitStruct => {
            return Err(
                Diagnostic {
                    at: ident,
                    message: "SyncableState only supports named-field structs".to_owned(),
                },
            );
        },
        _ => {
            return Err(
                Diagnostic {
                    at: ident,
                    message: "SyncableState can only be derived for structs".to_owned(),
                },
            );
        },
    };
    let mut fields: Vec<ParsedField> = Vec::new();
    let mut i: usize = 0;
    while i < named.len()
        invariant
            i <= named@.len(),
            original == input,
            original.shape == DataShape::NamedStruct(named),
            fields@.len() == i,
            forall|j: int| 0 <= j < i ==> reads_field(named@[j], #[trigger] fields@[j]),
        decreases named@.len() - i,
    {
        let field = &named[i];
        let attrs = match parse_sync_attrs(&field.attrs) {
            Ok(attrs) => attrs,
            Err(d) => {
                assert forall|j: int| 0 <= j < i implies #[trigger] parse_sync_attrs_spec(
                    named@[j].attrs@,
                ) is Ok by {
                    assert(reads_field(named@[j], fields@[j]));
                }
                let failed: Result<ParsedState, Diagnostic> = Err(d);
                assert(first_failing_field(named@, i as int, (failed->Err_0.at@, failed->Err_0.message@)));
                assert(first_failing_field(input.shape->NamedStruct_0@, i as int, (failed->Err_0.at@, failed->Err_0.message@)));
                return failed;
            },
        };
        let wire_name = attrs.wire_name(field.ident.as_str());
        fields.push(
            ParsedField {
                ident: field.ident.clone(),
                ty: field.ty.clone(),
                wire_name,
                attrs,
            },
        );
        i = i + 1;
    }
    Ok(ParsedState { ident, fields })
}

} // verus!
