//! The rewriting itself.

use crate::derivation::input::FieldDecl;
use crate::derivation::input::FieldList;
use crate::derivation::input::ItemBody;
use crate::derivation::input::ItemDef;
use crate::derivation::input::PathSegment;
use crate::derivation::input::SegmentArgs;
use crate::derivation::input::TypeShape;
use crate::derivation::output::Conversions;
use crate::derivation::output::DeriveError;
use crate::derivation::output::Expansion;
use crate::derivation::output::ExpansionView;
use crate::derivation::output::FieldDef;
use crate::derivation::output::FieldType;
use vstd::prelude::*;
use vstd::string::StringExecFns;

verus! {

impl PathSegment {
    /// The first argument that the segment has in angle brackets, as it is
    /// spelled. A segment without arguments, with empty angle brackets or
    /// with arguments in round brackets has none.
    pub open spec fn spec_first_argument(&self) -> Option<String> {
        match self.args {
            SegmentArgs::AngleBracketed(args) => if args@.len() > 0 {
                Some(args@[0])
            } else {
                None
            },
            _ => None,
        }
    }

    /// The inner type that the segment asks for, where it is the
    /// placeholder: it is spelled `Id` and has a type argument, which is the
    /// inner type. `Id` without a type argument is no placeholder.
    pub open spec fn spec_placeholder(&self) -> Option<String> {
        if self.ident@ == "Id"@ {
            self.spec_first_argument()
        } else {
            None
        }
    }

    /// The first argument that the segment has in angle brackets.
    pub fn first_argument(&self) -> (argument: Option<String>)
        ensures
            argument == self.spec_first_argument(),
    {
        match &self.args {
            SegmentArgs::AngleBracketed(args) => {
                if args.len() > 0 {
                    Some(args[0].clone())
                } else {
                    None
                }
            },
            _ => None,
        }
    }

    /// The inner type that the segment asks for, where it is the
    /// placeholder.
    pub fn placeholder(&self) -> (inner: Option<String>)
        ensures
            inner == self.spec_placeholder(),
    {
        let spelled = String::from_str("Id");
        if self.ident == spelled {
            self.first_argument()
        } else {
            None
        }
    }
}

impl FieldDecl {
    /// The inner type to tag, where the field's type is the placeholder: a
    /// path of exactly one segment, which is spelled `Id` and has a type
    /// argument. Any other type is not a placeholder: a bare `Id`, a longer
    /// path that ends in `Id<..>`, a type that is no path.
    pub open spec fn spec_placeholder(&self) -> Option<String> {
        match self.shape {
            TypeShape::Path(segments) => if segments@.len() == 1 {
                segments@[0].spec_placeholder()
            } else {
                None
            },
            TypeShape::Other => None,
        }
    }

    /// The field as it stands in the struct named `owner` after rewriting:
    /// under its own name, tagged by `owner` where its type is the
    /// placeholder, and with its declared type, exactly as it was written,
    /// otherwise.
    pub open spec fn spec_rewritten(&self, owner: String) -> FieldDef {
        FieldDef {
            name: self.name,
            ty: match self.spec_placeholder() {
                Some(inner) => FieldType::Tagged { inner, marker: owner },
                None => FieldType::Unchanged(self.spelling),
            },
        }
    }

    /// The inner type to tag, where the field's type is the placeholder.
    pub fn placeholder(&self) -> (inner: Option<String>)
        ensures
            inner == self.spec_placeholder(),
    {
        match &self.shape {
            TypeShape::Path(segments) => {
                if segments.len() == 1 {
                    segments[0].placeholder()
                } else {
                    None
                }
            },
            TypeShape::Other => None,
        }
    }

    /// The field as it stands in the struct named `owner` after rewriting.
    pub fn rewritten(&self, owner: &String) -> (field: FieldDef)
        ensures
            field == self.spec_rewritten(*owner),
    {
        let ty = match self.placeholder() {
            Some(inner) => FieldType::Tagged { inner, marker: owner.clone() },
            None => FieldType::Unchanged(self.spelling.clone()),
        };
        FieldDef { name: self.name.clone(), ty }
    }
}

impl ItemDef {
    /// Why the helper refuses the item, if it does: an enum or a union is no
    /// struct, a tuple struct or a unit struct has no named fields. A struct
    /// with braces is never refused, not even with nothing between them.
    pub open spec fn spec_refusal(&self) -> Option<DeriveError> {
        match self.body {
            ItemBody::Struct(FieldList::Named(_)) => None,
            ItemBody::Struct(_) => Some(DeriveError::NoNamedFields),
            _ => Some(DeriveError::NotAStruct),
        }
    }

    /// The conversions of a struct with the named fields `fields`: those
    /// between the struct and the inner type of its field, where it has
    /// exactly one field and that field's type is the placeholder. No other
    /// struct has one inner value to convert from and to.
    pub open spec fn spec_conversions_of(&self, fields: Seq<FieldDecl>) -> Option<Conversions> {
        if fields.len() == 1 {
            match fields[0].spec_placeholder() {
                Some(inner) => Some(
                    Conversions { target: self.name, field: fields[0].name, inner },
                ),
                None => None,
            }
        } else {
            None
        }
    }

    /// The conversions that the item gets, or the failure where the helper
    /// refuses the item.
    pub open spec fn spec_conversions(&self) -> Result<Option<Conversions>, DeriveError> {
        match self.body {
            ItemBody::Struct(FieldList::Named(fields)) => Ok(self.spec_conversions_of(fields@)),
            ItemBody::Struct(_) => Err(DeriveError::NoNamedFields),
            _ => Err(DeriveError::NotAStruct),
        }
    }

    /// What the helper answers for the item.
    ///
    /// A struct with named fields is rewritten field by field, in order,
    /// and keeps its name. Anything else is refused, and nothing is emitted
    /// for it.
    pub open spec fn spec_expansion(&self) -> Result<ExpansionView, DeriveError> {
        match self.body {
            ItemBody::Struct(FieldList::Named(fields)) => Ok(
                ExpansionView {
                    name: self.name,
                    fields: Seq::new(
                        fields@.len(),
                        |i: int| fields@[i].spec_rewritten(self.name),
                    ),
                    conversions: self.spec_conversions_of(fields@),
                },
            ),
            ItemBody::Struct(_) => Err(DeriveError::NoNamedFields),
            _ => Err(DeriveError::NotAStruct),
        }
    }
}

/// The conversions to emit for `input`: see [`ItemDef::spec_conversions`].
///
/// Fails exactly on an item that is no struct and on a struct without named
/// fields. A struct with named fields never fails: it gets its conversions,
/// or none where it has not exactly one placeholder field.
pub fn derive_tagged(input: &ItemDef) -> (conversions: Result<Option<Conversions>, DeriveError>)
    ensures
        conversions == input.spec_conversions(),
        conversions is Err <==> input.spec_refusal() is Some,
        conversions matches Err(error) ==> input.spec_refusal() == Some(error),
{
    match &input.body {
        ItemBody::Struct(FieldList::Named(fields)) => {
            if fields.len() == 1 {
                match fields[0].placeholder() {
                    Some(inner) => Ok(
                        Some(
                            Conversions {
                                target: input.name.clone(),
                                field: fields[0].name.clone(),
                                inner,
                            },
                        ),
                    ),
                    None => Ok(None),
                }
            } else {
                Ok(None)
            }
        },
        ItemBody::Struct(_) => Err(DeriveError::NoNamedFields),
        _ => Err(DeriveError::NotAStruct),
    }
}

/// Rewrites `input`: see [`ItemDef::spec_expansion`].
///
/// Fails exactly on an item that is no struct and on a struct without named
/// fields, and then emits nothing.
pub fn with_id_macro(input: &ItemDef) -> (out: Result<Expansion, DeriveError>)
    ensures
        match input.spec_expansion() {
            Ok(expected) => out matches Ok(expansion) && expansion@ == expected,
            Err(error) => out == Err::<Expansion, DeriveError>(error),
        },
        out is Err <==> input.spec_refusal() is Some,
        out matches Err(error) ==> input.spec_refusal() == Some(error),
{
    let conversions = match derive_tagged(input) {
        Ok(conversions) => conversions,
        Err(error) => {
            return Err(error);
        },
    };
    match &input.body {
        ItemBody::Struct(FieldList::Named(declared)) => {
            let mut fields: Vec<FieldDef> = Vec::new();
            let mut i: usize = 0;
            while i < declared.len()
                invariant
                    i <= declared.len(),
                    fields@.len() == i,
                    forall|k: int|
                        0 <= k < i ==> fields@[k] == declared@[k].spec_rewritten(input.name),
                decreases declared.len() - i,
            {
                fields.push(declared[i].rewritten(&input.name));
                i += 1;
            }
            let expansion = Expansion { name: input.name.clone(), fields, conversions };
            assert(expansion@.fields =~= input.spec_expansion()->Ok_0.fields);
            Ok(expansion)
        },
        ItemBody::Struct(_) => Err(DeriveError::NoNamedFields),
        _ => Err(DeriveError::NotAStruct),
    }
}

/// A field whose type is not the placeholder with a type argument keeps its
/// declared type exactly as it was written: a bare `Id`, `Id` with empty
/// angle brackets or with round brackets, a longer path, any type that is no
/// path.
pub proof fn law_pass_through(field: FieldDecl, owner: String)
    requires
        match field.shape {
            TypeShape::Path(segments) => segments@.len() != 1 || segments@[0].ident@ != "Id"@
                || !(segments@[0].args matches SegmentArgs::AngleBracketed(args) && args@.len()
                > 0),
            TypeShape::Other => true,
        },
    ensures
        field.spec_rewritten(owner) == (FieldDef {
            name: field.name,
            ty: FieldType::Unchanged(field.spelling),
        }),
{
}

/// A field whose type is the placeholder with a type argument is tagged:
/// its inner type is the first type argument, its marker the struct.
pub proof fn law_placeholder_is_tagged(field: FieldDecl, owner: String, segment: PathSegment)
    requires
        field.shape matches TypeShape::Path(segments) && segments@.len() == 1 && segments@[0]
            == segment,
        segment.ident@ == "Id"@,
        segment.args matches SegmentArgs::AngleBracketed(args) && args@.len() > 0,
    ensures
        field.spec_rewritten(owner) == (FieldDef {
            name: field.name,
            ty: FieldType::Tagged { inner: segment.args->AngleBracketed_0@[0], marker: owner },
        }),
{
}

/// A struct with a single named field that is spelled as the placeholder
/// with a type argument is rewritten into the struct with that one field
/// tagged by the struct itself, and gets the conversions between the struct
/// and the field's inner type.
pub proof fn law_single_placeholder_field(input: ItemDef, fields: Vec<FieldDecl>, inner: String)
    requires
        input.body == ItemBody::Struct(FieldList::Named(fields)),
        fields@.len() == 1,
        fields@[0].spec_placeholder() == Some(inner),
    ensures
        input.spec_expansion() matches Ok(expansion) && {
            &&& expansion.name == input.name
            &&& expansion.fields.len() == 1
            &&& expansion.fields[0].name == fields@[0].name
            &&& expansion.fields[0].ty == (FieldType::Tagged { inner, marker: input.name })
            &&& expansion.conversions == Some(
                (Conversions { target: input.name, field: fields@[0].name, inner }),
            )
        },
        input.spec_conversions() == Ok::<Option<Conversions>, DeriveError>(
            Some((Conversions { target: input.name, field: fields@[0].name, inner })),
        ),
{
}

/// An item that is no struct with named fields is refused by both entry
/// points, with the same failure, and nothing is emitted for it.
pub proof fn law_unsupported_shape_fails(input: ItemDef)
    requires
        !(input.body matches ItemBody::Struct(FieldList::Named(_))),
    ensures
        input.spec_refusal() is Some,
        input.spec_expansion() == Err::<ExpansionView, DeriveError>(input.spec_refusal()->0),
        input.spec_conversions() == Err::<Option<Conversions>, DeriveError>(
            input.spec_refusal()->0,
        ),
        input.spec_refusal() == Some(DeriveError::NotAStruct) <==> !(input.body is Struct),
{
}

} // verus!
