//! The emitted source as text.
//!
//! Each item is written on one line, its parts separated by single blanks,
//! every field followed by a comma. The wrapper is named by its full path,
//! `rust_tagged::Tagged`.

use crate::derivation::output::Conversions;
use crate::derivation::output::Expansion;
use crate::derivation::output::ExpansionView;
use crate::derivation::output::FieldDef;
use crate::derivation::output::FieldType;
use vstd::prelude::*;
use vstd::string::StringExecFns;

verus! {

impl FieldType {
    /// The type as it is written: `rust_tagged::Tagged<inner, marker>` for a
    /// tagged field, the declared spelling for any other.
    pub open spec fn spec_source(self) -> Seq<char> {
        match self {
            FieldType::Tagged { inner, marker } => "rust_tagged::Tagged<"@ + inner@ + ", "@
                + marker@ + ">"@,
            FieldType::Unchanged(spelling) => spelling@,
        }
    }

    /// The type as it is written.
    pub fn render(&self) -> (text: String)
        ensures
            text@ == self.spec_source(),
    {
        match self {
            FieldType::Tagged { inner, marker } => {
                let mut text = String::from_str("rust_tagged::Tagged<");
                text.append(inner.as_str());
                text.append(", ");
                text.append(marker.as_str());
                text.append(">");
                text
            },
            FieldType::Unchanged(spelling) => spelling.clone(),
        }
    }
}

impl FieldDef {
    /// The field as it is written: `pub name: type`.
    pub open spec fn spec_source(self) -> Seq<char> {
        "pub "@ + self.name@ + ": "@ + self.ty.spec_source()
    }

    /// The field as it is written.
    pub fn render(&self) -> (text: String)
        ensures
            text@ == self.spec_source(),
    {
        let mut text = String::from_str("pub ");
        text.append(self.name.as_str());
        text.append(": ");
        text.append(self.ty.render().as_str());
        text
    }
}

/// The fields as they are written between the braces: one after the other,
/// in order, each followed by a comma and a blank.
pub open spec fn spec_fields_source(fields: Seq<FieldDef>) -> Seq<char>
    decreases fields.len(),
{
    if fields.len() == 0 {
        Seq::empty()
    } else {
        spec_fields_source(fields.drop_last()) + fields.last().spec_source() + ", "@
    }
}

/// The fields as they are written between the braces.
pub fn render_fields(fields: &Vec<FieldDef>) -> (text: String)
    ensures
        text@ == spec_fields_source(fields@),
{
    let mut text = String::new();
    let mut i: usize = 0;
    while i < fields.len()
        invariant
            i <= fields.len(),
            text@ == spec_fields_source(fields@.take(i as int)),
        decreases fields.len() - i,
    {
        proof {
            let next = fields@.take(i + 1);
            assert(next.drop_last() =~= fields@.take(i as int));
            assert(next.last() == fields@[i as int]);
        }
        text.append(fields[i].render().as_str());
        text.append(", ");
        i += 1;
    }
    proof {
        assert(fields@.take(i as int) =~= fields@);
    }
    text
}

impl Conversions {
    /// The conversion from the inner type into the struct, which wraps the
    /// value in the field.
    pub open spec fn spec_from_inner_source(self) -> Seq<char> {
        "impl ::core::convert::From<"@ + self.inner@ + "> for "@ + self.target@
            + " { fn from(value: "@ + self.inner@ + ") -> Self { Self { "@ + self.field@
            + ": rust_tagged::Tagged::new(value) } } }"@
    }

    /// The conversion from the struct back into the inner type, which
    /// unwraps the field.
    pub open spec fn spec_into_inner_source(self) -> Seq<char> {
        "impl ::core::convert::From<"@ + self.target@ + "> for "@ + self.inner@
            + " { fn from(tagged: "@ + self.target@ + ") -> Self { tagged."@ + self.field@
            + ".into_inner() } }"@
    }

    /// Dereferencing of the struct to the inner type.
    pub open spec fn spec_deref_source(self) -> Seq<char> {
        "impl ::core::ops::Deref for "@ + self.target@ + " { type Target = "@ + self.inner@
            + "; fn deref(&self) -> &Self::Target { &self."@ + self.field@ + " } }"@
    }

    /// Displaying of the struct, which is that of the field and so that of
    /// the inner value.
    pub open spec fn spec_display_source(self) -> Seq<char> {
        "impl ::core::fmt::Display for "@ + self.target@
            + " { fn fmt(&self, f: &mut ::core::fmt::Formatter<'_>) -> ::core::fmt::Result { ::core::fmt::Display::fmt(&self."@
            + self.field@ + ", f) } }"@
    }

    /// The four conversions as they are written, in this order: from the
    /// inner type, back into it, dereferencing, displaying.
    pub open spec fn spec_source(self) -> Seq<char> {
        self.spec_from_inner_source() + " "@ + self.spec_into_inner_source() + " "@
            + self.spec_deref_source() + " "@ + self.spec_display_source()
    }

    /// The conversion from the inner type into the struct.
    pub fn render_from_inner(&self) -> (text: String)
        ensures
            text@ == self.spec_from_inner_source(),
    {
        let mut text = String::from_str("impl ::core::convert::From<");
        text.append(self.inner.as_str());
        text.append("> for ");
        text.append(self.target.as_str());
        text.append(" { fn from(value: ");
        text.append(self.inner.as_str());
        text.append(") -> Self { Self { ");
        text.append(self.field.as_str());
        text.append(": rust_tagged::Tagged::new(value) } } }");
        text
    }

    /// The conversion from the struct back into the inner type.
    pub fn render_into_inner(&self) -> (text: String)
        ensures
            text@ == self.spec_into_inner_source(),
    {
        let mut text = String::from_str("impl ::core::convert::From<");
        text.append(self.target.as_str());
        text.append("> for ");
        text.append(self.inner.as_str());
        text.append(" { fn from(tagged: ");
        text.append(self.target.as_str());
        text.append(") -> Self { tagged.");
        text.append(self.field.as_str());
        text.append(".into_inner() } }");
        text
    }

    /// Dereferencing of the struct to the inner type.
    pub fn render_deref(&self) -> (text: String)
        ensures
            text@ == self.spec_deref_source(),
    {
        let mut text = String::from_str("impl ::core::ops::Deref for ");
        text.append(self.target.as_str());
        text.append(" { type Target = ");
        text.append(self.inner.as_str());
        text.append("; fn deref(&self) -> &Self::Target { &self.");
        text.append(self.field.as_str());
        text.append(" } }");
        text
    }

    /// Displaying of the struct.
    pub fn render_display(&self) -> (text: String)
        ensures
            text@ == self.spec_display_source(),
    {
        let mut text = String::from_str("impl ::core::fmt::Display for ");
        text.append(self.target.as_str());
        text.append(
            " { fn fmt(&self, f: &mut ::core::fmt::Formatter<'_>) -> ::core::fmt::Result { ::core::fmt::Display::fmt(&self.",
        );
        text.append(self.field.as_str());
        text.append(", f) } }");
        text
    }

    /// The four conversions as they are written.
    pub fn render(&self) -> (text: String)
        ensures
            text@ == self.spec_source(),
    {
        let mut text = self.render_from_inner();
        text.append(" ");
        text.append(self.render_into_inner().as_str());
        text.append(" ");
        text.append(self.render_deref().as_str());
        text.append(" ");
        text.append(self.render_display().as_str());
        text
    }
}

impl ExpansionView {
    /// The rewritten struct as it is written:
    /// `pub struct Name { pub a: A, pub b: B, }`.
    pub open spec fn spec_struct_source(self) -> Seq<char> {
        "pub struct "@ + self.name@ + " { "@ + spec_fields_source(self.fields) + "}"@
    }

    /// All that is emitted: the struct, and behind it the conversions where
    /// there are any.
    pub open spec fn spec_source(self) -> Seq<char> {
        match self.conversions {
            Some(conversions) => self.spec_struct_source() + " "@ + conversions.spec_source(),
            None => self.spec_struct_source(),
        }
    }
}

impl Expansion {
    /// The rewritten struct as it is written.
    pub fn render_struct(&self) -> (text: String)
        ensures
            text@ == self@.spec_struct_source(),
    {
        let mut text = String::from_str("pub struct ");
        text.append(self.name.as_str());
        text.append(" { ");
        text.append(render_fields(&self.fields).as_str());
        text.append("}");
        text
    }

    /// All that is emitted, as source text.
    pub fn render(&self) -> (text: String)
        ensures
            text@ == self@.spec_source(),
    {
        let mut text = self.render_struct();
        match &self.conversions {
            Some(conversions) => {
                text.append(" ");
                text.append(conversions.render().as_str());
            },
            None => {},
        }
        text
    }
}

} // verus!
