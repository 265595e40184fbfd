//! The property model: the closed set of primitive field kinds an operator
//! can pick for a property of the generated feature.

use vstd::prelude::*;

verus! {

/// A primitive field kind. Each variant carries a fixed display label, given
/// by [`Property::label`], used verbatim in generated comments.
#[derive(Clone, Copy, Debug, PartialEq, Eq, Structural)]
pub enum Property {
    String,
    Number,
    Date,
    Related,
}

/// The display label of a field kind.
pub open spec fn spec_label(p: Property) -> Seq<char> {
    match p {
        Property::String => "String"@,
        Property::Number => "Number"@,
        Property::Date => "Date"@,
        Property::Related => "Related"@,
    }
}

impl Property {
    /// The fixed display label of this kind.
    pub fn label(&self) -> (r: &'static str)
        ensures
            r@ == spec_label(*self),
    {
        match self {
            Property::String => "String",
            Property::Number => "Number",
            Property::Date => "Date",
            Property::Related => "Related",
        }
    }

    /// All field kinds, in the order the selection menu offers them.
    pub fn get_vec() -> (r: Vec<Property>)
        ensures
            r@ == seq![Property::String, Property::Number, Property::Date, Property::Related],
    {
        let mut v: Vec<Property> = Vec::new();
        v.push(Property::String);
        v.push(Property::Number);
        v.push(Property::Date);
        v.push(Property::Related);
        proof {
            assert(v@ =~= seq![
                Property::String,
                Property::Number,
                Property::Date,
                Property::Related,
            ]);
        }
        v
    }
}

} // verus!
