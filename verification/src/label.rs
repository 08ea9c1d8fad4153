//! Namespaced diagnostic labels of the form `foo.bar.baz`, used to tag GPU
//! objects when they are created.

use vstd::prelude::*;

verus! {

/// Namespaced labels of the form `foo.bar.baz`.
pub struct Label {
    data: String,
}

impl Label {
    /// The label text as a sequence of characters.
    pub closed spec fn view(&self) -> Seq<char> {
        self.data@
    }

    /// Extends the namespace by one segment: `foo` becomes `foo.<s>`.
    #[must_use]
    pub fn sublabel(&self, s: &str) -> (r: Label)
        ensures
            r@ == self@ + seq!['.'] + s@,
    {
        proof {
            reveal_strlit(".");
        }
        Label { data: self.data.clone().concat(".").concat(s) }
    }

    #[must_use]
    pub fn as_str(&self) -> (r: &str)
        ensures
            r@ == self@,
    {
        self.data.as_str()
    }

    #[must_use]
    pub fn to_owned(&self) -> (r: Label)
        ensures
            r@ == self@,
    {
        Label { data: self.data.clone() }
    }
}

impl From<String> for Label {
    fn from(s: String) -> (r: Label)
        ensures
            r@ == s@,
    {
        Label { data: s }
    }
}

// A `String` value is not pinned down by its character sequence at the
// specification level, so the exact contracts live on the `from` methods
// themselves rather than on `from_spec`.
impl vstd::std_specs::convert::FromSpecImpl<String> for Label {
    open spec fn obeys_from_spec() -> bool {
        false
    }

    closed spec fn from_spec(s: String) -> Label {
        Label { data: s }
    }
}

impl<'s> From<&'s str> for Label {
    fn from(s: &'s str) -> (r: Label)
        ensures
            r@ == s@,
    {
        Label { data: String::from_str(s) }
    }
}

impl<'s> vstd::std_specs::convert::FromSpecImpl<&'s str> for Label {
    open spec fn obeys_from_spec() -> bool {
        false
    }

    closed spec fn from_spec(s: &'s str) -> Label {
        arbitrary()
    }
}

impl<'s> From<&'s String> for Label {
    fn from(s: &'s String) -> (r: Label)
        ensures
            r@ == s@,
    {
        Label { data: s.clone() }
    }
}

impl<'s> vstd::std_specs::convert::FromSpecImpl<&'s String> for Label {
    open spec fn obeys_from_spec() -> bool {
        false
    }

    closed spec fn from_spec(s: &'s String) -> Label {
        Label { data: *s }
    }
}

} // verus!
