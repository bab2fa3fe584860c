//! The canonical value tree shared by every supported format.
//!
//! Each source format is parsed into a `CanonValue`, and each target format
//! is emitted from one. Mappings keep their entries in insertion order,
//! so a format that cares about order can be emitted faithfully.

use vstd::prelude::*;

verus! {

/// The pivot representation for all conversions.
///
/// Numbers that fit a machine integer are held as one; any other
/// number is carried opaquely as the JSON library's number type, which
/// the conversion logic never needs to read.
pub enum CanonValue {
    /// The absence of a value.
    Null,
    /// A boolean.
    Bool(bool),
    /// A signed integer.
    Int(i64),
    /// An unsigned integer too large for `i64`.
    UInt(u64),
    /// A number that is not a machine integer, carried opaquely.
    Num(serde_json::Number),
    /// A text string.
    Str(String),
    /// An ordered sequence of values.
    Sequence(Vec<CanonValue>),
    /// A mapping from string keys to values, in insertion order.
    Mapping(Vec<(String, CanonValue)>),
}

impl CanonValue {
    /// Whether this value is a mapping, the only shape TOML accepts at
    /// the top level of a document.
    pub open spec fn is_mapping_spec(self) -> bool {
        self is Mapping
    }

    /// Whether a null occurs anywhere in this tree. TOML has no way to
    /// write one.
    pub open spec fn contains_null(self) -> bool
        decreases self,
    {
        match self {
            CanonValue::Null => true,
            CanonValue::Sequence(elems) => exists|i: int|
                0 <= i < elems@.len() && elems@[i].contains_null(),
            CanonValue::Mapping(entries) => exists|i: int|
                0 <= i < entries@.len() && entries@[i].1.contains_null(),
            _ => false,
        }
    }

    /// Decides `is_mapping_spec`.
    pub fn is_mapping(&self) -> (r: bool)
        ensures
            r == self.is_mapping_spec(),
    {
        match self {
            CanonValue::Mapping(_) => true,
            _ => false,
        }
    }

    /// Decides `contains_null`.
    #[verifier::loop_isolation(false)]
    pub fn has_null(&self) -> (r: bool)
        ensures
            r == self.contains_null(),
        decreases *self,
    {
        match self {
            CanonValue::Null => true,
            CanonValue::Sequence(elems) => {
                let mut i: usize = 0;
                while i < elems.len()
                    invariant
                        0 <= i <= elems@.len(),
                        forall|j: int| 0 <= j < i ==> !elems@[j].contains_null(),
                    decreases elems@.len() - i,
                {
                    proof {
                        assert(decreases_to!(*self => elems@[i as int])) by {
                            assert(decreases_to!(*self => self->Sequence_0));
                            assert(decreases_to!(self->Sequence_0 => self->Sequence_0@));
                            assert(decreases_to!(self->Sequence_0@ => self->Sequence_0@[i as int]));
                        }
                    }
                    if elems[i].has_null() {
                        proof {
                            assert(elems@[i as int].contains_null());
                        }
                        return true;
                    }
                    i = i + 1;
                }
                false
            },
            CanonValue::Mapping(entries) => {
                let mut i: usize = 0;
                while i < entries.len()
                    invariant
                        0 <= i <= entries@.len(),
                        forall|j: int| 0 <= j < i ==> !entries@[j].1.contains_null(),
                    decreases entries@.len() - i,
                {
                    proof {
                        assert(decreases_to!(*self => entries@[i as int].1)) by {
                            assert(decreases_to!(*self => self->Mapping_0));
                            assert(decreases_to!(self->Mapping_0 => self->Mapping_0@));
                            assert(decreases_to!(self->Mapping_0@ => self->Mapping_0@[i as int]));
                            assert(decreases_to!(self->Mapping_0@[i as int] => self->Mapping_0@[i as int].1));
                        }
                    }
                    if entries[i].1.has_null() {
                        proof {
                            assert(entries@[i as int].1.contains_null());
                        }
                        return true;
                    }
                    i = i + 1;
                }
                false
            },
            _ => false,
        }
    }
}

} // verus!
