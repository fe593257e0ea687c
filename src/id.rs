//! Identity handles: compact, copyable integers that name classes, packages and
//! methods inside one name registry.
use vstd::prelude::*;

verus! {

/// Opaque identity of one runtime class (ordinary or array) inside one registry.
///
/// Two ids only compare meaningfully when they were issued by the same registry.
#[derive(Debug, Copy, Clone, PartialEq, Eq, Structural, Hash)]
pub struct ClassId(u32);

/// Identity of a raw parsed class file; it shares the value space of [`ClassId`].
pub type ClassFileId = ClassId;

impl ClassId {
    /// The integer this id stands for.
    pub closed spec fn value(self) -> u32 {
        self.0
    }

    /// Builds an id from a value that the registry already trusts.
    pub fn new_unchecked(id: u32) -> (r: ClassId)
        ensures
            r.value() == id,
    {
        ClassId(id)
    }

    pub fn get(self) -> (r: u32)
        ensures
            r == self.value(),
    {
        self.0
    }
}

/// Opaque identity of a package.
#[derive(Debug, Copy, Clone, PartialEq, Eq, Structural)]
pub struct PackageId(u32);

impl PackageId {
    /// The integer this id stands for.
    pub closed spec fn value(self) -> u32 {
        self.0
    }

    pub fn new_unchecked(id: u32) -> (r: PackageId)
        ensures
            r.value() == id,
    {
        PackageId(id)
    }
}

/// An index into the method table of a class; meaningless without the class.
pub type MethodIndex = u16;

/// A method named by its class and its slot in that class's method table.
#[derive(Debug, Clone, Copy, PartialEq, Eq, Structural, Hash)]
pub struct ExactMethodId {
    class_id: ClassId,
    method_index: MethodIndex,
}

impl ExactMethodId {
    pub closed spec fn spec_compose(class_id: ClassId, method_index: MethodIndex) -> ExactMethodId {
        ExactMethodId { class_id, method_index }
    }

    pub closed spec fn spec_decompose(self) -> (ClassId, MethodIndex) {
        (self.class_id, self.method_index)
    }

    /// Pairs a class with a slot; the caller vouches that the slot is in range.
    pub fn unchecked_compose(class_id: ClassId, method_index: MethodIndex) -> (r: Self)
        ensures
            r == Self::spec_compose(class_id, method_index),
            r.spec_decompose() == (class_id, method_index),
    {
        Self { class_id, method_index }
    }

    pub fn decompose(self) -> (r: (ClassId, MethodIndex))
        ensures
            r == self.spec_decompose(),
    {
        (self.class_id, self.method_index)
    }

    /// Composing a class and a slot and taking the pair apart again gives them back.
    pub proof fn lemma_compose_round_trip(class_id: ClassId, method_index: MethodIndex)
        ensures
            Self::spec_compose(class_id, method_index).spec_decompose() == (class_id, method_index),
    {
    }

    /// Every exact method id is the composition of its own parts.
    pub proof fn lemma_decompose_round_trip(m: ExactMethodId)
        ensures
            Self::spec_compose(m.spec_decompose().0, m.spec_decompose().1) == m,
    {
    }
}

/// A method identity: either a slot of a class, or the synthetic clone of an array.
#[derive(Debug, Clone, Copy, PartialEq, Eq, Structural, Hash)]
pub enum MethodId {
    Exact(ExactMethodId),
    ArrayClone,
}

impl MethodId {
    pub open spec fn spec_into_exact(self) -> Option<ExactMethodId> {
        match self {
            MethodId::Exact(x) => Some(x),
            MethodId::ArrayClone => None,
        }
    }

    pub open spec fn spec_decompose(self) -> Option<(ClassId, MethodIndex)> {
        match self {
            MethodId::Exact(x) => Some(x.spec_decompose()),
            MethodId::ArrayClone => None,
        }
    }

    pub fn unchecked_compose(class_id: ClassId, method_index: MethodIndex) -> (r: Self)
        ensures
            r == MethodId::Exact(ExactMethodId::spec_compose(class_id, method_index)),
            r.spec_decompose() == Some((class_id, method_index)),
    {
        MethodId::Exact(ExactMethodId::unchecked_compose(class_id, method_index))
    }

    pub fn decompose(self) -> (r: Option<(ClassId, MethodIndex)>)
        ensures
            r == self.spec_decompose(),
    {
        match self.into_exact() {
            Some(x) => Some(x.decompose()),
            None => None,
        }
    }

    pub fn into_exact(self) -> (r: Option<ExactMethodId>)
        ensures
            r == self.spec_into_exact(),
    {
        match self {
            MethodId::Exact(x) => Some(x),
            MethodId::ArrayClone => None,
        }
    }

    /// Composing a class and a slot into a method id and decomposing it gives them back.
    pub proof fn lemma_compose_round_trip(class_id: ClassId, method_index: MethodIndex)
        ensures
            MethodId::Exact(ExactMethodId::spec_compose(class_id, method_index)).spec_decompose()
                == Some((class_id, method_index)),
    {
    }

    /// The array-clone handle never decomposes, and every exact handle always does.
    pub proof fn lemma_variant_exclusivity(m: ExactMethodId)
        ensures
            MethodId::ArrayClone.spec_decompose().is_none(),
            MethodId::ArrayClone.spec_into_exact().is_none(),
            MethodId::Exact(m).spec_decompose() == Some(m.spec_decompose()),
            MethodId::Exact(m).spec_into_exact() == Some(m),
    {
    }
}

impl From<ExactMethodId> for MethodId {
    fn from(v: ExactMethodId) -> (r: Self) {
        MethodId::Exact(v)
    }
}

impl vstd::std_specs::convert::FromSpecImpl<ExactMethodId> for MethodId {
    open spec fn obeys_from_spec() -> bool {
        true
    }

    open spec fn from_spec(v: ExactMethodId) -> MethodId {
        MethodId::Exact(v)
    }
}

/// Whether a class name names an array class: it starts with `[`.
pub open spec fn spec_is_array_name(name: Seq<char>) -> bool {
    name.len() > 0 && name[0] == '['
}

/// Whether a class name names an array class: it starts with `[`.
pub fn is_array_class(first: &str) -> (r: bool)
    ensures
        r == spec_is_array_name(first@),
{
    first.unicode_len() > 0 && first.get_char(0) == '['
}

/// Whether a class name given as bytes names an array class.
pub fn is_array_class_bytes(first: &[u8]) -> (r: bool)
    ensures
        r == (first@.len() > 0 && first@[0] == 0x5bu8),
{
    first.len() > 0 && first[0] == 0x5bu8
}

} // verus!
