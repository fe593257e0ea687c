//! The name registry: interns slash-separated class names into class ids.
use vstd::prelude::*;
use crate::id::{spec_is_array_name, ClassFileId, ClassId};

verus! {

/// An id that the registry never issued.
#[derive(Debug, Clone, Copy, PartialEq, Eq, Structural)]
pub struct BadIdError {
    pub id: ClassId,
}

/// Interns class names: each distinct name gets the id of its position.
#[derive(Debug, Clone)]
pub struct ClassNames {
    names: Vec<String>,
}

impl View for ClassNames {
    type V = Seq<Seq<char>>;

    closed spec fn view(&self) -> Seq<Seq<char>> {
        self.names@.map_values(|s: String| s@)
    }
}

impl ClassNames {
    /// No name is held twice, and every id fits in a `u32`.
    pub open spec fn wf(&self) -> bool {
        &&& self@.len() <= u32::MAX
        &&& forall|i: int, j: int|
            0 <= i < j < self@.len() ==> #[trigger] self@[i] != #[trigger] self@[j]
    }

    /// Whether `id` was issued by this registry.
    pub open spec fn issued(&self, id: ClassId) -> bool {
        id.value() < self@.len()
    }

    /// The name that `id` stands for.
    pub open spec fn name_of(&self, id: ClassId) -> Seq<char> {
        self@[id.value() as int]
    }

    pub fn new() -> (r: ClassNames)
        ensures
            r@ == Seq::<Seq<char>>::empty(),
            r.wf(),
    {
        let r = ClassNames { names: Vec::new() };
        assert(r@ =~= Seq::<Seq<char>>::empty());
        r
    }

    /// Number of names interned so far.
    pub fn len(&self) -> (r: usize)
        ensures
            r == self@.len(),
    {
        self.names.len()
    }

    /// Returns the id of `name`, interning it first if it is new.
    pub fn gcid_from_str(&mut self, name: &str) -> (r: ClassFileId)
        requires
            old(self).wf(),
            old(self)@.len() < u32::MAX,
        ensures
            final(self).wf(),
            final(self).issued(r),
            final(self).name_of(r) == name@,
            old(self)@.contains(name@) ==> final(self)@ == old(self)@,
            !old(self)@.contains(name@) ==> final(self)@ == old(self)@.push(name@)
                && r.value() == old(self)@.len(),
    {
        let ghost names = self@;
        let n = self.names.len();
        let mut i: usize = 0;
        while i < n
            invariant
                self@ == names,
                self.wf(),
                n == names.len(),
                i <= n,
                n < u32::MAX,
                forall|k: int| 0 <= k < i ==> names[k] != name@,
            decreases n - i,
        {
            if str_eq(self.names[i].as_str(), name) {
                assert(self@[i as int] == self.names@[i as int]@);
                return ClassId::new_unchecked(i as u32);
            }
            assert(self@[i as int] == self.names@[i as int]@);
            i = i + 1;
        }
        assert(!names.contains(name@));
        self.names.push(String::from_str(name));
        assert(self@ =~= names.push(name@));
        ClassId::new_unchecked(n as u32)
    }

    /// The name of `id`, or an error if this registry never issued it.
    pub fn name_from_gcid(&self, id: ClassId) -> (r: Result<&String, BadIdError>)
        ensures
            self.issued(id) ==> (r matches Ok(s) && s@ == self.name_of(id)),
            !self.issued(id) ==> r == Err::<&String, BadIdError>(BadIdError { id }),
    {
        let i = id.get() as usize;
        if i < self.names.len() {
            Ok(&self.names[i])
        } else {
            Err(BadIdError { id })
        }
    }

    /// Whether the name of an issued id is an array name.
    pub open spec fn is_array(&self, id: ClassId) -> bool {
        spec_is_array_name(self.name_of(id))
    }
}

/// Character-wise equality of two strings.
fn str_eq(a: &str, b: &str) -> (r: bool)
    ensures
        r == (a@ == b@),
{
    let n = a.unicode_len();
    if n != b.unicode_len() {
        return false;
    }
    let mut i: usize = 0;
    while i < n
        invariant
            n == a@.len(),
            n == b@.len(),
            i <= n,
            forall|k: int| 0 <= k < i ==> a@[k] == b@[k],
        decreases n - i,
    {
        if a.get_char(i) != b.get_char(i) {
            return false;
        }
        i = i + 1;
    }
    assert(a@ =~= b@);
    true
}

} // verus!
