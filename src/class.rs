//! Parsed class files with checked constant-pool access, and the runtime shape of
//! ordinary classes and array classes.
use vstd::prelude::*;
use crate::id::{spec_is_array_name, ClassFileId, ClassId, MethodId, MethodIndex, ExactMethodId, PackageId};
use crate::names::{BadIdError, ClassNames};
use crate::pool::{
    pool_entry, resolves, ClassConstant, ConstantEntry, ConstantPoolIndex, PoolConstant,
    Utf8Constant,
};

pub use classfile_parser::ClassAccessFlags;
pub use classfile_parser::method_info::MethodInfo;

verus! {

/// The access flags of a class, as the class-file parser defines them.
#[verifier::external_type_specification]
#[verifier::external_body]
pub struct ExClassAccessFlags(classfile_parser::ClassAccessFlags);

/// Relies on the `Clone` that `ClassAccessFlags` derives: a copy of the flags.
pub assume_specification[ <classfile_parser::ClassAccessFlags as core::clone::Clone>::clone ](
    f: &classfile_parser::ClassAccessFlags,
) -> (r: classfile_parser::ClassAccessFlags)
    ensures
        r == *f,
;

/// A method as the class-file parser gives it.
#[verifier::external_type_specification]
#[verifier::external_body]
pub struct ExMethodInfo(classfile_parser::method_info::MethodInfo);

/// Which link of a two-step constant-pool resolution is broken.
#[derive(Debug, Clone, Copy, PartialEq, Eq, Structural)]
pub enum ClassFileIndexError {
    InvalidThisClassIndex,
    InvalidThisClassNameIndex,
    InvalidSuperClassIndex,
    InvalidSuperClassNameIndex,
}

/// The version of a class file.
#[derive(Debug, Clone, Copy, PartialEq, Eq, Structural)]
pub struct ClassFileVersion {
    pub major: u16,
    pub minor: u16,
}

/// A structurally parsed class file: what the runtime reads of it.
#[derive(Debug, Clone)]
pub struct ParsedClassFile {
    pub minor_version: u16,
    pub major_version: u16,
    pub const_pool: Vec<ConstantEntry>,
    pub access_flags: ClassAccessFlags,
    pub this_class: ConstantPoolIndex<ClassConstant>,
    pub super_class: ConstantPoolIndex<ClassConstant>,
    pub interfaces: Vec<ConstantPoolIndex<ClassConstant>>,
    pub methods: Vec<MethodInfo>,
}

/// The class entry at a typed index, if the index resolves.
pub open spec fn class_at(pool: Seq<ConstantEntry>, i: ConstantPoolIndex<ClassConstant>) -> Option<ClassConstant> {
    match pool_entry(pool, i.raw_value()) {
        Some(ConstantEntry::Class(c)) => Some(c),
        _ => None,
    }
}

/// The text of the UTF-8 entry at a typed index, if the index resolves.
pub open spec fn text_at(pool: Seq<ConstantEntry>, i: ConstantPoolIndex<Utf8Constant>) -> Option<Seq<char>> {
    match pool_entry(pool, i.raw_value()) {
        Some(ConstantEntry::Utf8(c)) => Some(c.utf8_string@),
        _ => None,
    }
}

/// The name of the class at `i`: the class entry, then the text of its name.
pub open spec fn class_name_at(
    pool: Seq<ConstantEntry>,
    i: ConstantPoolIndex<ClassConstant>,
    bad_class: ClassFileIndexError,
    bad_name: ClassFileIndexError,
) -> Result<Seq<char>, ClassFileIndexError> {
    match class_at(pool, i) {
        None => Err(bad_class),
        Some(c) => match text_at(pool, c.name_index) {
            None => Err(bad_name),
            Some(t) => Ok(t),
        },
    }
}

/// The name of the class a file defines.
pub open spec fn this_class_name(f: ParsedClassFile) -> Result<Seq<char>, ClassFileIndexError> {
    class_name_at(
        f.const_pool@,
        f.this_class,
        ClassFileIndexError::InvalidThisClassIndex,
        ClassFileIndexError::InvalidThisClassNameIndex,
    )
}

/// The name of a file's superclass; none when the super index is the reserved 0.
pub open spec fn super_class_name(f: ParsedClassFile) -> Result<Option<Seq<char>>, ClassFileIndexError> {
    if f.super_class.raw_value() == 0 {
        Ok(None)
    } else {
        match class_name_at(
            f.const_pool@,
            f.super_class,
            ClassFileIndexError::InvalidSuperClassIndex,
            ClassFileIndexError::InvalidSuperClassNameIndex,
        ) {
            Ok(n) => Ok(Some(n)),
            Err(e) => Err(e),
        }
    }
}

/// A super index of 0 means no superclass; any other index that names no class entry is
/// an error, never an absent superclass.
pub proof fn lemma_zero_super_index(f: ParsedClassFile)
    ensures
        f.super_class.raw_value() == 0 ==> super_class_name(f) == Ok::<
            Option<Seq<char>>,
            ClassFileIndexError,
        >(None),
        f.super_class.raw_value() != 0 && class_at(f.const_pool@, f.super_class) is None
            ==> super_class_name(f) == Err::<Option<Seq<char>>, ClassFileIndexError>(
            ClassFileIndexError::InvalidSuperClassIndex,
        ),
        f.super_class.raw_value() != 0 ==> !(super_class_name(f) matches Ok(None)),
{
}

/// A parsed class file together with its identity and where it came from.
#[derive(Debug, Clone)]
pub struct ClassFileData {
    id: ClassFileId,
    /// The path of the file, for diagnostics only.
    path: String,
    class_file: ParsedClassFile,
}

impl ClassFileData {
    pub closed spec fn spec_id(&self) -> ClassFileId {
        self.id
    }

    pub closed spec fn spec_path(&self) -> Seq<char> {
        self.path@
    }

    /// The parsed file this wraps.
    pub closed spec fn parsed(&self) -> ParsedClassFile {
        self.class_file
    }

    pub fn new(id: ClassFileId, path: String, class_file: ParsedClassFile) -> (r: Self)
        ensures
            r.spec_id() == id,
            r.spec_path() == path@,
            r.parsed() == class_file,
    {
        ClassFileData { id, path, class_file }
    }

    pub fn id(&self) -> (r: ClassFileId)
        ensures
            r == self.spec_id(),
    {
        self.id
    }

    pub fn version(&self) -> (r: Option<ClassFileVersion>)
        ensures
            r == Some(
                ClassFileVersion {
                    major: self.parsed().major_version,
                    minor: self.parsed().minor_version,
                },
            ),
    {
        Some(
            ClassFileVersion {
                major: self.class_file.major_version,
                minor: self.class_file.minor_version,
            },
        )
    }

    /// The entry at `i`, if the slot exists and holds an entry of kind `T`.
    pub fn get_t<T: PoolConstant>(&self, i: ConstantPoolIndex<T>) -> (r: Option<&T>)
        ensures
            r is Some <==> resolves(self.parsed().const_pool@, i),
            r is Some ==> pool_entry(self.parsed().const_pool@, i.raw_value()) == Some(
                r.unwrap().wrap(),
            ),
    {
        let raw = i.raw();
        if raw == 0 || raw as usize > self.class_file.const_pool.len() {
            return None;
        }
        T::from_entry(&self.class_file.const_pool[raw as usize - 1])
    }

    /// The entry at `i` for writing, if the slot exists and holds an entry of kind `T`.
    /// Nothing but that entry can change.
    pub fn get_t_mut<T: PoolConstant>(&mut self, i: ConstantPoolIndex<T>) -> (r: Option<&mut T>)
        ensures
            r is Some <==> resolves(old(self).parsed().const_pool@, i),
            r is Some ==> pool_entry(old(self).parsed().const_pool@, i.raw_value()) == Some(
                (*r.unwrap()).wrap(),
            ),
            final(self).parsed() == (ParsedClassFile {
                const_pool: final(self).parsed().const_pool,
                ..old(self).parsed()
            }),
            r is Some ==> final(self).parsed().const_pool@ == old(self).parsed().const_pool@.update(
                i.raw_value() - 1,
                (*final(r.unwrap())).wrap(),
            ),
            r is None ==> final(self).parsed().const_pool@ == old(self).parsed().const_pool@,
            final(self).spec_id() == old(self).spec_id(),
            final(self).spec_path() == old(self).spec_path(),
    {
        let raw = i.raw();
        if raw == 0 || raw as usize > self.class_file.const_pool.len() {
            return None;
        }
        T::from_entry_mut(&mut self.class_file.const_pool[raw as usize - 1])
    }

    /// The text of the UTF-8 entry at `i`.
    pub fn get_text_t(&self, i: ConstantPoolIndex<Utf8Constant>) -> (r: Option<&str>)
        ensures
            match r {
                Some(s) => text_at(self.parsed().const_pool@, i) == Some(s@),
                None => text_at(self.parsed().const_pool@, i) is None,
            },
    {
        match self.get_t(i) {
            Some(x) => Some(x.utf8_string.as_str()),
            None => None,
        }
    }

    /// The method at a 0-based position of the method table.
    pub fn get_method(&self, index: usize) -> (r: Option<&MethodInfo>)
        ensures
            r is Some <==> index < self.parsed().methods@.len(),
            r is Some ==> *r.unwrap() == self.parsed().methods@[index as int],
    {
        if index < self.class_file.methods.len() {
            Some(&self.class_file.methods[index])
        } else {
            None
        }
    }

    /// All methods, in declaration order.
    pub fn methods(&self) -> (r: &[MethodInfo])
        ensures
            r@ == self.parsed().methods@,
    {
        self.class_file.methods.as_slice()
    }

    pub fn access_flags(&self) -> (r: ClassAccessFlags)
        ensures
            r == self.parsed().access_flags,
    {
        self.class_file.access_flags
    }

    /// The name of the class this file defines.
    pub fn get_this_class_name(&self) -> (r: Result<&str, ClassFileIndexError>)
        ensures
            match r {
                Ok(s) => this_class_name(self.parsed()) == Ok::<Seq<char>, ClassFileIndexError>(s@),
                Err(e) => this_class_name(self.parsed()) == Err::<Seq<char>, ClassFileIndexError>(e),
            },
    {
        let this_class = match self.get_t(self.class_file.this_class) {
            Some(c) => c,
            None => return Err(ClassFileIndexError::InvalidThisClassIndex),
        };
        match self.get_t(this_class.name_index) {
            Some(x) => Ok(x.utf8_string.as_str()),
            None => Err(ClassFileIndexError::InvalidThisClassNameIndex),
        }
    }

    /// The name of the superclass, or none for a file without one.
    pub fn get_super_class_name(&self) -> (r: Result<Option<&str>, ClassFileIndexError>)
        ensures
            match r {
                Ok(Some(s)) => super_class_name(self.parsed()) == Ok::<
                    Option<Seq<char>>,
                    ClassFileIndexError,
                >(Some(s@)),
                Ok(None) => super_class_name(self.parsed()) == Ok::<
                    Option<Seq<char>>,
                    ClassFileIndexError,
                >(None),
                Err(e) => super_class_name(self.parsed()) == Err::<
                    Option<Seq<char>>,
                    ClassFileIndexError,
                >(e),
            },
    {
        if self.class_file.super_class.is_zero() {
            return Ok(None);
        }
        let super_class = match self.get_t(self.class_file.super_class) {
            Some(c) => c,
            None => return Err(ClassFileIndexError::InvalidSuperClassIndex),
        };
        match self.get_t(super_class.name_index) {
            Some(x) => Ok(Some(x.utf8_string.as_str())),
            None => Err(ClassFileIndexError::InvalidSuperClassNameIndex),
        }
    }

    /// The id of the superclass's file, interning its name in `class_names`.
    pub fn get_super_class_id(&self, class_names: &mut ClassNames) -> (r: Result<
        Option<ClassFileId>,
        ClassFileIndexError,
    >)
        requires
            old(class_names).wf(),
            old(class_names)@.len() < u32::MAX,
        ensures
            final(class_names).wf(),
            match super_class_name(self.parsed()) {
                Err(e) => r == Err::<Option<ClassFileId>, ClassFileIndexError>(e)
                    && final(class_names)@ == old(class_names)@,
                Ok(None) => r == Ok::<Option<ClassFileId>, ClassFileIndexError>(None)
                    && final(class_names)@ == old(class_names)@,
                Ok(Some(n)) => r matches Ok(Some(id)) && final(class_names).issued(id)
                    && final(class_names).name_of(id) == n && (old(class_names)@.contains(n)
                    ==> final(class_names)@ == old(class_names)@) && (!old(
                    class_names,
                )@.contains(n) ==> final(class_names)@ == old(class_names)@.push(n)),
            },
    {
        match self.get_super_class_name() {
            Err(e) => Err(e),
            Ok(None) => Ok(None),
            Ok(Some(x)) => Ok(Some(class_names.gcid_from_str(x))),
        }
    }

    /// The pool indices of the declared interfaces, in declaration order.
    pub fn interfaces_indices_iter(&self) -> (r: &[ConstantPoolIndex<ClassConstant>])
        ensures
            r@ == self.parsed().interfaces@,
    {
        self.class_file.interfaces.as_slice()
    }
}

/// The runtime view of an ordinary class: identity, superclass, package, flags and
/// the length of its method table.
#[derive(Debug, Clone)]
pub struct Class {
    id: ClassId,
    super_class: Option<ClassFileId>,
    package: Option<PackageId>,
    access_flags: ClassAccessFlags,
    /// The length of the method table; the slots are `0..len_method_idx`, which need
    /// not all be loaded.
    len_method_idx: MethodIndex,
}

impl Class {
    pub closed spec fn spec_id(&self) -> ClassId {
        self.id
    }

    pub closed spec fn spec_super_id(&self) -> Option<ClassFileId> {
        self.super_class
    }

    pub closed spec fn spec_package(&self) -> Option<PackageId> {
        self.package
    }

    pub closed spec fn spec_access_flags(&self) -> ClassAccessFlags {
        self.access_flags
    }

    pub closed spec fn spec_method_count(&self) -> MethodIndex {
        self.len_method_idx
    }

    pub fn new(
        id: ClassId,
        super_class: Option<ClassFileId>,
        package: Option<PackageId>,
        access_flags: ClassAccessFlags,
        len_method_idx: MethodIndex,
    ) -> (r: Self)
        ensures
            r.spec_id() == id,
            r.spec_super_id() == super_class,
            r.spec_package() == package,
            r.spec_access_flags() == access_flags,
            r.spec_method_count() == len_method_idx,
    {
        Self { id, super_class, package, access_flags, len_method_idx }
    }

    pub fn id(&self) -> (r: ClassId)
        ensures
            r == self.spec_id(),
    {
        self.id
    }

    pub fn super_id(&self) -> (r: Option<ClassFileId>)
        ensures
            r == self.spec_super_id(),
    {
        self.super_class
    }

    pub fn package(&self) -> (r: Option<PackageId>)
        ensures
            r == self.spec_package(),
    {
        self.package
    }

    /// The ids of all method slots of this class, in slot order. A slot having an id
    /// does not mean that its method is loaded.
    pub fn iter_method_ids(&self) -> (r: Vec<MethodId>)
        ensures
            r@.len() == self.spec_method_count(),
            forall|i: int|
                0 <= i < r@.len() ==> #[trigger] r@[i] == MethodId::Exact(
                    ExactMethodId::spec_compose(self.spec_id(), i as MethodIndex),
                ),
            forall|i: int|
                0 <= i < r@.len() ==> #[trigger] r@[i].spec_decompose() == Some(
                    (self.spec_id(), i as MethodIndex),
                ),
    {
        let class_id = self.id;
        let mut out: Vec<MethodId> = Vec::new();
        let mut idx: MethodIndex = 0;
        while idx < self.len_method_idx
            invariant
                idx <= self.len_method_idx,
                out@.len() == idx,
                forall|i: int|
                    0 <= i < out@.len() ==> #[trigger] out@[i] == MethodId::Exact(
                        ExactMethodId::spec_compose(class_id, i as MethodIndex),
                    ),
                forall|i: int|
                    0 <= i < out@.len() ==> #[trigger] out@[i].spec_decompose() == Some(
                        (class_id, i as MethodIndex),
                    ),
                class_id == self.spec_id(),
            decreases self.len_method_idx - idx,
        {
            out.push(MethodId::unchecked_compose(class_id, idx));
            idx = idx + 1;
        }
        out
    }
}

/// The scalar kinds of the runtime, signed and unsigned.
#[derive(Debug, Clone, Copy, PartialEq, Eq, Structural)]
pub enum PrimitiveType {
    Byte,
    UnsignedByte,
    Short,
    UnsignedShort,
    Int,
    Long,
    Float,
    Double,
    Char,
    Boolean,
}

/// The element type of an array: a primitive kind or a class.
#[derive(Debug, Clone, Copy, PartialEq, Eq, Structural)]
pub enum ArrayComponentType {
    Boolean,
    Char,
    Byte,
    Short,
    Int,
    Long,
    Float,
    Double,
    Class(ClassId),
}

/// The one-letter descriptor of a primitive component type.
pub open spec fn primitive_desc(t: ArrayComponentType) -> char {
    match t {
        ArrayComponentType::Byte => 'B',
        ArrayComponentType::Char => 'C',
        ArrayComponentType::Double => 'D',
        ArrayComponentType::Float => 'F',
        ArrayComponentType::Int => 'I',
        ArrayComponentType::Long => 'J',
        ArrayComponentType::Short => 'S',
        ArrayComponentType::Boolean => 'Z',
        ArrayComponentType::Class(_) => 'L',
    }
}

/// The descriptor of a component type, given the names of a registry: a letter for a
/// primitive, an array's own name for an array class, `L<name>;` for another class.
pub open spec fn component_desc(t: ArrayComponentType, names: Seq<Seq<char>>) -> Result<Seq<char>, BadIdError> {
    match t {
        ArrayComponentType::Class(id) => if id.value() < names.len() {
            let n = names[id.value() as int];
            if spec_is_array_name(n) {
                Ok(n)
            } else {
                Ok(seq!['L'] + n + seq![';'])
            }
        } else {
            Err(BadIdError { id })
        },
        _ => Ok(seq![primitive_desc(t)]),
    }
}

impl ArrayComponentType {
    pub open spec fn spec_is_primitive(self) -> bool {
        !(self is Class)
    }

    pub fn is_primitive(&self) -> (r: bool)
        ensures
            r == self.spec_is_primitive(),
    {
        !matches!(self, ArrayComponentType::Class(_))
    }

    /// The class of a class component type; none for a primitive.
    pub fn into_class_id(self) -> (r: Option<ClassId>)
        ensures
            r == (match self {
                ArrayComponentType::Class(id) => Some(id),
                _ => None::<ClassId>,
            }),
    {
        match self {
            ArrayComponentType::Class(id) => Some(id),
            _ => None,
        }
    }

    /// The descriptor string of this component type. The registry is only read.
    pub fn to_desc_string(&self, class_names: &mut ClassNames) -> (r: Result<String, BadIdError>)
        ensures
            *final(class_names) == *old(class_names),
            match r {
                Ok(s) => component_desc(*self, old(class_names)@) == Ok::<Seq<char>, BadIdError>(s@),
                Err(e) => component_desc(*self, old(class_names)@) == Err::<Seq<char>, BadIdError>(e),
            },
    {
        proof {
            reveal_strlit("B");
            reveal_strlit("C");
            reveal_strlit("D");
            reveal_strlit("F");
            reveal_strlit("I");
            reveal_strlit("J");
            reveal_strlit("S");
            reveal_strlit("Z");
        }
        match self {
            ArrayComponentType::Byte => Ok(desc_letter("B")),
            ArrayComponentType::Char => Ok(desc_letter("C")),
            ArrayComponentType::Double => Ok(desc_letter("D")),
            ArrayComponentType::Float => Ok(desc_letter("F")),
            ArrayComponentType::Int => Ok(desc_letter("I")),
            ArrayComponentType::Long => Ok(desc_letter("J")),
            ArrayComponentType::Class(class_id) => {
                let name = class_names.name_from_gcid(*class_id)?;
                if crate::id::is_array_class(name.as_str()) {
                    // An array's name is already its descriptor; wrapping it as an
                    // object type would be wrong.
                    Ok(name.clone())
                } else {
                    let mut out = String::from_str("L");
                    out.append(name.as_str());
                    out.append(";");
                    proof {
                        reveal_strlit("L");
                        reveal_strlit(";");
                        assert(out@ =~= seq!['L'] + name@ + seq![';']);
                    }
                    Ok(out)
                }
            },
            ArrayComponentType::Short => Ok(desc_letter("S")),
            ArrayComponentType::Boolean => Ok(desc_letter("Z")),
        }
    }
}

/// An owned copy of a one-letter descriptor.
fn desc_letter(s: &str) -> (r: String)
    requires
        s@.len() == 1,
    ensures
        r@ == seq![s@[0]],
{
    let r = String::from_str(s);
    assert(r@ =~= seq![s@[0]]);
    r
}

/// The component type of a primitive kind; signed and unsigned kinds of one width
/// share one.
pub open spec fn component_of(prim: PrimitiveType) -> ArrayComponentType {
    match prim {
        PrimitiveType::Byte | PrimitiveType::UnsignedByte => ArrayComponentType::Byte,
        PrimitiveType::Short | PrimitiveType::UnsignedShort => ArrayComponentType::Short,
        PrimitiveType::Int => ArrayComponentType::Int,
        PrimitiveType::Long => ArrayComponentType::Long,
        PrimitiveType::Float => ArrayComponentType::Float,
        PrimitiveType::Double => ArrayComponentType::Double,
        PrimitiveType::Char => ArrayComponentType::Char,
        PrimitiveType::Boolean => ArrayComponentType::Boolean,
    }
}

impl From<PrimitiveType> for ArrayComponentType {
    /// Signed and unsigned kinds of one width share a component type.
    fn from(prim: PrimitiveType) -> (r: ArrayComponentType) {
        match prim {
            PrimitiveType::Byte | PrimitiveType::UnsignedByte => ArrayComponentType::Byte,
            PrimitiveType::Short | PrimitiveType::UnsignedShort => ArrayComponentType::Short,
            PrimitiveType::Int => ArrayComponentType::Int,
            PrimitiveType::Long => ArrayComponentType::Long,
            PrimitiveType::Float => ArrayComponentType::Float,
            PrimitiveType::Double => ArrayComponentType::Double,
            PrimitiveType::Char => ArrayComponentType::Char,
            PrimitiveType::Boolean => ArrayComponentType::Boolean,
        }
    }
}

impl vstd::std_specs::convert::FromSpecImpl<PrimitiveType> for ArrayComponentType {
    open spec fn obeys_from_spec() -> bool {
        true
    }

    open spec fn from_spec(prim: PrimitiveType) -> ArrayComponentType {
        component_of(prim)
    }
}

/// Every primitive kind, once converted, is a primitive component type whose
/// descriptor is one of `B C D F I J S Z`, whatever the registry holds; signed and
/// unsigned kinds of one width get the same descriptor.
pub proof fn lemma_primitive_descriptor(prim: PrimitiveType, names: Seq<Seq<char>>)
    ensures
        component_of(prim).spec_is_primitive(),
        component_desc(
            component_of(prim),
            names,
        ) == Ok::<Seq<char>, BadIdError>(seq![primitive_desc(
            component_of(prim),
        )]),
        seq!['B', 'C', 'D', 'F', 'I', 'J', 'S', 'Z'].contains(primitive_desc(
            component_of(prim),
        )),
        prim == PrimitiveType::UnsignedByte ==> primitive_desc(
            component_of(prim),
        ) == 'B',
        prim == PrimitiveType::UnsignedShort ==> primitive_desc(
            component_of(prim),
        ) == 'S',
{
    let letters = seq!['B', 'C', 'D', 'F', 'I', 'J', 'S', 'Z'];
    assert(letters[0] == 'B' && letters[1] == 'C' && letters[2] == 'D' && letters[3] == 'F');
    assert(letters[4] == 'I' && letters[5] == 'J' && letters[6] == 'S' && letters[7] == 'Z');
}

/// A class reference whose registered name is not an array name is wrapped as
/// `L<name>;`; one whose name is an array name is its name unchanged.
pub proof fn lemma_reference_descriptor(id: ClassId, names: Seq<Seq<char>>)
    requires
        id.value() < names.len(),
    ensures
        !spec_is_array_name(names[id.value() as int]) ==> component_desc(
            ArrayComponentType::Class(id),
            names,
        ) == Ok::<Seq<char>, BadIdError>(seq!['L'] + names[id.value() as int] + seq![';']),
        spec_is_array_name(names[id.value() as int]) ==> component_desc(
            ArrayComponentType::Class(id),
            names,
        ) == Ok::<Seq<char>, BadIdError>(names[id.value() as int]),
{
}

/// The synthetic class of an array type. It has no class file behind it.
#[derive(Debug, Clone)]
pub struct ArrayClass {
    id: ClassId,
    /// For diagnostics only, not for identification.
    name: String,
    component_type: ArrayComponentType,
    /// The root object type.
    super_class: ClassId,
    access_flags: ClassAccessFlags,
}

impl ArrayClass {
    pub closed spec fn spec_id(&self) -> ClassId {
        self.id
    }

    pub closed spec fn spec_name(&self) -> Seq<char> {
        self.name@
    }

    pub closed spec fn spec_component_type(&self) -> ArrayComponentType {
        self.component_type
    }

    pub closed spec fn spec_super_id(&self) -> ClassId {
        self.super_class
    }

    pub closed spec fn spec_access_flags(&self) -> ClassAccessFlags {
        self.access_flags
    }

    /// The caller vouches that `id` is fresh and that `super_class` is the root
    /// object type.
    pub fn new_unchecked(
        id: ClassId,
        name: String,
        component_type: ArrayComponentType,
        super_class: ClassId,
        access_flags: ClassAccessFlags,
    ) -> (r: Self)
        ensures
            r.spec_id() == id,
            r.spec_name() == name@,
            r.spec_component_type() == component_type,
            r.spec_super_id() == super_class,
            r.spec_access_flags() == access_flags,
    {
        ArrayClass { id, name, component_type, super_class, access_flags }
    }

    /// The name, for diagnostics only.
    pub fn name(&self) -> (r: &str)
        ensures
            r@ == self.spec_name(),
    {
        self.name.as_str()
    }

    pub fn id(&self) -> (r: ClassId)
        ensures
            r == self.spec_id(),
    {
        self.id
    }

    pub fn component_type(&self) -> (r: ArrayComponentType)
        ensures
            r == self.spec_component_type(),
    {
        self.component_type
    }

    pub fn super_id(&self) -> (r: ClassId)
        ensures
            r == self.spec_super_id(),
    {
        self.super_class
    }
}

/// Either kind of class, with the operations they share.
#[derive(Debug, Clone)]
pub enum ClassVariant {
    Class(Class),
    Array(ArrayClass),
}

impl ClassVariant {
    pub open spec fn spec_id(&self) -> ClassId {
        match self {
            ClassVariant::Class(x) => x.spec_id(),
            ClassVariant::Array(x) => x.spec_id(),
        }
    }

    pub open spec fn spec_super_id(&self) -> Option<ClassId> {
        match self {
            ClassVariant::Class(x) => x.spec_super_id(),
            ClassVariant::Array(x) => Some(x.spec_super_id()),
        }
    }

    pub open spec fn spec_access_flags(&self) -> ClassAccessFlags {
        match self {
            ClassVariant::Class(x) => x.spec_access_flags(),
            ClassVariant::Array(x) => x.spec_access_flags(),
        }
    }

    pub fn id(&self) -> (r: ClassId)
        ensures
            r == self.spec_id(),
    {
        match self {
            Self::Class(x) => x.id,
            Self::Array(x) => x.id,
        }
    }

    pub fn super_id(&self) -> (r: Option<ClassId>)
        ensures
            r == self.spec_super_id(),
    {
        match self {
            Self::Class(x) => x.super_id(),
            Self::Array(x) => Some(x.super_id()),
        }
    }

    pub fn access_flags(&self) -> (r: ClassAccessFlags)
        ensures
            r == self.spec_access_flags(),
    {
        match self {
            Self::Class(x) => x.access_flags,
            Self::Array(x) => x.access_flags,
        }
    }

    pub fn as_class(&self) -> (r: Option<&Class>)
        ensures
            r is Some <==> self is Class,
            r is Some ==> *self == ClassVariant::Class(*r.unwrap()),
    {
        match self {
            Self::Class(x) => Some(x),
            Self::Array(_) => None,
        }
    }

    pub fn as_array(&self) -> (r: Option<&ArrayClass>)
        ensures
            r is Some <==> self is Array,
            r is Some ==> *self == ClassVariant::Array(*r.unwrap()),
    {
        match self {
            Self::Class(_) => None,
            Self::Array(x) => Some(x),
        }
    }

    /// An array variant reports the array's own id, flags and super id (the root
    /// object type it was built with), and a class variant the class's; the two
    /// never pass for each other.
    pub proof fn lemma_dispatch_parity(c: Class, a: ArrayClass)
        ensures
            ClassVariant::Array(a).spec_super_id() == Some(a.spec_super_id()),
            ClassVariant::Array(a).spec_id() == a.spec_id(),
            ClassVariant::Array(a).spec_access_flags() == a.spec_access_flags(),
            !(ClassVariant::Array(a) is Class),
            ClassVariant::Class(c).spec_super_id() == c.spec_super_id(),
            ClassVariant::Class(c).spec_id() == c.spec_id(),
            ClassVariant::Class(c).spec_access_flags() == c.spec_access_flags(),
            !(ClassVariant::Class(c) is Array),
    {
    }
}

} // verus!
