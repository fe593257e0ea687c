//! The constant pool of a parsed class file, and indices into it that carry the
//! kind of entry they must resolve to.
use core::marker::PhantomData;
use vstd::prelude::*;

verus! {

/// An index into a constant pool that must resolve to an entry of kind `T`.
///
/// Pool indices start at 1; the value 0 is reserved and resolves to nothing.
#[derive(Debug)]
#[verifier::reject_recursive_types(T)]
pub struct ConstantPoolIndex<T> {
    raw: u16,
    kind: PhantomData<T>,
}

impl<T> Clone for ConstantPoolIndex<T> {
    fn clone(&self) -> (r: Self)
        ensures
            r.raw_value() == self.raw_value(),
    {
        ConstantPoolIndex { raw: self.raw, kind: PhantomData }
    }
}

impl<T> Copy for ConstantPoolIndex<T> {
}

impl<T> ConstantPoolIndex<T> {
    /// The raw pool index.
    pub closed spec fn raw_value(self) -> u16 {
        self.raw
    }

    pub fn new(raw: u16) -> (r: Self)
        ensures
            r.raw_value() == raw,
    {
        ConstantPoolIndex { raw, kind: PhantomData }
    }

    pub fn raw(self) -> (r: u16)
        ensures
            r == self.raw_value(),
    {
        self.raw
    }

    /// Whether this is the reserved index 0.
    pub fn is_zero(self) -> (r: bool)
        ensures
            r == (self.raw_value() == 0),
    {
        self.raw == 0
    }
}

/// The kinds of constant-pool entries.
#[derive(Debug, Clone, Copy, PartialEq, Eq, Structural)]
pub enum ConstantKind {
    Utf8,
    Integer,
    Float,
    Long,
    Double,
    Class,
    String,
    FieldRef,
    MethodRef,
    InterfaceMethodRef,
    NameAndType,
    MethodHandle,
    MethodType,
    InvokeDynamic,
    Unusable,
}

/// A UTF-8 text entry.
#[derive(Debug, Clone)]
pub struct Utf8Constant {
    pub utf8_string: String,
}

/// A 32-bit integer literal.
#[derive(Debug, Clone)]
pub struct IntegerConstant {
    pub value: i32,
}

/// A 32-bit floating-point literal, kept as its IEEE 754 bits.
#[derive(Debug, Clone)]
pub struct FloatConstant {
    pub bits: u32,
}

/// A 64-bit integer literal.
#[derive(Debug, Clone)]
pub struct LongConstant {
    pub value: i64,
}

/// A 64-bit floating-point literal, kept as its IEEE 754 bits.
#[derive(Debug, Clone)]
pub struct DoubleConstant {
    pub bits: u64,
}

/// A class reference: the index of its name.
#[derive(Debug, Clone)]
pub struct ClassConstant {
    pub name_index: ConstantPoolIndex<Utf8Constant>,
}

/// A string literal: the index of its text.
#[derive(Debug, Clone)]
pub struct StringConstant {
    pub string_index: ConstantPoolIndex<Utf8Constant>,
}

/// A field reference.
#[derive(Debug, Clone)]
pub struct FieldRefConstant {
    pub class_index: ConstantPoolIndex<ClassConstant>,
    pub name_and_type_index: ConstantPoolIndex<NameAndTypeConstant>,
}

/// A method reference.
#[derive(Debug, Clone)]
pub struct MethodRefConstant {
    pub class_index: ConstantPoolIndex<ClassConstant>,
    pub name_and_type_index: ConstantPoolIndex<NameAndTypeConstant>,
}

/// An interface method reference.
#[derive(Debug, Clone)]
pub struct InterfaceMethodRefConstant {
    pub class_index: ConstantPoolIndex<ClassConstant>,
    pub name_and_type_index: ConstantPoolIndex<NameAndTypeConstant>,
}

/// A name paired with a type descriptor.
#[derive(Debug, Clone)]
pub struct NameAndTypeConstant {
    pub name_index: ConstantPoolIndex<Utf8Constant>,
    pub descriptor_index: ConstantPoolIndex<Utf8Constant>,
}

/// A method handle.
#[derive(Debug, Clone)]
pub struct MethodHandleConstant {
    pub reference_kind: u8,
    pub reference_index: u16,
}

/// A method type: the index of its descriptor.
#[derive(Debug, Clone)]
pub struct MethodTypeConstant {
    pub descriptor_index: ConstantPoolIndex<Utf8Constant>,
}

/// A dynamic call site.
#[derive(Debug, Clone)]
pub struct InvokeDynamicConstant {
    pub bootstrap_method_attr_index: u16,
    pub name_and_type_index: ConstantPoolIndex<NameAndTypeConstant>,
}

/// One entry of a constant pool.
#[derive(Debug, Clone)]
pub enum ConstantEntry {
    Utf8(Utf8Constant),
    Integer(IntegerConstant),
    Float(FloatConstant),
    Long(LongConstant),
    Double(DoubleConstant),
    Class(ClassConstant),
    String(StringConstant),
    FieldRef(FieldRefConstant),
    MethodRef(MethodRefConstant),
    InterfaceMethodRef(InterfaceMethodRefConstant),
    NameAndType(NameAndTypeConstant),
    MethodHandle(MethodHandleConstant),
    MethodType(MethodTypeConstant),
    InvokeDynamic(InvokeDynamicConstant),
    /// The slot after a long or double entry, which takes two slots.
    Unusable,
}

impl ConstantEntry {
    pub open spec fn kind(self) -> ConstantKind {
        match self {
            ConstantEntry::Utf8(_) => ConstantKind::Utf8,
            ConstantEntry::Integer(_) => ConstantKind::Integer,
            ConstantEntry::Float(_) => ConstantKind::Float,
            ConstantEntry::Long(_) => ConstantKind::Long,
            ConstantEntry::Double(_) => ConstantKind::Double,
            ConstantEntry::Class(_) => ConstantKind::Class,
            ConstantEntry::String(_) => ConstantKind::String,
            ConstantEntry::FieldRef(_) => ConstantKind::FieldRef,
            ConstantEntry::MethodRef(_) => ConstantKind::MethodRef,
            ConstantEntry::InterfaceMethodRef(_) => ConstantKind::InterfaceMethodRef,
            ConstantEntry::NameAndType(_) => ConstantKind::NameAndType,
            ConstantEntry::MethodHandle(_) => ConstantKind::MethodHandle,
            ConstantEntry::MethodType(_) => ConstantKind::MethodType,
            ConstantEntry::InvokeDynamic(_) => ConstantKind::InvokeDynamic,
            ConstantEntry::Unusable => ConstantKind::Unusable,
        }
    }
}

/// A type of constant-pool entry that a typed index can resolve to.
pub trait PoolConstant: Sized {
    /// The kind of entry that holds a value of this type.
    spec fn entry_kind() -> ConstantKind;

    /// The pool entry that holds this value.
    spec fn wrap(self) -> ConstantEntry;

    /// The value held by `e`, if `e` is of this kind.
    fn from_entry(e: &ConstantEntry) -> (r: Option<&Self>)
        ensures
            r is Some <==> e.kind() == Self::entry_kind(),
            r is Some ==> r.unwrap().wrap() == *e;

    /// The value held by `e`, for writing, if `e` is of this kind.
    fn from_entry_mut(e: &mut ConstantEntry) -> (r: Option<&mut Self>)
        ensures
            r is Some <==> old(e).kind() == Self::entry_kind(),
            r is Some ==> (*r.unwrap()).wrap() == *old(e),
            r is Some ==> *final(e) == (*final(r.unwrap())).wrap(),
            r is None ==> *final(e) == *old(e);
}

impl PoolConstant for Utf8Constant {
    open spec fn entry_kind() -> ConstantKind {
        ConstantKind::Utf8
    }

    open spec fn wrap(self) -> ConstantEntry {
        ConstantEntry::Utf8(self)
    }

    fn from_entry(e: &ConstantEntry) -> (r: Option<&Self>) {
        match e {
            ConstantEntry::Utf8(x) => Some(x),
            _ => None,
        }
    }

    fn from_entry_mut(e: &mut ConstantEntry) -> (r: Option<&mut Self>) {
        match e {
            ConstantEntry::Utf8(x) => Some(x),
            _ => None,
        }
    }
}

impl PoolConstant for IntegerConstant {
    open spec fn entry_kind() -> ConstantKind {
        ConstantKind::Integer
    }

    open spec fn wrap(self) -> ConstantEntry {
        ConstantEntry::Integer(self)
    }

    fn from_entry(e: &ConstantEntry) -> (r: Option<&Self>) {
        match e {
            ConstantEntry::Integer(x) => Some(x),
            _ => None,
        }
    }

    fn from_entry_mut(e: &mut ConstantEntry) -> (r: Option<&mut Self>) {
        match e {
            ConstantEntry::Integer(x) => Some(x),
            _ => None,
        }
    }
}

impl PoolConstant for FloatConstant {
    open spec fn entry_kind() -> ConstantKind {
        ConstantKind::Float
    }

    open spec fn wrap(self) -> ConstantEntry {
        ConstantEntry::Float(self)
    }

    fn from_entry(e: &ConstantEntry) -> (r: Option<&Self>) {
        match e {
            ConstantEntry::Float(x) => Some(x),
            _ => None,
        }
    }

    fn from_entry_mut(e: &mut ConstantEntry) -> (r: Option<&mut Self>) {
        match e {
            ConstantEntry::Float(x) => Some(x),
            _ => None,
        }
    }
}

impl PoolConstant for LongConstant {
    open spec fn entry_kind() -> ConstantKind {
        ConstantKind::Long
    }

    open spec fn wrap(self) -> ConstantEntry {
        ConstantEntry::Long(self)
    }

    fn from_entry(e: &ConstantEntry) -> (r: Option<&Self>) {
        match e {
            ConstantEntry::Long(x) => Some(x),
            _ => None,
        }
    }

    fn from_entry_mut(e: &mut ConstantEntry) -> (r: Option<&mut Self>) {
        match e {
            ConstantEntry::Long(x) => Some(x),
            _ => None,
        }
    }
}

impl PoolConstant for DoubleConstant {
    open spec fn entry_kind() -> ConstantKind {
        ConstantKind::Double
    }

    open spec fn wrap(self) -> ConstantEntry {
        ConstantEntry::Double(self)
    }

    fn from_entry(e: &ConstantEntry) -> (r: Option<&Self>) {
        match e {
            ConstantEntry::Double(x) => Some(x),
            _ => None,
        }
    }

    fn from_entry_mut(e: &mut ConstantEntry) -> (r: Option<&mut Self>) {
        match e {
            ConstantEntry::Double(x) => Some(x),
            _ => None,
        }
    }
}

impl PoolConstant for ClassConstant {
    open spec fn entry_kind() -> ConstantKind {
        ConstantKind::Class
    }

    open spec fn wrap(self) -> ConstantEntry {
        ConstantEntry::Class(self)
    }

    fn from_entry(e: &ConstantEntry) -> (r: Option<&Self>) {
        match e {
            ConstantEntry::Class(x) => Some(x),
            _ => None,
        }
    }

    fn from_entry_mut(e: &mut ConstantEntry) -> (r: Option<&mut Self>) {
        match e {
            ConstantEntry::Class(x) => Some(x),
            _ => None,
        }
    }
}

impl PoolConstant for StringConstant {
    open spec fn entry_kind() -> ConstantKind {
        ConstantKind::String
    }

    open spec fn wrap(self) -> ConstantEntry {
        ConstantEntry::String(self)
    }

    fn from_entry(e: &ConstantEntry) -> (r: Option<&Self>) {
        match e {
            ConstantEntry::String(x) => Some(x),
            _ => None,
        }
    }

    fn from_entry_mut(e: &mut ConstantEntry) -> (r: Option<&mut Self>) {
        match e {
            ConstantEntry::String(x) => Some(x),
            _ => None,
        }
    }
}

impl PoolConstant for FieldRefConstant {
    open spec fn entry_kind() -> ConstantKind {
        ConstantKind::FieldRef
    }

    open spec fn wrap(self) -> ConstantEntry {
        ConstantEntry::FieldRef(self)
    }

    fn from_entry(e: &ConstantEntry) -> (r: Option<&Self>) {
        match e {
            ConstantEntry::FieldRef(x) => Some(x),
            _ => None,
        }
    }

    fn from_entry_mut(e: &mut ConstantEntry) -> (r: Option<&mut Self>) {
        match e {
            ConstantEntry::FieldRef(x) => Some(x),
            _ => None,
        }
    }
}

impl PoolConstant for MethodRefConstant {
    open spec fn entry_kind() -> ConstantKind {
        ConstantKind::MethodRef
    }

    open spec fn wrap(self) -> ConstantEntry {
        ConstantEntry::MethodRef(self)
    }

    fn from_entry(e: &ConstantEntry) -> (r: Option<&Self>) {
        match e {
            ConstantEntry::MethodRef(x) => Some(x),
            _ => None,
        }
    }

    fn from_entry_mut(e: &mut ConstantEntry) -> (r: Option<&mut Self>) {
        match e {
            ConstantEntry::MethodRef(x) => Some(x),
            _ => None,
        }
    }
}

impl PoolConstant for InterfaceMethodRefConstant {
    open spec fn entry_kind() -> ConstantKind {
        ConstantKind::InterfaceMethodRef
    }

    open spec fn wrap(self) -> ConstantEntry {
        ConstantEntry::InterfaceMethodRef(self)
    }

    fn from_entry(e: &ConstantEntry) -> (r: Option<&Self>) {
        match e {
            ConstantEntry::InterfaceMethodRef(x) => Some(x),
            _ => None,
        }
    }

    fn from_entry_mut(e: &mut ConstantEntry) -> (r: Option<&mut Self>) {
        match e {
            ConstantEntry::InterfaceMethodRef(x) => Some(x),
            _ => None,
        }
    }
}

impl PoolConstant for NameAndTypeConstant {
    open spec fn entry_kind() -> ConstantKind {
        ConstantKind::NameAndType
    }

    open spec fn wrap(self) -> ConstantEntry {
        ConstantEntry::NameAndType(self)
    }

    fn from_entry(e: &ConstantEntry) -> (r: Option<&Self>) {
        match e {
            ConstantEntry::NameAndType(x) => Some(x),
            _ => None,
        }
    }

    fn from_entry_mut(e: &mut ConstantEntry) -> (r: Option<&mut Self>) {
        match e {
            ConstantEntry::NameAndType(x) => Some(x),
            _ => None,
        }
    }
}

impl PoolConstant for MethodHandleConstant {
    open spec fn entry_kind() -> ConstantKind {
        ConstantKind::MethodHandle
    }

    open spec fn wrap(self) -> ConstantEntry {
        ConstantEntry::MethodHandle(self)
    }

    fn from_entry(e: &ConstantEntry) -> (r: Option<&Self>) {
        match e {
            ConstantEntry::MethodHandle(x) => Some(x),
            _ => None,
        }
    }

    fn from_entry_mut(e: &mut ConstantEntry) -> (r: Option<&mut Self>) {
        match e {
            ConstantEntry::MethodHandle(x) => Some(x),
            _ => None,
        }
    }
}

impl PoolConstant for MethodTypeConstant {
    open spec fn entry_kind() -> ConstantKind {
        ConstantKind::MethodType
    }

    open spec fn wrap(self) -> ConstantEntry {
        ConstantEntry::MethodType(self)
    }

    fn from_entry(e: &ConstantEntry) -> (r: Option<&Self>) {
        match e {
            ConstantEntry::MethodType(x) => Some(x),
            _ => None,
        }
    }

    fn from_entry_mut(e: &mut ConstantEntry) -> (r: Option<&mut Self>) {
        match e {
            ConstantEntry::MethodType(x) => Some(x),
            _ => None,
        }
    }
}

impl PoolConstant for InvokeDynamicConstant {
    open spec fn entry_kind() -> ConstantKind {
        ConstantKind::InvokeDynamic
    }

    open spec fn wrap(self) -> ConstantEntry {
        ConstantEntry::InvokeDynamic(self)
    }

    fn from_entry(e: &ConstantEntry) -> (r: Option<&Self>) {
        match e {
            ConstantEntry::InvokeDynamic(x) => Some(x),
            _ => None,
        }
    }

    fn from_entry_mut(e: &mut ConstantEntry) -> (r: Option<&mut Self>) {
        match e {
            ConstantEntry::InvokeDynamic(x) => Some(x),
            _ => None,
        }
    }
}

/// The entry at a raw 1-based pool index, if there is one.
pub open spec fn pool_entry(pool: Seq<ConstantEntry>, raw: u16) -> Option<ConstantEntry> {
    if 1 <= raw <= pool.len() {
        Some(pool[raw - 1])
    } else {
        None
    }
}

/// Whether a typed index resolves in `pool`: the slot exists and holds an entry of kind `T`.
pub open spec fn resolves<T: PoolConstant>(pool: Seq<ConstantEntry>, i: ConstantPoolIndex<T>) -> bool {
    pool_entry(pool, i.raw_value()) matches Some(e) && e.kind() == T::entry_kind()
}

} // verus!
