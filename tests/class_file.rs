use classfile_parser::method_info::{MethodAccessFlags, MethodInfo};
use rhojvm_base::class::{ClassAccessFlags, ClassFileData, ClassFileIndexError, ClassFileVersion, ParsedClassFile};
use rhojvm_base::id::ClassId;
use rhojvm_base::names::ClassNames;
use rhojvm_base::pool::{
    ClassConstant, ConstantEntry, ConstantPoolIndex, IntegerConstant, StringConstant, Utf8Constant,
};

fn utf8(s: &str) -> ConstantEntry {
    ConstantEntry::Utf8(Utf8Constant { utf8_string: s.to_string() })
}

fn class(name_index: u16) -> ConstantEntry {
    ConstantEntry::Class(ClassConstant { name_index: ConstantPoolIndex::new(name_index) })
}

fn method(name_index: u16) -> MethodInfo {
    MethodInfo {
        access_flags: MethodAccessFlags::PUBLIC,
        name_index,
        descriptor_index: 2,
        attributes_count: 0,
        attributes: Vec::new(),
    }
}

/// Pool: 1 "Foo", 2 Class(1), 3 "java/lang/Object", 4 Class(3), 5 Integer 7, 6 Class(99).
fn file(this_class: u16, super_class: u16) -> ClassFileData {
    let pool = vec![
        utf8("Foo"),
        class(1),
        utf8("java/lang/Object"),
        class(3),
        ConstantEntry::Integer(IntegerConstant { value: 7 }),
        class(99),
    ];
    let parsed = ParsedClassFile {
        minor_version: 3,
        major_version: 52,
        const_pool: pool,
        access_flags: ClassAccessFlags::PUBLIC | ClassAccessFlags::SUPER,
        this_class: ConstantPoolIndex::new(this_class),
        super_class: ConstantPoolIndex::new(super_class),
        interfaces: vec![ConstantPoolIndex::new(4), ConstantPoolIndex::new(2)],
        methods: vec![method(1), method(3)],
    };
    ClassFileData::new(ClassId::new_unchecked(11), "Foo.class".to_string(), parsed)
}

#[test]
fn plain_accessors() {
    let f = file(2, 4);
    assert_eq!(f.id(), ClassId::new_unchecked(11));
    assert_eq!(f.version(), Some(ClassFileVersion { major: 52, minor: 3 }));
    assert_eq!(f.access_flags(), ClassAccessFlags::PUBLIC | ClassAccessFlags::SUPER);
    assert_eq!(f.methods().len(), 2);
    assert_eq!(f.get_method(1).unwrap().name_index, 3);
    assert!(f.get_method(2).is_none());
    let raws: Vec<u16> = f.interfaces_indices_iter().iter().map(|i| i.raw()).collect();
    assert_eq!(raws, vec![4, 2]);
}

#[test]
fn kind_checked_lookup() {
    let f = file(2, 4);
    // Index 1 holds text: a text index finds it, a class index does not.
    assert_eq!(f.get_t(ConstantPoolIndex::<Utf8Constant>::new(1)).unwrap().utf8_string, "Foo");
    assert!(f.get_t(ConstantPoolIndex::<ClassConstant>::new(1)).is_none());
    // Index 2 holds a class entry.
    assert_eq!(f.get_t(ConstantPoolIndex::<ClassConstant>::new(2)).unwrap().name_index.raw(), 1);
    assert!(f.get_t(ConstantPoolIndex::<Utf8Constant>::new(2)).is_none());
    assert_eq!(f.get_t(ConstantPoolIndex::<IntegerConstant>::new(5)).unwrap().value, 7);
    assert!(f.get_t(ConstantPoolIndex::<StringConstant>::new(5)).is_none());
}

#[test]
fn out_of_range_lookup_is_absent() {
    let f = file(2, 4);
    assert!(f.get_t(ConstantPoolIndex::<Utf8Constant>::new(0)).is_none());
    assert!(f.get_t(ConstantPoolIndex::<Utf8Constant>::new(7)).is_none());
    assert_eq!(f.get_text_t(ConstantPoolIndex::new(3)), Some("java/lang/Object"));
    assert_eq!(f.get_text_t(ConstantPoolIndex::new(2)), None);
    assert_eq!(f.get_text_t(ConstantPoolIndex::new(u16::MAX)), None);
}

#[test]
fn mutable_lookup_rewrites_one_entry() {
    let mut f = file(2, 4);
    {
        let text = f.get_t_mut(ConstantPoolIndex::<Utf8Constant>::new(1)).unwrap();
        text.utf8_string = "Bar".to_string();
    }
    assert!(f.get_t_mut(ConstantPoolIndex::<ClassConstant>::new(1)).is_none());
    assert_eq!(f.get_this_class_name().unwrap(), "Bar");
    assert_eq!(f.get_text_t(ConstantPoolIndex::new(3)), Some("java/lang/Object"));
}

#[test]
fn this_class_name_resolves() {
    assert_eq!(file(2, 4).get_this_class_name().unwrap(), "Foo");
}

#[test]
fn this_class_index_errors() {
    assert!(matches!(file(1, 4).get_this_class_name(), Err(ClassFileIndexError::InvalidThisClassIndex)));
    assert!(matches!(file(0, 4).get_this_class_name(), Err(ClassFileIndexError::InvalidThisClassIndex)));
    assert!(matches!(file(6, 4).get_this_class_name(), Err(ClassFileIndexError::InvalidThisClassNameIndex)));
}

#[test]
fn super_class_name_resolves() {
    assert_eq!(file(2, 4).get_super_class_name().unwrap(), Some("java/lang/Object"));
}

#[test]
fn zero_super_index_is_absent() {
    assert_eq!(file(2, 0).get_super_class_name().unwrap(), None);
}

#[test]
fn unresolvable_super_index_is_an_error() {
    assert!(matches!(file(2, 1).get_super_class_name(), Err(ClassFileIndexError::InvalidSuperClassIndex)));
    assert!(matches!(file(2, 40).get_super_class_name(), Err(ClassFileIndexError::InvalidSuperClassIndex)));
    assert!(matches!(file(2, 6).get_super_class_name(), Err(ClassFileIndexError::InvalidSuperClassNameIndex)));
}

#[test]
fn super_class_id_interns_the_name() {
    let mut names = ClassNames::new();
    let foo = names.gcid_from_str("Foo");
    let id = file(2, 4).get_super_class_id(&mut names).unwrap().unwrap();
    assert_ne!(id, foo);
    assert_eq!(names.name_from_gcid(id).unwrap().as_str(), "java/lang/Object");
    let again = file(2, 4).get_super_class_id(&mut names).unwrap().unwrap();
    assert_eq!(again, id);
    assert_eq!(names.len(), 2);
    assert_eq!(file(2, 0).get_super_class_id(&mut names).unwrap(), None);
    assert!(matches!(
        file(2, 6).get_super_class_id(&mut names),
        Err(ClassFileIndexError::InvalidSuperClassNameIndex)
    ));
    assert_eq!(names.len(), 2);
}
