use rhojvm_base::class::{ArrayClass, ArrayComponentType, Class, ClassAccessFlags, ClassVariant, PrimitiveType};
use rhojvm_base::id::{ClassId, MethodId, PackageId};
use rhojvm_base::names::{BadIdError, ClassNames};

#[test]
fn class_accessors() {
    let c = Class::new(
        ClassId::new_unchecked(4),
        Some(ClassId::new_unchecked(0)),
        Some(PackageId::new_unchecked(2)),
        ClassAccessFlags::PUBLIC,
        3,
    );
    assert_eq!(c.id(), ClassId::new_unchecked(4));
    assert_eq!(c.super_id(), Some(ClassId::new_unchecked(0)));
    assert_eq!(c.package(), Some(PackageId::new_unchecked(2)));
}

#[test]
fn method_ids_cover_the_table() {
    let id = ClassId::new_unchecked(4);
    let c = Class::new(id, None, None, ClassAccessFlags::PUBLIC, 3);
    let ids = c.iter_method_ids();
    assert_eq!(
        ids,
        vec![
            MethodId::unchecked_compose(id, 0),
            MethodId::unchecked_compose(id, 1),
            MethodId::unchecked_compose(id, 2),
        ]
    );
    let empty = Class::new(id, None, None, ClassAccessFlags::PUBLIC, 0);
    assert!(empty.iter_method_ids().is_empty());
}

#[test]
fn primitive_descriptors() {
    let mut names = ClassNames::new();
    let cases = [
        (PrimitiveType::Byte, "B"),
        (PrimitiveType::UnsignedByte, "B"),
        (PrimitiveType::Short, "S"),
        (PrimitiveType::UnsignedShort, "S"),
        (PrimitiveType::Int, "I"),
        (PrimitiveType::Long, "J"),
        (PrimitiveType::Float, "F"),
        (PrimitiveType::Double, "D"),
        (PrimitiveType::Char, "C"),
        (PrimitiveType::Boolean, "Z"),
    ];
    for (p, d) in cases {
        let t = ArrayComponentType::from(p);
        assert!(t.is_primitive());
        assert_eq!(t.into_class_id(), None);
        assert_eq!(t.to_desc_string(&mut names).unwrap(), d);
    }
    assert_eq!(names.len(), 0);
    assert_eq!(ArrayComponentType::from(PrimitiveType::UnsignedByte), ArrayComponentType::Byte);
}

#[test]
fn reference_descriptor_is_wrapped() {
    let mut names = ClassNames::new();
    let s = names.gcid_from_str("java/lang/String");
    let t = ArrayComponentType::Class(s);
    assert!(!t.is_primitive());
    assert_eq!(t.to_desc_string(&mut names).unwrap(), "Ljava/lang/String;");
    assert_eq!(t.into_class_id(), Some(s));
}

#[test]
fn array_descriptor_is_not_wrapped() {
    let mut names = ClassNames::new();
    let a = names.gcid_from_str("[Ljava/lang/String;");
    assert_eq!(ArrayComponentType::Class(a).to_desc_string(&mut names).unwrap(), "[Ljava/lang/String;");
    let b = names.gcid_from_str("[[I");
    assert_eq!(ArrayComponentType::Class(b).to_desc_string(&mut names).unwrap(), "[[I");
}

#[test]
fn stale_id_descriptor_fails() {
    let mut names = ClassNames::new();
    let bad = ClassId::new_unchecked(3);
    assert_eq!(ArrayComponentType::Class(bad).to_desc_string(&mut names), Err(BadIdError { id: bad }));
}

#[test]
fn variant_dispatch() {
    let object = ClassId::new_unchecked(0);
    let arr = ArrayClass::new_unchecked(
        ClassId::new_unchecked(8),
        "[I".to_string(),
        ArrayComponentType::Int,
        object,
        ClassAccessFlags::PUBLIC | ClassAccessFlags::FINAL,
    );
    assert_eq!(arr.name(), "[I");
    assert_eq!(arr.component_type(), ArrayComponentType::Int);
    let v = ClassVariant::Array(arr);
    assert_eq!(v.id(), ClassId::new_unchecked(8));
    assert_eq!(v.super_id(), Some(object));
    assert_eq!(v.access_flags(), ClassAccessFlags::PUBLIC | ClassAccessFlags::FINAL);
    assert!(v.as_class().is_none());
    assert_eq!(v.as_array().unwrap().id(), ClassId::new_unchecked(8));

    let c = Class::new(ClassId::new_unchecked(5), Some(object), None, ClassAccessFlags::SUPER, 1);
    let v = ClassVariant::Class(c);
    assert_eq!(v.id(), ClassId::new_unchecked(5));
    assert_eq!(v.super_id(), Some(object));
    assert_eq!(v.access_flags(), ClassAccessFlags::SUPER);
    assert!(v.as_array().is_none());
    assert_eq!(v.as_class().unwrap().id(), ClassId::new_unchecked(5));

    let root = Class::new(object, None, None, ClassAccessFlags::PUBLIC, 0);
    assert_eq!(ClassVariant::Class(root).super_id(), None);
}
