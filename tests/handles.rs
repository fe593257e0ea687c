use rhojvm_base::id::{is_array_class, is_array_class_bytes, ClassId, ExactMethodId, MethodId, PackageId};

#[test]
fn class_id_round_trips_its_value() {
    let c = ClassId::new_unchecked(42);
    assert_eq!(c.get(), 42);
    assert_eq!(c, ClassId::new_unchecked(42));
    assert_ne!(c, ClassId::new_unchecked(43));
    assert_eq!(format!("{:?}", c), "ClassId(42)");
}

#[test]
fn package_ids_compare_by_value() {
    assert_eq!(PackageId::new_unchecked(3), PackageId::new_unchecked(3));
    assert_ne!(PackageId::new_unchecked(3), PackageId::new_unchecked(4));
}

#[test]
fn exact_compose_round_trip() {
    for (c, s) in [(0u32, 0u16), (7, 3), (u32::MAX, u16::MAX)] {
        let id = ClassId::new_unchecked(c);
        let m = ExactMethodId::unchecked_compose(id, s);
        assert_eq!(m.decompose(), (id, s));
    }
}

#[test]
fn method_compose_round_trip() {
    let id = ClassId::new_unchecked(9);
    let m = MethodId::unchecked_compose(id, 5);
    assert_eq!(m.decompose(), Some((id, 5)));
    assert_eq!(m.into_exact(), Some(ExactMethodId::unchecked_compose(id, 5)));
}

#[test]
fn array_clone_never_decomposes() {
    assert_eq!(MethodId::ArrayClone.decompose(), None);
    assert_eq!(MethodId::ArrayClone.into_exact(), None);
    let exact = ExactMethodId::unchecked_compose(ClassId::new_unchecked(1), 2);
    let m: MethodId = MethodId::from(exact);
    assert_eq!(m, MethodId::Exact(exact));
    assert!(m.decompose().is_some());
}

#[test]
fn array_names_start_with_bracket() {
    assert!(is_array_class("[I"));
    assert!(is_array_class("[Ljava/lang/String;"));
    assert!(!is_array_class("java/lang/String"));
    assert!(!is_array_class(""));
    assert!(is_array_class_bytes(b"[[B"));
    assert!(!is_array_class_bytes(b"Foo"));
    assert!(!is_array_class_bytes(b""));
}
