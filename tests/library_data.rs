use hook_inject::{ErrorKind, Library};

#[test]
fn entrypoint_sets_value() {
    let entry = "entry_fn";
    let lib = Library::from_bytes(vec![1])
        .expect("library")
        .with_entrypoint(entry)
        .expect("entrypoint");
    assert_eq!(lib.entrypoint().as_bytes(), entry.as_bytes());
}

#[test]
fn data_sets_value() {
    let data = "payload";
    let lib = Library::from_bytes(vec![1])
        .expect("library")
        .with_data(data)
        .expect("data");
    assert_eq!(lib.data().as_bytes(), data.as_bytes());
}

#[test]
fn overriding_twice_with_same_value_is_idempotent() {
    let once = Library::from_bytes(vec![9]).unwrap().with_entrypoint("e").unwrap().with_data("d").unwrap();
    let twice = Library::from_bytes(vec![9])
        .unwrap()
        .with_entrypoint("e")
        .unwrap()
        .with_entrypoint("e")
        .unwrap()
        .with_data("d")
        .unwrap()
        .with_data("d")
        .unwrap();
    assert_eq!(once.entrypoint(), twice.entrypoint());
    assert_eq!(once.data(), twice.data());
    assert_eq!(twice.entrypoint(), "e");
    assert_eq!(twice.data(), "d");
}

#[test]
fn entrypoint_rejects_empty_and_nul() {
    let err = Library::from_bytes(vec![1]).unwrap().with_entrypoint("").unwrap_err();
    assert_eq!(err.kind(), ErrorKind::InvalidInput);
    assert_eq!(err.to_string(), "entrypoint is empty");
    let err = Library::from_bytes(vec![1]).unwrap().with_entrypoint("a\0").unwrap_err();
    assert_eq!(err.to_string(), "entrypoint contains NUL");
}

#[test]
fn data_rejects_nul_and_accepts_empty() {
    let err = Library::from_bytes(vec![1]).unwrap().with_data("x\0y").unwrap_err();
    assert_eq!(err.to_string(), "data contains NUL");
    let lib = Library::from_bytes(vec![1]).unwrap().with_data("").unwrap();
    assert_eq!(lib.data(), "");
}
