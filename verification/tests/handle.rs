use dl_openvdb_query::{DlOpenVdbQuery, Error};

#[test]
fn a_handle_is_constructed_for_an_existing_path() {
    let handle = DlOpenVdbQuery::new(String::from("/")).unwrap();
    assert_eq!(handle.file().as_str(), "/");
}

#[test]
fn a_missing_path_is_file_not_found() {
    let r = DlOpenVdbQuery::new(String::from("/no/such/volume/anywhere.vdb"));
    match r {
        Err(e) => assert_eq!(e, Error::FileNotFound),
        Ok(_) => panic!("a handle must not be constructed for a missing file"),
    }
}

#[test]
fn handle_for_succeeds_exactly_when_the_file_exists() {
    assert!(DlOpenVdbQuery::handle_for(String::from("a.vdb"), true).is_ok());
    match DlOpenVdbQuery::handle_for(String::from("a.vdb"), false) {
        Err(e) => assert_eq!(e, Error::FileNotFound),
        Ok(_) => panic!("no handle without the existence check"),
    }
}
