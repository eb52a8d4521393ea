use dl_openvdb_query::binding::{
    init_step, must_attempt, symbol_name, validate_entry_points, BindingInit, EntryPoint,
    EntryPointResolution, LinkedApi,
};
use dl_openvdb_query::Error;

fn all_found() -> EntryPointResolution {
    EntryPointResolution {
        get_file_bbox: true,
        get_grid_names: true,
        free_grid_names: true,
        generate_points: true,
        free_points: true,
    }
}

#[test]
fn symbol_names_are_the_fixed_contract() {
    assert_eq!(symbol_name(EntryPoint::GetFileBBox), "DlVDBGetFileBBox");
    assert_eq!(symbol_name(EntryPoint::GetGridNames), "DlVDBGetGridNames");
    assert_eq!(symbol_name(EntryPoint::FreeGridNames), "DlVDBFreeGridNames");
    assert_eq!(symbol_name(EntryPoint::GeneratePoints), "DlVDBGeneratePoints");
    assert_eq!(symbol_name(EntryPoint::FreePoints), "DlVDBFreePoints");
}

#[test]
fn complete_resolution_is_accepted() {
    assert_eq!(validate_entry_points(&all_found()), Ok(()));
}

#[test]
fn any_missing_symbol_fails_the_whole_table() {
    let mut r = all_found();
    r.get_file_bbox = false;
    assert_eq!(validate_entry_points(&r), Err(Error::MissingEntryPoint));
    let mut r = all_found();
    r.get_grid_names = false;
    assert_eq!(validate_entry_points(&r), Err(Error::MissingEntryPoint));
    let mut r = all_found();
    r.free_grid_names = false;
    assert_eq!(validate_entry_points(&r), Err(Error::MissingEntryPoint));
    let mut r = all_found();
    r.generate_points = false;
    assert_eq!(validate_entry_points(&r), Err(Error::MissingEntryPoint));
    let mut r = all_found();
    r.free_points = false;
    assert_eq!(validate_entry_points(&r), Err(Error::MissingEntryPoint));
}

#[test]
fn linked_binding_always_constructs() {
    assert!(LinkedApi::new().is_ok());
}

#[test]
fn initialization_happens_at_most_once() {
    let s = BindingInit::Pending;
    assert!(must_attempt(&s));
    let s = init_step(s, Ok(()));
    assert_eq!(s, BindingInit::Ready);
    assert!(!must_attempt(&s));
    // A second outcome, whatever it is, changes nothing.
    let s = init_step(s, Err(Error::LibraryNotFound));
    assert_eq!(s, BindingInit::Ready);
}

#[test]
fn a_failed_initialization_is_cached() {
    let s = init_step(BindingInit::Pending, Err(Error::MissingEntryPoint));
    assert_eq!(s, BindingInit::Failed { error: Error::MissingEntryPoint });
    assert!(!must_attempt(&s));
    let s = init_step(s, Ok(()));
    assert_eq!(s, BindingInit::Failed { error: Error::MissingEntryPoint });
}
