use dl_openvdb_query::locator::{candidate, install_path, library_name, override_path, platform_subdir, DynamicApi, Platform};
use dl_openvdb_query::Error;

#[test]
fn library_names_per_platform() {
    assert_eq!(library_name(Platform::Linux), "lib3delight.so");
    assert_eq!(library_name(Platform::MacOs), "lib3delight.dylib");
    assert_eq!(library_name(Platform::Windows), "3Delight.dll");
}

#[test]
fn install_paths_per_platform() {
    assert_eq!(install_path(Platform::Linux), "/usr/local/3delight/lib/lib3delight.so");
    assert_eq!(install_path(Platform::MacOs), "/Applications/3Delight/lib/lib3delight.dylib");
    assert_eq!(install_path(Platform::Windows), "C:/%ProgramFiles%/3Delight/bin/3Delight.dll");
}

#[test]
fn override_path_joins_root_subdir_and_name() {
    assert_eq!(platform_subdir(Platform::Linux), "lib");
    assert_eq!(platform_subdir(Platform::MacOs), "lib");
    assert_eq!(platform_subdir(Platform::Windows), "bin");
    assert_eq!(
        override_path(Platform::Linux, "/opt/3delight"),
        "/opt/3delight/lib/lib3delight.so"
    );
    assert_eq!(
        override_path(Platform::Windows, "C:/3Delight"),
        "C:/3Delight/bin/3Delight.dll"
    );
}

#[test]
fn search_order_is_install_then_bare_then_override() {
    let root = Some(String::from("/opt/3delight"));
    assert_eq!(
        candidate(Platform::Linux, &root, 0),
        Some(String::from("/usr/local/3delight/lib/lib3delight.so"))
    );
    assert_eq!(
        candidate(Platform::Linux, &root, 1),
        Some(String::from("lib3delight.so"))
    );
    assert_eq!(
        candidate(Platform::Linux, &root, 2),
        Some(String::from("/opt/3delight/lib/lib3delight.so"))
    );
    assert_eq!(candidate(Platform::Linux, &root, 3), None);
}

#[test]
fn without_override_there_are_two_candidates() {
    assert_eq!(
        candidate(Platform::MacOs, &None, 0),
        Some(String::from("/Applications/3Delight/lib/lib3delight.dylib"))
    );
    assert_eq!(
        candidate(Platform::MacOs, &None, 1),
        Some(String::from("lib3delight.dylib"))
    );
    assert_eq!(candidate(Platform::MacOs, &None, 2), None);
}

#[test]
fn locate_fails_when_no_candidate_loads() {
    // Neither the install location, nor the standard search path, nor the
    // override root holds the native library on this machine.
    let (r, _attempts) =
        DynamicApi::new(Platform::Linux, Some(String::from("/definitely/not/installed")));
    match r {
        Err(e) => assert_eq!(e, Error::LibraryNotFound),
        Ok(_) => panic!("the native library should not be loadable here"),
    }
}
