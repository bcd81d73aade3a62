use move_passes::lock_file::{check_version, Dependencies, Dependency, LockError, VERSION};

fn dependency(name: &str) -> Dependency<u8> {
    Dependency {
        name: name.to_string(),
        source: 1,
        dependencies: Some(vec!["Std".to_string()]),
        dev_dependencies: None,
    }
}

#[test]
fn written_version_is_zero() {
    assert_eq!(VERSION, 0);
}

#[test]
fn own_version_is_read() {
    assert_eq!(check_version(0), Ok(()));
}

#[test]
fn newer_version_is_refused() {
    assert_eq!(check_version(1), Err(LockError::TooNew { expected: 0, found: 1 }));
    assert_eq!(
        check_version(u64::MAX),
        Err(LockError::TooNew { expected: 0, found: u64::MAX })
    );
}

#[test]
fn listed_dependencies_are_read_in_order() {
    let parsed = Dependencies { dependencies: Some(vec![dependency("A"), dependency("B")]) };
    assert_eq!(Dependencies::read(0, parsed), Ok(vec![dependency("A"), dependency("B")]));
}

#[test]
fn no_list_means_no_dependencies() {
    let parsed: Dependencies<u8> = Dependencies { dependencies: None };
    assert_eq!(Dependencies::read(0, parsed), Ok(vec![]));
}

#[test]
fn too_new_file_is_not_read() {
    let parsed = Dependencies { dependencies: Some(vec![dependency("A")]) };
    assert_eq!(
        Dependencies::read(2, parsed),
        Err(LockError::TooNew { expected: 0, found: 2 })
    );
}
