use vivarium::agent::components;
use vivarium::supervisor::{metadata_trusted, spec_location_trusted, PathFacts};

#[test]
fn the_specification_and_the_socket_must_share_a_directory() {
    assert!(spec_location_trusted(b"/run/v/api/spec.json", b"/run/v/api/ready.sock"));
    assert!(spec_location_trusted(b"/run/v//api/./spec.json", b"/run/v/api/ready.sock"));
    assert!(!spec_location_trusted(b"/run/v/api/spec.json", b"/run/v/other/ready.sock"));
    assert!(!spec_location_trusted(b"run/v/api/spec.json", b"/run/v/api/ready.sock"));
    assert!(!spec_location_trusted(b"/run/v/api/spec.json", b"ready.sock"));
    assert!(!spec_location_trusted(b"/spec.json", b"/run/ready.sock"));
    assert!(spec_location_trusted(b"/", b"/"));
}

#[test]
fn a_path_splits_into_its_normal_components() {
    let parts = components(b"//a/./b//..");
    assert_eq!(parts, vec![b"a".to_vec(), b"b".to_vec(), b"..".to_vec()]);
    assert!(components(b"/").is_empty());
}

#[test]
fn only_a_private_regular_file_in_a_private_directory_of_its_owner_is_trusted() {
    let file = PathFacts { is_file: true, is_symlink: false, mode: 0o100600, uid: 1000 };
    let dir = PathFacts { is_file: false, is_symlink: false, mode: 0o040700, uid: 1000 };
    assert!(metadata_trusted(file, dir, 0o600, 0o700));
    assert!(!metadata_trusted(PathFacts { mode: 0o100644, ..file }, dir, 0o600, 0o700));
    assert!(!metadata_trusted(file, PathFacts { mode: 0o040755, ..dir }, 0o600, 0o700));
    assert!(!metadata_trusted(PathFacts { uid: 0, ..file }, dir, 0o600, 0o700));
    assert!(!metadata_trusted(PathFacts { is_symlink: true, ..file }, dir, 0o600, 0o700));
    assert!(!metadata_trusted(PathFacts { is_file: false, ..file }, dir, 0o600, 0o700));
}
