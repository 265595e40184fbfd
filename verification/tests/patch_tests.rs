use scaffolder::patch::{patch_registry, PatchError, RegistryTarget};

#[test]
fn patch_inserts_before_trailing_marker() {
    let contents = b"export enum RoutesEnum {\n  Home = \"home\",\n}\n".to_vec();
    let insertion = b"  Product = \"productos\",\n".to_vec();
    let marker = b"}\n".to_vec();
    let out = patch_registry(&contents, &insertion, &marker).unwrap();

    // Length grows by exactly the insertion's length.
    assert_eq!(out.len(), contents.len() + insertion.len());
    // The prefix is unchanged.
    assert_eq!(&out[..contents.len() - marker.len()], &contents[..contents.len() - marker.len()]);
    // The insertion stands immediately before the original trailing bytes.
    let ins_start = contents.len() - marker.len();
    assert_eq!(&out[ins_start..ins_start + insertion.len()], &insertion[..]);
    // The original trailing bytes are unchanged and still terminate the file.
    assert_eq!(&out[out.len() - marker.len()..], &marker[..]);
    assert_eq!(
        String::from_utf8(out).unwrap(),
        "export enum RoutesEnum {\n  Home = \"home\",\n  Product = \"productos\",\n}\n"
    );
}

#[test]
fn patch_refuses_mismatched_marker() {
    let contents = b"exports = [];".to_vec();
    let insertion = b"x".to_vec();
    let marker = b"];\n".to_vec();
    assert_eq!(
        patch_registry(&contents, &insertion, &marker),
        Err(PatchError::MarkerMismatch)
    );
}

#[test]
fn patch_refuses_file_shorter_than_marker() {
    let contents = b"}".to_vec();
    let insertion = b"x".to_vec();
    let marker = b"];\n".to_vec();
    assert_eq!(
        patch_registry(&contents, &insertion, &marker),
        Err(PatchError::FileTooShort)
    );
}

#[test]
fn patch_of_empty_insertion_keeps_contents() {
    let contents = b"const nav = [\n];\n".to_vec();
    let out = patch_registry(&contents, &Vec::new(), &b"];\n".to_vec()).unwrap();
    assert_eq!(out, contents);
}

#[test]
fn registry_targets_have_fixed_paths_and_markers() {
    assert_eq!(RegistryTarget::RouteEnum.path(), "./src/app/constants/routes.ts");
    assert_eq!(RegistryTarget::RouteTable.path(), "./src/app/_routes.ts");
    assert_eq!(RegistryTarget::NavTree.path(), "./src/app/_nav.ts");
    assert_eq!(RegistryTarget::RouteEnum.marker(), b"}\n".to_vec());
    assert_eq!(RegistryTarget::RouteTable.marker(), b"];\n".to_vec());
    assert_eq!(RegistryTarget::NavTree.marker(), b"];\n".to_vec());
}
