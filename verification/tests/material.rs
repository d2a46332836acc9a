use herdogrelay::error::RelayError;
use herdogrelay::material::{
    current_uid, ensure_directory, may_open, path_prefix, read_protected_file, required_mode,
    same_file_identity, split_path, validate_directory, validate_file_metadata,
    validate_protected_path, write_protected_file, FileMetadata, Lookup, PrintedUid,
    ProtectedFileKind, ReadOutcome, MAX_ALLOWLIST_BYTES, MAX_PRIVATE_MATERIAL_BYTES,
    MAX_PUBLIC_PROTECTED_FILE_BYTES,
};

const UID: u32 = 501;

fn directory() -> FileMetadata {
    FileMetadata {
        is_file: false,
        is_dir: true,
        is_symlink: false,
        dev: 1,
        ino: 2,
        uid: UID,
        mode: 0o40700,
        len: 64,
    }
}

fn file(len: u64) -> FileMetadata {
    FileMetadata {
        is_file: true,
        is_dir: false,
        is_symlink: false,
        dev: 1,
        ino: 3,
        uid: UID,
        mode: 0o100600,
        len,
    }
}

fn link(uid: u32) -> Lookup {
    Lookup::Found(FileMetadata { is_dir: false, is_symlink: true, uid, ..directory() })
}

fn entries() -> Vec<Lookup> {
    vec![Lookup::Found(directory()), Lookup::Found(directory()), Lookup::NotFound]
}

fn checked(entries: Vec<Lookup>, parent: Lookup, ancestor: Lookup) -> Result<(), RelayError> {
    validate_protected_path("/srv/relay/key.pem", UID, &entries, parent, &vec![ancestor])
}

fn printed(output: &[u8]) -> Option<PrintedUid> {
    Some(PrintedUid { success: true, output: output.to_vec() })
}

#[test]
fn protected_file_round_trip_is_bounded() {
    let content = br#"{"generation":1}"#;
    let plan = write_protected_file(
        "/srv/relay/allowlist.json",
        UID,
        content,
        ProtectedFileKind::Private,
        MAX_ALLOWLIST_BYTES,
        Lookup::Found(directory()),
        42,
        7,
    )
    .expect("write");
    assert_eq!(plan.temporary, "/srv/relay/.allowlist.json.tmp-42-7");
    assert_eq!(plan.mode & 0o077, 0);
    let written = FileMetadata { mode: 0o100000 | plan.mode, ..file(content.len() as u64) };
    let expected = may_open(
        Ok(()),
        Lookup::Found(written),
        UID,
        ProtectedFileKind::Private,
        MAX_ALLOWLIST_BYTES,
    )
    .expect("open");
    let bytes = read_protected_file(
        &expected,
        ReadOutcome::Read { opened: written, bytes: content.to_vec() },
        UID,
        ProtectedFileKind::Private,
        MAX_ALLOWLIST_BYTES,
    )
    .expect("read");
    assert_eq!(bytes, content);
}

#[test]
fn unsafe_material_modes_are_rejected() {
    let shared = FileMetadata { mode: 0o100644, ..file(3) };
    assert!(may_open(Ok(()), Lookup::Found(shared), UID, ProtectedFileKind::Private, 64).is_err());
    assert_eq!(
        validate_file_metadata(&shared, UID, ProtectedFileKind::Allowlist, 64),
        Err(RelayError::InvalidConfiguration {
            field: "protected.file",
            reason: "file ownership or permissions are unsafe",
        })
    );
    assert!(validate_file_metadata(&shared, UID, ProtectedFileKind::Public, 64).is_ok());
    let writable = FileMetadata { mode: 0o100664, ..file(3) };
    assert!(validate_file_metadata(&writable, UID, ProtectedFileKind::Public, 64).is_err());
    let unreadable = FileMetadata { mode: 0o100200, ..file(3) };
    assert!(validate_file_metadata(&unreadable, UID, ProtectedFileKind::Private, 64).is_err());
}

#[test]
fn file_bounds_are_enforced() {
    let kind = ProtectedFileKind::Private;
    assert_eq!(kind.max_bytes(), MAX_PRIVATE_MATERIAL_BYTES);
    assert_eq!(ProtectedFileKind::Allowlist.max_bytes(), 262_144);
    assert_eq!(ProtectedFileKind::Public.max_bytes(), MAX_PUBLIC_PROTECTED_FILE_BYTES);
    assert!(validate_file_metadata(&file(64), UID, kind, 64).is_ok());
    for refused in [
        file(0),
        file(65),
        FileMetadata { uid: 0, ..file(3) },
        FileMetadata { is_file: false, ..file(3) },
    ] {
        assert_eq!(
            validate_file_metadata(&refused, UID, kind, 64),
            Err(RelayError::ConfigurationRead)
        );
    }
    assert!(validate_file_metadata(&file(65_537), UID, kind, MAX_ALLOWLIST_BYTES).is_err());
    assert_eq!(required_mode(ProtectedFileKind::Public), 0o600);
    assert_eq!(required_mode(ProtectedFileKind::Allowlist), 0o600);
}

#[test]
fn replaced_files_are_not_read() {
    let expected = file(3);
    assert!(same_file_identity(&expected, &expected));
    for opened in [
        FileMetadata { ino: 9, ..expected },
        FileMetadata { dev: 9, ..expected },
        FileMetadata { mode: 0o100400, ..expected },
        FileMetadata { len: 4, ..expected },
    ] {
        assert!(!same_file_identity(&expected, &opened));
        let outcome = ReadOutcome::Read { opened, bytes: vec![1; opened.len as usize] };
        assert_eq!(
            read_protected_file(&expected, outcome, UID, ProtectedFileKind::Private, 64),
            Err(RelayError::ConfigurationRead)
        );
    }
    for outcome in [
        ReadOutcome::NotOpened,
        ReadOutcome::NotRead(expected),
        ReadOutcome::Read { opened: expected, bytes: vec![1, 2] },
    ] {
        assert_eq!(
            read_protected_file(&expected, outcome, UID, ProtectedFileKind::Private, 64),
            Err(RelayError::ConfigurationRead)
        );
    }
    assert_eq!(
        may_open(Err(RelayError::ResourceLimit), Lookup::Failed, UID, ProtectedFileKind::Public, 9),
        Err(RelayError::ResourceLimit)
    );
    assert_eq!(
        may_open(Ok(()), Lookup::NotFound, UID, ProtectedFileKind::Public, 9),
        Err(RelayError::ConfigurationRead)
    );
}

#[test]
fn protected_paths_are_walked() {
    let parent = Lookup::Found(directory());
    assert_eq!(checked(entries(), parent, parent), Ok(()));
    let mut aliased = entries();
    aliased[0] = link(0);
    assert_eq!(checked(aliased, parent, link(0)), Ok(()));
    let mut foreign = entries();
    foreign[0] = link(UID);
    assert_eq!(
        checked(foreign, parent, parent),
        Err(RelayError::InvalidConfiguration {
            field: "protected.file",
            reason: "path contains an unsafe symlink component",
        })
    );
    let mut last = entries();
    last[2] = link(0);
    assert!(checked(last, parent, parent).is_err());
    let mut blocked = entries();
    blocked[1] = Lookup::Found(file(3));
    assert_eq!(checked(blocked, parent, parent), Err(RelayError::ConfigurationRead));
    let mut absent = entries();
    absent[0] = Lookup::NotFound;
    assert_eq!(checked(absent, parent, parent), Err(RelayError::ConfigurationRead));
    let mut unknown = entries();
    unknown[2] = Lookup::Failed;
    assert_eq!(checked(unknown, parent, parent), Err(RelayError::ConfigurationRead));
}

#[test]
fn directories_above_are_checked() {
    let parent = Lookup::Found(directory());
    let shared = FileMetadata { uid: 0, mode: 0o40777, ..directory() };
    assert_eq!(
        checked(entries(), parent, Lookup::Found(shared)),
        Err(RelayError::InvalidConfiguration {
            field: "protected.file",
            reason: "path contains an unsafe ancestor directory",
        })
    );
    let sticky = FileMetadata { uid: 0, mode: 0o41777, ..directory() };
    assert_eq!(checked(entries(), parent, Lookup::Found(sticky)), Ok(()));
    let system = FileMetadata { uid: 0, mode: 0o40755, ..directory() };
    assert_eq!(checked(entries(), parent, Lookup::Found(system)), Ok(()));
    assert_eq!(checked(entries(), parent, link(UID)).is_err(), true);
    assert_eq!(
        checked(entries(), parent, Lookup::NotFound),
        Err(RelayError::ConfigurationRead)
    );
    assert!(matches!(
        checked(entries(), Lookup::Found(sticky), parent),
        Err(RelayError::InvalidConfiguration { field: "protected.directory", .. })
    ));
}

#[test]
fn relative_and_parent_paths_are_refused() {
    let found = Lookup::Found(directory());
    assert!(matches!(
        validate_protected_path("key.pem", UID, &vec![found], found, &vec![]),
        Err(RelayError::InvalidConfiguration { field: "protected.file", .. })
    ));
    assert_eq!(
        validate_protected_path("/srv/../key.pem", UID, &vec![found; 3], found, &vec![found]),
        Err(RelayError::InvalidConfiguration {
            field: "protected.file",
            reason: "path contains dot components",
        })
    );
    assert_eq!(
        validate_protected_path("/", UID, &vec![], found, &vec![]),
        Err(RelayError::ConfigurationRead)
    );
    assert_eq!(
        validate_protected_path("/key.pem", UID, &vec![Lookup::NotFound], found, &vec![]),
        Ok(())
    );
}

#[test]
fn paths_are_split_into_names() {
    assert_eq!(split_path("/srv//relay/./key.pem/"), vec!["srv", "relay", "key.pem"]);
    assert_eq!(split_path("/a/.."), vec!["a", ".."]);
    assert!(split_path("/").is_empty());
    let names = split_path("/srv/relay/key.pem");
    assert_eq!(path_prefix(&names, 0), "/");
    assert_eq!(path_prefix(&names, 1), "/srv");
    assert_eq!(path_prefix(&names, 3), "/srv/relay/key.pem");
}

#[test]
fn writes_are_refused_before_anything_is_created() {
    let parent = Lookup::Found(directory());
    let write = |path: &str, bytes: &[u8], parent: Lookup| {
        write_protected_file(path, UID, bytes, ProtectedFileKind::Public, 4, parent, 1, 2)
            .map(|plan| plan.mode)
    };
    assert_eq!(write("/srv/a", b"abcd", parent), Ok(0o600));
    assert_eq!(write("/srv/a", b"", parent), Err(RelayError::ConfigurationRead));
    assert_eq!(write("/srv/a", b"abcde", parent), Err(RelayError::ConfigurationRead));
    assert_eq!(write("/", b"abcd", parent), Err(RelayError::ConfigurationRead));
    assert_eq!(write("/srv/..", b"abcd", parent), Err(RelayError::ConfigurationRead));
    assert_eq!(write("/srv/a", b"abcd", Lookup::NotFound), Err(RelayError::ConfigurationRead));
    assert!(write("srv/a", b"abcd", parent).is_err());
    let shared = FileMetadata { mode: 0o40770, ..directory() };
    assert!(write("/srv/a", b"abcd", Lookup::Found(shared)).is_err());
}

#[test]
fn owned_directories_are_accepted() {
    let owned = Lookup::Found(directory());
    assert_eq!(validate_directory("/srv", UID, owned), Ok(()));
    assert_eq!(validate_directory("/srv", UID, Lookup::Failed), Err(RelayError::ConfigurationRead));
    assert!(matches!(
        validate_directory("srv", UID, owned),
        Err(RelayError::InvalidConfiguration { field: "protected.directory", .. })
    ));
    assert!(validate_directory("/srv", UID + 1, owned).is_err());
    assert!(validate_directory("/srv", UID, Lookup::Found(file(3))).is_err());
    assert_eq!(ensure_directory("/srv", UID, true, owned), Ok(()));
    assert_eq!(ensure_directory("/srv", UID, false, owned), Err(RelayError::ConfigurationRead));
}

#[test]
fn printed_owner_is_read() {
    assert_eq!(current_uid(&printed(b"501\n")), Ok(501));
    assert_eq!(current_uid(&printed(b" \t0\r\n")), Ok(0));
    assert_eq!(current_uid(&printed(b"+7")), Ok(7));
    assert_eq!(current_uid(&printed("\u{3000}12\u{85}".as_bytes())), Ok(12));
    assert_eq!(current_uid(&printed(b"4294967295")), Ok(u32::MAX));
    for refused in [
        &b"4294967296"[..],
        &b"99999999999999999999999999"[..],
        &b""[..],
        &b"+"[..],
        &b"-1"[..],
        &b"5 1"[..],
        &b"0x5"[..],
        &[0xff, 0x31][..],
    ] {
        assert_eq!(current_uid(&printed(refused)), Err(RelayError::ConfigurationRead));
    }
    let failed = Some(PrintedUid { success: false, output: b"501".to_vec() });
    assert_eq!(current_uid(&failed), Err(RelayError::ConfigurationRead));
    assert_eq!(current_uid(&None), Err(RelayError::ConfigurationRead));
}

#[test]
fn verified_tls_loaders_reject_unsafe_server_material() {
    let opened = |material: FileMetadata, kind: ProtectedFileKind| {
        may_open(Ok(()), Lookup::Found(material), UID, kind, kind.max_bytes())
    };
    let public = ProtectedFileKind::Public;
    let private = ProtectedFileKind::Private;
    assert!(opened(file(900), public).is_ok());
    assert!(opened(file(241), private).is_ok());
    let exposed = FileMetadata { mode: 0o100666, ..file(900) };
    assert!(opened(exposed, public).is_err());
    let readable = FileMetadata { mode: 0o100644, ..file(241) };
    assert!(opened(readable, private).is_err());
    let linked = FileMetadata { is_file: false, is_symlink: true, ..file(900) };
    assert!(opened(linked, public).is_err());
    let safe = Lookup::Found(directory());
    assert!(checked(entries(), Lookup::Found(directory()), safe).is_ok());
    let open_parent = Lookup::Found(FileMetadata { mode: 0o40777, ..directory() });
    assert!(checked(entries(), open_parent, Lookup::Found(directory())).is_err());
}
