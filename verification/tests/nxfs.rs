use lovely_injector_nx::nxfs::{
    append_requested, failure_message, info_fields, info_path, name_lt, preload_missing, sort_names,
    trim_trailing_slashes, LUA_TNIL, LUA_TSTRING,
};

#[test]
fn trailing_slashes_are_trimmed() {
    assert_eq!(trim_trailing_slashes(b"sd:/Balatro/Mods//"), b"sd:/Balatro/Mods".to_vec());
    assert_eq!(trim_trailing_slashes(b"sd:/Balatro"), b"sd:/Balatro".to_vec());
    assert_eq!(trim_trailing_slashes(b"///"), b"".to_vec());
    assert_eq!(trim_trailing_slashes(b""), b"".to_vec());
}

#[test]
fn info_path_keeps_device_root() {
    assert_eq!(info_path(b"sd:"), b"sd:/".to_vec());
    assert_eq!(info_path(b"sd:/"), b"sd:/".to_vec());
    assert_eq!(info_path(b"sd://"), b"sd:/".to_vec());
    assert_eq!(info_path(b"sd:/Balatro/"), b"sd:/Balatro".to_vec());
    assert_eq!(info_path(b""), b"".to_vec());
    let once = info_path(b"sd:///");
    assert_eq!(info_path(&once), once);
}

#[test]
fn append_mode() {
    assert!(append_requested(Some(b"a")));
    assert!(!append_requested(Some(b"w")));
    assert!(!append_requested(Some(b"ab")));
    assert!(!append_requested(Some(b"")));
    assert!(!append_requested(None));
}

#[test]
fn info_kinds() {
    assert_eq!(info_fields(true, 4096), ("directory", 0));
    assert_eq!(info_fields(false, 4096), ("file", 4096));
}

#[test]
fn preload_only_when_missing() {
    assert_eq!(LUA_TNIL, 0);
    assert_eq!(LUA_TSTRING, 4);
    assert!(preload_missing(LUA_TNIL));
    assert!(!preload_missing(6));
}

#[test]
fn failure_messages() {
    assert_eq!(failure_message(b"sd:/x", b"not found"), b"sd:/x: not found".to_vec());
    assert_eq!(failure_message(b"", b""), b": ".to_vec());
}

#[test]
fn name_order_is_bytewise() {
    assert!(name_lt(b"a", b"b"));
    assert!(name_lt(b"a", b"ab"));
    assert!(!name_lt(b"ab", b"a"));
    assert!(!name_lt(b"a", b"a"));
    assert!(name_lt(b"", b"a"));
    assert!(name_lt(b"Z", b"a"));
}

#[test]
fn names_are_sorted_like_std() {
    let names: Vec<Vec<u8>> = vec![
        b"Steamodded".to_vec(),
        b"switch-perf".to_vec(),
        b"lovely".to_vec(),
        b"".to_vec(),
        b"lovely".to_vec(),
        b"a".to_vec(),
        b"Steam".to_vec(),
    ];
    let mut expected = names.clone();
    expected.sort();
    assert_eq!(sort_names(names), expected);
    assert_eq!(sort_names(Vec::new()), Vec::<Vec<u8>>::new());
}
