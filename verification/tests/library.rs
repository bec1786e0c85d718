use maykr::container::{
    mark_file_object, resource_record_address, should_redirect, FILE_OBJECT_SIZE,
    OWNS_DATA_OFFSET, TIMESTAMP_OFFSET,
};
use maykr::image::{code_range, nt_headers_at};
use maykr::install::{HookTarget, InstallAction, InstallEvent, Installer};
use maykr::proxy::{forward_target, system_library_path, wide_library_path, VersionExport};
use maykr::startup::{
    failure_dialog_title, failure_report, is_target_process, should_start_initializer,
    startup_banner, version_label, PROCESS_ATTACH,
};
use maykr::wide::decode_wide_path;
use maykr::{Error, HookStatus};

fn units(s: &str) -> Vec<u16> {
    s.encode_utf16().collect()
}

#[test]
fn status_codes_round_trip() {
    for code in -1..=12 {
        let status = HookStatus::from_code(code).unwrap();
        assert_eq!(status.code(), code);
    }
    assert_eq!(HookStatus::from_code(0), Some(HookStatus::MH_OK));
    assert_eq!(HookStatus::from_code(12), Some(HookStatus::MH_ERROR_FUNCTION_NOT_FOUND));
    assert_eq!(HookStatus::from_code(13), None);
    assert_eq!(HookStatus::from_code(-2), None);
    assert!(HookStatus::MH_OK.is_ok());
    assert!(!HookStatus::MH_UNKNOWN.is_ok());
}

#[test]
fn error_codes_per_kind() {
    assert_eq!(Error::MinHookError(HookStatus::MH_ERROR_MEMORY_ALLOC).discriminant(), 0xBEEF);
    assert_eq!(Error::MinHookError(HookStatus::MH_UNKNOWN).discriminant(), 0xBEEF);
    assert_eq!(Error::PatternNotFound.discriminant(), 0xDEAD);
    assert_eq!(Error::PathError.discriminant(), 0xC0DE);
    assert_eq!(Error::IoError.discriminant(), 0xD00D);
    assert_eq!(Error::UnhandledError.discriminant(), 0xCAFE);
}

#[test]
fn errors_from_engine_and_io() {
    let e: Error = HookStatus::MH_ERROR_NOT_EXECUTABLE.into();
    assert_eq!(e, Error::MinHookError(HookStatus::MH_ERROR_NOT_EXECUTABLE));
    let io = std::io::Error::new(std::io::ErrorKind::NotFound, "missing");
    let e: Error = io.into();
    assert_eq!(e, Error::IoError);
    assert_eq!(e.discriminant(), 0xD00D);
}

#[test]
fn failure_report_spells_code_in_hex() {
    assert_eq!(
        failure_report(&Error::PatternNotFound),
        "Failed to initialize maykr: 0xdead. Please report this!"
    );
    assert_eq!(
        failure_report(&Error::MinHookError(HookStatus::MH_ERROR_DISABLED)),
        "Failed to initialize maykr: 0xbeef. Please report this!"
    );
    assert_eq!(
        failure_report(&Error::UnhandledError),
        "Failed to initialize maykr: 0xcafe. Please report this!"
    );
}

#[test]
fn failure_reports_differ_by_kind() {
    let kinds = [
        Error::MinHookError(HookStatus::MH_UNKNOWN),
        Error::PatternNotFound,
        Error::PathError,
        Error::IoError,
        Error::UnhandledError,
    ];
    for (i, a) in kinds.iter().enumerate() {
        for (j, b) in kinds.iter().enumerate() {
            assert_eq!(failure_report(a) == failure_report(b), i == j);
        }
    }
}

#[test]
fn version_texts() {
    assert_eq!(version_label("0", "1", "0"), "v0.10");
    assert_eq!(failure_dialog_title("1", "2", "3"), "Daisy v1.23");
    assert_eq!(startup_banner("0", "1", "0"), "Initializing maykr v0.10");
}

#[test]
fn initializer_starts_on_attach_only() {
    assert!(should_start_initializer(PROCESS_ATTACH));
    assert!(should_start_initializer(1));
    assert!(!should_start_initializer(0));
    assert!(!should_start_initializer(2));
    assert!(!should_start_initializer(3));
}

#[test]
fn target_process_is_recognized() {
    assert!(is_target_process(
        "C:\\Games\\DOOM The Dark Ages\\DOOMTheDarkAges.exe"
    ));
    assert!(is_target_process("DOOMTheDarkAges.exe"));
    assert!(!is_target_process("C:\\Games\\DOOMEternal\\DOOMEternalx64vk.exe"));
    assert!(!is_target_process("doomthedarkages.exe"));
    assert!(!is_target_process(""));
}

#[test]
fn wide_path_decoding() {
    let mut buffer = [0u16; 256];
    let path = units("C:\\Games\\DOOMTheDarkAges.exe");
    buffer[..path.len()].copy_from_slice(&path);
    assert_eq!(
        decode_wide_path(&buffer, path.len()),
        Some("C:\\Games\\DOOMTheDarkAges.exe".to_string())
    );
    // A trailing nul is the terminator and is dropped.
    assert_eq!(
        decode_wide_path(&buffer, path.len() + 1),
        Some("C:\\Games\\DOOMTheDarkAges.exe".to_string())
    );
    // A nul before the last unit is refused.
    assert_eq!(decode_wide_path(&buffer, path.len() + 2), None);
    assert_eq!(decode_wide_path(&buffer, 0), Some(String::new()));
}

#[test]
fn wide_path_decoding_is_lossy() {
    let buffer = [0x0041u16, 0xD800, 0x0042];
    assert_eq!(
        decode_wide_path(&buffer, 3),
        Some("A\u{FFFD}B".to_string())
    );
    let buffer = units("Ünïcödé");
    assert_eq!(decode_wide_path(&buffer, buffer.len()), Some("Ünïcödé".to_string()));
}

#[test]
fn system_library_paths() {
    assert_eq!(
        system_library_path("C:\\Windows\\system32"),
        "C:\\Windows\\system32\\version.dll"
    );
    assert_eq!(system_library_path("C:\\"), "C:\\version.dll");
    assert_eq!(system_library_path("C:/dir/"), "C:/dir/version.dll");
    assert_eq!(system_library_path("C:"), "C:version.dll");
    assert_eq!(system_library_path("z:"), "z:version.dll");
    // Only an ASCII letter before the colon makes a drive.
    assert_eq!(system_library_path("1:"), "1:\\version.dll");
    assert_eq!(system_library_path("é:"), "é:\\version.dll");
    assert_eq!(system_library_path("C:x"), "C:x\\version.dll");
    assert_eq!(system_library_path(""), "version.dll");
}

#[test]
fn export_symbols() {
    assert_eq!(VersionExport::VerQueryValueA.symbol(), "VerQueryValueA");
    assert_eq!(VersionExport::VerQueryValueW.symbol(), "VerQueryValueW");
    assert_eq!(VersionExport::GetFileVersionInfoA.symbol(), "GetFileVersionInfoA");
    assert_eq!(VersionExport::GetFileVersionInfoW.symbol(), "GetFileVersionInfoW");
    assert_eq!(VersionExport::GetFileVersionInfoSizeA.symbol(), "GetFileVersionInfoSizeA");
    assert_eq!(VersionExport::GetFileVersionInfoSizeW.symbol(), "GetFileVersionInfoSizeW");
}

#[test]
fn forward_targets() {
    let mut buffer = [0u16; 256];
    let dir = units("C:\\Windows\\system32");
    buffer[..dir.len()].copy_from_slice(&dir);
    let target = forward_target(VersionExport::GetFileVersionInfoSizeW, &buffer, dir.len()).unwrap();
    assert_eq!(target.library, "C:\\Windows\\system32\\version.dll");
    assert_eq!(target.symbol, "GetFileVersionInfoSizeW");
    assert!(forward_target(VersionExport::VerQueryValueA, &buffer, dir.len() + 2).is_none());

    // An unpaired surrogate is replaced; the path still leads into a directory.
    let lone = [0xDC00u16];
    let target = forward_target(VersionExport::VerQueryValueW, &lone, 1).unwrap();
    assert_eq!(target.library, "\u{FFFD}\\version.dll");
    assert_ne!(target.library, "version.dll");
}

fn headers(nt: u32, base_of_code: u32, size_of_code: u32, len: usize) -> Vec<u8> {
    let mut bytes = vec![0u8; len];
    bytes[0] = b'M';
    bytes[1] = b'Z';
    bytes[0x3C..0x40].copy_from_slice(&nt.to_le_bytes());
    let size_at = nt as usize + 0x1C;
    if size_at + 4 <= len {
        bytes[size_at..size_at + 4].copy_from_slice(&size_of_code.to_le_bytes());
    }
    let base_at = nt as usize + 0x2C;
    if base_at + 4 <= len {
        bytes[base_at..base_at + 4].copy_from_slice(&base_of_code.to_le_bytes());
    }
    bytes
}

#[test]
fn code_range_from_headers() {
    assert_eq!(
        code_range(&headers(0x100, 0x1000, 0x0123_4567, 0x400)),
        Some((0x1000, 0x0123_4567))
    );
    assert_eq!(
        code_range(&headers(0xF8, 0xFFFF_FFFF, 0x8000_0001, 0x400)),
        Some((0xFFFF_FFFF, 0x8000_0001))
    );
    // The fields end exactly at the end of the bytes.
    assert_eq!(code_range(&headers(0x100, 0x2000, 7, 0x130)), Some((0x2000, 7)));
    // The bytes end before the base field.
    assert_eq!(code_range(&headers(0x100, 0x2000, 7, 0x12F)), None);
    // Too short to hold the DOS header field.
    assert_eq!(code_range(&[0u8; 0x3F]), None);
    // A negative offset.
    assert_eq!(code_range(&headers(0x8000_0000, 0x1000, 7, 0x400)), None);
}

#[test]
fn nt_headers_location() {
    assert_eq!(nt_headers_at(&headers(0x118, 0, 0, 0x40)), Some(0x118));
    assert_eq!(nt_headers_at(&headers(0x8000_0000, 0, 0, 0x40)), None);
    assert_eq!(nt_headers_at(&[0u8; 0x3F]), None);
}

#[test]
fn resource_records() {
    assert_eq!(resource_record_address(0x1000, 0), 0x1000);
    assert_eq!(resource_record_address(0x1000, 1), 0x1090);
    assert_eq!(resource_record_address(0x1000, 10), 0x1000 + 10 * 0x90);
    assert_eq!(
        resource_record_address(0, u32::MAX),
        0x90 * u32::MAX as u64
    );
}

#[test]
fn redirected_containers() {
    assert!(should_redirect("generated/some_asset_to_mod.resources"));
    assert!(should_redirect("some_asset_to_mod"));
    assert!(!should_redirect("gameresources.resources"));
    assert!(!should_redirect("some_asset_to_mo"));
}

#[test]
fn file_object_is_marked() {
    let mut mem = vec![0x11u8; FILE_OBJECT_SIZE];
    mark_file_object(&mut mem);
    for (i, b) in mem.iter().enumerate() {
        let expected = if (TIMESTAMP_OFFSET..TIMESTAMP_OFFSET + 4).contains(&i) {
            0xFF
        } else if i == OWNS_DATA_OFFSET {
            0
        } else {
            0x11
        };
        assert_eq!(*b, expected, "byte {:#x}", i);
    }
    let once = mem.clone();
    mark_file_object(&mut mem);
    assert_eq!(mem, once);
}

fn drive(events: &[InstallEvent]) -> (Vec<InstallAction>, Installer) {
    let (mut inst, first) = Installer::new();
    let mut actions = vec![first];
    for e in events {
        actions.push(inst.step(*e));
    }
    (actions, inst)
}

#[test]
fn installation_succeeds() {
    let events = [
        InstallEvent::Scanned(Some(0x10)),
        InstallEvent::Scanned(Some(0x20)),
        InstallEvent::Scanned(Some(0x30)),
        InstallEvent::Scanned(Some(0x40)),
        InstallEvent::HookCreated(HookStatus::MH_OK),
        InstallEvent::Stored(true),
        InstallEvent::Stored(true),
        InstallEvent::Stored(true),
        InstallEvent::Stored(true),
        InstallEvent::Enabled(HookStatus::MH_OK),
    ];
    let (actions, inst) = drive(&events);
    assert_eq!(
        actions,
        vec![
            InstallAction::Scan(HookTarget::OpenContainer),
            InstallAction::Scan(HookTarget::FileMemoryCtor),
            InstallAction::Scan(HookTarget::FileSetReadOnly),
            InstallAction::Scan(HookTarget::IdNew),
            InstallAction::CreateHook { offset: 0x10 },
            InstallAction::Store { target: HookTarget::OpenContainer, offset: 0x10 },
            InstallAction::Store { target: HookTarget::FileMemoryCtor, offset: 0x20 },
            InstallAction::Store { target: HookTarget::FileSetReadOnly, offset: 0x30 },
            InstallAction::Store { target: HookTarget::IdNew, offset: 0x40 },
            InstallAction::EnableHooks,
            InstallAction::Finish(Ok(())),
        ]
    );
    assert_eq!(inst.outcome(), Some(Ok(())));
}

#[test]
fn missing_signature_stops_installation() {
    let (actions, mut inst) = drive(&[
        InstallEvent::Scanned(Some(0x10)),
        InstallEvent::Scanned(None),
    ]);
    assert_eq!(actions.last(), Some(&InstallAction::Finish(Err(Error::PatternNotFound))));
    assert_eq!(inst.outcome(), Some(Err(Error::PatternNotFound)));
    // Nothing more happens afterwards.
    assert_eq!(
        inst.step(InstallEvent::Scanned(Some(0x30))),
        InstallAction::Finish(Err(Error::PatternNotFound))
    );
    let (_, inst) = drive(&[InstallEvent::Scanned(None)]);
    assert_eq!(inst.outcome(), Some(Err(Error::PatternNotFound)));
}

#[test]
fn engine_failures_are_reported_with_status() {
    let scans = [
        InstallEvent::Scanned(Some(1)),
        InstallEvent::Scanned(Some(2)),
        InstallEvent::Scanned(Some(3)),
        InstallEvent::Scanned(Some(4)),
    ];
    let mut events = scans.to_vec();
    events.push(InstallEvent::HookCreated(HookStatus::MH_ERROR_UNSUPPORTED_FUNCTION));
    let (actions, inst) = drive(&events);
    assert_eq!(
        actions.last(),
        Some(&InstallAction::Finish(Err(Error::MinHookError(HookStatus::MH_ERROR_UNSUPPORTED_FUNCTION))))
    );
    assert_eq!(inst.outcome().unwrap().unwrap_err().discriminant(), 0xBEEF);

    let mut events = scans.to_vec();
    events.push(InstallEvent::HookCreated(HookStatus::MH_OK));
    events.extend([InstallEvent::Stored(true); 4]);
    events.push(InstallEvent::Enabled(HookStatus::MH_ERROR_MEMORY_PROTECT));
    let (_, inst) = drive(&events);
    assert_eq!(inst.outcome(), Some(Err(Error::MinHookError(HookStatus::MH_ERROR_MEMORY_PROTECT))));
}

#[test]
fn failed_store_is_unhandled() {
    let events = [
        InstallEvent::Scanned(Some(1)),
        InstallEvent::Scanned(Some(2)),
        InstallEvent::Scanned(Some(3)),
        InstallEvent::Scanned(Some(4)),
        InstallEvent::HookCreated(HookStatus::MH_OK),
        InstallEvent::Stored(true),
        InstallEvent::Stored(false),
    ];
    let (actions, inst) = drive(&events);
    assert_eq!(actions[6], InstallAction::Store { target: HookTarget::FileMemoryCtor, offset: 2 });
    assert_eq!(inst.outcome(), Some(Err(Error::UnhandledError)));
}

#[test]
fn unexpected_event_is_unhandled() {
    let (actions, inst) = drive(&[InstallEvent::Enabled(HookStatus::MH_OK)]);
    assert_eq!(actions[1], InstallAction::Finish(Err(Error::UnhandledError)));
    assert_eq!(inst.outcome(), Some(Err(Error::UnhandledError)));
    let (inst, _) = Installer::new();
    assert_eq!(inst.outcome(), None);
}

#[test]
fn failure_report_code_reads_back() {
    let kinds = [
        Error::MinHookError(HookStatus::MH_ERROR_NOT_CREATED),
        Error::PatternNotFound,
        Error::PathError,
        Error::IoError,
        Error::UnhandledError,
    ];
    for e in kinds {
        let text = failure_report(&e);
        let digits = text
            .strip_prefix("Failed to initialize maykr: 0x")
            .and_then(|rest| rest.strip_suffix(". Please report this!"))
            .unwrap();
        assert_eq!(u32::from_str_radix(digits, 16).unwrap(), e.discriminant());
    }
}

#[test]
fn finished_installation_ignores_later_events() {
    let (_, mut inst) = drive(&[InstallEvent::Scanned(None)]);
    for e in [
        InstallEvent::Scanned(Some(1)),
        InstallEvent::HookCreated(HookStatus::MH_OK),
        InstallEvent::Stored(true),
        InstallEvent::Enabled(HookStatus::MH_OK),
    ] {
        assert_eq!(inst.step(e), InstallAction::Finish(Err(Error::PatternNotFound)));
    }
    assert_eq!(inst.outcome(), Some(Err(Error::PatternNotFound)));
}

#[test]
fn engine_errors_print_engine_names() {
    assert_eq!(
        format!("{:?}", Error::MinHookError(HookStatus::MH_ERROR_ALREADY_CREATED)),
        "MinHookError(MH_ERROR_ALREADY_CREATED)"
    );
    assert_eq!(format!("{:?}", Error::PatternNotFound), "PatternNotFound");
}

#[test]
fn verbatim_directories_are_rebuilt() {
    assert_eq!(system_library_path(r"\\?\C:\dir/"), r"\\?\C:\dir/\version.dll");
    assert_eq!(system_library_path(r"\\?\C:\a\\b\"), r"\\?\C:\a\b\version.dll");
    assert_eq!(system_library_path(r"\\?\C:"), r"\\?\C:\version.dll");
    assert_eq!(system_library_path(r"\\?\C:\"), r"\\?\C:\version.dll");
    assert_eq!(
        system_library_path(r"\\?\UNC\server\share\x"),
        r"\\?\UNC\server\share\x\version.dll"
    );
    assert_eq!(system_library_path(r"\\?\UNC\server"), r"\\?\UNC\server\version.dll");
    assert_eq!(system_library_path(r"\\?\UNC\server\\x"), r"\\?\UNC\server\x\version.dll");
    assert_eq!(
        system_library_path(r"\\?\Volume{1}\Windows\System32"),
        r"\\?\Volume{1}\Windows\System32\version.dll"
    );
    assert_eq!(system_library_path(r"\\?\C:/x\y"), r"\\?\C:\/x\y\version.dll");
    assert_eq!(system_library_path(r"\\?\"), r"\\?\\version.dll");
    // Not verbatim: joined plainly.
    assert_eq!(system_library_path(r"\\server\share"), r"\\server\share\version.dll");
}

#[test]
fn surrogate_pairs_decode_to_one_character() {
    let buffer = units("C:\\😀");
    assert_eq!(buffer.len(), 5);
    assert_eq!(decode_wide_path(&buffer, buffer.len()), Some("C:\\😀".to_string()));
}

#[test]
fn wide_library_path_encodes_utf16() {
    let mut buffer = [0u16; 64];
    let dir = units("C:\\Wïndows\\😀");
    buffer[..dir.len()].copy_from_slice(&dir);
    let target = forward_target(VersionExport::VerQueryValueA, &buffer, dir.len()).unwrap();
    let wide = wide_library_path(&target).unwrap();
    assert_eq!(wide.as_slice(), &units("C:\\Wïndows\\😀\\version.dll")[..]);
}
