use pop_support::logs::{
    archive_path, collect_outcome, command_outcome, directory_copy_outcome,
    directory_member_names, expected_members, file_copy_outcome, info_file, is_safe_rel_path,
    join_under, manifest, render_system_info, ErrorKind, SourceKind,
};
use pop_support::support_info::SupportInfo;

#[test]
fn manifest_lists_the_fixed_sources() {
    let m = manifest();
    assert_eq!(m.len(), 19);
    assert_eq!(m[0].name, "df");
    assert_eq!(m[0].command_args, vec!["-h".to_string()]);
    assert_eq!(m[0].destination_name, "df");
    assert!(matches!(m[0].kind, SourceKind::Command));
    assert_eq!(m[3].name, "journalctl");
    assert_eq!(
        m[3].command_args,
        vec!["--since".to_string(), "yesterday".to_string()]
    );
    assert!(matches!(m[10].kind, SourceKind::DirectoryCopy));
    assert_eq!(m[10].origin_path, "/etc/apt/sources.list.d");
    assert_eq!(m[10].destination_name, "apt/sources.list.d");
    assert!(matches!(m[18].kind, SourceKind::FileCopy));
    assert_eq!(m[18].origin_path, "/var/log/Xorg.0.log");
    assert_eq!(m[18].destination_name, "Xorg.0.log");
}

#[test]
fn manifest_destinations_are_safe_and_identifiers_distinct() {
    let m = manifest();
    for d in &m {
        assert!(is_safe_rel_path(&d.destination_name));
    }
    for i in 0..m.len() {
        for j in (i + 1)..m.len() {
            assert_ne!(m[i].name, m[j].name);
            assert_ne!(m[i].destination_name, m[j].destination_name);
        }
    }
}

#[test]
fn safe_path_accepts_plain_relative_names() {
    assert!(is_safe_rel_path("df"));
    assert!(is_safe_rel_path("apt/sources.list"));
    assert!(is_safe_rel_path("..hidden"));
    assert!(is_safe_rel_path(".hidden"));
    assert!(is_safe_rel_path("a/..b/c"));
}

#[test]
fn safe_path_rejects_traversal_and_odd_shapes() {
    assert!(!is_safe_rel_path(""));
    assert!(!is_safe_rel_path("/abs"));
    assert!(!is_safe_rel_path("../x"));
    assert!(!is_safe_rel_path("a/../b"));
    assert!(!is_safe_rel_path("a/.."));
    assert!(!is_safe_rel_path("."));
    assert!(!is_safe_rel_path("a/./b"));
    assert!(!is_safe_rel_path("a//b"));
    assert!(!is_safe_rel_path("a/"));
}

#[test]
fn join_places_the_name_under_the_root() {
    assert_eq!(join_under("/tmp/staging", "apt/sources.list"), "/tmp/staging/apt/sources.list");
}

#[test]
fn command_outcomes_follow_spawn_and_exit() {
    let ok = command_outcome("df".to_string(), true, true);
    assert!(ok.success);
    assert_eq!(ok.error, None);
    let failed_spawn = command_outcome("df".to_string(), false, false);
    assert!(!failed_spawn.success);
    assert_eq!(failed_spawn.error, Some(ErrorKind::SourceUnavailable));
    let bad_exit = command_outcome("df".to_string(), true, false);
    assert!(!bad_exit.success);
    assert_eq!(bad_exit.error, Some(ErrorKind::SourceUnavailable));
}

#[test]
fn file_copy_outcomes_follow_the_three_steps() {
    assert!(file_copy_outcome("/etc/fstab".to_string(), true, true, true).success);
    let missing = file_copy_outcome("/etc/fstab".to_string(), false, false, false);
    assert!(!missing.success);
    assert_eq!(missing.error, Some(ErrorKind::SourceUnavailable));
    assert!(!file_copy_outcome("/etc/fstab".to_string(), true, false, false).success);
}

#[test]
fn missing_directory_is_a_successful_empty_outcome() {
    let o = directory_copy_outcome("/etc/apt/sources.list.d".to_string(), false);
    assert!(o.success);
    assert_eq!(o.error, None);
    let contributed = directory_member_names("apt/sources.list.d", &Vec::new());
    assert_eq!(contributed.len(), 0);
}

#[test]
fn directory_children_land_under_the_destination() {
    let children = vec!["pop.list".to_string(), "vscode.list".to_string()];
    let contributed = directory_member_names("apt/sources.list.d", &children);
    assert_eq!(
        contributed,
        vec![
            "apt/sources.list.d/pop.list".to_string(),
            "apt/sources.list.d/vscode.list".to_string()
        ]
    );
}

#[test]
fn run_fails_only_on_staging_or_archival() {
    assert_eq!(collect_outcome(true, true), None);
    assert_eq!(collect_outcome(false, false), Some(ErrorKind::StagingIo));
    assert_eq!(collect_outcome(false, true), Some(ErrorKind::StagingIo));
    assert_eq!(collect_outcome(true, false), Some(ErrorKind::Archival));
}

#[test]
fn all_sources_succeeding_archive_every_manifest_entry() {
    let m = manifest();
    let members = expected_members(&m, &Vec::new());
    assert_eq!(members.len(), 20);
    for (k, d) in m.iter().enumerate() {
        assert_eq!(members[k], d.destination_name);
    }
    assert_eq!(members[19], "systeminfo.txt");
}

#[test]
fn failed_sources_are_simply_absent_from_the_archive() {
    let m = manifest();
    let failed = vec![
        "dmidecode".to_string(),
        "/var/log/syslog".to_string(),
        "lsusb".to_string(),
    ];
    let members = expected_members(&m, &failed);
    assert_eq!(members.len(), 17);
    assert!(!members.contains(&"dmidecode".to_string()));
    assert!(!members.contains(&"syslog.log".to_string()));
    assert!(!members.contains(&"lsusb".to_string()));
    assert!(members.contains(&"df".to_string()));
    assert!(members.contains(&"apt/sources.list".to_string()));
    assert_eq!(members[members.len() - 1], "systeminfo.txt");
}

#[test]
fn three_surviving_sources_scenario() {
    let m = manifest();
    let failed: Vec<String> = m
        .iter()
        .filter(|d| d.name != "dmesg" && d.name != "lspci")
        .map(|d| d.name.clone())
        .collect();
    let members = expected_members(&m, &failed);
    assert_eq!(
        members,
        vec!["dmesg".to_string(), "lspci".to_string(), "systeminfo.txt".to_string()]
    );
    let path = archive_path("/tmp", 1700000000);
    assert_eq!(path, "/tmp/pop-support_1700000000.tar.xz");
}

#[test]
fn archive_paths_differ_across_seconds() {
    assert_eq!(archive_path("/home/u", 100), "/home/u/pop-support_100.tar.xz");
    assert_ne!(archive_path("/home/u", 100), archive_path("/home/u", 101));
    assert_eq!(archive_path("/home/u", 100), archive_path("/home/u", 100));
}

#[test]
fn info_file_is_named() {
    assert_eq!(info_file(), "systeminfo.txt");
}

#[test]
fn system_info_renders_one_line_per_field() {
    let info = SupportInfo::from_sources(
        None,
        Some("System76"),
        Some("Oryx Pro"),
        Some("oryp10"),
        Some("PRETTY_NAME=\"Pop!_OS 22.04 LTS\"\n"),
        Some("6.5.4\n"),
        Some("#1 SMP\n"),
    );
    let text = render_system_info(&info);
    assert_eq!(
        text,
        "Model: System76 Oryx Pro (oryp10)\nOS Version: Pop!_OS 22.04 LTS\nKernel Version: 6.5.4\nKernel Revision: #1\n"
    );
}
