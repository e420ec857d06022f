use pop_support::support_info::SupportInfo;
use pop_support::widgets::{InfoLabelEvent, InfoLabelModel, LogEvent, LogModel};
use pop_support::{clamp_width, fill_empty_fields, parse_path_line, separator_header, SupportEvent};

#[test]
fn info_label_updates_value_only() {
    let mut row = InfoLabelModel::new("OS version".to_string());
    assert_eq!(row.description, "OS version");
    assert_eq!(row.value, "");
    row.update(InfoLabelEvent::SetLabel("Pop!_OS 22.04 LTS".to_string()));
    assert_eq!(row.description, "OS version");
    assert_eq!(row.value, "Pop!_OS 22.04 LTS");
}

#[test]
fn log_dialog_keeps_open_on_success() {
    let mut dialog = LogModel::new();
    assert!(dialog.dialog_open);
    let r = dialog.update(LogEvent::GeneratedLogs(Ok("/tmp/a.tar.xz".to_string())));
    assert_eq!(r, None);
    assert!(dialog.dialog_open);
    assert_eq!(dialog.folder, Some("/tmp/a.tar.xz".to_string()));
}

#[test]
fn log_dialog_closes_on_failure_or_close() {
    let mut dialog = LogModel::new();
    let r = dialog.update(LogEvent::GeneratedLogs(Err("tar exited in failure".to_string())));
    assert_eq!(r, None);
    assert!(!dialog.dialog_open);
    let mut dialog = LogModel::new();
    let r = dialog.update(LogEvent::Close);
    assert_eq!(r, None);
    assert!(!dialog.dialog_open);
}

#[test]
fn log_dialog_hands_the_archive_back_to_reveal() {
    let mut dialog = LogModel::new();
    dialog.update(LogEvent::GeneratedLogs(Ok("/tmp/a.tar.xz".to_string())));
    let r = dialog.update(LogEvent::ShowInFolder);
    assert_eq!(r, Some("/tmp/a.tar.xz".to_string()));
    assert_eq!(dialog.folder, None);
    assert!(!dialog.dialog_open);
}

#[test]
fn support_events_name_their_urls() {
    assert_eq!(
        SupportEvent::BrowseDocumentation.target_url(),
        Some("https://support.system76.com")
    );
    assert_eq!(SupportEvent::CommunitySupport.target_url(), Some("https://chat.pop-os.org"));
    assert_eq!(
        SupportEvent::CreateSupportTicket.target_url(),
        Some("https://system76.com/my-account/support-tickets/new")
    );
    assert_eq!(SupportEvent::CreateLogFiles.target_url(), None);
}

#[test]
fn empty_display_fields_take_the_placeholder() {
    let mut info = SupportInfo::from_sources(None, None, None, None, None, None, None);
    fill_empty_fields(&mut info, "Unknown");
    assert_eq!(info.model_and_version, "Unknown");
    assert_eq!(info.serial_number, "Unknown");
    assert_eq!(info.operating_system, "Unknown");
    assert_eq!(info.kernel_version, "");
}

#[test]
fn filled_fields_are_kept() {
    let mut info = SupportInfo::from_sources(
        None,
        Some("System76"),
        None,
        None,
        Some("PRETTY_NAME=Pop\n"),
        None,
        None,
    );
    fill_empty_fields(&mut info, "Unknown");
    assert_eq!(info.model_and_version, "System76");
    assert_eq!(info.operating_system, "Pop");
    assert_eq!(info.serial_number, "Unknown");
}

#[test]
fn path_line_is_parsed_from_collector_output() {
    assert_eq!(
        parse_path_line("PATH /home/u/pop-support_17.tar.xz\n"),
        Some("/home/u/pop-support_17.tar.xz".to_string())
    );
    assert_eq!(parse_path_line("no path here"), None);
    assert_eq!(parse_path_line("PATH   "), Some("".to_string()));
    assert_eq!(parse_path_line(""), None);
}

#[test]
fn widths_are_clamped_between_the_bounds() {
    assert_eq!(clamp_width(1000, 0, 600, 90), 600);
    assert_eq!(clamp_width(400, 0, 600, 90), 360);
    assert_eq!(clamp_width(100, 200, 600, 90), 200);
    assert_eq!(clamp_width(0, 0, 600, 90), 0);
}

#[test]
fn separator_goes_over_rows_with_a_predecessor() {
    assert!(separator_header(true));
    assert!(!separator_header(false));
}
