//! Diagnostic-log collection support library.
//!
//! Gathers the pure logic of a support-log collector: vendor
//! classification from DMI identity strings, host-information
//! composition, the fixed manifest of diagnostic sources, the
//! acquisition-outcome model, and deterministic archive naming.
//! The surrounding process (file reads, subprocess spawning,
//! archival) drives this logic from outside the library.

use vstd::prelude::*;
use vstd::string::*;

pub mod logs;
pub mod support_info;
pub mod text;
pub mod vendor;
pub mod widgets;

use crate::support_info::SupportInfo;
use crate::text::{has_prefix, starts_with, trim, trimmed};

verus! {

/// An event reaching the support panel.
pub enum SupportEvent {
    UpdateInfo(SupportInfo),
    BrowseDocumentation,
    CommunitySupport,
    CreateLogFiles,
    CreateSupportTicket,
}

impl SupportEvent {
    /// The address that an event asks the surrounding shell to open,
    /// when it asks for one.
    pub fn target_url(&self) -> (r: Option<&'static str>)
        ensures
            match self {
                SupportEvent::BrowseDocumentation => r matches Some(u) && u@
                    == "https://support.system76.com"@,
                SupportEvent::CommunitySupport => r matches Some(u) && u@
                    == "https://chat.pop-os.org"@,
                SupportEvent::CreateSupportTicket => r matches Some(u) && u@
                    == "https://system76.com/my-account/support-tickets/new"@,
                SupportEvent::UpdateInfo(_) => r is None,
                SupportEvent::CreateLogFiles => r is None,
            },
    {
        match self {
            SupportEvent::BrowseDocumentation => Some("https://support.system76.com"),
            SupportEvent::CommunitySupport => Some("https://chat.pop-os.org"),
            SupportEvent::CreateSupportTicket => Some(
                "https://system76.com/my-account/support-tickets/new",
            ),
            SupportEvent::UpdateInfo(_) => None,
            SupportEvent::CreateLogFiles => None,
        }
    }
}

/// The request to collect logs into a destination base path.
#[derive(Debug)]
pub struct LogAction {
    pub path: String,
}

/// Replaces each empty display field of a freshly fetched record with
/// a placeholder (the shell passes its localized "unknown" text);
/// non-empty fields and the remaining record stay as they are.
pub fn fill_empty_fields(info: &mut SupportInfo, placeholder: &str)
    ensures
        final(info).vendor == old(info).vendor,
        final(info).kernel_version == old(info).kernel_version,
        final(info).kernel_revision == old(info).kernel_revision,
        final(info).model_and_version@ == if old(info).model_and_version@.len() == 0 {
            placeholder@
        } else {
            old(info).model_and_version@
        },
        final(info).serial_number@ == if old(info).serial_number@.len() == 0 {
            placeholder@
        } else {
            old(info).serial_number@
        },
        final(info).operating_system@ == if old(info).operating_system@.len() == 0 {
            placeholder@
        } else {
            old(info).operating_system@
        },
{
    if info.model_and_version.as_str().is_empty() {
        info.model_and_version = String::from_str(placeholder);
    }
    if info.serial_number.as_str().is_empty() {
        info.serial_number = String::from_str(placeholder);
    }
    if info.operating_system.as_str().is_empty() {
        info.operating_system = String::from_str(placeholder);
    }
}

/// The archive path announced on an output line: the text after the
/// `PATH ` marker, trimmed; or nothing when the marker is absent.
pub open spec fn path_of_output(o: Seq<char>) -> Option<Seq<char>> {
    if has_prefix(o, "PATH "@) {
        Some(trimmed(o.skip("PATH "@.len() as int)))
    } else {
        None
    }
}

/// Extracts the archive path from the collector's output line.
pub fn parse_path_line(output: &str) -> (r: Option<String>)
    ensures
        match r {
            Some(p) => path_of_output(output@) == Some(p@),
            None => path_of_output(output@) is None,
        },
{
    if starts_with(output, "PATH ") {
        proof {
            reveal_strlit("PATH ");
        }
        let n = output.unicode_len();
        let rest = output.substring_char(5, n);
        proof {
            assert(rest@ =~= output@.skip("PATH "@.len() as int));
        }
        Some(String::from_str(trim(rest)))
    } else {
        None
    }
}

/// The width a clamped widget requests: the scaled percentage of the
/// available width, capped above and below.
pub open spec fn clamped_width(width: int, min_width: int, max_width: int, percent: int) -> int {
    let scaled = width * percent / 100;
    let capped = if scaled > max_width {
        max_width
    } else {
        scaled
    };
    if capped < min_width {
        min_width
    } else {
        capped
    }
}

/// Computes the width a clamped widget requests.
pub fn clamp_width(width: i32, min_width: i32, max_width: i32, percent: i32) -> (r: i32)
    requires
        0 <= width,
        0 <= percent,
        width * percent <= i32::MAX,
    ensures
        r == clamped_width(width as int, min_width as int, max_width as int, percent as int),
{
    let scaled = (width * percent) / 100;
    let capped = if scaled > max_width {
        max_width
    } else {
        scaled
    };
    if capped < min_width {
        min_width
    } else {
        capped
    }
}

/// Decides whether a list row should receive a separator header:
/// a row gets one exactly when another row stands before it.
pub fn separator_header(has_row_before: bool) -> (set_separator: bool)
    ensures
        set_separator == has_row_before,
{
    has_row_before
}

} // verus!
