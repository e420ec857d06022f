//! Vendor classification from DMI identity strings.

use vstd::prelude::*;

use crate::text::{str_eq, trim, trimmed};

verus! {

/// A recognized hardware vendor.
#[derive(Copy, Clone, Debug, PartialEq, Eq, Structural)]
pub enum Vendor {
    Hp,
    System76,
}

/// The vendor that a pair of DMI identity strings designates, if any:
/// the trimmed system-vendor string selects the vendor, and for HP the
/// trimmed board name must also match the one recognized board.
pub open spec fn guess_spec(sys_vendor: Option<Seq<char>>, board_name: Option<Seq<char>>) -> Option<
    Vendor,
> {
    match sys_vendor {
        None => None,
        Some(sv) => {
            if trimmed(sv) == "System76"@ {
                Some(Vendor::System76)
            } else if trimmed(sv) == "HP"@ {
                match board_name {
                    Some(bn) => if trimmed(bn) == "8A78"@ {
                        Some(Vendor::Hp)
                    } else {
                        None
                    },
                    None => None,
                }
            } else {
                None
            }
        },
    }
}

impl Vendor {
    /// Classifies the vendor from the contents of the system-vendor and
    /// board-name identity files; `None` stands for a file that could
    /// not be read.
    pub fn guess_from(sys_vendor: Option<&str>, board_name: Option<&str>) -> (r: Option<Vendor>)
        ensures
            r == guess_spec(
                match sys_vendor {
                    Some(s) => Some(s@),
                    None => None,
                },
                match board_name {
                    Some(s) => Some(s@),
                    None => None,
                },
            ),
    {
        match sys_vendor {
            None => None,
            Some(sv) => {
                let sv = trim(sv);
                if str_eq(sv, "System76") {
                    Some(Vendor::System76)
                } else if str_eq(sv, "HP") {
                    match board_name {
                        Some(bn) => {
                            if str_eq(trim(bn), "8A78") {
                                Some(Vendor::Hp)
                            } else {
                                None
                            }
                        },
                        None => None,
                    }
                } else {
                    None
                }
            },
        }
    }
}

} // verus!
