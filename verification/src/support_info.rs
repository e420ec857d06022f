//! Host identity: composing the support-information record from
//! best-effort reads of DMI identity files, the OS release file and
//! the kernel version queries.

use vstd::prelude::*;
use vstd::string::*;

use crate::text::{
    after_line, first_line, first_token, has_prefix, lemma_after_line_len, lemma_line_split_at,
    starts_with, str_eq, token, trim, trimmed,
};
use crate::vendor::Vendor;

verus! {

/// Identity of the machine and its operating system, assembled once
/// per run. Every field is best-effort: a source that could not be
/// read leaves its field empty.
#[derive(Debug)]
pub struct SupportInfo {
    pub vendor: Option<Vendor>,
    pub model_and_version: String,
    pub serial_number: String,
    pub operating_system: String,
    pub kernel_version: String,
    pub kernel_revision: String,
}

/// A value with one layer of surrounding double quotes removed.
pub open spec fn unquoted(v: Seq<char>) -> Seq<char> {
    let a = if v.len() > 0 && v[0] == '"' {
        v.drop_first()
    } else {
        v
    };
    if a.len() > 0 && a.last() == '"' {
        a.drop_last()
    } else {
        a
    }
}

/// The value of the first `PRETTY_NAME=` line of an OS release file:
/// unquoted and trimmed, or empty when no such line exists.
pub open spec fn pretty_name_of(s: Seq<char>) -> Seq<char>
    decreases s.len(),
    via pretty_name_of_dec
{
    if s.len() == 0 {
        Seq::empty()
    } else if has_prefix(first_line(s), "PRETTY_NAME="@) {
        trimmed(unquoted(first_line(s).skip("PRETTY_NAME="@.len() as int)))
    } else {
        pretty_name_of(after_line(s))
    }
}

#[via_fn]
proof fn pretty_name_of_dec(s: Seq<char>) {
    if s.len() > 0 {
        lemma_after_line_len(s);
    }
}

/// Scans an OS release file line by line for the first `PRETTY_NAME=`
/// entry and extracts its value.
pub fn parse_pretty_name(os_release: &str) -> (r: String)
    ensures
        r@ == pretty_name_of(os_release@),
{
    let n = os_release.unicode_len();
    let mut pos: usize = 0;
    proof {
        assert(os_release@.skip(0) =~= os_release@);
    }
    loop
        invariant
            pos <= n,
            n == os_release@.len(),
            pretty_name_of(os_release@) == pretty_name_of(os_release@.skip(pos as int)),
        decreases n - pos,
    {
        if pos == n {
            proof {
                assert(os_release@.skip(pos as int) =~= Seq::<char>::empty());
            }
            return String::new();
        }
        let ghost t = os_release@.skip(pos as int);
        let mut e: usize = pos;
        while e < n && os_release.get_char(e) != '\n'
            invariant
                pos <= e <= n,
                n == os_release@.len(),
                forall|k: int| pos <= k < e ==> os_release@[k] != '\n',
            decreases n - e,
        {
            e = e + 1;
        }
        proof {
            lemma_line_split_at(t, e - pos);
            assert(t.subrange(0, e - pos) =~= os_release@.subrange(pos as int, e as int));
        }
        let line = os_release.substring_char(pos, e);
        if starts_with(line, "PRETTY_NAME=") {
            proof {
                reveal_strlit("PRETTY_NAME=");
            }
            let mut a: usize = pos + 12;
            let mut b: usize = e;
            let ghost v = line@.skip(12);
            proof {
                assert(v =~= os_release@.subrange(pos + 12, e as int));
            }
            if a < b && os_release.get_char(a) == '"' {
                a = a + 1;
                proof {
                    assert(v.drop_first() =~= os_release@.subrange(a as int, b as int));
                }
            }
            let ghost va = os_release@.subrange(a as int, b as int);
            if a < b && os_release.get_char(b - 1) == '"' {
                b = b - 1;
                proof {
                    assert(va.drop_last() =~= os_release@.subrange(a as int, b as int));
                }
            }
            proof {
                assert(unquoted(v) =~= os_release@.subrange(a as int, b as int));
            }
            let val = trim(os_release.substring_char(a, b));
            return String::from_str(val);
        } else {
            if e == n {
                proof {
                    assert(os_release@.skip(n as int) =~= Seq::<char>::empty());
                }
                pos = n;
            } else {
                proof {
                    assert(t.subrange(e - pos + 1, t.len() as int) =~= os_release@.skip(
                        e + 1 as int,
                    ));
                }
                pos = e + 1;
            }
        }
    }
}

/// The model-and-version line composed from trimmed DMI identity
/// strings: the vendor, the product name when it is non-empty and not
/// the vendor itself, and the version in parentheses when non-empty.
pub open spec fn model_and_version_spec(
    sys_vendor: Option<Seq<char>>,
    product_name: Option<Seq<char>>,
    product_version: Option<Seq<char>>,
) -> Seq<char> {
    match sys_vendor {
        None => Seq::empty(),
        Some(sv0) => {
            let sv = trimmed(sv0);
            let base = match product_name {
                Some(pn0) => {
                    let pn = trimmed(pn0);
                    if pn.len() > 0 && pn != sv {
                        sv + " "@ + pn
                    } else {
                        sv
                    }
                },
                None => sv,
            };
            match product_version {
                Some(v0) => {
                    let v = trimmed(v0);
                    if v.len() > 0 {
                        base + " ("@ + v + ")"@
                    } else {
                        base
                    }
                },
                None => base,
            }
        },
    }
}

/// Composes the model-and-version line from the raw file contents;
/// `None` stands for a file that could not be read.
pub fn compose_model_and_version(
    sys_vendor: Option<&str>,
    product_name: Option<&str>,
    product_version: Option<&str>,
) -> (r: String)
    ensures
        r@ == model_and_version_spec(
            match sys_vendor {
                Some(s) => Some(s@),
                None => None,
            },
            match product_name {
                Some(s) => Some(s@),
                None => None,
            },
            match product_version {
                Some(s) => Some(s@),
                None => None,
            },
        ),
{
    let mut out = String::new();
    match sys_vendor {
        None => {},
        Some(sv0) => {
            let sv = trim(sv0);
            out.append(sv);
            proof {
                assert(out@ =~= trimmed(sv0@));
            }
            match product_name {
                None => {},
                Some(pn0) => {
                    let pn = trim(pn0);
                    if pn.unicode_len() > 0 && !str_eq(pn, sv) {
                        out.append(" ");
                        out.append(pn);
                    }
                },
            }
            match product_version {
                None => {},
                Some(v0) => {
                    let v = trim(v0);
                    if v.unicode_len() > 0 {
                        out.append(" (");
                        out.append(v);
                        out.append(")");
                    }
                },
            }
        },
    }
    out
}

impl SupportInfo {
    /// Assembles the record from the raw contents of the identity
    /// sources; `None` stands for a source that could not be read.
    /// Every field is best-effort, so assembly never fails.
    pub fn from_sources(
        vendor: Option<Vendor>,
        sys_vendor: Option<&str>,
        product_name: Option<&str>,
        product_version: Option<&str>,
        os_release: Option<&str>,
        kernel_release: Option<&str>,
        kernel_build: Option<&str>,
    ) -> (r: SupportInfo)
        ensures
            r.vendor == vendor,
            r.model_and_version@ == model_and_version_spec(
                match sys_vendor {
                    Some(s) => Some(s@),
                    None => None,
                },
                match product_name {
                    Some(s) => Some(s@),
                    None => None,
                },
                match product_version {
                    Some(s) => Some(s@),
                    None => None,
                },
            ),
            r.serial_number@ == Seq::<char>::empty(),
            r.operating_system@ == match os_release {
                Some(s) => pretty_name_of(s@),
                None => Seq::<char>::empty(),
            },
            r.kernel_version@ == match kernel_release {
                Some(s) => trimmed(s@),
                None => Seq::<char>::empty(),
            },
            r.kernel_revision@ == match kernel_build {
                Some(s) => first_token(s@),
                None => Seq::<char>::empty(),
            },
    {
        let model_and_version = compose_model_and_version(sys_vendor, product_name, product_version);
        let operating_system = match os_release {
            Some(s) => parse_pretty_name(s),
            None => String::new(),
        };
        let kernel_version = match kernel_release {
            Some(s) => String::from_str(trim(s)),
            None => String::new(),
        };
        let kernel_revision = match kernel_build {
            Some(s) => String::from_str(token(s)),
            None => String::new(),
        };
        SupportInfo {
            vendor,
            model_and_version,
            serial_number: String::new(),
            operating_system,
            kernel_version,
            kernel_revision,
        }
    }
}

/// Fetching host information never fails: in an environment where
/// every identity source is absent, the assembled record simply has
/// an empty model line and no vendor — the remaining fields are
/// pinned to empty directly by `SupportInfo::from_sources`.
pub proof fn lemma_empty_environment_record()
    ensures
        model_and_version_spec(None, None, None) == Seq::<char>::empty(),
        crate::vendor::guess_spec(None, None) is None,
{
}

/// The DMI identity files that supply the model name and version: the
/// product files when a vendor was recognized, the board files
/// otherwise.
pub fn dmi_identity_paths(vendor: Option<Vendor>) -> (r: (&'static str, &'static str))
    ensures
        vendor is Some ==> r.0@ == "/sys/devices/virtual/dmi/id/product_name"@ && r.1@
            == "/sys/devices/virtual/dmi/id/product_version"@,
        vendor is None ==> r.0@ == "/sys/devices/virtual/dmi/id/board_name"@ && r.1@
            == "/sys/devices/virtual/dmi/id/board_version"@,
{
    match vendor {
        Some(_) => (
            "/sys/devices/virtual/dmi/id/product_name",
            "/sys/devices/virtual/dmi/id/product_version",
        ),
        None => (
            "/sys/devices/virtual/dmi/id/board_name",
            "/sys/devices/virtual/dmi/id/board_version",
        ),
    }
}

} // verus!
