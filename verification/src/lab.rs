//! Lab identities and the filesystem layout derived from them.
//!
//! Each lab is a closed, named environment. Its name resolves to the paths
//! the panel works with: the active rule file, the directory its level
//! templates sit in, the compose project directory, and (for the one lab
//! that has one) the log directory. All paths are relative to a project
//! root that the caller supplies.

use vstd::prelude::*;

verus! {

use vstd::string::StringExecFns;
use crate::text::str_eq;

/// One of the closed set of lab environments the panel controls.
#[derive(Clone, Copy, PartialEq, Eq, Structural, Debug)]
pub enum LabIdentity {
    Snort,
    Suricata,
    Zeek,
}

/// The name a lab goes by in requests, container names and directories.
pub open spec fn spec_lab_name(lab: LabIdentity) -> Seq<char> {
    match lab {
        LabIdentity::Snort => "snort"@,
        LabIdentity::Suricata => "suricata"@,
        LabIdentity::Zeek => "zeek"@,
    }
}

/// Resolve a request's lab name to a lab identity; any other name is
/// rejected.
pub fn lab_from_name(name: &str) -> (r: Option<LabIdentity>)
    ensures
        match r {
            Option::Some(lab) => name@ == spec_lab_name(lab),
            Option::None => forall|lab: LabIdentity| name@ != spec_lab_name(lab),
        },
{
    if str_eq(name, "snort") {
        Option::Some(LabIdentity::Snort)
    } else if str_eq(name, "suricata") {
        Option::Some(LabIdentity::Suricata)
    } else if str_eq(name, "zeek") {
        Option::Some(LabIdentity::Zeek)
    } else {
        proof {
            assert forall|lab: LabIdentity| name@ != spec_lab_name(lab) by {
                match lab {
                    LabIdentity::Snort => {},
                    LabIdentity::Suricata => {},
                    LabIdentity::Zeek => {},
                }
            }
        }
        Option::None
    }
}

/// The lab's name as an owned string.
pub fn lab_name(lab: LabIdentity) -> (r: String)
    ensures
        r@ == spec_lab_name(lab),
{
    match lab {
        LabIdentity::Snort => "snort".to_owned(),
        LabIdentity::Suricata => "suricata".to_owned(),
        LabIdentity::Zeek => "zeek".to_owned(),
    }
}

/// The lab's active rule file, relative to the project root.
pub open spec fn spec_rules_path(lab: LabIdentity) -> Seq<char> {
    match lab {
        LabIdentity::Snort => "snort-lab/config/local.rules"@,
        LabIdentity::Suricata => "suricata-lab/rules/local.rules"@,
        LabIdentity::Zeek => "zeek-lab/scripts/local.zeek"@,
    }
}

/// Path of the lab's active rule file, relative to the project root.
pub fn rules_path(lab: LabIdentity) -> (r: String)
    ensures
        r@ == spec_rules_path(lab),
{
    match lab {
        LabIdentity::Snort => "snort-lab/config/local.rules".to_owned(),
        LabIdentity::Suricata => "suricata-lab/rules/local.rules".to_owned(),
        LabIdentity::Zeek => "zeek-lab/scripts/local.zeek".to_owned(),
    }
}

/// The directory holding the lab's level templates, relative to the root.
pub open spec fn spec_template_dir(lab: LabIdentity) -> Seq<char> {
    match lab {
        LabIdentity::Snort => "commander/templates/snort"@,
        LabIdentity::Suricata => "commander/templates/suricata"@,
        LabIdentity::Zeek => "commander/templates/zeek"@,
    }
}

/// Path of the directory holding the lab's level templates.
pub fn template_dir(lab: LabIdentity) -> (r: String)
    ensures
        r@ == spec_template_dir(lab),
{
    match lab {
        LabIdentity::Snort => "commander/templates/snort".to_owned(),
        LabIdentity::Suricata => "commander/templates/suricata".to_owned(),
        LabIdentity::Zeek => "commander/templates/zeek".to_owned(),
    }
}

/// The lab's compose project directory, relative to the root.
pub open spec fn spec_project_dir(lab: LabIdentity) -> Seq<char> {
    match lab {
        LabIdentity::Snort => "snort-lab"@,
        LabIdentity::Suricata => "suricata-lab"@,
        LabIdentity::Zeek => "zeek-lab"@,
    }
}

/// Path of the lab's compose project directory.
pub fn project_dir(lab: LabIdentity) -> (r: String)
    ensures
        r@ == spec_project_dir(lab),
{
    match lab {
        LabIdentity::Snort => "snort-lab".to_owned(),
        LabIdentity::Suricata => "suricata-lab".to_owned(),
        LabIdentity::Zeek => "zeek-lab".to_owned(),
    }
}

/// The lab's log directory, relative to the root; only the Suricata lab has
/// one mapped, so resetting logs is a no-op for every other lab.
pub open spec fn spec_logs_dir(lab: LabIdentity) -> Option<Seq<char>> {
    match lab {
        LabIdentity::Suricata => Option::Some("suricata-lab/logs"@),
        _ => Option::None,
    }
}

/// Path of the lab's log directory, if it has one mapped.
pub fn logs_dir(lab: LabIdentity) -> (r: Option<String>)
    ensures
        match r {
            Option::Some(p) => spec_logs_dir(lab) == Option::Some(p@),
            Option::None => spec_logs_dir(lab) is None,
        },
{
    match lab {
        LabIdentity::Suricata => Option::Some("suricata-lab/logs".to_owned()),
        _ => Option::None,
    }
}

/// The project root used when the caller supplies none.
pub fn default_project_root() -> (r: String)
    ensures
        r@ == "/home/rvv/Bureau/Rust.Nmap.Network"@,
{
    "/home/rvv/Bureau/Rust.Nmap.Network".to_owned()
}

/// Join a path to the project root with a single separator.
pub fn join_path(root: &str, rel: &str) -> (r: String)
    ensures
        r@ == root@ + "/"@ + rel@,
{
    let mut out = root.to_owned();
    out.append("/");
    out.append(rel);
    out
}

} // verus!
