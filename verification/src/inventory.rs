//! The container inventory: typed records parsed from the runtime's
//! tab-separated container listing, the outcome of a runtime call, and the
//! best-effort policies around both.
//!
//! The collector never propagates a runtime failure: a call that could not
//! run yields an empty inventory, and the accessibility check turns the
//! failure into a diagnostic string for the status badge.

use vstd::prelude::*;

verus! {

use vstd::string::StrSliceExecFns;
use crate::text::{
    contains_seq, spec_field, spec_lines, spec_trim, str_contains, field_of, split_lines,
    trim_spaces,
};

/// Outcome of one attempt to run a runtime command: either the process could
/// not be started at all, or it ran and reported an exit status.
pub enum ExecOutcome {
    /// The command could not be executed; `error` describes why.
    Failed { error: String },
    /// The command ran to completion.
    Ran { success: bool, stdout: String, stderr: String },
}

/// Mathematical image of an `ExecOutcome`.
pub enum ExecOutcomeView {
    Failed { error: Seq<char> },
    Ran { success: bool, stdout: Seq<char>, stderr: Seq<char> },
}

impl View for ExecOutcome {
    type V = ExecOutcomeView;

    open spec fn view(&self) -> ExecOutcomeView {
        match self {
            ExecOutcome::Failed { error } => ExecOutcomeView::Failed { error: error@ },
            ExecOutcome::Ran { success, stdout, stderr } => ExecOutcomeView::Ran {
                success: *success,
                stdout: stdout@,
                stderr: stderr@,
            },
        }
    }
}

/// One container as the runtime lists it, plus the address resolved for it.
pub struct ContainerRecord {
    pub name: String,
    /// Free-text runtime status, e.g. "Up 2 hours" or "Exited (0)".
    pub status: String,
    pub image: String,
    pub id: String,
    /// Display form of the primary network address: "-" when none is known.
    pub ip: String,
}

/// Mathematical image of a `ContainerRecord`.
pub struct ContainerRecordView {
    pub name: Seq<char>,
    pub status: Seq<char>,
    pub image: Seq<char>,
    pub id: Seq<char>,
    pub ip: Seq<char>,
}

impl View for ContainerRecord {
    type V = ContainerRecordView;

    open spec fn view(&self) -> ContainerRecordView {
        ContainerRecordView {
            name: self.name@,
            status: self.status@,
            image: self.image@,
            id: self.id@,
            ip: self.ip@,
        }
    }
}

impl DeepView for ContainerRecord {
    type V = ContainerRecordView;

    open spec fn deep_view(&self) -> ContainerRecordView {
        self.view()
    }
}

/// A listing line belongs to the labs: it mentions one of the lab engines,
/// a target, or one of the auxiliary services.
pub open spec fn is_lab_related(l: Seq<char>) -> bool {
    ||| contains_seq(l, "snort"@)
    ||| contains_seq(l, "suricata"@)
    ||| contains_seq(l, "zeek"@)
    ||| contains_seq(l, "target"@)
    ||| contains_seq(l, "evebox"@)
    ||| contains_seq(l, "editor"@)
    ||| contains_seq(l, "reloader"@)
}

/// Whether a listing line belongs to the labs.
pub fn line_is_lab_related(l: &str) -> (r: bool)
    ensures
        r == is_lab_related(l@),
{
    ||| str_contains(l, "snort")
    ||| str_contains(l, "suricata")
    ||| str_contains(l, "zeek")
    ||| str_contains(l, "target")
    ||| str_contains(l, "evebox")
    ||| str_contains(l, "editor")
    ||| str_contains(l, "reloader")
}

/// The record one listing line parses to: the first four tab-separated
/// fields are name, status, image and id, a missing field is empty, and the
/// address starts out unresolved.
pub open spec fn spec_container_of_line(l: Seq<char>) -> ContainerRecordView {
    ContainerRecordView {
        name: spec_field(l, '\t', 0),
        status: spec_field(l, '\t', 1),
        image: spec_field(l, '\t', 2),
        id: spec_field(l, '\t', 3),
        ip: "-"@,
    }
}

/// Parse one listing line into a record.
pub fn container_of_line(l: &str) -> (r: ContainerRecord)
    ensures
        r@ == spec_container_of_line(l@),
{
    let (name, _) = field_of(l, '\t', 0);
    let (status, _) = field_of(l, '\t', 1);
    let (image, _) = field_of(l, '\t', 2);
    let (id, _) = field_of(l, '\t', 3);
    ContainerRecord {
        name: name.to_owned(),
        status: status.to_owned(),
        image: image.to_owned(),
        id: id.to_owned(),
        ip: "-".to_owned(),
    }
}

/// The records of the lab-related lines, in listing order.
pub open spec fn spec_container_records_of(lines: Seq<Seq<char>>) -> Seq<ContainerRecordView>
    decreases lines.len(),
{
    if lines.len() == 0 {
        Seq::empty()
    } else {
        let front = spec_container_records_of(lines.drop_last());
        if is_lab_related(lines.last()) {
            front.push(spec_container_of_line(lines.last()))
        } else {
            front
        }
    }
}

/// The container records of a full listing text.
pub open spec fn spec_container_records(text: Seq<char>) -> Seq<ContainerRecordView> {
    spec_container_records_of(spec_lines(text))
}

/// Parse the runtime's container listing: keep the lab-related lines, in
/// order, each as a typed record.
pub fn parse_container_listing(text: &str) -> (r: Vec<ContainerRecord>)
    ensures
        r.deep_view() == spec_container_records(text@),
{
    let lines = split_lines(text);
    let mut out: Vec<ContainerRecord> = Vec::new();
    let n = lines.len();
    proof {
        assert(out.deep_view() =~= spec_container_records_of(lines.deep_view().take(0)));
    }
    let mut i: usize = 0;
    while i < n
        invariant
            i <= n,
            n == lines@.len(),
            lines.deep_view() == spec_lines(text@),
            out.deep_view() == spec_container_records_of(lines.deep_view().take(i as int)),
        decreases n - i,
    {
        let l = lines[i].as_str();
        proof {
            assert(lines.deep_view()[i as int] == l@);
            assert(lines.deep_view().take(i + 1).drop_last() =~~= lines.deep_view().take(
                i as int,
            ));
            assert(lines.deep_view().take(i + 1).last() == l@);
        }
        let ghost pre = out.deep_view();
        if line_is_lab_related(l) {
            out.push(container_of_line(l));
            proof {
                assert(out.deep_view() =~= pre.push(spec_container_of_line(l@)));
            }
        }
        i += 1;
    }
    proof {
        assert(lines.deep_view().take(n as int) =~~= lines.deep_view());
    }
    out
}

/// What the inventory yields for a listing attempt: nothing when the runtime
/// call failed, else the records of whatever the call printed.
pub open spec fn spec_containers_of_outcome(o: ExecOutcomeView) -> Seq<ContainerRecordView> {
    match o {
        ExecOutcomeView::Failed { .. } => Seq::empty(),
        ExecOutcomeView::Ran { stdout, .. } => spec_container_records(stdout),
    }
}

/// The inventory of one listing attempt. A failed runtime call degrades to an
/// empty inventory and is never propagated.
pub fn containers_from_outcome(o: &ExecOutcome) -> (r: Vec<ContainerRecord>)
    ensures
        r.deep_view() == spec_containers_of_outcome(o@),
{
    match o {
        ExecOutcome::Failed { .. } => {
            let out: Vec<ContainerRecord> = Vec::new();
            proof {
                assert(out.deep_view() =~= Seq::<ContainerRecordView>::empty());
            }
            out
        },
        ExecOutcome::Ran { stdout, .. } => parse_container_listing(stdout.as_str()),
    }
}

/// Display form of a raw address answer: trimmed, and "-" when nothing is
/// left.
pub open spec fn spec_display_ip(raw: Seq<char>) -> Seq<char> {
    if spec_trim(raw).len() == 0 {
        "-"@
    } else {
        spec_trim(raw)
    }
}

/// Normalise a raw address answer for display.
pub fn display_ip(raw: &str) -> (r: String)
    ensures
        r@ == spec_display_ip(raw@),
{
    let t = trim_spaces(raw);
    if t.unicode_len() == 0 {
        "-".to_owned()
    } else {
        t.to_owned()
    }
}

/// Record the address resolved for a container.
pub fn set_container_ip(rec: &mut ContainerRecord, raw: &str)
    ensures
        final(rec)@ == (ContainerRecordView { ip: spec_display_ip(raw@), ..old(rec)@ }),
{
    rec.ip = display_ip(raw);
}

/// What the accessibility check answers for each outcome of the probe call:
/// a ran-and-succeeded probe means the runtime is reachable; any failure
/// carries the runtime's own words as the diagnostic.
pub open spec fn spec_accessibility(o: ExecOutcomeView) -> (bool, Seq<char>) {
    match o {
        ExecOutcomeView::Ran { success: true, .. } => (true, "Docker accessible sans sudo"@),
        ExecOutcomeView::Ran { success: false, stderr, .. } => (false, stderr),
        ExecOutcomeView::Failed { error } => (false, error),
    }
}

/// Judge whether the runtime is accessible from the probe call's outcome,
/// with a diagnostic for the operator.
pub fn check_runtime_accessible(o: &ExecOutcome) -> (r: (bool, String))
    ensures
        r.0 == spec_accessibility(o@).0,
        r.1@ == spec_accessibility(o@).1,
{
    match o {
        ExecOutcome::Ran { success, stderr, .. } => {
            if *success {
                (true, "Docker accessible sans sudo".to_owned())
            } else {
                (false, stderr.clone())
            }
        },
        ExecOutcome::Failed { error } => (false, error.clone()),
    }
}

/// The display form of a container id: at most its first twelve characters.
pub open spec fn spec_short_id(s: Seq<char>) -> Seq<char> {
    if s.len() <= 12 {
        s
    } else {
        s.subrange(0, 12)
    }
}

/// Truncate a container id for display. A full 64-character id keeps only
/// its first twelve characters; a shorter id is kept whole.
pub fn short_id(id: &str) -> (r: &str)
    ensures
        r@ == spec_short_id(id@),
{
    let n = id.unicode_len();
    if n <= 12 {
        id
    } else {
        id.substring_char(0, 12)
    }
}

} // verus!
