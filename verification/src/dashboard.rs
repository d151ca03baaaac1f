//! The dashboard's view model: every container classified into exactly one
//! display group, its status reduced to running or stopped, its id truncated
//! for display, and the data of one full page assembled from the outcomes of
//! the runtime queries.

use vstd::prelude::*;

verus! {

use crate::inventory::{
    spec_accessibility, spec_short_id, check_runtime_accessible, short_id, ContainerRecord,
    ContainerRecordView, ExecOutcome,
};
use crate::level::{spec_level_of_content, current_level, RuleLevel};
use crate::network::{
    spec_interfaces_of_outcome, spec_networks_of_outcome, interfaces_from_outcome,
    networks_from_outcome, BridgeInterface, DockerNetwork,
};
use crate::text::{contains_seq, str_contains, str_eq};

/// The display group a container is shown under.
#[derive(Clone, Copy, PartialEq, Eq, Structural, Debug)]
pub enum ContainerGroup {
    IdsEngine,
    Target,
    Auxiliary,
}

/// A container name denotes an IDS engine: it carries the engine suffix, or
/// it is the bare name of one of the engines.
pub open spec fn is_ids_name(name: Seq<char>) -> bool {
    ||| contains_seq(name, "_ids"@)
    ||| name == "snort"@
    ||| name == "suricata"@
    ||| name == "zeek"@
}

/// The group a container name classifies into: engines first, then targets,
/// and everything else is an auxiliary service.
pub open spec fn spec_group_of(name: Seq<char>) -> ContainerGroup {
    if is_ids_name(name) {
        ContainerGroup::IdsEngine
    } else if contains_seq(name, "target"@) {
        ContainerGroup::Target
    } else {
        ContainerGroup::Auxiliary
    }
}

/// Classify a container name into its display group.
pub fn group_of(name: &str) -> (r: ContainerGroup)
    ensures
        r == spec_group_of(name@),
{
    let is_ids = str_contains(name, "_ids") || str_eq(name, "snort") || str_eq(name, "suricata")
        || str_eq(name, "zeek");
    if is_ids {
        ContainerGroup::IdsEngine
    } else if str_contains(name, "target") {
        ContainerGroup::Target
    } else {
        ContainerGroup::Auxiliary
    }
}

/// Every container name classifies into exactly one display group, with
/// engines taking precedence over targets and targets over services.
pub proof fn lemma_name_in_exactly_one_group(name: Seq<char>)
    ensures
        (spec_group_of(name) == ContainerGroup::IdsEngine) <==> is_ids_name(name),
        (spec_group_of(name) == ContainerGroup::Target) <==> (!is_ids_name(name) && contains_seq(
            name,
            "target"@,
        )),
        (spec_group_of(name) == ContainerGroup::Auxiliary) <==> (!is_ids_name(name)
            && !contains_seq(name, "target"@)),
{
}

/// A runtime status string means the container is running.
pub open spec fn spec_is_running(status: Seq<char>) -> bool {
    contains_seq(status, "Up"@)
}

/// Whether a runtime status string means the container is running.
pub fn is_running(status: &str) -> (r: bool)
    ensures
        r == spec_is_running(status@),
{
    str_contains(status, "Up")
}

/// The control action a row offers: a running container can be stopped, a
/// stopped one started.
pub open spec fn spec_action(running: bool) -> Seq<char> {
    if running {
        "stop"@
    } else {
        "start"@
    }
}

/// The control action offered for a container in the given state.
pub fn action_of(running: bool) -> (r: &'static str)
    ensures
        r@ == spec_action(running),
{
    if running {
        "stop"
    } else {
        "start"
    }
}

/// One dashboard table row.
pub struct ContainerRow {
    pub name: String,
    pub ip: String,
    /// The id truncated for display.
    pub short_id: String,
    pub running: bool,
}

/// Mathematical image of a `ContainerRow`.
pub struct ContainerRowView {
    pub name: Seq<char>,
    pub ip: Seq<char>,
    pub short_id: Seq<char>,
    pub running: bool,
}

impl View for ContainerRow {
    type V = ContainerRowView;

    open spec fn view(&self) -> ContainerRowView {
        ContainerRowView {
            name: self.name@,
            ip: self.ip@,
            short_id: self.short_id@,
            running: self.running,
        }
    }
}

impl DeepView for ContainerRow {
    type V = ContainerRowView;

    open spec fn deep_view(&self) -> ContainerRowView {
        self.view()
    }
}

/// The row a record is displayed as.
pub open spec fn spec_row_of(c: ContainerRecordView) -> ContainerRowView {
    ContainerRowView {
        name: c.name,
        ip: c.ip,
        short_id: spec_short_id(c.id),
        running: spec_is_running(c.status),
    }
}

/// Render one record as a dashboard row.
pub fn row_of(c: &ContainerRecord) -> (r: ContainerRow)
    ensures
        r@ == spec_row_of(c@),
{
    ContainerRow {
        name: c.name.clone(),
        ip: c.ip.clone(),
        short_id: short_id(c.id.as_str()).to_owned(),
        running: is_running(c.status.as_str()),
    }
}

/// The rows of the records whose names classify into group `g`, in listing
/// order.
pub open spec fn spec_rows_in_group(cs: Seq<ContainerRecordView>, g: ContainerGroup) -> Seq<
    ContainerRowView,
>
    decreases cs.len(),
{
    if cs.len() == 0 {
        Seq::empty()
    } else {
        let front = spec_rows_in_group(cs.drop_last(), g);
        if spec_group_of(cs.last().name) == g {
            front.push(spec_row_of(cs.last()))
        } else {
            front
        }
    }
}

/// The three container tables of the dashboard.
pub struct GroupedRows {
    pub ids: Vec<ContainerRow>,
    pub targets: Vec<ContainerRow>,
    pub services: Vec<ContainerRow>,
}

/// Split the inventory into the three display tables. Every record lands in
/// exactly one table, as the group of its name directs.
pub fn group_rows(cs: &Vec<ContainerRecord>) -> (r: GroupedRows)
    ensures
        r.ids.deep_view() == spec_rows_in_group(cs.deep_view(), ContainerGroup::IdsEngine),
        r.targets.deep_view() == spec_rows_in_group(cs.deep_view(), ContainerGroup::Target),
        r.services.deep_view() == spec_rows_in_group(cs.deep_view(), ContainerGroup::Auxiliary),
{
    let mut ids: Vec<ContainerRow> = Vec::new();
    let mut targets: Vec<ContainerRow> = Vec::new();
    let mut services: Vec<ContainerRow> = Vec::new();
    let n = cs.len();
    proof {
        assert(ids.deep_view() =~= spec_rows_in_group(
            cs.deep_view().take(0),
            ContainerGroup::IdsEngine,
        ));
        assert(targets.deep_view() =~= spec_rows_in_group(
            cs.deep_view().take(0),
            ContainerGroup::Target,
        ));
        assert(services.deep_view() =~= spec_rows_in_group(
            cs.deep_view().take(0),
            ContainerGroup::Auxiliary,
        ));
    }
    let mut i: usize = 0;
    while i < n
        invariant
            i <= n,
            n == cs@.len(),
            ids.deep_view() == spec_rows_in_group(
                cs.deep_view().take(i as int),
                ContainerGroup::IdsEngine,
            ),
            targets.deep_view() == spec_rows_in_group(
                cs.deep_view().take(i as int),
                ContainerGroup::Target,
            ),
            services.deep_view() == spec_rows_in_group(
                cs.deep_view().take(i as int),
                ContainerGroup::Auxiliary,
            ),
        decreases n - i,
    {
        let c = &cs[i];
        proof {
            assert(cs.deep_view()[i as int] == c@);
            assert(cs.deep_view().take(i + 1).drop_last() =~~= cs.deep_view().take(i as int));
            assert(cs.deep_view().take(i + 1).last() == c@);
        }
        let row = row_of(c);
        let ghost pre_ids = ids.deep_view();
        let ghost pre_targets = targets.deep_view();
        let ghost pre_services = services.deep_view();
        match group_of(c.name.as_str()) {
            ContainerGroup::IdsEngine => {
                ids.push(row);
                proof {
                    assert(ids.deep_view() =~= pre_ids.push(spec_row_of(c@)));
                }
            },
            ContainerGroup::Target => {
                targets.push(row);
                proof {
                    assert(targets.deep_view() =~= pre_targets.push(spec_row_of(c@)));
                }
            },
            ContainerGroup::Auxiliary => {
                services.push(row);
                proof {
                    assert(services.deep_view() =~= pre_services.push(spec_row_of(c@)));
                }
            },
        }
        i += 1;
    }
    proof {
        assert(cs.deep_view().take(n as int) =~~= cs.deep_view());
    }
    GroupedRows { ids, targets, services }
}

/// The display tables together hold every record exactly once: no container
/// is omitted, and none is shown in two groups.
pub proof fn lemma_groups_partition(cs: Seq<ContainerRecordView>)
    ensures
        spec_rows_in_group(cs, ContainerGroup::IdsEngine).len() + spec_rows_in_group(
            cs,
            ContainerGroup::Target,
        ).len() + spec_rows_in_group(cs, ContainerGroup::Auxiliary).len() == cs.len(),
    decreases cs.len(),
{
    if cs.len() > 0 {
        lemma_groups_partition(cs.drop_last());
    }
}

/// No record is omitted: every record's row is shown in the table of the
/// group its name classifies into, and — with the tables' lengths summing to
/// the number of records — in that table alone.
pub proof fn lemma_record_row_shown(cs: Seq<ContainerRecordView>, k: int)
    requires
        0 <= k < cs.len(),
    ensures
        spec_rows_in_group(cs, spec_group_of(cs[k].name)).contains(spec_row_of(cs[k])),
    decreases cs.len(),
{
    let g = spec_group_of(cs[k].name);
    let front = spec_rows_in_group(cs.drop_last(), g);
    if k == cs.len() - 1 {
        assert(front.push(spec_row_of(cs[k]))[front.len() as int] == spec_row_of(cs[k]));
    } else {
        lemma_record_row_shown(cs.drop_last(), k);
        assert(cs.drop_last()[k] == cs[k]);
        if spec_group_of(cs.last().name) == g {
            let w = choose|w: int| 0 <= w < front.len() && front[w] == spec_row_of(cs[k]);
            assert(front.push(spec_row_of(cs.last()))[w] == spec_row_of(cs[k]));
        }
    }
}

/// The address shown in the attack examples: the address of the first record
/// whose name carries the needle, or the fallback when none does.
pub open spec fn spec_first_ip_matching(
    cs: Seq<ContainerRecordView>,
    needle: Seq<char>,
    fallback: Seq<char>,
) -> Seq<char>
    decreases cs.len(),
{
    if cs.len() == 0 {
        fallback
    } else if contains_seq(cs.first().name, needle) {
        cs.first().ip
    } else {
        spec_first_ip_matching(cs.drop_first(), needle, fallback)
    }
}

/// Find the address of the first record whose name carries `needle`, falling
/// back to `fallback`.
pub fn first_ip_matching(cs: &Vec<ContainerRecord>, needle: &str, fallback: &str) -> (r: String)
    ensures
        r@ == spec_first_ip_matching(cs.deep_view(), needle@, fallback@),
{
    let n = cs.len();
    proof {
        assert(cs.deep_view().skip(0) =~~= cs.deep_view());
    }
    let mut i: usize = 0;
    while i < n
        invariant
            i <= n,
            n == cs@.len(),
            spec_first_ip_matching(cs.deep_view(), needle@, fallback@) == spec_first_ip_matching(
                cs.deep_view().skip(i as int),
                needle@,
                fallback@,
            ),
        decreases n - i,
    {
        proof {
            assert(cs.deep_view().skip(i as int).first() == cs.deep_view()[i as int]);
            assert(cs.deep_view().skip(i as int).drop_first() =~~= cs.deep_view().skip(i + 1));
        }
        if str_contains(cs[i].name.as_str(), needle) {
            return cs[i].ip.clone();
        }
        i += 1;
    }
    proof {
        assert(cs.deep_view().skip(n as int).len() == 0);
    }
    fallback.to_owned()
}

/// Everything one dashboard render needs, derived from the outcomes of the
/// runtime queries and the rule files' contents.
pub struct DashboardData {
    pub groups: GroupedRows,
    pub networks: Vec<DockerNetwork>,
    pub interfaces: Vec<BridgeInterface>,
    pub docker_ok: bool,
    pub docker_diag: String,
    pub snort_level: RuleLevel,
    pub suricata_level: RuleLevel,
    pub zeek_level: RuleLevel,
    /// The target address the attack examples are written against.
    pub attack_target_ip: String,
}

/// Assemble the data of one dashboard render. The records are the inventory
/// with addresses already resolved; each rule content is `None` when the
/// lab's rule file was missing or unreadable.
pub fn build_dashboard(
    records: Vec<ContainerRecord>,
    networks_outcome: &ExecOutcome,
    interfaces_outcome: &ExecOutcome,
    probe_outcome: &ExecOutcome,
    snort_rules: &Option<String>,
    suricata_rules: &Option<String>,
    zeek_rules: &Option<String>,
) -> (r: DashboardData)
    ensures
        r.groups.ids.deep_view() == spec_rows_in_group(
            records.deep_view(),
            ContainerGroup::IdsEngine,
        ),
        r.groups.targets.deep_view() == spec_rows_in_group(
            records.deep_view(),
            ContainerGroup::Target,
        ),
        r.groups.services.deep_view() == spec_rows_in_group(
            records.deep_view(),
            ContainerGroup::Auxiliary,
        ),
        r.networks.deep_view() == spec_networks_of_outcome(networks_outcome@),
        r.interfaces.deep_view() == spec_interfaces_of_outcome(interfaces_outcome@),
        r.docker_ok == spec_accessibility(probe_outcome@).0,
        r.docker_diag@ == spec_accessibility(probe_outcome@).1,
        r.snort_level == spec_level_of_content(spec_content(snort_rules)),
        r.suricata_level == spec_level_of_content(spec_content(suricata_rules)),
        r.zeek_level == spec_level_of_content(spec_content(zeek_rules)),
        r.attack_target_ip@ == spec_first_ip_matching(
            records.deep_view(),
            "target_suricata"@,
            "172.29.0.100"@,
        ),
{
    let groups = group_rows(&records);
    let networks = networks_from_outcome(networks_outcome);
    let interfaces = interfaces_from_outcome(interfaces_outcome);
    let (docker_ok, docker_diag) = check_runtime_accessible(probe_outcome);
    let snort_level = current_level(snort_rules);
    let suricata_level = current_level(suricata_rules);
    let zeek_level = current_level(zeek_rules);
    let attack_target_ip = first_ip_matching(&records, "target_suricata", "172.29.0.100");
    DashboardData {
        groups,
        networks,
        interfaces,
        docker_ok,
        docker_diag,
        snort_level,
        suricata_level,
        zeek_level,
        attack_target_ip,
    }
}

/// The view of optional rule-file content.
pub open spec fn spec_content(c: &Option<String>) -> Option<Seq<char>> {
    match c {
        Option::None => Option::None,
        Option::Some(s) => Option::Some(s@),
    }
}

} // verus!
