use commander::dashboard::{
    action_of, build_dashboard, first_ip_matching, group_of, group_rows, is_running, row_of,
    ContainerGroup,
};
use commander::inventory::{container_of_line, parse_container_listing, ExecOutcome};
use commander::lab::{
    default_project_root, join_path, lab_from_name, lab_name, logs_dir, project_dir, rules_path,
    template_dir, LabIdentity,
};
use commander::level::RuleLevel;

#[test]
fn names_classify_into_their_groups() {
    assert_eq!(group_of("suricata_ids"), ContainerGroup::IdsEngine);
    assert_eq!(group_of("snort"), ContainerGroup::IdsEngine);
    assert_eq!(group_of("target_suricata"), ContainerGroup::Target);
    assert_eq!(group_of("target_snort"), ContainerGroup::Target);
    assert_eq!(group_of("evebox"), ContainerGroup::Auxiliary);
    assert_eq!(group_of("zeek_editor"), ContainerGroup::Auxiliary);
    assert_eq!(group_of("snort_reloader"), ContainerGroup::Auxiliary);
}

#[test]
fn running_state_follows_status_text() {
    assert!(is_running("Up 2 hours"));
    assert!(is_running("Up 3 seconds (healthy)"));
    assert!(!is_running("Exited (0) 5 minutes ago"));
    assert!(!is_running("Created"));
}

#[test]
fn actions_match_running_state() {
    assert_eq!(action_of(true), "stop");
    assert_eq!(action_of(false), "start");
}

#[test]
fn row_keeps_name_and_truncates_id() {
    let id64 = "0123456789abcdef0123456789abcdef0123456789abcdef0123456789abcdef";
    let rec = container_of_line(&format!("snort_ids\tUp 2 hours\timg\t{}", id64));
    let row = row_of(&rec);
    assert_eq!(row.name, "snort_ids");
    assert_eq!(row.short_id, "0123456789ab");
    assert!(row.running);
}

#[test]
fn grouping_covers_every_record_once() {
    let text = "snort_ids\tUp 2 hours\timg\taaa\n\
                target_snort\tExited (0)\timg\tbbb\n\
                evebox\tUp 10 minutes\timg\tccc\n";
    let records = parse_container_listing(text);
    let groups = group_rows(&records);
    assert_eq!(groups.ids.len() + groups.targets.len() + groups.services.len(), records.len());
    assert_eq!(groups.ids[0].name, "snort_ids");
    assert_eq!(groups.targets[0].name, "target_snort");
    assert_eq!(groups.services[0].name, "evebox");
}

#[test]
fn dashboard_scenario_groups_and_offers_actions() {
    // One engine up, one target stopped: the engine lands in the IDS table
    // as running (so its button stops it), the target in the target table as
    // stopped (so its button starts it).
    let listing = "snort_ids\tUp 2 hours\timg\taaa111\n\
                   target_snort\tExited (0)\timg\tbbb222\n";
    let records = parse_container_listing(listing);
    let groups = group_rows(&records);

    assert_eq!(groups.ids.len(), 1);
    assert_eq!(groups.ids[0].name, "snort_ids");
    assert!(groups.ids[0].running);
    assert_eq!(action_of(groups.ids[0].running), "stop");

    assert_eq!(groups.targets.len(), 1);
    assert_eq!(groups.targets[0].name, "target_snort");
    assert!(!groups.targets[0].running);
    assert_eq!(action_of(groups.targets[0].running), "start");

    assert!(groups.services.is_empty());
}

#[test]
fn dashboard_scenario_unreachable_runtime() {
    // The runtime cannot be reached: the accessibility check reports it with
    // the diagnostic, every table renders empty, and nothing fails.
    let failed = || ExecOutcome::Failed { error: "Cannot connect to the Docker daemon".to_string() };
    let data = build_dashboard(
        Vec::new(),
        &failed(),
        &failed(),
        &failed(),
        &None,
        &None,
        &None,
    );
    assert!(!data.docker_ok);
    assert_eq!(data.docker_diag, "Cannot connect to the Docker daemon");
    assert!(data.groups.ids.is_empty());
    assert!(data.groups.targets.is_empty());
    assert!(data.groups.services.is_empty());
    assert!(data.networks.is_empty());
    assert!(data.interfaces.is_empty());
    assert_eq!(data.snort_level, RuleLevel::Unknown);
    assert_eq!(data.suricata_level, RuleLevel::Unknown);
    assert_eq!(data.zeek_level, RuleLevel::Unknown);
    assert_eq!(data.attack_target_ip, "172.29.0.100");
}

#[test]
fn attack_target_ip_prefers_live_record() {
    let listing = "target_suricata\tUp 1 hour\timg\tccc333\n";
    let mut records = parse_container_listing(listing);
    commander::inventory::set_container_ip(&mut records[0], "172.29.0.100\n");
    assert_eq!(first_ip_matching(&records, "target_suricata", "172.29.0.100"), "172.29.0.100");

    let other = parse_container_listing("snort_ids\tUp\timg\tddd\n");
    assert_eq!(first_ip_matching(&other, "target_suricata", "172.29.0.100"), "172.29.0.100");
}

#[test]
fn lab_names_round_trip() {
    assert_eq!(lab_from_name("snort"), Some(LabIdentity::Snort));
    assert_eq!(lab_from_name("suricata"), Some(LabIdentity::Suricata));
    assert_eq!(lab_from_name("zeek"), Some(LabIdentity::Zeek));
    assert_eq!(lab_from_name("nids"), None);
    assert_eq!(lab_from_name(""), None);
    assert_eq!(lab_name(LabIdentity::Zeek), "zeek");
}

#[test]
fn lab_paths_are_fixed() {
    assert_eq!(rules_path(LabIdentity::Snort), "snort-lab/config/local.rules");
    assert_eq!(rules_path(LabIdentity::Suricata), "suricata-lab/rules/local.rules");
    assert_eq!(rules_path(LabIdentity::Zeek), "zeek-lab/scripts/local.zeek");
    assert_eq!(template_dir(LabIdentity::Snort), "commander/templates/snort");
    assert_eq!(project_dir(LabIdentity::Suricata), "suricata-lab");
    assert_eq!(logs_dir(LabIdentity::Suricata), Some("suricata-lab/logs".to_string()));
    assert_eq!(logs_dir(LabIdentity::Snort), None);
    assert_eq!(logs_dir(LabIdentity::Zeek), None);
}

#[test]
fn paths_join_under_root() {
    assert_eq!(join_path("/srv/labs", "snort-lab"), "/srv/labs/snort-lab");
    assert_eq!(default_project_root(), "/home/rvv/Bureau/Rust.Nmap.Network");
}
