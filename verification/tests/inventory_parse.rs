use commander::inventory::{
    check_runtime_accessible, container_of_line, containers_from_outcome, display_ip,
    line_is_lab_related, parse_container_listing, set_container_ip, short_id, ExecOutcome,
};

#[test]
fn lab_lines_are_recognised() {
    assert!(line_is_lab_related("snort_ids\tUp\timg\tid"));
    assert!(line_is_lab_related("target_zeek\tExited\timg\tid"));
    assert!(line_is_lab_related("evebox\tUp\timg\tid"));
    assert!(line_is_lab_related("suricata_editor\tUp\timg\tid"));
    assert!(line_is_lab_related("snort_reloader\tUp\timg\tid"));
    assert!(!line_is_lab_related("postgres\tUp\timg\tid"));
    assert!(!line_is_lab_related(""));
}

#[test]
fn listing_line_parses_into_fields() {
    let rec = container_of_line("suricata_ids\tUp 2 hours\tsuricata:7\tdeadbeef1234");
    assert_eq!(rec.name, "suricata_ids");
    assert_eq!(rec.status, "Up 2 hours");
    assert_eq!(rec.image, "suricata:7");
    assert_eq!(rec.id, "deadbeef1234");
    assert_eq!(rec.ip, "-");
}

#[test]
fn malformed_line_gives_empty_fields() {
    let rec = container_of_line("snort_ids");
    assert_eq!(rec.name, "snort_ids");
    assert_eq!(rec.status, "");
    assert_eq!(rec.image, "");
    assert_eq!(rec.id, "");
}

#[test]
fn listing_keeps_lab_lines_in_order() {
    let text = "snort_ids\tUp 2 hours\timg\taaa\n\
                postgres\tUp\timg\tbbb\n\
                target_snort\tExited (0)\timg\tccc\n";
    let records = parse_container_listing(text);
    assert_eq!(records.len(), 2);
    assert_eq!(records[0].name, "snort_ids");
    assert_eq!(records[1].name, "target_snort");
}

#[test]
fn failed_listing_degrades_to_empty() {
    let outcome = ExecOutcome::Failed { error: "No such file or directory".to_string() };
    assert!(containers_from_outcome(&outcome).is_empty());
}

#[test]
fn ran_listing_is_parsed_even_without_success() {
    let outcome = ExecOutcome::Ran {
        success: false,
        stdout: "zeek_ids\tUp\timg\tddd".to_string(),
        stderr: "warning".to_string(),
    };
    let records = containers_from_outcome(&outcome);
    assert_eq!(records.len(), 1);
    assert_eq!(records[0].name, "zeek_ids");
}

#[test]
fn address_display_normalises() {
    assert_eq!(display_ip("172.29.0.10\n"), "172.29.0.10");
    assert_eq!(display_ip(""), "-");
    assert_eq!(display_ip("   \n"), "-");
}

#[test]
fn resolved_address_lands_on_record() {
    let mut rec = container_of_line("snort_ids\tUp\timg\tabc");
    set_container_ip(&mut rec, "172.28.0.10\n");
    assert_eq!(rec.ip, "172.28.0.10");
    set_container_ip(&mut rec, "");
    assert_eq!(rec.ip, "-");
}

#[test]
fn accessibility_follows_probe_outcome() {
    let ok = ExecOutcome::Ran {
        success: true,
        stdout: String::new(),
        stderr: String::new(),
    };
    assert_eq!(check_runtime_accessible(&ok), (true, "Docker accessible sans sudo".to_string()));

    let denied = ExecOutcome::Ran {
        success: false,
        stdout: String::new(),
        stderr: "permission denied while trying to connect".to_string(),
    };
    let (accessible, diagnostic) = check_runtime_accessible(&denied);
    assert!(!accessible);
    assert_eq!(diagnostic, "permission denied while trying to connect");

    let unreachable = ExecOutcome::Failed { error: "No such file or directory".to_string() };
    let (accessible, diagnostic) = check_runtime_accessible(&unreachable);
    assert!(!accessible);
    assert_eq!(diagnostic, "No such file or directory");
}

#[test]
fn full_id_truncates_to_twelve() {
    let id = "0123456789abcdef0123456789abcdef0123456789abcdef0123456789abcdef";
    assert_eq!(id.len(), 64);
    assert_eq!(short_id(id), "0123456789ab");
}

#[test]
fn short_ids_are_kept_whole() {
    assert_eq!(short_id("abc"), "abc");
    assert_eq!(short_id(""), "");
    assert_eq!(short_id("0123456789ab"), "0123456789ab");
}
