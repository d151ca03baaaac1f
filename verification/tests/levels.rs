use commander::lab::LabIdentity;
use commander::level::{
    current_level, level_label, level_of_line, parse_level_digit, plan_rule_application,
    select_template, template_prefix, RuleLevel,
};

#[test]
fn each_numbered_tag_resolves() {
    assert_eq!(level_of_line("# Level 1 rules"), RuleLevel::Minimal);
    assert_eq!(level_of_line("# Level 2 rules"), RuleLevel::Basic);
    assert_eq!(level_of_line("# Level 3 rules"), RuleLevel::Moderate);
    assert_eq!(level_of_line("# Level 4 rules"), RuleLevel::Strict);
    assert_eq!(level_of_line("# Level 5 rules"), RuleLevel::Paranoid);
}

#[test]
fn each_level_name_resolves() {
    assert_eq!(level_of_line("## Minimal preset"), RuleLevel::Minimal);
    assert_eq!(level_of_line("## Basic preset"), RuleLevel::Basic);
    assert_eq!(level_of_line("## Moderate preset"), RuleLevel::Moderate);
    assert_eq!(level_of_line("## Strict preset"), RuleLevel::Strict);
    assert_eq!(level_of_line("## Paranoid preset"), RuleLevel::Paranoid);
}

#[test]
fn first_marker_wins_in_order() {
    // A line carrying two markers resolves to the lower level.
    assert_eq!(level_of_line("# Minimal Level 3"), RuleLevel::Minimal);
    assert_eq!(level_of_line("# Level 2 then Level 5"), RuleLevel::Basic);
}

#[test]
fn unmarked_line_is_custom() {
    assert_eq!(level_of_line("alert tcp any any -> any any"), RuleLevel::Custom);
    assert_eq!(level_of_line(""), RuleLevel::Custom);
}

#[test]
fn missing_content_is_unknown() {
    assert_eq!(current_level(&None), RuleLevel::Unknown);
}

#[test]
fn level_uses_first_line_only() {
    let content = "# custom header\n# Level 4 mentioned below".to_string();
    assert_eq!(current_level(&Some(content)), RuleLevel::Custom);
}

#[test]
fn resolution_is_idempotent() {
    let contents = [
        Some("# Level 3 - Moderate\nalert tcp".to_string()),
        Some("hand edited\n".to_string()),
        Some(String::new()),
        None,
    ];
    for content in contents.iter() {
        assert_eq!(current_level(content), current_level(content));
    }
}

#[test]
fn applying_template_yields_its_level() {
    // The template copied for level 3 starts with the matching marker, so
    // re-reading the rule file right after the copy reports that level.
    let template_content = "# Level 3 - Moderate\nalert tcp any any -> any any".to_string();
    let after_apply = current_level(&Some(template_content));
    assert_eq!(after_apply, RuleLevel::Moderate);
    assert_eq!(level_label(after_apply), "3 - Moderate");
}

#[test]
fn labels_match_display_names() {
    assert_eq!(level_label(RuleLevel::Minimal), "1 - Minimal");
    assert_eq!(level_label(RuleLevel::Basic), "2 - Basic");
    assert_eq!(level_label(RuleLevel::Moderate), "3 - Moderate");
    assert_eq!(level_label(RuleLevel::Strict), "4 - Strict");
    assert_eq!(level_label(RuleLevel::Paranoid), "5 - Paranoid");
    assert_eq!(level_label(RuleLevel::Custom), "Custom");
    assert_eq!(level_label(RuleLevel::Unknown), "N/A");
}

#[test]
fn level_digits_parse_strictly() {
    assert_eq!(parse_level_digit("1"), Some(1));
    assert_eq!(parse_level_digit("5"), Some(5));
    assert_eq!(parse_level_digit("0"), None);
    assert_eq!(parse_level_digit("6"), None);
    assert_eq!(parse_level_digit("12"), None);
    assert_eq!(parse_level_digit(""), None);
    assert_eq!(parse_level_digit("x"), None);
}

#[test]
fn template_prefixes_are_level_names() {
    assert_eq!(template_prefix(1), "level1");
    assert_eq!(template_prefix(5), "level5");
}

#[test]
fn template_selection_takes_first_match() {
    let names = vec![
        "level1_minimal.rules".to_string(),
        "level3_moderate.rules".to_string(),
        "level3_alt.rules".to_string(),
    ];
    assert_eq!(select_template(&names, "level3"), Some(1));
    assert_eq!(select_template(&names, "level1"), Some(0));
    assert_eq!(select_template(&names, "level5"), None);
    assert_eq!(select_template(&Vec::new(), "level1"), None);
}

#[test]
fn no_matching_template_means_no_plan() {
    // With no template for the requested level nothing is copied: there is
    // no plan, so the destination file stays untouched and no error arises.
    let names = vec!["level1_minimal.rules".to_string(), "readme.txt".to_string()];
    assert!(plan_rule_application(LabIdentity::Suricata, 4, &names).is_none());

    let plan = plan_rule_application(LabIdentity::Suricata, 1, &names).unwrap();
    assert_eq!(plan.template_index, 0);
    assert_eq!(plan.dest_path, "suricata-lab/rules/local.rules");
}
