//! Rule-level resolution and template selection.
//!
//! The active detection level of a lab is derived from the first line of its
//! rule file: the line is matched, in order, against the marker texts of the
//! five preset levels; the first match wins, an unmatched line means a
//! hand-edited rule set, and a missing file means the level is unknown.

use vstd::prelude::*;

verus! {

use vstd::string::StrSliceExecFns;
use crate::lab::{spec_rules_path, rules_path, LabIdentity};
use crate::text::{
    contains_seq, spec_first_line, starts_with_seq, str_contains, first_line, str_starts_with,
};

/// The detection level a lab's rule file resolves to.
#[derive(Clone, Copy, PartialEq, Eq, Structural, Debug)]
pub enum RuleLevel {
    Minimal,
    Basic,
    Moderate,
    Strict,
    Paranoid,
    /// The first line of the rule file matches no preset marker.
    Custom,
    /// The rule file is missing or unreadable.
    Unknown,
}

/// The numbered marker text of preset level `n`, as it appears in the first
/// line of a template ("Level 1" .. "Level 5").
pub open spec fn level_tag(n: int) -> Seq<char> {
    if n == 1 {
        "Level 1"@
    } else if n == 2 {
        "Level 2"@
    } else if n == 3 {
        "Level 3"@
    } else if n == 4 {
        "Level 4"@
    } else {
        "Level 5"@
    }
}

/// The named marker text of preset level `n` ("Minimal" .. "Paranoid").
pub open spec fn level_name(n: int) -> Seq<char> {
    if n == 1 {
        "Minimal"@
    } else if n == 2 {
        "Basic"@
    } else if n == 3 {
        "Moderate"@
    } else if n == 4 {
        "Strict"@
    } else {
        "Paranoid"@
    }
}

/// The preset level ordinal `n` as a `RuleLevel`.
pub open spec fn level_of_ordinal(n: int) -> RuleLevel {
    if n == 1 {
        RuleLevel::Minimal
    } else if n == 2 {
        RuleLevel::Basic
    } else if n == 3 {
        RuleLevel::Moderate
    } else if n == 4 {
        RuleLevel::Strict
    } else {
        RuleLevel::Paranoid
    }
}

/// A line carries the marker of preset level `n`: it contains the numbered
/// tag or the level's name.
pub open spec fn line_marks_level(line: Seq<char>, n: int) -> bool {
    contains_seq(line, level_tag(n)) || contains_seq(line, level_name(n))
}

/// The level a single rule-file line resolves to: the lowest preset whose
/// marker the line carries, or `Custom` when it carries none.
pub open spec fn spec_level_of_line(line: Seq<char>) -> RuleLevel {
    if line_marks_level(line, 1) {
        RuleLevel::Minimal
    } else if line_marks_level(line, 2) {
        RuleLevel::Basic
    } else if line_marks_level(line, 3) {
        RuleLevel::Moderate
    } else if line_marks_level(line, 4) {
        RuleLevel::Strict
    } else if line_marks_level(line, 5) {
        RuleLevel::Paranoid
    } else {
        RuleLevel::Custom
    }
}

/// The level that rule-file content resolves to: `Unknown` for a missing
/// file, else the level of the content's first line.
pub open spec fn spec_level_of_content(content: Option<Seq<char>>) -> RuleLevel {
    match content {
        Option::None => RuleLevel::Unknown,
        Option::Some(c) => spec_level_of_line(spec_first_line(c)),
    }
}

/// Whether `line` carries the marker of preset level `n`.
fn line_has_marker(line: &str, n: u8) -> (r: bool)
    requires
        1 <= n <= 5,
    ensures
        r == line_marks_level(line@, n as int),
{
    if n == 1 {
        str_contains(line, "Level 1") || str_contains(line, "Minimal")
    } else if n == 2 {
        str_contains(line, "Level 2") || str_contains(line, "Basic")
    } else if n == 3 {
        str_contains(line, "Level 3") || str_contains(line, "Moderate")
    } else if n == 4 {
        str_contains(line, "Level 4") || str_contains(line, "Strict")
    } else {
        str_contains(line, "Level 5") || str_contains(line, "Paranoid")
    }
}

/// Resolve the level of a single rule-file line.
pub fn level_of_line(line: &str) -> (r: RuleLevel)
    ensures
        r == spec_level_of_line(line@),
{
    if line_has_marker(line, 1) {
        RuleLevel::Minimal
    } else if line_has_marker(line, 2) {
        RuleLevel::Basic
    } else if line_has_marker(line, 3) {
        RuleLevel::Moderate
    } else if line_has_marker(line, 4) {
        RuleLevel::Strict
    } else if line_has_marker(line, 5) {
        RuleLevel::Paranoid
    } else {
        RuleLevel::Custom
    }
}

/// Resolve the current level from rule-file content; `None` stands for a
/// file that is missing or could not be read.
pub fn current_level(content: &Option<String>) -> (r: RuleLevel)
    ensures
        r == spec_level_of_content(
            match content {
                Option::None => Option::None,
                Option::Some(c) => Option::Some(c@),
            },
        ),
{
    match content {
        Option::None => RuleLevel::Unknown,
        Option::Some(c) => level_of_line(first_line(c.as_str())),
    }
}

/// The label a level is displayed under.
pub open spec fn spec_level_label(l: RuleLevel) -> Seq<char> {
    match l {
        RuleLevel::Minimal => "1 - Minimal"@,
        RuleLevel::Basic => "2 - Basic"@,
        RuleLevel::Moderate => "3 - Moderate"@,
        RuleLevel::Strict => "4 - Strict"@,
        RuleLevel::Paranoid => "5 - Paranoid"@,
        RuleLevel::Custom => "Custom"@,
        RuleLevel::Unknown => "N/A"@,
    }
}

/// Render a level as its display label.
pub fn level_label(l: RuleLevel) -> (r: String)
    ensures
        r@ == spec_level_label(l),
{
    match l {
        RuleLevel::Minimal => "1 - Minimal".to_owned(),
        RuleLevel::Basic => "2 - Basic".to_owned(),
        RuleLevel::Moderate => "3 - Moderate".to_owned(),
        RuleLevel::Strict => "4 - Strict".to_owned(),
        RuleLevel::Paranoid => "5 - Paranoid".to_owned(),
        RuleLevel::Custom => "Custom".to_owned(),
        RuleLevel::Unknown => "N/A".to_owned(),
    }
}

/// The filename prefix of the templates of preset level `n`.
pub open spec fn spec_template_prefix(n: int) -> Seq<char> {
    if n == 1 {
        "level1"@
    } else if n == 2 {
        "level2"@
    } else if n == 3 {
        "level3"@
    } else if n == 4 {
        "level4"@
    } else {
        "level5"@
    }
}

/// The filename prefix the templates of preset level `n` are found under.
pub fn template_prefix(n: u8) -> (r: String)
    requires
        1 <= n <= 5,
    ensures
        r@ == spec_template_prefix(n as int),
{
    if n == 1 {
        "level1".to_owned()
    } else if n == 2 {
        "level2".to_owned()
    } else if n == 3 {
        "level3".to_owned()
    } else if n == 4 {
        "level4".to_owned()
    } else {
        "level5".to_owned()
    }
}

/// Parse a level ordinal from a request path segment: exactly one digit
/// between '1' and '5'.
pub fn parse_level_digit(s: &str) -> (r: Option<u8>)
    ensures
        match r {
            Option::Some(n) => 1 <= n <= 5 && s@.len() == 1 && s@[0] == ('0' as u8 + n) as char,
            Option::None => !(s@.len() == 1 && '1' <= s@[0] <= '5'),
        },
{
    if s.unicode_len() != 1 {
        return Option::None;
    }
    let c = s.get_char(0);
    if c == '1' {
        Option::Some(1)
    } else if c == '2' {
        Option::Some(2)
    } else if c == '3' {
        Option::Some(3)
    } else if c == '4' {
        Option::Some(4)
    } else if c == '5' {
        Option::Some(5)
    } else {
        Option::None
    }
}

/// Pick the template to apply: the first name in `names` that starts with
/// `prefix`, or none when no name does.
pub fn select_template(names: &Vec<String>, prefix: &str) -> (r: Option<usize>)
    ensures
        match r {
            Option::Some(i) => i < names@.len() && starts_with_seq(names@[i as int]@, prefix@)
                && forall|j: int| 0 <= j < i ==> !starts_with_seq(names@[j]@, prefix@),
            Option::None => forall|j: int|
                0 <= j < names@.len() ==> !starts_with_seq(names@[j]@, prefix@),
        },
{
    let n = names.len();
    let mut i: usize = 0;
    while i < n
        invariant
            i <= n,
            n == names@.len(),
            forall|j: int| 0 <= j < i ==> !starts_with_seq(names@[j]@, prefix@),
        decreases n - i,
    {
        if str_starts_with(names[i].as_str(), prefix) {
            return Option::Some(i);
        }
        i += 1;
    }
    Option::None
}

/// How one rule-level application proceeds: which template file to copy, and
/// over which destination.
pub struct ApplyPlan {
    /// Index into the listed template names of the file to copy.
    pub template_index: usize,
    /// The lab's active rule file, relative to the project root.
    pub dest_path: String,
}

/// Decide what applying preset `level` to `lab` does, given the names found
/// in the lab's template directory: the first name with the level's prefix is
/// copied over the lab's active rule file. With no matching template there is
/// no plan, and the caller mutates nothing — the request still succeeds.
pub fn plan_rule_application(lab: LabIdentity, level: u8, names: &Vec<String>) -> (r: Option<
    ApplyPlan,
>)
    requires
        1 <= level <= 5,
    ensures
        match r {
            Option::Some(p) => {
                &&& p.template_index < names@.len()
                &&& starts_with_seq(
                    names@[p.template_index as int]@,
                    spec_template_prefix(level as int),
                )
                &&& forall|j: int|
                    0 <= j < p.template_index ==> !starts_with_seq(
                        names@[j]@,
                        spec_template_prefix(level as int),
                    )
                &&& p.dest_path@ == spec_rules_path(lab)
            },
            Option::None => forall|j: int|
                0 <= j < names@.len() ==> !starts_with_seq(
                    names@[j]@,
                    spec_template_prefix(level as int),
                ),
        },
{
    let prefix = template_prefix(level);
    match select_template(names, prefix.as_str()) {
        Option::Some(i) => Option::Some(
            ApplyPlan { template_index: i, dest_path: rules_path(lab) },
        ),
        Option::None => Option::None,
    }
}

/// Two reads of the same rule-file content resolve to the same level: the
/// resolution is a pure function of the content, so repeating it without an
/// intervening modification cannot change the answer.
pub proof fn lemma_level_resolution_stable(c1: Option<Seq<char>>, c2: Option<Seq<char>>)
    requires
        c1 == c2,
    ensures
        spec_level_of_content(c1) == spec_level_of_content(c2),
{
}

/// Applying a preset and re-reading the rule file yields that preset's level,
/// provided the applied template's first line carries the preset's marker and
/// no marker of a lower preset.
pub proof fn lemma_applied_template_resolves(content: Seq<char>, n: int)
    requires
        1 <= n <= 5,
        line_marks_level(spec_first_line(content), n),
        forall|m: int| 1 <= m < n ==> !line_marks_level(spec_first_line(content), m),
    ensures
        spec_level_of_content(Option::Some(content)) == level_of_ordinal(n),
{
}

/// A first line carrying no preset marker resolves to `Custom`, and a
/// missing file resolves to `Unknown`.
pub proof fn lemma_unmarked_content_resolution(content: Seq<char>)
    requires
        forall|m: int| 1 <= m <= 5 ==> !line_marks_level(spec_first_line(content), m),
    ensures
        spec_level_of_content(Option::Some(content)) == RuleLevel::Custom,
        spec_level_of_content(Option::None) == RuleLevel::Unknown,
{
}

} // verus!
