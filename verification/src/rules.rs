//! The rule table that turns the textual state of a capability into its
//! numeric code.
//!
//! A rule names a capability, lists the states it knows with the code of
//! each, and may give a code for every other state. Capability names and
//! states are compared without regard to ASCII case. The table is searched in
//! order and the first rule whose capability matches decides alone. An
//! attribute that no rule claims falls back on its declared data type.

use vstd::prelude::*;
use crate::text::{ascii_lower, ascii_lower_char, eq_ignore_ascii_case, eq_ignore_case, str_eq};

verus! {

/// A rule as the contracts see it.
pub struct RuleSpec {
    /// The capability the rule is for.
    pub capability: Seq<char>,
    /// The states the rule lists, each with its code, in the order in which
    /// they are tried.
    pub cases: Seq<(Seq<char>, Seq<char>)>,
    /// The code of a state that is not listed; `None` where such a state has
    /// no value.
    pub otherwise: Option<Seq<char>>,
}

/// The rule that gives `state` the code 1 and every other state the code 0.
pub open spec fn one_when(capability: Seq<char>, state: Seq<char>) -> RuleSpec {
    RuleSpec { capability, cases: seq![(state, "1"@)], otherwise: Some("0"@) }
}

/// The rule that gives `state` the code 0 and every other state the code 1.
pub open spec fn zero_when(capability: Seq<char>, state: Seq<char>) -> RuleSpec {
    RuleSpec { capability, cases: seq![(state, "0"@)], otherwise: Some("1"@) }
}

/// The rules, in the order in which they are tried.
pub open spec fn rule_table() -> Seq<RuleSpec> {
    seq![
        one_when("acceleration"@, "active"@),
        RuleSpec {
            capability: "alarm"@,
            cases: seq![("off"@, "0"@), ("inactive"@, "0"@)],
            otherwise: Some("1"@),
        },
        one_when("presence"@, "present"@),
        one_when("presence"@, "present"@),
        one_when("switch"@, "on"@),
        one_when("button"@, "pushed"@),
        one_when("carbonMonoxide"@, "detected"@),
        one_when("status"@, "playing"@),
        one_when("consumableStatus"@, "good"@),
        zero_when("contact"@, "closed"@),
        one_when("indicatorStatus"@, "when on"@),
        zero_when("lock"@, "locked"@),
        one_when("motion"@, "active"@),
        one_when("shock"@, "detected"@),
        one_when("mute"@, "muted"@),
        one_when("sleeping"@, "sleeping"@),
        one_when("smoke"@, "detected"@),
        one_when("sound"@, "detected"@),
        one_when("tamper"@, "detected"@),
        RuleSpec {
            capability: "door"@,
            cases: seq![
                ("closed"@, "0"@),
                ("closing"@, "1"@),
                ("open"@, "2"@),
                ("opening"@, "3"@),
                ("unknown"@, "4"@),
            ],
            otherwise: None,
        },
        RuleSpec {
            capability: "thermostatMode"@,
            cases: seq![
                ("off"@, "0"@),
                ("auto"@, "1"@),
                ("heat"@, "2"@),
                ("cool"@, "3"@),
                ("emergency heat"@, "4"@),
            ],
            otherwise: None,
        },
        zero_when("thermostatFanMode"@, "off"@),
        RuleSpec {
            capability: "thermostatOperatingState"@,
            cases: seq![
                ("idle"@, "0"@),
                ("heating"@, "1"@),
                ("cooling"@, "2"@),
                ("pending heat"@, "3"@),
                ("pending cool"@, "4"@),
                ("vent economizer"@, "5"@),
                ("fan only"@, "6"@),
            ],
            otherwise: None,
        },
        zero_when("thermostatSetpointMode"@, "followSchedule"@),
        one_when("timedSession"@, "running"@),
        one_when("touch"@, "touched"@),
        one_when("valve"@, "open"@),
        one_when("camera"@, "on"@),
        one_when("water"@, "wet"@),
        RuleSpec {
            capability: "windowShade"@,
            cases: seq![("opening"@, "1"@), ("partially open"@, "1"@), ("open"@, "1"@)],
            otherwise: Some("0"@),
        },
        one_when("optimisation"@, "active"@),
        one_when("windowFunction"@, "active"@),
        one_when("rain"@, "active"@),
        one_when("rainHeavy"@, "active"@),
        one_when("heatAlarm"@, "overheat"@),
    ]
}

/// The first rule of `table` whose capability is `name` up to case.
pub open spec fn find_rule(table: Seq<RuleSpec>, name: Seq<char>) -> Option<RuleSpec>
    decreases table.len(),
{
    if table.len() == 0 {
        None
    } else if eq_ignore_case(name, table[0].capability) {
        Some(table[0])
    } else {
        find_rule(table.drop_first(), name)
    }
}

/// The code of `value` under a rule: that of the first listed state that is
/// `value` up to case, else the rule's code for other states.
pub open spec fn code_of(
    cases: Seq<(Seq<char>, Seq<char>)>,
    otherwise: Option<Seq<char>>,
    value: Seq<char>,
) -> Option<Seq<char>>
    decreases cases.len(),
{
    if cases.len() == 0 {
        otherwise
    } else if eq_ignore_case(value, cases[0].0) {
        Some(cases[0].1)
    } else {
        code_of(cases.drop_first(), otherwise, value)
    }
}

/// What an attribute that no rule claims is worth: a `NUMBER` passes its
/// value on unless it is empty, and any other attribute that reads "on"
/// counts as 1.
pub open spec fn fallback(data_type: Seq<char>, value: Seq<char>) -> Option<Seq<char>> {
    if data_type == "NUMBER"@ {
        if value.len() > 0 {
            Some(value)
        } else {
            None
        }
    } else if eq_ignore_case(value, "on"@) {
        Some("1"@)
    } else {
        None
    }
}

/// The numeric value of an attribute under `table`, `None` where the
/// attribute has none and is left out.
pub open spec fn normalize_with(
    table: Seq<RuleSpec>,
    name: Seq<char>,
    data_type: Seq<char>,
    value: Seq<char>,
) -> Option<Seq<char>> {
    match find_rule(table, name) {
        Some(rule) => code_of(rule.cases, rule.otherwise, value),
        None => fallback(data_type, value),
    }
}

/// The numeric value of an attribute under the rules of this crate.
pub open spec fn normalize(name: Seq<char>, data_type: Seq<char>, value: Seq<char>) -> Option<
    Seq<char>,
> {
    normalize_with(rule_table(), name, data_type, value)
}

/// The characters of an optional string.
pub open spec fn text_of(s: Option<String>) -> Option<Seq<char>> {
    match s {
        Some(s) => Some(s@),
        None => None,
    }
}

/// A rule as the program holds it.
pub struct Rule {
    pub capability: &'static str,
    pub cases: Vec<(&'static str, &'static str)>,
    pub otherwise: Option<&'static str>,
}

/// The listed states of a rule as the contracts see them.
pub open spec fn cases_view(cases: Seq<(&'static str, &'static str)>) -> Seq<
    (Seq<char>, Seq<char>),
> {
    Seq::new(cases.len(), |i: int| (cases[i].0@, cases[i].1@))
}

impl View for Rule {
    type V = RuleSpec;

    open spec fn view(&self) -> RuleSpec {
        RuleSpec {
            capability: self.capability@,
            cases: cases_view(self.cases@),
            otherwise: match self.otherwise {
                Some(code) => Some(code@),
                None => None,
            },
        }
    }
}

/// A table of rules as the contracts see it.
pub open spec fn rules_view(table: Seq<Rule>) -> Seq<RuleSpec> {
    Seq::new(table.len(), |i: int| table[i]@)
}

impl Rule {
    /// The rule that gives `state` the code 1 and every other state the code 0.
    pub fn one_when(capability: &'static str, state: &'static str) -> (rule: Rule)
        ensures
            rule@ == one_when(capability@, state@),
    {
        let mut cases: Vec<(&'static str, &'static str)> = Vec::new();
        cases.push((state, "1"));
        let rule = Rule { capability, cases, otherwise: Some("0") };
        assert(rule@.cases =~= seq![(state@, "1"@)]);
        rule
    }

    /// The rule that gives `state` the code 0 and every other state the code 1.
    pub fn zero_when(capability: &'static str, state: &'static str) -> (rule: Rule)
        ensures
            rule@ == zero_when(capability@, state@),
    {
        let mut cases: Vec<(&'static str, &'static str)> = Vec::new();
        cases.push((state, "0"));
        let rule = Rule { capability, cases, otherwise: Some("1") };
        assert(rule@.cases =~= seq![(state@, "0"@)]);
        rule
    }

    /// The rule for `capability` that lists `cases` and gives every other
    /// state the code `otherwise`.
    pub fn listed(
        capability: &'static str,
        cases: Vec<(&'static str, &'static str)>,
        otherwise: Option<&'static str>,
    ) -> (rule: Rule)
        ensures
            rule.capability == capability,
            rule.cases == cases,
            rule.otherwise == otherwise,
    {
        Rule { capability, cases, otherwise }
    }

    /// The code this rule gives `value`.
    pub fn code(&self, value: &str) -> (code: Option<&'static str>)
        ensures
            match code {
                Some(c) => code_of(self@.cases, self@.otherwise, value@) == Some(c@),
                None => code_of(self@.cases, self@.otherwise, value@) is None,
            },
    {
        let ghost cases = self@.cases;
        let mut i: usize = 0;
        assert(cases.skip(0) =~= cases);
        while i < self.cases.len()
            invariant
                i <= self.cases.len(),
                cases == self@.cases,
                code_of(cases, self@.otherwise, value@) == code_of(
                    cases.skip(i as int),
                    self@.otherwise,
                    value@,
                ),
            decreases self.cases.len() - i,
        {
            let case = self.cases[i];
            proof {
                assert(cases.skip(i as int)[0] == (case.0@, case.1@));
                assert(cases.skip(i as int).drop_first() =~= cases.skip(i as int + 1));
            }
            if eq_ignore_ascii_case(value, case.0) {
                return Some(case.1);
            }
            i += 1;
        }
        self.otherwise
    }
}

/// The rules of this crate, in the order in which they are tried.
pub fn standard_rules() -> (table: Vec<Rule>)
    ensures
        rules_view(table@) == rule_table(),
{
    let mut table: Vec<Rule> = Vec::new();
    table.push(Rule::one_when("acceleration", "active"));
    table.push(Rule::listed("alarm", vec![("off", "0"), ("inactive", "0")], Some("1")));
    table.push(Rule::one_when("presence", "present"));
    table.push(Rule::one_when("presence", "present"));
    table.push(Rule::one_when("switch", "on"));
    table.push(Rule::one_when("button", "pushed"));
    table.push(Rule::one_when("carbonMonoxide", "detected"));
    table.push(Rule::one_when("status", "playing"));
    table.push(Rule::one_when("consumableStatus", "good"));
    table.push(Rule::zero_when("contact", "closed"));
    table.push(Rule::one_when("indicatorStatus", "when on"));
    table.push(Rule::zero_when("lock", "locked"));
    table.push(Rule::one_when("motion", "active"));
    table.push(Rule::one_when("shock", "detected"));
    table.push(Rule::one_when("mute", "muted"));
    table.push(Rule::one_when("sleeping", "sleeping"));
    table.push(Rule::one_when("smoke", "detected"));
    table.push(Rule::one_when("sound", "detected"));
    table.push(Rule::one_when("tamper", "detected"));
    table.push(
        Rule::listed(
            "door",
            vec![("closed", "0"), ("closing", "1"), ("open", "2"), ("opening", "3"), ("unknown", "4")],
            None,
        ),
    );
    table.push(
        Rule::listed(
            "thermostatMode",
            vec![("off", "0"), ("auto", "1"), ("heat", "2"), ("cool", "3"), ("emergency heat", "4")],
            None,
        ),
    );
    table.push(Rule::zero_when("thermostatFanMode", "off"));
    table.push(
        Rule::listed(
            "thermostatOperatingState",
            vec![
                ("idle", "0"),
                ("heating", "1"),
                ("cooling", "2"),
                ("pending heat", "3"),
                ("pending cool", "4"),
                ("vent economizer", "5"),
                ("fan only", "6"),
            ],
            None,
        ),
    );
    table.push(Rule::zero_when("thermostatSetpointMode", "followSchedule"));
    table.push(Rule::one_when("timedSession", "running"));
    table.push(Rule::one_when("touch", "touched"));
    table.push(Rule::one_when("valve", "open"));
    table.push(Rule::one_when("camera", "on"));
    table.push(Rule::one_when("water", "wet"));
    table.push(
        Rule::listed(
            "windowShade",
            vec![("opening", "1"), ("partially open", "1"), ("open", "1")],
            Some("0"),
        ),
    );
    table.push(Rule::one_when("optimisation", "active"));
    table.push(Rule::one_when("windowFunction", "active"));
    table.push(Rule::one_when("rain", "active"));
    table.push(Rule::one_when("rainHeavy", "active"));
    table.push(Rule::one_when("heatAlarm", "overheat"));
    proof {
        assert(rules_view(table@)[1].cases =~= rule_table()[1].cases);
        assert(rules_view(table@)[19].cases =~= rule_table()[19].cases);
        assert(rules_view(table@)[20].cases =~= rule_table()[20].cases);
        assert(rules_view(table@)[22].cases =~= rule_table()[22].cases);
        assert(rules_view(table@)[29].cases =~= rule_table()[29].cases);
        assert(rules_view(table@) =~= rule_table());
    }
    table
}

/// The numeric value of an attribute under `table`: the code its rule gives
/// the current value, or what its data type falls back on where no rule is
/// for it. `None` means that the attribute has no value and is left out.
pub fn normalize_in(table: &Vec<Rule>, name: &str, data_type: &str, value: &str) -> (code: Option<
    String,
>)
    ensures
        text_of(code) == normalize_with(rules_view(table@), name@, data_type@, value@),
{
    let ghost rules = rules_view(table@);
    let mut i: usize = 0;
    assert(rules.skip(0) =~= rules);
    while i < table.len()
        invariant
            i <= table.len(),
            rules == rules_view(table@),
            find_rule(rules, name@) == find_rule(rules.skip(i as int), name@),
        decreases table.len() - i,
    {
        let rule = &table[i];
        proof {
            assert(rules.skip(i as int)[0] == rule@);
            assert(rules.skip(i as int).drop_first() =~= rules.skip(i as int + 1));
        }
        if eq_ignore_ascii_case(name, rule.capability) {
            return match rule.code(value) {
                Some(code) => Some(code.to_owned()),
                None => None,
            };
        }
        i += 1;
    }
    if str_eq(data_type, "NUMBER") {
        if value.is_empty() {
            None
        } else {
            Some(value.to_owned())
        }
    } else if eq_ignore_ascii_case(value, "on") {
        Some("1".to_owned())
    } else {
        None
    }
}

/// Whether `table` has a rule for the capability `name`.
pub open spec fn has_rule(table: Seq<RuleSpec>, name: Seq<char>) -> bool {
    exists|i: int| 0 <= i < table.len() && eq_ignore_case(name, #[trigger] table[i].capability)
}

/// A rule is found exactly for the capabilities that the table has a rule
/// for.
pub proof fn lemma_find_rule_some(table: Seq<RuleSpec>, name: Seq<char>)
    ensures
        find_rule(table, name) is Some <==> has_rule(table, name),
    decreases table.len(),
{
    if table.len() > 0 {
        let rest = table.drop_first();
        lemma_find_rule_some(rest, name);
        if eq_ignore_case(name, table[0].capability) {
        } else if has_rule(rest, name) {
            let i = choose|i: int| 0 <= i < rest.len() && eq_ignore_case(name, #[trigger] rest[i].capability);
            assert(table[i + 1] == rest[i]);
        } else if has_rule(table, name) {
            let i = choose|i: int| 0 <= i < table.len() && eq_ignore_case(name, #[trigger] table[i].capability);
            assert(rest[i - 1] == table[i]);
        }
    }
}

/// First match wins: the rule at `k` decides for `name` where its capability
/// is `name` up to case and that of no earlier rule is.
pub proof fn lemma_first_match(table: Seq<RuleSpec>, name: Seq<char>, k: int)
    requires
        0 <= k < table.len(),
        eq_ignore_case(name, table[k].capability),
        forall|j: int| 0 <= j < k ==> !eq_ignore_case(name, #[trigger] table[j].capability),
    ensures
        find_rule(table, name) == Some(table[k]),
    decreases k,
{
    if k > 0 {
        let rest = table.drop_first();
        assert forall|j: int| 0 <= j < k - 1 implies !eq_ignore_case(
            name,
            #[trigger] rest[j].capability,
        ) by {
            assert(rest[j] == table[j + 1]);
        }
        assert(rest[k - 1] == table[k]);
        lemma_first_match(rest, name, k - 1);
    }
}

/// Which rule a capability is given depends on its name up to case only.
pub proof fn lemma_find_rule_ignores_case(table: Seq<RuleSpec>, name: Seq<char>, other: Seq<char>)
    requires
        eq_ignore_case(name, other),
    ensures
        find_rule(table, name) == find_rule(table, other),
    decreases table.len(),
{
    if table.len() > 0 {
        lemma_find_rule_ignores_case(table.drop_first(), name, other);
    }
}

/// The code of a state under a rule depends on the state up to case only.
pub proof fn lemma_code_ignores_case(
    cases: Seq<(Seq<char>, Seq<char>)>,
    otherwise: Option<Seq<char>>,
    value: Seq<char>,
    other: Seq<char>,
)
    requires
        eq_ignore_case(value, other),
    ensures
        code_of(cases, otherwise, value) == code_of(cases, otherwise, other),
    decreases cases.len(),
{
    if cases.len() > 0 {
        lemma_code_ignores_case(cases.drop_first(), otherwise, value, other);
    }
}

/// For a capability that the table has a rule for, the numeric value is a
/// function of the capability name and the current value alone, each taken
/// up to case: the declared data type has no part in it.
pub proof fn lemma_normalize_ignores_case(
    name: Seq<char>,
    data_type: Seq<char>,
    value: Seq<char>,
    other_name: Seq<char>,
    other_data_type: Seq<char>,
    other_value: Seq<char>,
)
    requires
        has_rule(rule_table(), name),
        eq_ignore_case(name, other_name),
        eq_ignore_case(value, other_value),
    ensures
        normalize(name, data_type, value) == normalize(other_name, other_data_type, other_value),
{
    lemma_find_rule_some(rule_table(), name);
    lemma_find_rule_ignores_case(rule_table(), name, other_name);
    let rule = find_rule(rule_table(), name)->0;
    lemma_code_ignores_case(rule.cases, rule.otherwise, value, other_value);
}

/// A `NUMBER` attribute whose capability the table has no rule for passes
/// its current value on as it stands, and has no value where that is empty.
pub proof fn lemma_number_passes_through(name: Seq<char>, value: Seq<char>)
    requires
        !has_rule(rule_table(), name),
    ensures
        value.len() > 0 ==> normalize(name, "NUMBER"@, value) == Some(value),
        value.len() == 0 ==> normalize(name, "NUMBER"@, value) is None,
{
    lemma_find_rule_some(rule_table(), name);
}

/// An attribute that no rule is for and that is no `NUMBER` has a value only
/// where it reads "on".
pub proof fn lemma_unknown_attribute(name: Seq<char>, data_type: Seq<char>, value: Seq<char>)
    requires
        !has_rule(rule_table(), name),
        data_type != "NUMBER"@,
    ensures
        normalize(name, data_type, value) == if eq_ignore_case(value, "on"@) {
            Some("1"@)
        } else {
            None
        },
{
    lemma_find_rule_some(rule_table(), name);
}

/// The length of a name and its first two characters in lower case: enough
/// to tell the capabilities of the table apart.
pub open spec fn signature(name: Seq<char>) -> (nat, char, char) {
    (name.len(), ascii_lower_char(name[0]), ascii_lower_char(name[1]))
}

/// Names that are the same up to case have the same signature.
pub proof fn lemma_signature(name: Seq<char>, other: Seq<char>)
    requires
        eq_ignore_case(name, other),
        name.len() >= 2,
    ensures
        signature(name) == signature(other),
{
    assert(ascii_lower(name).len() == name.len());
    assert(ascii_lower(other).len() == other.len());
    assert(ascii_lower(name)[0] == ascii_lower_char(name[0]));
    assert(ascii_lower(other)[0] == ascii_lower_char(other[0]));
    assert(ascii_lower(name)[1] == ascii_lower_char(name[1]));
    assert(ascii_lower(other)[1] == ascii_lower_char(other[1]));
}

/// Every rule of the table decides for the capabilities of its name: a
/// capability that is the name of the rule at `k` up to case is given that
/// rule. (The table names "presence" twice, with the same rule; the first
/// of the two is the one that is reached.)
pub proof fn lemma_table_lookup(name: Seq<char>, k: int)
    requires
        0 <= k < rule_table().len(),
        eq_ignore_case(name, rule_table()[k].capability),
    ensures
        find_rule(rule_table(), name) == Some(rule_table()[k]),
{
    reveal_strlit("acceleration");
    reveal_strlit("alarm");
    reveal_strlit("presence");
    reveal_strlit("switch");
    reveal_strlit("button");
    reveal_strlit("carbonMonoxide");
    reveal_strlit("status");
    reveal_strlit("consumableStatus");
    reveal_strlit("contact");
    reveal_strlit("indicatorStatus");
    reveal_strlit("lock");
    reveal_strlit("motion");
    reveal_strlit("shock");
    reveal_strlit("mute");
    reveal_strlit("sleeping");
    reveal_strlit("smoke");
    reveal_strlit("sound");
    reveal_strlit("tamper");
    reveal_strlit("door");
    reveal_strlit("thermostatMode");
    reveal_strlit("thermostatFanMode");
    reveal_strlit("thermostatOperatingState");
    reveal_strlit("thermostatSetpointMode");
    reveal_strlit("timedSession");
    reveal_strlit("touch");
    reveal_strlit("valve");
    reveal_strlit("camera");
    reveal_strlit("water");
    reveal_strlit("windowShade");
    reveal_strlit("optimisation");
    reveal_strlit("windowFunction");
    reveal_strlit("rain");
    reveal_strlit("rainHeavy");
    reveal_strlit("heatAlarm");
    let table = rule_table();
    let first = if k == 3 { 2 } else { k };
    assert(table[first] == table[k]);
    assert(ascii_lower(name).len() == name.len());
    assert(ascii_lower(table[k].capability).len() == table[k].capability.len());
    assert(name.len() >= 2);
    lemma_signature(name, table[k].capability);
    assert forall|j: int| 0 <= j < first implies !eq_ignore_case(
        name,
        #[trigger] table[j].capability,
    ) by {
        if eq_ignore_case(name, table[j].capability) {
            lemma_signature(name, table[j].capability);
            assert(signature(table[j].capability) == signature(table[k].capability));
        }
    }
    lemma_first_match(table, name, first);
}

/// Under a rule made by `one_when`, the state is worth 1 and any other 0.
pub proof fn lemma_one_when(capability: Seq<char>, state: Seq<char>, value: Seq<char>)
    ensures
        code_of(one_when(capability, state).cases, one_when(capability, state).otherwise, value)
            == if eq_ignore_case(value, state) {
            Some("1"@)
        } else {
            Some("0"@)
        },
{
    reveal_with_fuel(code_of, 2);
}

/// Under a rule made by `zero_when`, the state is worth 0 and any other 1.
pub proof fn lemma_zero_when(capability: Seq<char>, state: Seq<char>, value: Seq<char>)
    ensures
        code_of(zero_when(capability, state).cases, zero_when(capability, state).otherwise, value)
            == if eq_ignore_case(value, state) {
            Some("0"@)
        } else {
            Some("1"@)
        },
{
    reveal_with_fuel(code_of, 2);
}

/// A door is worth 0 closed, 1 closing, 2 open, 3 opening and 4 unknown,
/// whatever the case of the capability name and of the state; in any other
/// state it has no value.
pub proof fn lemma_door(name: Seq<char>, data_type: Seq<char>, value: Seq<char>)
    requires
        eq_ignore_case(name, "door"@),
    ensures
        normalize(name, data_type, value) == if eq_ignore_case(value, "closed"@) {
            Some("0"@)
        } else if eq_ignore_case(value, "closing"@) {
            Some("1"@)
        } else if eq_ignore_case(value, "open"@) {
            Some("2"@)
        } else if eq_ignore_case(value, "opening"@) {
            Some("3"@)
        } else if eq_ignore_case(value, "unknown"@) {
            Some("4"@)
        } else {
            None
        },
{
    lemma_table_lookup(name, 19);
    reveal_with_fuel(code_of, 6);
}

/// A contact is worth 0 closed and 1 in any other state, whatever the case
/// of the capability name and of the state.
pub proof fn lemma_contact(name: Seq<char>, data_type: Seq<char>, value: Seq<char>)
    requires
        eq_ignore_case(name, "contact"@),
    ensures
        normalize(name, data_type, value) == if eq_ignore_case(value, "closed"@) {
            Some("0"@)
        } else {
            Some("1"@)
        },
{
    lemma_table_lookup(name, 9);
    lemma_zero_when("contact"@, "closed"@, value);
}

} // verus!
