//! The composable predicate pipeline that guards file creation: an
//! ordered list of named rules, evaluated in order, short-circuiting on
//! the first rule that fails.

use vstd::prelude::*;

verus! {

/// One named validation rule. A rule judges the candidate name together
/// with what the filesystem answered about it, so that the judgement
/// itself is a pure function.
#[derive(Clone, Copy, Debug, PartialEq, Eq, Structural)]
pub enum Rule {
    /// The candidate name must not be empty.
    NameNonEmpty,
    /// No file may already exist at the candidate path.
    PathAbsent,
}

/// Whether one rule accepts the input.
pub open spec fn rule_passes(r: Rule, input: Seq<char>, path_exists: bool) -> bool {
    match r {
        Rule::NameNonEmpty => input.len() > 0,
        Rule::PathAbsent => !path_exists,
    }
}

/// Whether every rule of the list accepts the input.
pub open spec fn all_rules_pass(rules: Seq<Rule>, input: Seq<char>, path_exists: bool) -> bool {
    forall|i: int| 0 <= i < rules.len() ==> rule_passes(#[trigger] rules[i], input, path_exists)
}

impl Rule {
    /// The name under which a failure of this rule is reported.
    pub fn name(self) -> (r: &'static str)
        ensures
            self == Rule::NameNonEmpty ==> r@ == "file_name"@,
            self == Rule::PathAbsent ==> r@ == "file_does_not_exist"@,
    {
        match self {
            Rule::NameNonEmpty => "file_name",
            Rule::PathAbsent => "file_does_not_exist",
        }
    }
}

/// An ordered list of rules that an input must pass.
pub struct Validator {
    rules: Vec<Rule>,
}

impl Validator {
    /// The rules the validator holds, in evaluation order.
    pub closed spec fn rules_seq(&self) -> Seq<Rule> {
        self.rules@
    }

    pub fn new() -> (v: Validator)
        ensures
            v.rules_seq() == Seq::<Rule>::empty(),
    {
        Validator { rules: Vec::new() }
    }

    pub fn add_rule(&mut self, rule: Rule)
        ensures
            final(self).rules_seq() == old(self).rules_seq().push(rule),
    {
        self.rules.push(rule);
    }

    /// Judges the input against every rule, in order.
    pub fn validate(&self, input: &str, path_exists: bool) -> (ok: bool)
        ensures
            ok == all_rules_pass(self.rules_seq(), input@, path_exists),
    {
        match self.first_failure(input, path_exists) {
            None => true,
            Some(_) => false,
        }
    }

    /// The first rule the input fails, or `None` when every rule passes.
    pub fn first_failure(&self, input: &str, path_exists: bool) -> (r: Option<Rule>)
        ensures
            r is None <==> all_rules_pass(self.rules_seq(), input@, path_exists),
            r matches Some(rule) ==> !rule_passes(rule, input@, path_exists),
    {
        let mut i: usize = 0;
        while i < self.rules.len()
            invariant
                i <= self.rules@.len(),
                forall|j: int|
                    0 <= j < i ==> rule_passes(#[trigger] self.rules@[j], input@, path_exists),
            decreases self.rules@.len() - i,
        {
            let rule = self.rules[i];
            let passes = match rule {
                Rule::NameNonEmpty => !input.is_empty(),
                Rule::PathAbsent => !path_exists,
            };
            if !passes {
                return Some(rule);
            }
            i += 1;
        }
        None
    }
}

/// Whether a new file of the given name may be created: the name must
/// be non-empty and nothing may already exist at that path. A file that
/// is already present always fails the check, so an existing file is
/// never overwritten.
pub fn validate_new_file(file_name: &str, path_exists: bool) -> (ok: bool)
    ensures
        ok <==> (file_name@.len() > 0 && !path_exists),
{
    let mut validator = Validator::new();
    validator.add_rule(Rule::NameNonEmpty);
    validator.add_rule(Rule::PathAbsent);
    let ok = validator.validate(file_name, path_exists);
    proof {
        let rules = validator.rules_seq();
        assert(rules.len() == 2);
        assert(rules[0] == Rule::NameNonEmpty);
        assert(rules[1] == Rule::PathAbsent);
    }
    ok
}

} // verus!
