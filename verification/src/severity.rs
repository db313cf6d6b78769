//! The three severities that a lint can be given.

use vstd::prelude::*;

verus! {

/// How the linter treats a finding of a lint.
#[derive(Clone, Copy, Debug, PartialEq, Eq, Structural)]
pub enum Severity {
    /// The finding is an error and breaks the build.
    Deny,
    /// The finding is suppressed.
    Allow,
    /// The finding is reported and the build goes on.
    Warn,
}

impl Severity {
    /// The key under which the configuration file lists the lints of this
    /// severity.
    pub open spec fn key_text(self) -> Seq<char> {
        match self {
            Severity::Deny => "deny"@,
            Severity::Allow => "allow"@,
            Severity::Warn => "warn"@,
        }
    }

    /// The flag by which the linter is told this severity.
    pub open spec fn flag_text(self) -> Seq<char> {
        match self {
            Severity::Deny => "-D"@,
            Severity::Allow => "-A"@,
            Severity::Warn => "-W"@,
        }
    }

    /// The key under which the configuration file lists the lints of this
    /// severity.
    pub fn key(self) -> (text: &'static str)
        ensures
            text@ == self.key_text(),
    {
        match self {
            Severity::Deny => "deny",
            Severity::Allow => "allow",
            Severity::Warn => "warn",
        }
    }

    /// The flag by which the linter is told this severity.
    pub fn flag(self) -> (text: &'static str)
        ensures
            text@ == self.flag_text(),
    {
        match self {
            Severity::Deny => "-D",
            Severity::Allow => "-A",
            Severity::Warn => "-W",
        }
    }
}

/// No two severities share a key, and no two share a flag.
pub proof fn lemma_severities_differ(a: Severity, b: Severity)
    requires
        a != b,
    ensures
        a.key_text() != b.key_text(),
        a.flag_text() != b.flag_text(),
{
    reveal_strlit("deny");
    reveal_strlit("allow");
    reveal_strlit("warn");
    reveal_strlit("-D");
    reveal_strlit("-A");
    reveal_strlit("-W");
    assert("deny"@[0] == 'd' && "allow"@[0] == 'a' && "warn"@[0] == 'w');
    assert("-D"@[1] == 'D' && "-A"@[1] == 'A' && "-W"@[1] == 'W');
}

} // verus!
