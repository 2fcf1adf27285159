use vstd::prelude::*;
use crate::entry::ToolInput;
use crate::text::{starts_with, str_eq};

verus! {

/// Whether `p` is a prefix of `s`.
pub open spec fn has_prefix(s: Seq<char>, p: Seq<char>) -> bool {
    p.len() <= s.len() && s.subrange(0, p.len() as int) == p
}

/// Tools that only read and are approved whatever their arguments.
pub open spec fn is_read_only_tool(name: Seq<char>) -> bool {
    ||| name == "Read"@
    ||| name == "Glob"@
    ||| name == "Grep"@
    ||| name == "LS"@
    ||| name == "NotebookRead"@
    ||| name == "TodoRead"@
    ||| name == "TodoWrite"@
}

/// One allow rule: a tool name, and for shell-like tools a prefix that the
/// invocation's `command` argument must start with.
pub struct PermissionRule {
    pub tool: String,
    pub command_prefix: Option<String>,
}

impl PermissionRule {
    /// Whether this rule lets `name` run with `input`.
    pub open spec fn allows(&self, name: Seq<char>, input: ToolInput) -> bool {
        &&& self.tool@ == name
        &&& match self.command_prefix {
            None => true,
            Some(p) => match input.value_of("command"@) {
                Some(c) => has_prefix(c, p@),
                None => false,
            },
        }
    }

    /// Whether this rule lets `name` run with `input`.
    pub fn check(&self, name: &str, input: &ToolInput) -> (r: bool)
        ensures
            r == self.allows(name@, *input),
    {
        if !str_eq(self.tool.as_str(), name) {
            return false;
        }
        match &self.command_prefix {
            None => true,
            Some(p) => match input.get("command") {
                Some(c) => starts_with(c.as_str(), p.as_str()),
                None => false,
            },
        }
    }
}

/// Decides which tool invocations run without asking the user.
pub struct PermissionChecker {
    pub allow: Vec<PermissionRule>,
}

impl PermissionChecker {
    /// Whether `name` with `input` is approved without asking.
    pub open spec fn approves(&self, name: Seq<char>, input: ToolInput) -> bool {
        ||| is_read_only_tool(name)
        ||| exists|i: int| 0 <= i < self.allow@.len() && (#[trigger] self.allow@[i]).allows(name, input)
    }

    /// A checker with no allow rules: only the read-only tools are approved.
    pub fn new() -> (r: PermissionChecker)
        ensures
            r.allow@.len() == 0,
    {
        PermissionChecker { allow: Vec::new() }
    }

    /// Adds a rule that approves every invocation of `tool`.
    pub fn allow_tool(&mut self, tool: &str)
        ensures
            final(self).allow@.len() == old(self).allow@.len() + 1,
            final(self).allow@.drop_last() == old(self).allow@,
            final(self).allow@.last().tool@ == tool@,
            final(self).allow@.last().command_prefix is None,
    {
        self.allow.push(PermissionRule { tool: String::from_str(tool), command_prefix: None });
        proof {
            assert(self.allow@.drop_last() =~= old(self).allow@);
        }
    }

    /// Adds a rule that approves `tool` when its `command` argument starts with `prefix`.
    pub fn allow_command_prefix(&mut self, tool: &str, prefix: &str)
        ensures
            final(self).allow@.len() == old(self).allow@.len() + 1,
            final(self).allow@.drop_last() == old(self).allow@,
            final(self).allow@.last().tool@ == tool@,
            final(self).allow@.last().command_prefix matches Some(p) && p@ == prefix@,
    {
        self.allow.push(
            PermissionRule {
                tool: String::from_str(tool),
                command_prefix: Some(String::from_str(prefix)),
            },
        );
        proof {
            assert(self.allow@.drop_last() =~= old(self).allow@);
        }
    }

    /// Whether `name` with `input` is approved without asking.
    pub fn is_auto_approved(&self, name: &str, input: &ToolInput) -> (r: bool)
        ensures
            r == self.approves(name@, *input),
    {
        if str_eq(name, "Read") || str_eq(name, "Glob") || str_eq(name, "Grep") || str_eq(name, "LS")
            || str_eq(name, "NotebookRead") || str_eq(name, "TodoRead") || str_eq(name, "TodoWrite") {
            return true;
        }
        let mut i: usize = 0;
        while i < self.allow.len()
            invariant
                i <= self.allow@.len(),
                forall|k: int| 0 <= k < i ==> !(#[trigger] self.allow@[k]).allows(name@, *input),
            decreases self.allow@.len() - i,
        {
            if self.allow[i].check(name, input) {
                return true;
            }
            i = i + 1;
        }
        false
    }
}

} // verus!
