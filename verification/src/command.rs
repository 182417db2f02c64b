//! Command-tree shapes and the decision rules of the operator command.
//! Parsing and dispatch are the command layer's concern; this module owns
//! the declared shape of the tree and the pure level arithmetic.

use vstd::prelude::*;
use vstd::string::StringExecFns;

verus! {

/// One argument node under a command, with or without an executor.
pub struct ArgumentNode {
    pub name: String,
    pub has_executor: bool,
}

/// A named command with its description and argument nodes.
pub struct CommandTree {
    pub names: Vec<String>,
    pub description: String,
    pub arguments: Vec<ArgumentNode>,
}

/// The operator command: one name, one player-selector argument that
/// executes.
pub fn init_command_tree() -> (r: CommandTree)
    ensures
        r.names@.len() == 1,
        r.names@[0]@ == "op"@,
        r.description@ == "Grants operator status to a player."@,
        r.arguments@.len() == 1,
        r.arguments@[0].name@ == "targets"@,
        r.arguments@[0].has_executor,
{
    let mut names: Vec<String> = Vec::new();
    names.push(String::from_str("op"));
    let mut arguments: Vec<ArgumentNode> = Vec::new();
    arguments.push(ArgumentNode { name: String::from_str("targets"), has_executor: true });
    CommandTree {
        names,
        description: String::from_str("Grants operator status to a player."),
        arguments,
    }
}

/// The level a newly promoted operator receives: the configured operator
/// level, capped by the level of whoever grants it.
pub fn op_new_level(op_permission_level: u8, sender_level: u8) -> (r: u8)
    ensures
        r == if op_permission_level < sender_level {
            op_permission_level
        } else {
            sender_level
        },
{
    if op_permission_level < sender_level {
        op_permission_level
    } else {
        sender_level
    }
}

/// Whether promoting a player to `new_level` changes anything; an already
/// matching level reports failure instead.
pub fn op_promotion_applies(current_level: u8, new_level: u8) -> (r: bool)
    ensures
        r == (current_level != new_level),
{
    current_level != new_level
}

} // verus!
