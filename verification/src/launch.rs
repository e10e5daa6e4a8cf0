//! Command-template substitution for launching the external player.
//!
//! A media tab carries a command template: a program name and an argument
//! list in which a reserved placeholder literal marks where the selected
//! path belongs. This module builds the concrete command for a selected
//! path. Spawning the program, blocking on it and restoring the terminal
//! afterwards are the unverified shell's work; it receives the finished
//! request from here.

use crate::settings::CommandSetting;
use vstd::prelude::*;

verus! {

/// The reserved placeholder literal in a command template's argument list.
pub open spec fn placeholder() -> Seq<char> {
    "{0}"@
}

/// `args` with every occurrence of the placeholder replaced by `path`; all
/// other arguments pass through unchanged.
pub open spec fn subst_args(args: Seq<Seq<char>>, path: Seq<char>) -> Seq<Seq<char>> {
    args.map_values(
        |a: Seq<char>|
            if a == placeholder() {
                path
            } else {
                a
            },
    )
}

/// A fully substituted command, ready to be spawned.
#[derive(Debug)]
pub struct LaunchRequest {
    pub program: String,
    pub args: Vec<String>,
}

/// `req` launches `command`'s program, with `path` put in the placeholder's
/// positions of `command`'s argument list.
pub open spec fn launch_matches(req: LaunchRequest, command: CommandSetting, path: Seq<char>) -> bool {
    req.program@ == command.program@ && req.args.deep_view() == subst_args(
        command.args.deep_view(),
        path,
    )
}

/// The placeholder literal as an owned string.
fn placeholder_string() -> (r: String)
    ensures
        r@ == placeholder(),
{
    String::from_str("{0}")
}

/// Builds the launch request for `command` and the selected `path`.
pub fn build_launch(command: &CommandSetting, path: &String) -> (r: LaunchRequest)
    ensures
        launch_matches(r, *command, path@),
{
    let ph = placeholder_string();
    let mut args: Vec<String> = Vec::new();
    let mut i: usize = 0;
    while i < command.args.len()
        invariant
            i <= command.args@.len(),
            args@.len() == i,
            ph@ == placeholder(),
            forall|j: int|
                0 <= j < i ==> (#[trigger] args@[j])@ == if command.args@[j]@ == placeholder() {
                    path@
                } else {
                    command.args@[j]@
                },
        decreases command.args@.len() - i,
    {
        let arg = &command.args[i];
        if *arg == ph {
            args.push(path.clone());
        } else {
            args.push(arg.clone());
        }
        i = i + 1;
    }
    proof {
        assert(args.deep_view() =~= subst_args(command.args.deep_view(), path@));
    }
    LaunchRequest { program: command.program.clone(), args }
}

} // verus!
