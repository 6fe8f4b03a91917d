//! The command router: picks the handler named by the first word of the
//! invocation `<command> <action> <positional-params...>`, runs it, and
//! renders its outcome. Unrecognised commands degrade to the help
//! overview; recognised commands this tool does not yet serve are
//! errors.

use vstd::prelude::*;

verus! {

use crate::command::{bind_stop, bound_upto, Runnable};
use crate::edit;
use crate::edit::Edit;
use crate::gui::{content_text, sub_title_text, GUI};
use crate::help::Help;
use crate::manage;
use crate::manage::Manage;
use crate::outcome::{CmdError, Outcome};
use crate::store::Store;
use crate::tool::{ci_equal, str_eq_ci};

/// The top-level commands the router knows.
pub enum Commands {
    Manage,
    Edit,
    Update,
    Search,
    Rank,
    Config,
    Help,
}

/// Which command a command word names, up to ASCII case; anything
/// unrecognised falls back to help.
pub open spec fn parse_command(s: Seq<char>) -> Commands {
    if ci_equal(s, "manage"@) {
        Commands::Manage
    } else if ci_equal(s, "edit"@) {
        Commands::Edit
    } else if ci_equal(s, "update"@) {
        Commands::Update
    } else if ci_equal(s, "search"@) {
        Commands::Search
    } else if ci_equal(s, "rank"@) {
        Commands::Rank
    } else if ci_equal(s, "config"@) {
        Commands::Config
    } else {
        Commands::Help
    }
}

/// What one run reports back: the outcome, and its rendered text.
#[derive(Debug)]
pub struct Reply {
    pub outcome: Outcome,
    pub text: String,
}

/// The rendered text of an outcome: help text stands alone, every other
/// outcome is shown as a result block.
pub open spec fn reply_text(o: Outcome) -> Seq<char> {
    match o {
        Outcome::Help { text } => text@,
        _ => sub_title_text("result:"@) + content_text(o.message_spec()) + "\n"@,
    }
}

/// The command word of an invocation: the word after the program name,
/// or nothing.
pub open spec fn command_word(args: Seq<Seq<char>>) -> Seq<char> {
    if args.len() >= 2 {
        args[1]
    } else {
        Seq::empty()
    }
}

/// The action word of an invocation: the word after the command, or
/// nothing.
pub open spec fn action_word(args: Seq<Seq<char>>) -> Seq<char> {
    if args.len() >= 3 {
        args[2]
    } else {
        Seq::empty()
    }
}

/// The positional parameters of an invocation: everything after the
/// action word.
pub open spec fn param_words(args: Seq<Seq<char>>) -> Seq<Seq<char>> {
    if args.len() >= 3 {
        args.skip(3)
    } else {
        Seq::empty()
    }
}

/// The result part of a reply: the outcome with the text stripped off.
pub open spec fn outcome_of(r: Result<Reply, CmdError>) -> Result<Outcome, CmdError> {
    match r {
        Ok(reply) => Ok(reply.outcome),
        Err(e) => Err(e),
    }
}

/// The arguments after the action word, cloned out of the invocation.
fn tail_params(args: &Vec<String>) -> (r: Vec<String>)
    ensures
        r@.map_values(|s: String| s@) == param_words(args@.map_values(|s: String| s@)),
{
    let mut out: Vec<String> = Vec::new();
    let n = args.len();
    if n >= 3 {
        let mut i: usize = 3;
        while i < n
            invariant
                3 <= i <= n,
                n == args@.len(),
                out@.len() == i - 3,
                forall|j: int| 0 <= j < out@.len() ==> out@[j]@ == args@[j + 3]@,
            decreases n - i,
        {
            out.push(args[i].clone());
            i += 1;
        }
    }
    proof {
        let ov = out@.map_values(|s: String| s@);
        let pv = param_words(args@.map_values(|s: String| s@));
        assert(ov.len() == pv.len());
        assert forall|j: int| 0 <= j < ov.len() implies ov[j] == pv[j] by {
            assert(ov[j] == out@[j]@);
            if args@.len() >= 3 {
                assert(pv[j] == args@.map_values(|s: String| s@)[j + 3]);
                assert(pv[j] == args@[j + 3]@);
            }
        }
        assert(ov =~= pv);
    }
    out
}

/// The command named by the command word, up to ASCII case.
fn command_of(s: &String) -> (r: Commands)
    ensures
        r == parse_command(s@),
{
    if str_eq_ci(s.as_str(), "manage") {
        Commands::Manage
    } else if str_eq_ci(s.as_str(), "edit") {
        Commands::Edit
    } else if str_eq_ci(s.as_str(), "update") {
        Commands::Update
    } else if str_eq_ci(s.as_str(), "search") {
        Commands::Search
    } else if str_eq_ci(s.as_str(), "rank") {
        Commands::Rank
    } else if str_eq_ci(s.as_str(), "config") {
        Commands::Config
    } else {
        Commands::Help
    }
}

/// Renders an outcome for the reader.
fn render_text(o: &Outcome) -> (r: String)
    ensures
        r@ == reply_text(*o),
{
    match o {
        Outcome::Help { text } => text.clone(),
        _ => {
            let mut g = GUI::new();
            g.sub_title("result:");
            let line = o.message();
            g.content(line.as_str());
            g.nl();
            let r = g.take();
            proof {
                assert(r@ =~= reply_text(*o));
            }
            r
        },
    }
}

/// Runs one invocation against the store. The contract hands each
/// command's promise through: what the chosen handler's action promises
/// of the store model and of the outcome, a help reply for unknown
/// words, and a "nothing implemented" error for the commands this tool
/// knows but does not serve. The reply's text renders the outcome.
pub fn run_command(store: &mut Store, args: &Vec<String>) -> (r: Result<Reply, CmdError>)
    ensures
        ({
            let argv = args@.map_values(|s: String| s@);
            let cw = command_word(argv);
            let aw = action_word(argv);
            let av = param_words(argv);
            let empty = Map::<Seq<char>, Seq<char>>::empty();
            &&& (r matches Ok(reply) ==> reply.text@ == reply_text(reply.outcome))
            &&& match parse_command(cw) {
                Commands::Manage => match manage::parse_action(aw) {
                    manage::Actions::Create => manage::create_post(
                        empty,
                        bound_upto(
                            empty,
                            manage::index_rules_v(),
                            av,
                            bind_stop(manage::index_rules_v(), av, 0),
                        ),
                        old(store)@,
                        final(store)@,
                        av,
                        outcome_of(r),
                    ),
                    manage::Actions::Init => manage::init_post(
                        empty,
                        bound_upto(
                            empty,
                            manage::init_rules_v(),
                            av,
                            bind_stop(manage::init_rules_v(), av, 0),
                        ),
                        old(store)@,
                        final(store)@,
                        av,
                        outcome_of(r),
                    ),
                    manage::Actions::Delete => manage::delete_post(
                        empty,
                        bound_upto(
                            empty,
                            manage::index_rules_v(),
                            av,
                            bind_stop(manage::index_rules_v(), av, 0),
                        ),
                        old(store)@,
                        final(store)@,
                        av,
                        outcome_of(r),
                    ),
                    manage::Actions::Purge => final(store)@ == old(store)@ && outcome_of(r)
                        == Ok::<Outcome, CmdError>(Outcome::PurgeRequested),
                    manage::Actions::Help => final(store)@ == old(store)@ && (outcome_of(r) matches
                    Ok(Outcome::Help { .. })),
                },
                Commands::Edit => match edit::parse_action(aw) {
                    edit::Actions::Add => edit::add_post(
                        empty,
                        bound_upto(
                            empty,
                            edit::add_rules_v(),
                            av,
                            bind_stop(edit::add_rules_v(), av, 0),
                        ),
                        old(store)@,
                        final(store)@,
                        av,
                        outcome_of(r),
                    ),
                    edit::Actions::Update => edit::update_post(
                        empty,
                        bound_upto(
                            empty,
                            edit::update_rules_v(),
                            av,
                            bind_stop(edit::update_rules_v(), av, 0),
                        ),
                        old(store)@,
                        final(store)@,
                        av,
                        outcome_of(r),
                    ),
                    edit::Actions::Remove => edit::remove_post(
                        empty,
                        bound_upto(
                            empty,
                            edit::remove_rules_v(),
                            av,
                            bind_stop(edit::remove_rules_v(), av, 0),
                        ),
                        old(store)@,
                        final(store)@,
                        av,
                        outcome_of(r),
                    ),
                    edit::Actions::Help => final(store)@ == old(store)@ && (outcome_of(r) matches
                    Ok(Outcome::Help { .. })),
                },
                Commands::Help => final(store)@ == old(store)@ && (outcome_of(r) matches Ok(
                    Outcome::Help { .. },
                )),
                _ => final(store)@ == old(store)@ && (match r {
                    Err(CmdError::NotImplemented { command }) => command@ == cw,
                    _ => false,
                }),
            }
        }),
{
    let fallback = String::new();
    let command_string = if args.len() >= 2 {
        &args[1]
    } else {
        &fallback
    };
    let action = if args.len() >= 3 {
        &args[2]
    } else {
        &fallback
    };
    let params = tail_params(args);
    match command_of(command_string) {
        Commands::Manage => {
            let mut handler = Manage::new();
            match handler.run(store, action, params.as_slice()) {
                Ok(outcome) => {
                    let text = render_text(&outcome);
                    Ok(Reply { outcome, text })
                },
                Err(e) => Err(e),
            }
        },
        Commands::Edit => {
            let mut handler = Edit::new();
            match handler.run(store, action, params.as_slice()) {
                Ok(outcome) => {
                    let text = render_text(&outcome);
                    Ok(Reply { outcome, text })
                },
                Err(e) => Err(e),
            }
        },
        Commands::Help => {
            let mut handler = Help::new();
            match handler.run(store, action, params.as_slice()) {
                Ok(outcome) => {
                    let text = render_text(&outcome);
                    Ok(Reply { outcome, text })
                },
                Err(e) => Err(e),
            }
        },
        _ => Err(CmdError::NotImplemented { command: command_string.clone() }),
    }
}

} // verus!
