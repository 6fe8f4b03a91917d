//! The help command: the top-level overview of the tool, and the
//! fallback for unrecognised input. It renders text and never touches
//! the store.

use vstd::prelude::*;

verus! {

use crate::command::{Command, ParamMap, ParamRule, Runnable};
use crate::gui::{content_text, sub_title_text, title_text, GUI};
use crate::outcome::{CmdError, Outcome};
use crate::store::Store;
use crate::tool::{ci_equal, str_eq_ci};

/// The help command.
pub struct Help {
    pub required_args: Vec<String>,
    pub params: ParamMap,
}

/// The actions the help command serves.
pub enum Actions {
    Help,
    Default,
}

/// Which action an action word names, up to ASCII case.
pub open spec fn parse_action(s: Seq<char>) -> Actions {
    if ci_equal(s, "help"@) {
        Actions::Help
    } else {
        Actions::Default
    }
}

/// The text of the command overview.
pub open spec fn show_help_text() -> Seq<char> {
    title_text("Welcome to Rusty Search"@) + sub_title_text("commands:"@) + "\n"@ + content_text(
        "manage:   actions to create and delete indexes"@,
    ) + content_text("edit:     actions update and manipulate index data"@) + content_text(
        "search:   actions to search index data"@,
    ) + content_text("rank:     actions to set search ranking settings"@) + content_text(
        "config:   actions to change config settings"@,
    ) + "\n"@ + sub_title_text("Run `{command} help` for specific help"@) + "\n"@
}

/// The text of the help command's own banner.
pub open spec fn banner_text() -> Seq<char> {
    title_text("Rusty Search"@) + content_text("A small engine for named key/data indexes"@)
        + "\n"@
}

impl Help {
    /// A fresh handler with no argument required and no parameter bound.
    pub fn new() -> (r: Help)
        ensures
            r.required_args@ == Seq::<String>::empty(),
            r.params@ == Map::<Seq<char>, Seq<char>>::empty(),
    {
        Help { required_args: Vec::new(), params: ParamMap::new() }
    }

    /// Renders the command overview.
    pub fn show_help(&self) -> (r: String)
        ensures
            r@ == show_help_text(),
    {
        let mut g = GUI::new();
        g.title("Welcome to Rusty Search");
        g.sub_title("commands:");
        g.nl();
        g.content("manage:   actions to create and delete indexes");
        g.content("edit:     actions update and manipulate index data");
        g.content("search:   actions to search index data");
        g.content("rank:     actions to set search ranking settings");
        g.content("config:   actions to change config settings");
        g.nl();
        g.sub_title("Run `{command} help` for specific help");
        g.nl();
        let r = g.take();
        proof {
            assert(r@ =~= show_help_text());
        }
        r
    }
}

impl Runnable for Help {
    fn run(&mut self, store: &mut Store, action: &String, params: &[String]) -> (r: Result<
        Outcome,
        CmdError,
    >)
        ensures
            final(self).params@ == old(self).params@,
            final(self).required_args@ == old(self).required_args@,
            final(store)@ == old(store)@,
            match r {
                Ok(Outcome::Help { text }) => text@ == (if parse_action(action@) is Help {
                    banner_text()
                } else {
                    show_help_text()
                }),
                _ => false,
            },
    {
        if str_eq_ci(action.as_str(), "help") {
            Ok(Outcome::Help { text: self.help() })
        } else {
            Ok(Outcome::Help { text: self.show_help() })
        }
    }
}

impl Command for Help {
    open spec fn param_entries(&self) -> Seq<(Seq<char>, Seq<char>)> {
        self.params.entries()
    }

    fn set_params(&mut self, params: ParamMap) {
        self.params = params;
    }

    fn get_params(&self) -> (r: &ParamMap) {
        &self.params
    }

    fn get_param(&self, key: &str) -> (r: &String) {
        match self.params.get(key) {
            Some(v) => v,
            None => vstd::pervasive::unreached(),
        }
    }

    fn assert_params(&mut self, rules: &[ParamRule], params: &[String]) -> (r: Result<
        (),
        CmdError,
    >) {
        crate::command::bind_params(&mut self.params, rules, params)
    }

    /// The help command's own banner.
    fn help(&self) -> (r: String)
        ensures
            r@ == banner_text(),
    {
        let mut g = GUI::new();
        g.title("Rusty Search");
        g.content("A small engine for named key/data indexes");
        g.nl();
        let r = g.take();
        proof {
            assert(r@ =~= banner_text());
        }
        r
    }
}

} // verus!
