use rusty_search::command::ParamMap;
use rusty_search::gui::GUI;
use rusty_search::help::Help;

fn s(t: &str) -> String {
    t.to_string()
}

#[test]
fn gui_renders_titles_and_content() {
    let mut g = GUI::new();
    g.title("Edit Command");
    g.sub_title("actions:");
    g.content("add: things");
    g.nl();
    let out = g.take();
    assert_eq!(out, s("\n  ## Edit Command ##\n\n    actions:\n      add: things\n\n"));
}

#[test]
fn gui_prints_bound_params_in_order() {
    let mut map = ParamMap::new();
    map.insert(s("index"), s("books"));
    map.insert(s("key"), s("alpha"));
    let mut g = GUI::new();
    g.print_params(&map);
    let out = g.take();
    assert_eq!(
        out,
        s("    params:\n      index:           books\n      key:             alpha\n\n")
    );
}

#[test]
fn gui_prints_nothing_for_no_params() {
    let map = ParamMap::new();
    let mut g = GUI::new();
    g.print_params(&map);
    assert_eq!(g.take(), s(""));
}

#[test]
fn show_help_lists_the_commands() {
    let help = Help::new();
    let text = help.show_help();
    assert!(text.contains("Welcome to Rusty Search"));
    assert!(text.contains("manage:   actions to create and delete indexes"));
    assert!(text.contains("edit:     actions update and manipulate index data"));
    assert!(text.contains("Run `{command} help` for specific help"));
}
