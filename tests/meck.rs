use eqwalizer_ipc::ast::Pos;
use eqwalizer_ipc::meck::{apply_insert, missing_no_link_in_init_per_suite, ListElem, MeckNewCall, MeckOptions};

fn offset(text: &str, needle: &str) -> u32 {
    text.find(needle).unwrap() as u32
}

fn atom_list(text: &str, atoms: &[&str]) -> MeckOptions {
    let list_start = text.find("meck:new").unwrap() + text[text.find("meck:new").unwrap()..].find('[').unwrap();
    let mut from = list_start;
    let mut elems = vec![];
    for a in atoms {
        let at = from + text[from..].find(a).unwrap();
        from = at + a.len();
        elems.push(ListElem { atom: Some(a.to_string()), end: from as u32 });
    }
    MeckOptions::List(elems)
}

fn new_1_call(text: &str, function: &str, arity: u32) -> MeckNewCall {
    let start = offset(text, "meck:new");
    MeckNewCall {
        function: function.to_string(),
        arity,
        range: Pos { start, end: start + "meck:new(my_module)".len() as u32 },
        in_anonymous_fun: false,
        module_end: offset(text, "my_module") + "my_module".len() as u32,
        options: None,
    }
}

#[test]
fn test_missing_no_link_meck_new_1() {
    let text = "init_per_suite(Config) ->\n  meck:new(my_module).\n";
    let call = new_1_call(text, "init_per_suite", 1);
    let w = missing_no_link_in_init_per_suite(&call).unwrap();
    assert_eq!(w.message, "Missing no_link option.");
    assert_eq!(w.range, call.range);
}

#[test]
fn test_missing_no_link_init_per_group() {
    let text = "init_per_group(_Group, Config) ->\n  meck:new(my_module),\n  Config.\n";
    let call = new_1_call(text, "init_per_group", 2);
    let w = missing_no_link_in_init_per_suite(&call).unwrap();
    assert_eq!(w.message, "Missing no_link option.");
    assert_eq!(w.range, call.range);
}

#[test]
fn test_missing_no_warning_outside_known_functions() {
    let text = "a(_Config) ->\n  meck:new(my_module),\n  ok.\n";
    let call = new_1_call(text, "a", 1);
    assert_eq!(missing_no_link_in_init_per_suite(&call), None);
}

#[test]
fn test_missing_no_link_meck_new_2() {
    let text = "init_per_suite(Config) ->\n  meck:new(my_module, [passthrough, link]).\n";
    let start = offset(text, "meck:new");
    let call = MeckNewCall {
        function: "init_per_suite".to_string(),
        arity: 1,
        range: Pos { start, end: start + "meck:new(my_module, [passthrough, link])".len() as u32 },
        in_anonymous_fun: false,
        module_end: offset(text, "my_module") + 9,
        options: Some(atom_list(text, &["passthrough", "link"])),
    };
    let w = missing_no_link_in_init_per_suite(&call).unwrap();
    assert_eq!(w.message, "Missing no_link option.");
    assert_eq!(w.range, call.range);
}

#[test]
fn test_missing_no_link_in_fun() {
    let text = "init_per_suite(Config) ->\n  F = fun() -> meck:new(my_module, [passthrough, link]) end,\n  F().\n";
    let start = offset(text, "meck:new");
    let call = MeckNewCall {
        function: "init_per_suite".to_string(),
        arity: 1,
        range: Pos { start, end: start + "meck:new(my_module, [passthrough, link])".len() as u32 },
        in_anonymous_fun: true,
        module_end: offset(text, "my_module") + 9,
        options: Some(atom_list(text, &["passthrough", "link"])),
    };
    assert_eq!(missing_no_link_in_init_per_suite(&call), None);
}

#[test]
fn test_fix_missing_no_link_option_new_1() {
    let before = "-module(missing_no_link_SUITE).\n-export([all/0, init_per_suite/1]).\n-export([a/1]).\nall() -> [a].\ninit_per_suite(Config) ->\n  meck:new(my_module).\n\na(_Config) ->\n  ok.\n";
    let after = "-module(missing_no_link_SUITE).\n-export([all/0, init_per_suite/1]).\n-export([a/1]).\nall() -> [a].\ninit_per_suite(Config) ->\n  meck:new(my_module, [no_link]).\n\na(_Config) ->\n  ok.\n";
    let call = new_1_call(before, "init_per_suite", 1);
    let w = missing_no_link_in_init_per_suite(&call).unwrap();
    assert_eq!(apply_insert(before, w.fix_offset as usize, &w.fix_text), after);
}

#[test]
fn test_fix_missing_no_link_option_new_2() {
    let before = "-module(missing_no_link_SUITE).\n-export([all/0, init_per_suite/1]).\n-export([a/1]).\nall() -> [a].\ninit_per_suite(Config) ->\n  meck:new(my_module, [passthrough, link]).\n\na(_Config) ->\n  ok.\n";
    let after = "-module(missing_no_link_SUITE).\n-export([all/0, init_per_suite/1]).\n-export([a/1]).\nall() -> [a].\ninit_per_suite(Config) ->\n  meck:new(my_module, [passthrough, link, no_link]).\n\na(_Config) ->\n  ok.\n";
    let start = offset(before, "meck:new");
    let call = MeckNewCall {
        function: "init_per_suite".to_string(),
        arity: 1,
        range: Pos { start, end: start + "meck:new(my_module, [passthrough, link])".len() as u32 },
        in_anonymous_fun: false,
        module_end: offset(before, "my_module") + 9,
        options: Some(atom_list(before, &["passthrough", "link"])),
    };
    let w = missing_no_link_in_init_per_suite(&call).unwrap();
    assert_eq!(apply_insert(before, w.fix_offset as usize, &w.fix_text), after);
}

#[test]
fn meck_new_with_no_link_is_accepted() {
    let text = "init_per_suite(Config) ->\n  meck:new(my_module, [passthrough, no_link]).\n";
    let start = offset(text, "meck:new");
    let call = MeckNewCall {
        function: "init_per_suite".to_string(),
        arity: 1,
        range: Pos { start, end: start + 10 },
        in_anonymous_fun: false,
        module_end: offset(text, "my_module") + 9,
        options: Some(atom_list(text, &["passthrough", "no_link"])),
    };
    assert_eq!(missing_no_link_in_init_per_suite(&call), None);
}

#[test]
fn meck_new_with_non_literal_options_is_accepted() {
    let text = "init_per_suite(Config) ->\n  meck:new(my_module, Opts).\n";
    let mut call = new_1_call(text, "init_per_suite", 1);
    call.options = Some(MeckOptions::Other);
    assert_eq!(missing_no_link_in_init_per_suite(&call), None);
}
