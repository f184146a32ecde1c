use frish::builtins::{default_builtins, Builtin, Builtins, Handler};
use frish::text::{parse_i32, same_text};

const NAMES: [&str; 24] = [
    "help",
    "name",
    "loglevel",
    "print",
    "echo",
    "dir.change",
    "dir.where",
    "dir.make",
    "dir.remove",
    "dir.list",
    "dir.inspect",
    "link.hard",
    "link.soft",
    "link.read",
    "unlink",
    "rename",
    "cpcat",
    "pid",
    "ppid",
    "status",
    "exit",
    "depth",
    "subshell",
    "pipes",
];

#[test]
fn default_builtins_are_the_table() {
    let items = default_builtins();
    assert_eq!(items.len(), 24);
    for (item, name) in items.iter().zip(NAMES.iter()) {
        assert_eq!(item.command, *name);
        assert_eq!(item.command, item.handler.command());
        assert_eq!(item.hint, item.handler.hint());
        assert!(!item.hint.is_empty());
    }
    assert_eq!(items[0].handler, Handler::Help);
    assert_eq!(items[0].hint, "Print short help for all builtin commands");
    assert_eq!(items[23].handler, Handler::Pipes);
    assert_eq!(items[23].hint, "Create a pipeline");
}

#[test]
fn no_two_builtins_share_a_name() {
    let items = default_builtins();
    for i in 0..items.len() {
        for j in 0..items.len() {
            assert_eq!(items[i].command == items[j].command, i == j);
        }
    }
}

#[test]
fn find_gives_the_builtin_of_each_name() {
    let builtins = Builtins::new();
    for name in NAMES.iter() {
        let found = builtins.find(name).expect("a builtin");
        assert_eq!(found.command, *name);
        assert_eq!(found.handler.command(), *name);
    }
    assert_eq!(builtins.find("exit").map(|b| b.handler), Some(Handler::Exit));
    assert_eq!(builtins.find("dir.list").map(|b| b.handler), Some(Handler::DirList));
    assert_eq!(builtins.find("subshell").map(|b| b.hint), Some("Run a subshell with a command"));
}

#[test]
fn find_knows_no_other_name() {
    let builtins = Builtins::new();
    assert!(builtins.find("ls").is_none());
    assert!(builtins.find("").is_none());
    assert!(builtins.find("Exit").is_none());
    assert!(builtins.find("exit ").is_none());
    assert!(builtins.find("exi").is_none());
    assert!(builtins.find("dir").is_none());
    assert!(builtins.find("debug").is_none());
}

#[test]
fn items_are_the_table() {
    let builtins = Builtins::new();
    let items = builtins.items();
    assert_eq!(items.len(), 24);
    assert_eq!(items[4].command, "echo");
}

#[test]
fn new_builtin_keeps_its_parts() {
    let builtin = Builtin::new("where", Handler::DirWhere, "Say where");
    assert_eq!(builtin.command, "where");
    assert_eq!(builtin.handler, Handler::DirWhere);
    assert_eq!(builtin.hint, "Say where");
}

#[test]
fn same_text_compares_characters() {
    assert!(same_text("", ""));
    assert!(same_text("exit", "exit"));
    assert!(same_text("écho", "écho"));
    assert!(!same_text("exit", "exi"));
    assert!(!same_text("exi", "exit"));
    assert!(!same_text("exit", "exiT"));
    assert!(!same_text("", "a"));
    assert!(!same_text("ab", "ba"));
}

#[test]
fn parse_i32_reads_what_std_reads() {
    let texts = [
        "0",
        "7",
        "42",
        "-42",
        "+42",
        "007",
        "-0",
        "+0",
        "2147483647",
        "2147483648",
        "-2147483648",
        "-2147483649",
        "+2147483647",
        "00000000000000000000002147483647",
        "99999999999999999999999999",
        "-99999999999999999999999999",
        "",
        "+",
        "-",
        "--1",
        "+-1",
        "1-",
        "1 ",
        " 1",
        "12a",
        "a12",
        "1.5",
        "0x10",
        "١٢",
        "1_000",
    ];
    for text in texts.iter() {
        assert_eq!(parse_i32(text), text.parse::<i32>().ok(), "{:?}", text);
    }
    assert_eq!(parse_i32("123"), Some(123));
    assert_eq!(parse_i32("-2147483648"), Some(i32::MIN));
    assert_eq!(parse_i32("2147483648"), None);
}
