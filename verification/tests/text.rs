use typhon::handles;
use typhon::text::{join2, join3, join_lines, replace_spaces, split_lines, str_eq, u64_to_string};

#[test]
fn numbers_are_written_in_decimal() {
    assert_eq!(u64_to_string(0), "0");
    assert_eq!(u64_to_string(7), "7");
    assert_eq!(u64_to_string(10), "10");
    assert_eq!(u64_to_string(12345), "12345");
    assert_eq!(u64_to_string(1000000), "1000000");
    assert_eq!(u64_to_string(u64::MAX), "18446744073709551615");
}

#[test]
fn strings_are_compared_by_what_they_hold() {
    assert!(str_eq("abc", "abc"));
    assert!(str_eq("", ""));
    assert!(!str_eq("abc", "abd"));
    assert!(!str_eq("abc", "ab"));
}

#[test]
fn strings_are_joined() {
    assert_eq!(join2("ab", "cd"), "abcd");
    assert_eq!(join2("", ""), "");
    assert_eq!(join3("a", ":", "b"), "a:b");
}

#[test]
fn a_text_without_line_break_is_one_line() {
    assert_eq!(split_lines(""), vec![""]);
    assert_eq!(split_lines("abc"), vec!["abc"]);
}

#[test]
fn a_text_is_cut_at_every_line_break() {
    assert_eq!(split_lines("a\nb"), vec!["a", "b"]);
    assert_eq!(split_lines("a\n"), vec!["a", ""]);
    assert_eq!(split_lines("\na"), vec!["", "a"]);
    assert_eq!(split_lines("\n\n"), vec!["", "", ""]);
    assert_eq!(split_lines("error: x\n  at y\n\nhint"), vec!["error: x", "  at y", "", "hint"]);
}

#[test]
fn split_lines_agrees_with_the_standard_library() {
    for text in ["", "a", "a\nb", "\n", "a\n\nb\n", "héllo\nwörld", "tab\there"] {
        let expected: Vec<String> = text.split("\n").map(|line| line.to_string()).collect();
        assert_eq!(split_lines(text), expected);
    }
}

#[test]
fn joining_the_lines_gives_the_text_back() {
    for text in ["", "a", "a\nb", "\n", "a\n\nb\n", "x\ny\nz"] {
        assert_eq!(join_lines(&split_lines(text)), text);
    }
}

#[test]
fn parts_are_joined_with_line_breaks() {
    assert_eq!(join_lines(&vec![]), "");
    assert_eq!(join_lines(&vec!["a".to_string()]), "a");
    assert_eq!(join_lines(&vec!["a".to_string(), "b".to_string()]), "a\nb");
    assert_eq!(join_lines(&vec!["".to_string(), "".to_string()]), "\n");
}

#[test]
fn spaces_are_replaced() {
    assert_eq!(replace_spaces("a b  c", '_'), "a_b__c");
    assert_eq!(replace_spaces("", '_'), "");
    assert_eq!(replace_spaces("abc", '_'), "abc");
    assert_eq!(replace_spaces(" ", '\u{a0}'), "\u{a0}");
}

#[test]
fn handles_are_written_with_colons() {
    let project = handles::project("p".to_string());
    assert_eq!(project.to_string(), "p");
    let jobset = handles::jobset(("p".to_string(), "main".to_string()));
    assert_eq!(jobset.to_string(), "p:main");
    let evaluation = handles::evaluation(("p".to_string(), 12));
    assert_eq!(evaluation.to_string(), "p:12");
    let job = handles::job(("p".to_string(), 12, "x86_64-linux".to_string(), "hello".to_string()));
    assert_eq!(job.to_string(), "p:12:x86_64-linux:hello");
    let run = handles::run((
        "p".to_string(),
        12,
        "x86_64-linux".to_string(),
        "hello".to_string(),
        3,
    ));
    assert_eq!(run.to_string(), "p:12:x86_64-linux:hello:3");
    let build = handles::build(("/nix/store/a.drv".to_string(), 2));
    assert_eq!(build.to_string(), "/nix/store/a.drv:2");
    let action = handles::action(("p".to_string(), 5));
    assert_eq!(action.to_string(), "p:5");
}

#[test]
fn handles_are_built_from_their_parts() {
    let run = handles::run((
        "p".to_string(),
        12,
        "x86_64-linux".to_string(),
        "hello".to_string(),
        3,
    ));
    assert_eq!(
        run,
        handles::Run {
            job: handles::Job {
                evaluation: handles::Evaluation {
                    project: handles::Project { name: "p".to_string() },
                    num: 12
                },
                system: "x86_64-linux".to_string(),
                name: "hello".to_string()
            },
            num: 3
        }
    );
    assert_eq!(run.clone(), run);
    assert_eq!(
        handles::build(("d".to_string(), 1)),
        handles::Build { drv: "d".to_string(), num: 1 }
    );
    assert_eq!(
        handles::action(("p".to_string(), 1)),
        handles::Action { project: handles::Project { name: "p".to_string() }, num: 1 }
    );
    assert_eq!(
        handles::jobset(("p".to_string(), "j".to_string())),
        handles::Jobset { project: handles::Project { name: "p".to_string() }, name: "j".to_string() }
    );
}
