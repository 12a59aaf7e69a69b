use std::collections::HashSet;

use regex::Regex;
use vmprep::classpath::find_apex_names_in_classpath;

fn names(text: &str) -> HashSet<String> {
    let found = find_apex_names_in_classpath(text);
    let set: HashSet<String> = found.iter().cloned().collect();
    assert_eq!(set.len(), found.len(), "a name is listed twice for {text:?}");
    set
}

fn set(names: &[&str]) -> HashSet<String> {
    names.iter().map(|n| n.to_string()).collect()
}

/// The same question, put to a regular expression and to the splitting
/// functions of the standard library.
fn names_by_pattern(pattern: &Regex, text: &str) -> HashSet<String> {
    let mut apexes = HashSet::new();
    for line in text.lines() {
        if let Some(captures) = pattern.captures(line) {
            if let Some(paths) = captures.get(1) {
                apexes.extend(paths.as_str().split(':').filter_map(|path| {
                    let path = path.strip_prefix("/apex/")?;
                    Some(path[..path.find('/')?].to_owned())
                }));
            }
        }
    }
    apexes
}

#[test]
fn empty_text_names_nothing() {
    assert_eq!(names(""), set(&[]));
    assert_eq!(names("\n"), set(&[]));
    assert_eq!(names("\n\n\r\n"), set(&[]));
}

#[test]
fn single_line_without_line_feed() {
    assert_eq!(names("export A /apex/com.a/javalib/a.jar"), set(&["com.a"]));
}

#[test]
fn each_module_is_listed_once() {
    let text = "export A /apex/m/a.jar:/apex/m/b.jar\nexport B /apex/m/c.jar:/apex/n/d.jar\n";
    assert_eq!(find_apex_names_in_classpath(text), vec!["m".to_string(), "n".to_string()]);
}

#[test]
fn carriage_return_before_line_feed_ends_the_line() {
    assert_eq!(names("export A /apex/m/a.jar\r\nexport B /apex/n/b.jar\r\n"), set(&["m", "n"]));
    // A carriage return before the end of the line belongs to the path.
    assert_eq!(names("export A /apex/m\r/a.jar\r\n"), set(&["m\r"]));
    // So does one at the end of a last line that no line feed ends.
    assert_eq!(names("export A /apex/m/a.jar:/apex/n\r"), set(&["m"]));
    assert_eq!(names("export A /apex/m/a\r"), set(&["m"]));
}

#[test]
fn lines_of_another_form_are_passed_over() {
    assert_eq!(names("export A  /apex/m/a.jar"), set(&[]));
    assert_eq!(names(" export A /apex/m/a.jar"), set(&[]));
    assert_eq!(names("export A /apex/m/a.jar "), set(&[]));
    assert_eq!(names("export A /apex/m/a.jar /apex/n/b.jar"), set(&[]));
    assert_eq!(names("Export A /apex/m/a.jar"), set(&[]));
    assert_eq!(names("export A"), set(&[]));
    assert_eq!(names("export A "), set(&[]));
    assert_eq!(names("export  /apex/m/a.jar"), set(&[]));
    assert_eq!(names("exportA /apex/m/a.jar"), set(&[]));
    assert_eq!(names("export\tA /apex/m/a.jar"), set(&[]));
    assert_eq!(names("export"), set(&[]));
}

#[test]
fn only_paths_below_apex_name_a_module() {
    assert_eq!(names("export A /apex/m"), set(&[]));
    assert_eq!(names("export A /apex/"), set(&[]));
    assert_eq!(names("export A /apex"), set(&[]));
    assert_eq!(names("export A apex/m/a.jar"), set(&[]));
    assert_eq!(names("export A /system/apex/m/a.jar"), set(&[]));
    assert_eq!(names("export A /apex//a.jar"), set(&[""]));
    assert_eq!(names("export A /apex/m/"), set(&["m"]));
    assert_eq!(names("export A ::/apex/m/a:"), set(&["m"]));
    assert_eq!(names("export A :"), set(&[]));
}

#[test]
fn names_may_hold_any_character_but_the_separators() {
    assert_eq!(names("export Ä /apex/módulo.ñ/ä.jar"), set(&["módulo.ñ"]));
    assert_eq!(names("export A /apex/a\tb/x"), set(&["a\tb"]));
}

#[test]
fn agrees_with_the_pattern() {
    let texts = [
        "",
        "\n",
        "\r",
        "\r\n",
        "export A /apex/m/a.jar",
        "export A /apex/m/a.jar\n",
        "export A /apex/m/a.jar\r",
        "export A /apex/m/a.jar\r\n",
        "export A /apex/m/a.jar\r\r\n",
        "export A /apex/m/a.jar\n\rexport B /apex/n/b.jar",
        "export A /apex/m/a.jar\n\nexport B /apex/n/b.jar\n\n",
        "export A /apex/m/a.jar:/apex/m/b.jar:/apex/n/c.jar",
        "export A /apex/m/a.jar:/apex/m/b.jar:/apex/n",
        "export A :/apex/m/a:",
        "export A :::",
        "export A /apex//",
        "export A /apex/ /x",
        "export  A /apex/m/a.jar",
        "export A\t/apex/m/a.jar",
        "export A /apex/m/a.jar\t",
        "export A /apex/é/a.jar\nexport B /apex/日本/b.jar",
        "wrong\nexport EMPTY\nexport OTHER /foo/bar:/baz:/apex/second.valid.apex/:gibberish:",
        "export FOO /apex/unterminated\nexport BAR /apex/valid.apex/something",
        "export A /apex/m/a.jar\nexport",
        "export A /apex/m/a.jar\nexport ",
        "export A /apex/m/a.jar\nexport B",
        "export A /apex/m/a.jar\nexport B ",
        "export A /apex/m/a.jar\x0bexport B /apex/n/b.jar",
        "export A /apex/m/a.jar\u{2028}export B /apex/n/b.jar",
    ];
    let pattern = Regex::new(r"^export [^ ]+ ([^ ]+)$").unwrap();
    for text in texts {
        assert_eq!(names(text), names_by_pattern(&pattern, text), "for {text:?}");
    }
}

#[test]
fn agrees_with_the_pattern_on_short_texts() {
    // Every text of up to four characters over an alphabet that holds the
    // separators, appended to a line that is well formed and to one that is
    // not.
    let pattern = Regex::new(r"^export [^ ]+ ([^ ]+)$").unwrap();
    let alphabet = [' ', ':', '/', '\n', '\r', 'a'];
    let mut texts: Vec<String> = vec![String::new()];
    let mut level: Vec<String> = vec![String::new()];
    for _ in 0..4 {
        let mut next = Vec::new();
        for t in &level {
            for c in alphabet {
                let mut s = t.clone();
                s.push(c);
                next.push(s);
            }
        }
        texts.extend(next.iter().cloned());
        level = next;
    }
    for tail in &texts {
        for head in ["export A /apex/", "export A /apex/m", "export A", ""] {
            let text = format!("{head}{tail}");
            assert_eq!(names(&text), names_by_pattern(&pattern, &text), "for {text:?}");
        }
    }
}
