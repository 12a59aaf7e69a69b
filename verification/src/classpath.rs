//! Which modules contribute to a classpath, read off the output of the
//! classpath derivation: lines of the form `export <variable> <paths>`, the
//! paths separated by colons.

use crate::text::{chars_of, contains_name, name_views};
use vstd::prelude::*;
use vstd::string::*;

verus! {

/// The index of the first `c` in `s`, or the length of `s` where there is
/// none.
pub open spec fn find_char(s: Seq<char>, c: char) -> nat
    decreases s.len(),
{
    if s.len() == 0 || s[0] == c {
        0
    } else {
        1 + find_char(s.drop_first(), c)
    }
}

/// The parts of `s` between the occurrences of `c`; one more part than there
/// are occurrences.
pub open spec fn split_on(s: Seq<char>, c: char) -> Seq<Seq<char>>
    decreases s.len(),
{
    let i = find_char(s, c) as int;
    if i >= s.len() {
        seq![s]
    } else {
        seq![s.take(i)] + split_on(s.skip(i + 1), c)
    }
}

/// A line without the carriage return that ends it, if one does.
pub open spec fn strip_cr(line: Seq<char>) -> Seq<char> {
    if line.len() > 0 && line.last() == '\r' {
        line.drop_last()
    } else {
        line
    }
}

/// The lines of a text. A line ends with a line feed, or with a carriage
/// return and a line feed, neither of which belongs to it; the last line may
/// end with the text.
pub open spec fn text_lines(text: Seq<char>) -> Seq<Seq<char>>
    decreases text.len(),
{
    if text.len() == 0 {
        Seq::empty()
    } else {
        let i = find_char(text, '\n') as int;
        if i >= text.len() {
            seq![text]
        } else {
            seq![strip_cr(text.take(i))] + text_lines(text.skip(i + 1))
        }
    }
}

/// The paths of a line of the form `export <variable> <paths>`: the word
/// `export`, a variable and the paths, with one space between them and none
/// inside them, and neither of the two empty.
pub open spec fn export_paths(line: Seq<char>) -> Option<Seq<char>> {
    if line.len() >= 7 && line.take(7) == "export "@ {
        let rest = line.skip(7);
        let i = find_char(rest, ' ') as int;
        if 0 < i < rest.len() {
            let paths = rest.skip(i + 1);
            if paths.len() > 0 && find_char(paths, ' ') >= paths.len() {
                Some(paths)
            } else {
                None
            }
        } else {
            None
        }
    } else {
        None
    }
}

/// The module that a path of the form `/apex/<module>/..` lies in.
pub open spec fn apex_name_in_path(path: Seq<char>) -> Option<Seq<char>> {
    if path.len() >= 6 && path.take(6) == "/apex/"@ {
        let rest = path.skip(6);
        let j = find_char(rest, '/') as int;
        if j < rest.len() {
            Some(rest.take(j))
        } else {
            None
        }
    } else {
        None
    }
}

/// The modules that these paths lie in.
pub open spec fn names_in_parts(parts: Seq<Seq<char>>) -> Set<Seq<char>>
    decreases parts.len(),
{
    if parts.len() == 0 {
        Set::empty()
    } else {
        let rest = names_in_parts(parts.drop_first());
        match apex_name_in_path(parts[0]) {
            Some(name) => rest.insert(name),
            None => rest,
        }
    }
}

/// The modules that a line names; none where the line is not of the form
/// `export <variable> <paths>`.
pub open spec fn names_in_line(line: Seq<char>) -> Set<Seq<char>> {
    match export_paths(line) {
        Some(paths) => names_in_parts(split_on(paths, ':')),
        None => Set::empty(),
    }
}

/// The modules that these lines name.
pub open spec fn names_in_lines(lines: Seq<Seq<char>>) -> Set<Seq<char>>
    decreases lines.len(),
{
    if lines.len() == 0 {
        Set::empty()
    } else {
        names_in_line(lines[0]).union(names_in_lines(lines.drop_first()))
    }
}

/// The modules that contribute to a classpath, by the output of the
/// classpath derivation.
pub open spec fn classpath_apex_names(classpath_vars: Seq<char>) -> Set<Seq<char>> {
    names_in_lines(text_lines(classpath_vars))
}

/// `find_char` gives the first occurrence.
pub proof fn lemma_find_char(s: Seq<char>, c: char)
    ensures
        find_char(s, c) <= s.len(),
        forall|k: int| 0 <= k < find_char(s, c) ==> s[k] != c,
        find_char(s, c) < s.len() ==> s[find_char(s, c) as int] == c,
    decreases s.len(),
{
    if s.len() == 0 || s[0] == c {
    } else {
        lemma_find_char(s.drop_first(), c);
        assert forall|k: int| 0 <= k < find_char(s, c) implies s[k] != c by {
            if k > 0 {
                assert(s[k] == s.drop_first()[k - 1]);
            }
        }
    }
}

/// An index with no `c` before it, and with `c` at it unless it is the
/// length of `s`, is what `find_char` gives.
pub proof fn lemma_find_char_is(s: Seq<char>, c: char, i: int)
    requires
        0 <= i <= s.len(),
        forall|k: int| 0 <= k < i ==> s[k] != c,
        i < s.len() ==> s[i] == c,
    ensures
        find_char(s, c) == i,
{
    lemma_find_char(s, c);
    let f = find_char(s, c) as int;
    if f < i {
        assert(s[f] != c);
    } else if f > i {
        assert(s[i] != c);
    }
}

/// The index of the first `c` in `text` from `start` on and before `end`, or
/// `end` where there is none.
fn find_in(text: &Vec<char>, start: usize, end: usize, c: char) -> (r: usize)
    requires
        start <= end <= text.len(),
    ensures
        start <= r <= end,
        r - start == find_char(text@.subrange(start as int, end as int), c),
{
    let mut i = start;
    while i < end && text[i] != c
        invariant
            start <= i <= end <= text.len(),
            forall|k: int| start <= k < i ==> text@[k] != c,
        decreases end - i,
    {
        i += 1;
    }
    proof {
        lemma_find_char_is(text@.subrange(start as int, end as int), c, i - start);
    }
    i
}

/// Whether the characters of `text` from `start` on are those of `word`.
fn has_at(text: &Vec<char>, start: usize, end: usize, word: &str) -> (r: bool)
    requires
        start <= end <= text.len(),
    ensures
        r == (end - start >= word@.len() && text@.subrange(start as int, end as int).take(
            word@.len() as int,
        ) == word@),
{
    let n = word.unicode_len();
    if end - start < n {
        return false;
    }
    let ghost sub = text@.subrange(start as int, end as int).take(n as int);
    let mut i: usize = 0;
    while i < n
        invariant
            i <= n,
            n == word@.len(),
            start + n <= end <= text.len(),
            sub == text@.subrange(start as int, end as int).take(n as int),
            forall|k: int| 0 <= k < i ==> sub[k] == word@[k],
        decreases n - i,
    {
        if text[start + i] != word.get_char(i) {
            assert(sub[i as int] != word@[i as int]);
            return false;
        }
        i += 1;
    }
    assert(sub =~= word@);
    true
}

/// Adds `name` to `names` unless it is among them.
fn add_name(names: &mut Vec<String>, name: String)
    requires
        name_views(old(names)@).no_duplicates(),
    ensures
        name_views(final(names)@).no_duplicates(),
        name_views(final(names)@).to_set() == name_views(old(names)@).to_set().insert(name@),
{
    if !contains_name(names, &name) {
        let ghost before = name_views(names@);
        let ghost n = name@;
        names.push(name);
        assert(name_views(names@) =~= before.push(n));
        assert forall|x: Seq<char>| name_views(names@).contains(x) <==> before.contains(x) || x
            == n by {
            if before.contains(x) {
                let k = choose|k: int| 0 <= k < before.len() && before[k] == x;
                assert(name_views(names@)[k] == x);
            }
            if x == n {
                assert(name_views(names@)[before.len() as int] == x);
            }
        }
        assert(name_views(names@).to_set() =~= before.to_set().insert(n));
    } else {
        assert(name_views(names@).to_set() =~= name_views(names@).to_set().insert(name@));
    }
}

/// Adds the module that the path from `start` to `end` lies in, if it is of
/// the form `/apex/<module>/..`.
fn add_name_in_path(
    source: &str,
    text: &Vec<char>,
    start: usize,
    end: usize,
    names: &mut Vec<String>,
)
    requires
        source@ == text@,
        start <= end <= text.len(),
        name_views(old(names)@).no_duplicates(),
    ensures
        name_views(final(names)@).no_duplicates(),
        name_views(final(names)@).to_set() == match apex_name_in_path(
            text@.subrange(start as int, end as int),
        ) {
            Some(name) => name_views(old(names)@).to_set().insert(name),
            None => name_views(old(names)@).to_set(),
        },
{
    proof {
        reveal_strlit("/apex/");
    }
    if has_at(text, start, end, "/apex/") {
        let from = start + 6;
        let to = find_in(text, from, end, '/');
        let ghost path = text@.subrange(start as int, end as int);
        assert(path.skip(6) =~= text@.subrange(from as int, end as int));
        if to < end {
            let name = source.substring_char(from, to);
            assert(name@ =~= path.skip(6).take(to - from));
            add_name(names, String::from_str(name));
        }
    }
}

/// Adds the modules that the paths from `start` to `end`, separated by
/// colons, lie in.
fn add_names_in_paths(
    source: &str,
    text: &Vec<char>,
    start: usize,
    end: usize,
    names: &mut Vec<String>,
)
    requires
        source@ == text@,
        start <= end <= text.len(),
        name_views(old(names)@).no_duplicates(),
    ensures
        name_views(final(names)@).no_duplicates(),
        name_views(final(names)@).to_set() == name_views(old(names)@).to_set().union(
            names_in_parts(split_on(text@.subrange(start as int, end as int), ':')),
        ),
{
    let ghost before = name_views(names@).to_set();
    let ghost all = names_in_parts(split_on(text@.subrange(start as int, end as int), ':'));
    let mut at = start;
    loop
        invariant_except_break
            start <= at <= end <= text.len(),
            source@ == text@,
            name_views(names@).no_duplicates(),
            before.union(all) == name_views(names@).to_set().union(
                names_in_parts(split_on(text@.subrange(at as int, end as int), ':')),
            ),
        ensures
            name_views(names@).no_duplicates(),
            name_views(names@).to_set() == before.union(all),
        decreases end - at,
    {
        let colon = find_in(text, at, end, ':');
        let ghost rest = text@.subrange(at as int, end as int);
        proof {
            assert(rest.take(colon - at) =~= text@.subrange(at as int, colon as int));
            assert(rest.take(rest.len() as int) =~= rest);
            if colon < end {
                assert(rest.skip(colon - at + 1) =~= text@.subrange(colon + 1, end as int));
            }
            let parts = split_on(rest, ':');
            assert(parts[0] == text@.subrange(at as int, colon as int));
            if colon < end {
                assert(parts.drop_first() =~= split_on(text@.subrange(colon + 1, end as int), ':'));
            } else {
                assert(parts.drop_first() =~= Seq::<Seq<char>>::empty());
                assert(names_in_parts(parts.drop_first()) =~= Set::<Seq<char>>::empty());
            }
        }
        add_name_in_path(source, text, at, colon, names);
        if colon >= end {
            proof {
                assert(name_views(names@).to_set() =~= before.union(all));
            }
            break ;
        }
        proof {
            assert(before.union(all) =~= name_views(names@).to_set().union(
                names_in_parts(split_on(text@.subrange(colon + 1, end as int), ':')),
            ));
        }
        at = colon + 1;
    }
}

/// Adds the modules that the line from `start` to `end` names.
fn add_names_in_line(
    source: &str,
    text: &Vec<char>,
    start: usize,
    end: usize,
    names: &mut Vec<String>,
)
    requires
        source@ == text@,
        start <= end <= text.len(),
        name_views(old(names)@).no_duplicates(),
    ensures
        name_views(final(names)@).no_duplicates(),
        name_views(final(names)@).to_set() == name_views(old(names)@).to_set().union(
            names_in_line(text@.subrange(start as int, end as int)),
        ),
{
    proof {
        reveal_strlit("export ");
    }
    let ghost line = text@.subrange(start as int, end as int);
    let ghost before = name_views(names@).to_set();
    if has_at(text, start, end, "export ") {
        let variable = start + 7;
        let space = find_in(text, variable, end, ' ');
        assert(line.skip(7) =~= text@.subrange(variable as int, end as int));
        if variable < space && space < end {
            let paths = space + 1;
            assert(line.skip(7).skip(space - variable + 1) =~= text@.subrange(
                paths as int,
                end as int,
            ));
            if paths < end && find_in(text, paths, end, ' ') == end {
                add_names_in_paths(source, text, paths, end, names);
                return ;
            }
        }
    }
    assert(name_views(names@).to_set() =~= before.union(names_in_line(line)));
}

/// Finds the modules that contribute to a classpath in the output of the
/// classpath derivation. Each line should have the form
/// `export <variable> <paths>`, where the paths are separated by colons; a
/// path of the form `/apex/<module>/..` names a module, other paths name
/// none, and a line of another form is passed over. Each module is listed
/// once.
pub fn find_apex_names_in_classpath(classpath_vars: &str) -> (names: Vec<String>)
    ensures
        name_views(names@).no_duplicates(),
        name_views(names@).to_set() == classpath_apex_names(classpath_vars@),
{
    let text = chars_of(classpath_vars);
    let n = text.len();
    let mut names: Vec<String> = Vec::new();
    let mut at: usize = 0;
    assert(text@.subrange(0, n as int) =~= text@);
    assert(name_views(names@).to_set() =~= Set::<Seq<char>>::empty());
    while at < n
        invariant
            at <= n,
            n == text.len(),
            classpath_vars@ == text@,
            name_views(names@).no_duplicates(),
            classpath_apex_names(text@) == name_views(names@).to_set().union(
                names_in_lines(text_lines(text@.subrange(at as int, n as int))),
            ),
        decreases n - at,
    {
        let newline = find_in(&text, at, n, '\n');
        let ghost rest = text@.subrange(at as int, n as int);
        let mut end = newline;
        if newline < n && newline > at && text[newline - 1] == '\r' {
            end = newline - 1;
        }
        proof {
            let lines = text_lines(rest);
            if newline < n {
                assert(rest.take(newline - at) =~= text@.subrange(at as int, newline as int));
                assert(strip_cr(rest.take(newline - at)) =~= text@.subrange(at as int, end as int));
                assert(rest.skip(newline - at + 1) =~= text@.subrange(newline + 1, n as int));
                assert(lines[0] == text@.subrange(at as int, end as int));
                assert(lines.drop_first() =~= text_lines(text@.subrange(newline + 1, n as int)));
            } else {
                assert(lines[0] == text@.subrange(at as int, end as int));
                assert(lines.drop_first() =~= Seq::<Seq<char>>::empty());
                assert(text@.subrange(n as int, n as int) =~= Seq::<char>::empty());
            }
        }
        add_names_in_line(classpath_vars, &text, at, end, &mut names);
        if newline < n {
            at = newline + 1;
        } else {
            at = n;
        }
        proof {
            assert(classpath_apex_names(text@) =~= name_views(names@).to_set().union(
                names_in_lines(text_lines(text@.subrange(at as int, n as int))),
            ));
        }
    }
    assert(text@.subrange(n as int, n as int) =~= Seq::<char>::empty());
    assert(classpath_apex_names(text@) =~= name_views(names@).to_set());
    names
}

} // verus!
