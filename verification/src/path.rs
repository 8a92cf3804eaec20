//! The text of a path, read the way Linux reads it.
//!
//! A path is a sequence of characters. `/` separates its components; an
//! empty component (two separators in a row, or one at the end) and the
//! component `.` name nothing. Every other component, `..` included, is a
//! *named* component. The parent of a path is the path without its last
//! named component and without whatever nameless text surrounded it, except
//! that a leading `/` or a leading `.` is never cut away.

use vstd::prelude::*;
use vstd::string::StrSliceExecFns;

verus! {

/// Whether `c` separates two components of a path.
pub open spec fn is_separator(c: char) -> bool {
    c == '/'
}

/// Whether a comma occurs anywhere in `path`.
pub open spec fn has_comma(path: Seq<char>) -> bool {
    path.contains(',')
}

/// Where the component that ends just before position `end` begins: the
/// position after the nearest separator to the left, or 0.
pub open spec fn component_start(path: Seq<char>, end: int) -> int
    decreases end,
{
    if end <= 0 {
        0
    } else if is_separator(path[end - 1]) {
        end
    } else {
        component_start(path, end - 1)
    }
}

/// Where the last named component within the first `end` characters ends,
/// or 0 if those characters hold no named component. Separators and `.`
/// components at the end are skipped.
pub open spec fn last_name_end(path: Seq<char>, end: int) -> int
    decreases end,
{
    if end <= 0 {
        0
    } else if is_separator(path[end - 1]) {
        last_name_end(path, end - 1)
    } else if path[end - 1] == '.' && (end == 1 || is_separator(path[end - 2])) {
        last_name_end(path, end - 1)
    } else {
        end
    }
}

/// How many leading characters no parent may lose: 1 for a path that
/// starts at the root or with a `.` component, otherwise 0.
pub open spec fn anchor_len(path: Seq<char>) -> int {
    if path.len() == 0 {
        0
    } else if is_separator(path[0]) {
        1
    } else if path[0] == '.' && (path.len() == 1 || is_separator(path[1])) {
        1
    } else {
        0
    }
}

/// The length of the parent of `path`, if it has one.
///
/// A path with a named component has the parent that ends where the named
/// component before the last one ends, or that is the anchor alone. A path
/// without a named component has the empty parent if it starts with `.`,
/// and none if it is empty or only the root.
pub open spec fn parent_len(path: Seq<char>) -> Option<int> {
    let last_end = last_name_end(path, path.len() as int);
    if last_end == 0 {
        if path.len() > 0 && path[0] == '.' {
            Some(0)
        } else {
            None
        }
    } else {
        let kept = last_name_end(path, component_start(path, last_end));
        if kept == 0 {
            Some(anchor_len(path))
        } else {
            Some(kept)
        }
    }
}

/// The parent of `path`, if it has one.
pub open spec fn parent_of(path: Seq<char>) -> Option<Seq<char>> {
    match parent_len(path) {
        Some(n) => Some(path.subrange(0, n)),
        None => None,
    }
}

/// Whether `name` can stand as a named component: it is not empty, holds
/// no separator, and is not `.`.
pub open spec fn is_name(name: Seq<char>) -> bool {
    &&& name.len() > 0
    &&& forall|i: int| 0 <= i < name.len() ==> !is_separator(#[trigger] name[i])
    &&& !(name.len() == 1 && name[0] == '.')
}

/// A component starts at or before its end, after a separator or at the
/// front, and holds no separator.
pub proof fn lemma_component_start(path: Seq<char>, end: int)
    requires
        0 <= end <= path.len(),
    ensures
        0 <= component_start(path, end) <= end,
        component_start(path, end) == 0 || is_separator(path[component_start(path, end) - 1]),
        forall|i: int| component_start(path, end) <= i < end ==> !is_separator(#[trigger] path[i]),
        end > 0 && !is_separator(path[end - 1]) ==> component_start(path, end) < end,
    decreases end,
{
    if end > 0 && !is_separator(path[end - 1]) {
        lemma_component_start(path, end - 1);
    }
}

/// The end of the last named component lies within the text searched, the
/// character before it belongs to a name, and nothing is skipped from
/// there.
pub proof fn lemma_last_name_end(path: Seq<char>, end: int)
    requires
        0 <= end <= path.len(),
    ensures
        0 <= last_name_end(path, end) <= end,
        last_name_end(path, end) > 0 ==> !is_separator(path[last_name_end(path, end) - 1]),
        last_name_end(path, last_name_end(path, end)) == last_name_end(path, end),
    decreases end,
{
    if end > 0 {
        if is_separator(path[end - 1]) {
            lemma_last_name_end(path, end - 1);
        } else if path[end - 1] == '.' && (end == 1 || is_separator(path[end - 2])) {
            lemma_last_name_end(path, end - 1);
        }
    }
}

/// Neither a separator nor a `.` component hides a character that stands
/// to its left: the last named component ends after every character that
/// is neither `/` nor `.`.
pub proof fn lemma_name_covers(path: Seq<char>, end: int, i: int)
    requires
        0 <= i < end <= path.len(),
        !is_separator(path[i]),
        path[i] != '.',
    ensures
        last_name_end(path, end) > i,
    decreases end,
{
    if is_separator(path[end - 1]) {
        lemma_name_covers(path, end - 1, i);
    } else if path[end - 1] == '.' && (end == 1 || is_separator(path[end - 2])) {
        lemma_name_covers(path, end - 1, i);
    }
}

/// The parent is the path without its last named component. It is a
/// proper prefix of the path; it ends at or before the place where the
/// last named component starts; and every named component before the last
/// one lies within it.
pub proof fn lemma_parent_drops_last_name(path: Seq<char>)
    requires
        parent_len(path) is Some,
    ensures
        0 <= parent_len(path).unwrap() < path.len(),
        parent_of(path) == Some(path.subrange(0, parent_len(path).unwrap())),
        parent_of(path).unwrap().len() == parent_len(path).unwrap(),
        parent_of(path).unwrap() != path,
        last_name_end(path, path.len() as int) > 0 ==> {
            let start = component_start(path, last_name_end(path, path.len() as int));
            last_name_end(path, start) <= parent_len(path).unwrap() <= start
        },
{
    let len = path.len() as int;
    let last_end = last_name_end(path, len);
    lemma_last_name_end(path, len);
    if last_end > 0 {
        let start = component_start(path, last_end);
        lemma_component_start(path, last_end);
        lemma_last_name_end(path, start);
        if anchor_len(path) == 1 && start == 0 {
            // The anchor would be the last name itself. It is not a
            // separator, so it is a `.` that ends the path or stands before
            // a separator, and such a `.` is no name.
            assert(!is_separator(path[0]));
            assert(last_end == 1) by {
                if last_end > 1 {
                    assert(!is_separator(path[1]));
                }
            }
            assert(last_name_end(path, 0) == 0);
            assert(last_name_end(path, 1) == 0);
        }
    }
}

/// A path with a comma in it has a named component, and so a parent.
pub proof fn lemma_comma_path_has_parent(path: Seq<char>)
    requires
        has_comma(path),
    ensures
        last_name_end(path, path.len() as int) > 0,
        parent_of(path) is Some,
        parent_of(path).unwrap().len() < path.len(),
        parent_of(path).unwrap() != path,
{
    let i = choose|i: int| 0 <= i < path.len() && path[i] == ',';
    lemma_name_covers(path, path.len() as int, i);
    lemma_parent_drops_last_name(path);
}

/// Where the last named component ends depends only on the text before
/// the place from which it is looked for.
pub proof fn lemma_last_name_end_of_prefix(path: Seq<char>, other: Seq<char>, end: int)
    requires
        0 <= end <= path.len(),
        end <= other.len(),
        forall|i: int| 0 <= i < end ==> path[i] == other[i],
    ensures
        last_name_end(path, end) == last_name_end(other, end),
    decreases end,
{
    if end > 0 {
        lemma_last_name_end_of_prefix(path, other, end - 1);
    }
}

/// A stretch without a separator that begins after a separator, or at the
/// front, is one component.
pub proof fn lemma_component_start_of_run(path: Seq<char>, start: int, end: int)
    requires
        0 <= start <= end <= path.len(),
        start == 0 || is_separator(path[start - 1]),
        forall|i: int| start <= i < end ==> !is_separator(#[trigger] path[i]),
    ensures
        component_start(path, end) == start,
    decreases end - start,
{
    if start < end {
        lemma_component_start_of_run(path, start, end - 1);
    }
}

/// Taking the parent undoes adding a name: a path that ends with a name,
/// joined by one separator to a further name, has that path as its parent.
/// A name alone has the empty path as its parent.
pub proof fn lemma_parent_undoes_join(directory: Seq<char>, name: Seq<char>)
    requires
        is_name(name),
        directory.len() > 0,
        last_name_end(directory, directory.len() as int) == directory.len(),
    ensures
        parent_of(directory + seq!['/'] + name) == Some(directory),
        parent_of(name) == Some(Seq::<char>::empty()),
{
    let joined = directory + seq!['/'] + name;
    let cut = directory.len() as int;
    let len = joined.len() as int;
    assert(len == cut + 1 + name.len());
    assert(joined[cut] == '/');
    assert forall|i: int| cut + 1 <= i < len implies !is_separator(#[trigger] joined[i]) by {
        assert(joined[i] == name[i - cut - 1]);
    }
    assert(joined[len - 1] == name[name.len() - 1]);
    if name.len() >= 2 {
        assert(joined[len - 2] == name[name.len() - 2]);
    } else {
        assert(joined[len - 1] == name[0]);
    }
    assert(last_name_end(joined, len) == len);
    lemma_component_start_of_run(joined, cut + 1, len);
    assert(last_name_end(joined, cut + 1) == last_name_end(joined, cut));
    lemma_last_name_end_of_prefix(joined, directory, cut);
    assert(parent_len(joined) == Some(cut));
    assert(joined.subrange(0, cut) =~= directory);

    let alone = name.len() as int;
    assert(last_name_end(name, alone) == alone);
    lemma_component_start_of_run(name, 0, alone);
    assert(last_name_end(name, 0) == 0);
    assert(anchor_len(name) == 0) by {
        if name[0] == '.' && name.len() > 1 {
            assert(!is_separator(name[1]));
        }
    }
    assert(name.subrange(0, 0) =~= Seq::<char>::empty());
}

/// The characters of `text`, in order.
fn characters(text: &str) -> (chars: Vec<char>)
    ensures
        chars@ == text@,
{
    let mut chars: Vec<char> = Vec::new();
    for c in it: text.chars()
        invariant
            chars@ == it.seq().take(it.index()),
    {
        chars.push(c);
    }
    chars
}

/// Whether `path` holds a comma.
pub fn contains_comma(path: &str) -> (found: bool)
    ensures
        found == has_comma(path@),
{
    let chars = characters(path);
    let mut i: usize = 0;
    while i < chars.len()
        invariant
            i <= chars.len(),
            chars@ == path@,
            forall|j: int| 0 <= j < i ==> chars@[j] != ',',
        decreases chars.len() - i,
    {
        if chars[i] == ',' {
            assert(chars@[i as int] == ',');
            return true;
        }
        i += 1;
    }
    false
}

fn name_start(chars: &Vec<char>, end: usize) -> (start: usize)
    requires
        end <= chars.len(),
    ensures
        start == component_start(chars@, end as int),
        start <= end,
{
    let mut start: usize = end;
    while start > 0 && chars[start - 1] != '/'
        invariant
            start <= end <= chars.len(),
            component_start(chars@, start as int) == component_start(chars@, end as int),
        decreases start,
    {
        start -= 1;
    }
    start
}

fn name_end(chars: &Vec<char>, end: usize) -> (found: usize)
    requires
        end <= chars.len(),
    ensures
        found == last_name_end(chars@, end as int),
        found <= end,
{
    let mut found: usize = end;
    while found > 0 && (chars[found - 1] == '/' || (chars[found - 1] == '.' && (found == 1
        || chars[found - 2] == '/')))
        invariant
            found <= end <= chars.len(),
            last_name_end(chars@, found as int) == last_name_end(chars@, end as int),
        decreases found,
    {
        found -= 1;
    }
    found
}

fn anchor_length(chars: &Vec<char>) -> (n: usize)
    ensures
        n == anchor_len(chars@),
        n <= chars.len(),
{
    if chars.len() == 0 {
        0
    } else if chars[0] == '/' {
        1
    } else if chars[0] == '.' && (chars.len() == 1 || chars[1] == '/') {
        1
    } else {
        0
    }
}

fn parent_length(chars: &Vec<char>) -> (n: Option<usize>)
    ensures
        match n {
            Some(k) => parent_len(chars@) == Some(k as int) && k <= chars.len(),
            None => parent_len(chars@) is None,
        },
{
    let last_end = name_end(chars, chars.len());
    if last_end == 0 {
        if chars.len() > 0 && chars[0] == '.' {
            Some(0)
        } else {
            None
        }
    } else {
        let start = name_start(chars, last_end);
        let kept = name_end(chars, start);
        if kept == 0 {
            Some(anchor_length(chars))
        } else {
            Some(kept)
        }
    }
}

/// The parent of `path`: the path without its last named component.
/// `None` for a path that has no parent: the empty path, and one that
/// names only the root.
pub fn parent_directory(path: &str) -> (parent: Option<String>)
    ensures
        match parent {
            Some(p) => parent_of(path@) == Some(p@),
            None => parent_of(path@) is None,
        },
{
    let chars = characters(path);
    match parent_length(&chars) {
        Some(n) => Some(path.substring_char(0, n).to_owned()),
        None => None,
    }
}

} // verus!
