//! Paths and file names as text.
//!
//! A path is a sequence of components separated by `/`. Empty components and
//! the component `.` name nothing; the component `..` names the parent.

use vstd::prelude::*;
use vstd::string::{StrSliceExecFns, StringExecFns};
use crate::text::{chars_of, starts_with};

verus! {

/// What a function that may return a string returned, as text.
pub open spec fn option_text(value: Option<String>) -> Option<Seq<char>> {
    match value {
        Some(s) => Some(s@),
        None => None,
    }
}

/// Where the component that ends before index `end` begins.
pub open spec fn component_start(path: Seq<char>, end: int) -> int
    decreases end,
{
    if end <= 0 {
        0
    } else if path[end - 1] == '/' {
        end
    } else {
        component_start(path, end - 1)
    }
}

/// The last component of the first `end` characters of `path` that names
/// something, if the path does not end in the parent component.
pub open spec fn last_component(path: Seq<char>, end: int) -> Option<Seq<char>>
    decreases end,
{
    if end <= 0 {
        None
    } else if path[end - 1] == '/' {
        last_component(path, end - 1)
    } else {
        let start: int = component_start(path, end);
        let name = path.subrange(start, end);
        if name == seq!['.'] {
            if 0 <= start < end {
                last_component(path, start)
            } else {
                None
            }
        } else if name == seq!['.', '.'] {
            None
        } else {
            Some(name)
        }
    }
}

/// The final component of `path`: the name of the file or directory that the
/// path leads to. A path that is empty, is the root, or ends in `..` has
/// none; separators and `.` at the end are passed over.
pub open spec fn final_component_of(path: Seq<char>) -> Option<Seq<char>> {
    last_component(path, path.len() as int)
}

/// `base` continued by `name`: the two are put together with one separator
/// between them, unless `base` is empty or ends in one already.
pub open spec fn joined(base: Seq<char>, name: Seq<char>) -> Seq<char> {
    if base.len() == 0 || base.last() == '/' {
        base + name
    } else {
        base + seq!['/'] + name
    }
}

/// Where a backup of `source` goes below `destination_root`: into a
/// directory of the source's own name, or into the root itself where the
/// source has no final component.
pub open spec fn resolved_destination(destination_root: Seq<char>, source: Seq<char>) -> Seq<char> {
    match final_component_of(source) {
        Some(name) => joined(destination_root, name),
        None => destination_root,
    }
}

/// The index of the last `.` among the first `n` characters of `name`, or -1.
pub open spec fn last_dot(name: Seq<char>, n: int) -> int
    decreases n,
{
    if n <= 0 {
        -1
    } else if name[n - 1] == '.' {
        n - 1
    } else {
        last_dot(name, n - 1)
    }
}

/// The extension of a file name: what follows its last `.`, where that dot is
/// not the name's first character. The name `..` has none.
pub open spec fn extension_of(name: Seq<char>) -> Option<Seq<char>> {
    let dot: int = last_dot(name, name.len() as int);
    if dot <= 0 || name == seq!['.', '.'] {
        None
    } else {
        Some(name.skip(dot + 1))
    }
}

/// A name is hidden when it begins with a dot.
pub open spec fn hidden_name(name: Seq<char>) -> bool {
    name.len() > 0 && name[0] == '.'
}

/// `path` is `root` or lies below it.
pub open spec fn within(path: Seq<char>, root: Seq<char>) -> bool {
    root.is_prefix_of(path) && (path.len() == root.len() || path[root.len() as int] == '/')
}

/// `text` without the separators that it begins with.
pub open spec fn without_leading_separators(text: Seq<char>) -> Seq<char>
    decreases text.len(),
{
    if text.len() > 0 && text[0] == '/' {
        without_leading_separators(text.skip(1))
    } else {
        text
    }
}

/// What leads from `base` to `path`: nothing where the two are the same,
/// the rest of `path` where it continues `base` at a separator, and no answer
/// where `path` does not lie below `base`.
pub open spec fn relative_to(path: Seq<char>, base: Seq<char>) -> Option<Seq<char>> {
    if !base.is_prefix_of(path) {
        None
    } else {
        let rest = path.skip(base.len() as int);
        if rest.len() == 0 {
            Some(rest)
        } else if rest[0] == '/' || (base.len() > 0 && base.last() == '/') {
            Some(without_leading_separators(rest))
        } else {
            None
        }
    }
}

/// Where below `destination` the entry lies that `relative` leads to.
pub open spec fn mirrored(destination: Seq<char>, relative: Seq<char>) -> Seq<char> {
    if relative.len() == 0 {
        destination
    } else {
        joined(destination, relative)
    }
}

/// The component that ends before `end` begins no later than `end`, and no
/// separator lies inside it.
pub proof fn lemma_component_start(path: Seq<char>, end: int)
    requires
        0 <= end <= path.len(),
    ensures
        0 <= component_start(path, end) <= end,
        end > 0 && path[end - 1] != '/' ==> component_start(path, end) < end,
        forall|i: int| component_start(path, end) <= i < end ==> path[i] != '/',
    decreases end,
{
    if end > 0 && path[end - 1] != '/' {
        lemma_component_start(path, end - 1);
    }
}

/// The final component of `path`, as an owned string.
pub fn final_component(path: &str) -> (name: Option<String>)
    ensures
        option_text(name) == final_component_of(path@),
{
    let chars = chars_of(path);
    let mut end: usize = chars.len();
    while end > 0
        invariant
            end <= chars.len(),
            chars@ == path@,
            last_component(path@, end as int) == final_component_of(path@),
        decreases end,
    {
        if chars[end - 1] == '/' {
            end -= 1;
        } else {
            let mut start: usize = end - 1;
            while start > 0 && chars[start - 1] != '/'
                invariant
                    start < end <= chars.len(),
                    chars@ == path@,
                    component_start(path@, end as int) == component_start(path@, start as int),
                decreases start,
            {
                start -= 1;
            }
            let single = end - start == 1 && chars[start] == '.';
            let double = end - start == 2 && chars[start] == '.' && chars[start + 1] == '.';
            proof {
                let name = path@.subrange(start as int, end as int);
                assert(single == (name == seq!['.'])) by {
                    if single {
                        assert(name =~= seq!['.']);
                    } else if name == seq!['.'] {
                        assert(name.len() == 1);
                        assert(name[0] == '.');
                    }
                }
                assert(double == (name == seq!['.', '.'])) by {
                    if double {
                        assert(name =~= seq!['.', '.']);
                    } else if name == seq!['.', '.'] {
                        assert(name.len() == 2);
                        assert(name[0] == '.');
                        assert(name[1] == '.');
                    }
                }
            }
            if single {
                end = start;
            } else if double {
                return None;
            } else {
                let name = path.substring_char(start, end);
                return Some(String::from_str(name));
            }
        }
    }
    None
}

/// `base` continued by `name`.
pub fn join(base: &str, name: &str) -> (path: String)
    ensures
        path@ == joined(base@, name@),
{
    let chars = chars_of(base);
    let mut path = String::from_str(base);
    if chars.len() > 0 && chars[chars.len() - 1] != '/' {
        proof {
            reveal_strlit("/");
            assert("/"@ =~= seq!['/']);
        }
        path.append("/");
    }
    path.append(name);
    path
}

/// Where a backup of `source_path` goes below `destination_root`.
pub fn resolve_destination(destination_root: &str, source_path: &str) -> (destination: String)
    ensures
        destination@ == resolved_destination(destination_root@, source_path@),
{
    match final_component(source_path) {
        Some(name) => join(destination_root, name.as_str()),
        None => String::from_str(destination_root),
    }
}

/// What leads from `base` to `path`, as an owned string.
pub fn relative_path(path: &str, base: &str) -> (relative: Option<String>)
    ensures
        option_text(relative) == relative_to(path@, base@),
{
    let chars = chars_of(path);
    let root = chars_of(base);
    if !starts_with(&chars, &root) {
        return None;
    }
    let mut from: usize = root.len();
    if from == chars.len() {
        proof {
            assert(path@.skip(from as int) =~= Seq::<char>::empty());
        }
        return Some(String::new());
    }
    assert(path@.skip(from as int)[0] == chars@[from as int]);
    if chars[from] == '/' || (root.len() > 0 && root[root.len() - 1] == '/') {
        let ghost rest = path@.skip(from as int);
        while from < chars.len() && chars[from] == '/'
            invariant
                root@.len() <= from <= chars@.len(),
                chars@ == path@,
                without_leading_separators(rest) == without_leading_separators(
                    path@.skip(from as int),
                ),
            decreases chars.len() - from,
        {
            proof {
                assert(path@.skip(from as int)[0] == '/');
                assert(path@.skip(from as int).skip(1) =~= path@.skip(from + 1));
            }
            from += 1;
        }
        proof {
            let tail = path@.skip(from as int);
            if from < chars.len() {
                assert(tail[0] == chars@[from as int]);
            }
            assert(without_leading_separators(tail) == tail);
            assert(path@.subrange(from as int, chars@.len() as int) =~= tail);
        }
        Some(String::from_str(path.substring_char(from, chars.len())))
    } else {
        None
    }
}

/// Where below `destination` the entry lies that `relative` leads to.
pub fn mirror(destination: &str, relative: &str) -> (target: String)
    ensures
        target@ == mirrored(destination@, relative@),
{
    if relative.unicode_len() == 0 {
        String::from_str(destination)
    } else {
        join(destination, relative)
    }
}

/// The extension of a file name, as an owned string.
pub fn extension(name: &str) -> (ext: Option<String>)
    ensures
        option_text(ext) == extension_of(name@),
{
    let chars = chars_of(name);
    let mut n: usize = chars.len();
    while n > 0 && chars[n - 1] != '.'
        invariant
            n <= chars.len(),
            chars@ == name@,
            last_dot(name@, n as int) == last_dot(name@, name@.len() as int),
        decreases n,
    {
        n -= 1;
    }
    let parent = chars.len() == 2 && chars[0] == '.' && chars[1] == '.';
    proof {
        if parent {
            assert(name@ =~= seq!['.', '.']);
        } else if name@ == seq!['.', '.'] {
            assert(name@.len() == 2);
            assert(name@[0] == '.');
            assert(name@[1] == '.');
        }
    }
    if n <= 1 || parent {
        None
    } else {
        let ext = name.substring_char(n, chars.len());
        Some(String::from_str(ext))
    }
}

/// Whether a name is hidden.
pub fn is_hidden(name: &str) -> (hidden: bool)
    ensures
        hidden == hidden_name(name@),
{
    let chars = chars_of(name);
    chars.len() > 0 && chars[0] == '.'
}

/// Whether `path` is `root` or lies below it.
pub fn is_within(path: &Vec<char>, root: &str) -> (inside: bool)
    ensures
        inside == within(path@, root@),
{
    let base = chars_of(root);
    starts_with(path, &base) && (path.len() == base.len() || path[base.len()] == '/')
}

} // verus!
