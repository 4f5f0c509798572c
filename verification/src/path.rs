//! Unix paths as byte strings, with the meaning that `std::path::Path` gives them.

use crate::text;
use vstd::prelude::*;
use vstd::utf8::*;

verus! {

/// The byte that separates the components of a path.
pub const SEPARATOR: u8 = 47;

/// The byte that stands before the extension of a file name.
pub const DOT: u8 = 46;

/// Whether a path starts at the root of the file system.
pub open spec fn is_absolute(path: Seq<u8>) -> bool {
    path.len() > 0 && path[0] == SEPARATOR
}

/// Whether a path starts with the component `.`.
pub open spec fn starts_with_current(path: Seq<u8>) -> bool {
    path.len() > 0 && path[0] == DOT && (path.len() == 1 || path[1] == SEPARATOR)
}

/// How many bytes at the start of a path name where it starts: the root, or a leading `.`.
pub open spec fn lead(path: Seq<u8>) -> int {
    if is_absolute(path) || starts_with_current(path) {
        1
    } else {
        0
    }
}

/// Where the last stretch of a byte string without `byte` starts.
pub open spec fn after_last(s: Seq<u8>, byte: u8) -> int
    decreases s.len(),
{
    if s.len() == 0 || s.last() == byte {
        s.len() as int
    } else {
        after_last(s.drop_last(), byte)
    }
}

/// Where the last component of a path starts, if `from` bytes come before all its components.
pub open spec fn component_start(path: Seq<u8>, from: int) -> int {
    if after_last(path, SEPARATOR) > from {
        after_last(path, SEPARATOR)
    } else {
        from
    }
}

/// A path without its last component, nor the separator before it.
pub open spec fn without_component(path: Seq<u8>, from: int) -> Seq<u8> {
    if after_last(path, SEPARATOR) > from {
        path.take(after_last(path, SEPARATOR) - 1)
    } else {
        path.take(from)
    }
}

/// Whether a component names nothing: it is empty, or `.`.
pub open spec fn is_void(component: Seq<u8>) -> bool {
    component.len() == 0 || component == seq![DOT]
}

/// A path without the components at its end that name nothing.
pub open spec fn trimmed(path: Seq<u8>, from: int) -> Seq<u8>
    decreases path.len(),
{
    if 0 <= from < path.len() && is_void(path.skip(component_start(path, from))) {
        proof {
            lemma_after_last(path, SEPARATOR);
        }
        trimmed(without_component(path, from), from)
    } else {
        path
    }
}

/// The last component of a path, if it names a file or a directory.
pub open spec fn file_name(path: Seq<u8>) -> Option<Seq<u8>> {
    let body = trimmed(path, lead(path));
    let name = body.skip(component_start(body, lead(path)));
    if body.len() > lead(path) && name != seq![DOT, DOT] {
        Some(name)
    } else {
        None
    }
}

/// The path of the directory that holds what a path names.
pub open spec fn parent(path: Seq<u8>) -> Option<Seq<u8>> {
    let body = trimmed(path, lead(path));
    if body.len() > lead(path) {
        Some(trimmed(without_component(body, lead(path)), lead(path)))
    } else if starts_with_current(path) {
        Some(Seq::empty())
    } else {
        None
    }
}

/// How many bytes of a file name come before its last dot; all of them if there is no dot, or
/// only one at the start.
pub open spec fn stem_length(name: Seq<u8>) -> int {
    if after_last(name, DOT) <= 1 {
        name.len() as int
    } else {
        after_last(name, DOT) - 1
    }
}

/// What follows the last dot of the file name of a path.
pub open spec fn extension(path: Seq<u8>) -> Option<Seq<u8>> {
    match file_name(path) {
        Some(name) if after_last(name, DOT) > 1 => Some(name.skip(after_last(name, DOT))),
        _ => None,
    }
}

/// The extension of a path, if there is one and it is text.
pub open spec fn extension_text(path: Seq<u8>) -> Option<Seq<char>> {
    match extension(path) {
        Some(extension) => text::utf8_text(extension),
        None => None,
    }
}

/// A path whose file name has the extension `extension` in place of the one it had; the path
/// itself if it has no file name.
pub open spec fn with_extension(path: Seq<u8>, extension: Seq<u8>) -> Seq<u8> {
    match file_name(path) {
        Some(name) => {
            let body = trimmed(path, lead(path));
            let stem = body.take(body.len() - name.len() + stem_length(name));
            if extension.len() == 0 {
                stem
            } else {
                stem.push(DOT) + extension
            }
        },
        None => path,
    }
}

/// A path taken from the directory `base`.
pub open spec fn join(base: Seq<u8>, path: Seq<u8>) -> Seq<u8> {
    if is_absolute(path) || base.len() == 0 {
        path
    } else if base.last() == SEPARATOR {
        base + path
    } else {
        base.push(SEPARATOR) + path
    }
}

/// The stretch that `after_last` finds lies inside the byte string, is free of `byte`, and
/// follows `byte` unless the string starts there.
pub proof fn lemma_after_last(s: Seq<u8>, byte: u8)
    ensures
        0 <= after_last(s, byte) <= s.len(),
        forall|i: int| after_last(s, byte) <= i < s.len() ==> s[i] != byte,
        after_last(s, byte) > 0 ==> s[after_last(s, byte) - 1] == byte,
    decreases s.len(),
{
    if s.len() != 0 && s.last() != byte {
        lemma_after_last(s.drop_last(), byte);
        assert forall|i: int| after_last(s, byte) <= i < s.len() implies s[i] != byte by {
            if i < s.len() - 1 {
                assert(s.drop_last()[i] != byte);
            }
        }
    }
}

/// `after_last` is the one place that `lemma_after_last` describes.
pub proof fn lemma_after_last_is(s: Seq<u8>, byte: u8, start: int)
    requires
        0 <= start <= s.len(),
        forall|i: int| start <= i < s.len() ==> s[i] != byte,
        start > 0 ==> s[start - 1] == byte,
    ensures
        after_last(s, byte) == start,
{
    lemma_after_last(s, byte);
    let found = after_last(s, byte);
    if found < start {
        assert(s[start - 1] != byte);
    } else if start < found {
        assert(s[found - 1] != byte);
    }
}

/// A trimmed path is the start of the path, and keeps the bytes before its components.
pub proof fn lemma_trimmed(path: Seq<u8>, from: int)
    requires
        0 <= from <= path.len(),
    ensures
        from <= trimmed(path, from).len() <= path.len(),
        trimmed(path, from) == path.take(trimmed(path, from).len() as int),
        trimmed(path, from).len() > from ==> !is_void(
            trimmed(path, from).skip(component_start(trimmed(path, from), from)),
        ),
    decreases path.len(),
{
    if from < path.len() && is_void(path.skip(component_start(path, from))) {
        lemma_after_last(path, SEPARATOR);
        let shorter = without_component(path, from);
        lemma_trimmed(shorter, from);
        assert(trimmed(path, from) =~= path.take(trimmed(path, from).len() as int));
    } else {
        assert(path =~= path.take(path.len() as int));
    }
}

/// A new extension changes the file name alone, which is then what came before the old extension,
/// a dot and the new extension; the directory stays. What is after the last dot of the new
/// extension is the extension of the path from then on.
pub proof fn law_with_extension(path: Seq<u8>, added: Seq<u8>)
    requires
        file_name(path) is Some,
        added.len() > 0,
        !added.contains(SEPARATOR),
    ensures
        ({
            let name = file_name(path)->0;
            let changed = with_extension(path, added);
            &&& file_name(changed) == Some(name.take(stem_length(name)).push(DOT) + added)
            &&& parent(changed) == parent(path)
            &&& extension(changed) == Some(added.skip(after_last(added, DOT)))
        }),
{
    let from = lead(path);
    let body = trimmed(path, from);
    let start = component_start(body, from);
    let name = body.skip(start);
    let changed = with_extension(path, added);
    let renamed = name.take(stem_length(name)).push(DOT) + added;
    lemma_trimmed(path, from);
    lemma_after_last(body, SEPARATOR);
    lemma_after_last(name, DOT);
    let stem = stem_length(name);
    assert(1 <= stem <= name.len());
    assert(changed =~= body.take(start) + renamed);
    assert(changed.skip(start) =~= renamed);
    assert forall|i: int| start <= i < changed.len() implies changed[i] != SEPARATOR by {
        if i < start + stem {
            assert(changed[i] == body[i]);
        } else if i > start + stem {
            assert(added.contains(added[i - start - stem - 1]));
        }
    }
    assert forall|i: int| 0 <= i < start + stem implies changed[i] == path[i] by {
        assert(changed[i] == body[i]);
    }
    assert(changed[start + stem] == DOT);
    assert(lead(changed) == from);
    lemma_after_last(changed, SEPARATOR);
    if after_last(body, SEPARATOR) > from {
        lemma_after_last_is(changed, SEPARATOR, start);
        assert(without_component(changed, from) =~= without_component(body, from));
    } else {
        if after_last(changed, SEPARATOR) > from {
            assert(changed[after_last(changed, SEPARATOR) - 1] == SEPARATOR);
        }
        assert(without_component(changed, from) =~= without_component(body, from));
    }
    assert(component_start(changed, from) == start);
    assert(trimmed(changed, from) == changed);
    assert(file_name(changed) == Some(renamed));
    lemma_after_last(added, DOT);
    lemma_after_last_is(renamed, DOT, stem + 1 + after_last(added, DOT));
    assert(renamed.skip(stem + 1 + after_last(added, DOT)) =~= added.skip(after_last(added, DOT)));
}

/// Trimming a path that comes after a directory is trimming the path.
proof fn lemma_trimmed_in(directory: Seq<u8>, path: Seq<u8>, from: int, outer: int)
    requires
        directory.len() > 0,
        directory.last() == SEPARATOR,
        0 <= outer <= directory.len(),
        from == 0 || (from == 1 && starts_with_current(path)),
        trimmed(path, from).len() > from,
    ensures
        trimmed(directory + path, outer) == directory + trimmed(path, from),
    decreases path.len(),
{
    let whole = directory + path;
    lemma_after_last(path, SEPARATOR);
    let start = after_last(path, SEPARATOR);
    lemma_after_last_is(whole, SEPARATOR, directory.len() + start);
    if from == 1 && path.len() > 1 {
        if start <= 1 {
            assert(path[1] != SEPARATOR);
        }
    }
    assert(whole.skip(directory.len() + start) =~= path.skip(start));
    if from < path.len() && is_void(path.skip(component_start(path, from))) {
        let shorter = without_component(path, from);
        lemma_trimmed(shorter, from);
        if start > from {
            assert(without_component(whole, outer) =~= directory + shorter);
            lemma_trimmed_in(directory, shorter, from, outer);
        }
    }
}

/// The file name of a path does not depend on the directory that the path is taken from.
pub proof fn law_join_file_name(base: Seq<u8>, path: Seq<u8>)
    requires
        file_name(path) is Some,
    ensures
        file_name(join(base, path)) == file_name(path),
{
    if !is_absolute(path) && base.len() > 0 {
        let directory = if base.last() == SEPARATOR {
            base
        } else {
            base.push(SEPARATOR)
        };
        let whole = directory + path;
        let from = lead(path);
        let body = trimmed(path, from);
        lemma_trimmed_in(directory, path, from, lead(whole));
        lemma_trimmed(path, from);
        lemma_after_last(body, SEPARATOR);
        lemma_after_last_is(directory + body, SEPARATOR, directory.len() + after_last(body, SEPARATOR));
        if from == 1 && after_last(body, SEPARATOR) <= 1 {
            assert(body[1] == path[1]);
        }
        assert((directory + body).skip(directory.len() + after_last(body, SEPARATOR)) =~= body.skip(
            after_last(body, SEPARATOR),
        ));
    }
}

/// An absolute path is itself, whatever directory it is taken from; a relative one stays below a
/// directory that has a path.
pub proof fn law_join_absolute(base: Seq<u8>, path: Seq<u8>)
    ensures
        is_absolute(path) ==> join(base, path) == path,
        !is_absolute(path) && base.len() > 0 ==> base.is_prefix_of(join(base, path))
            && is_absolute(join(base, path)) == is_absolute(base),
{
    if !is_absolute(path) && base.len() > 0 {
        assert(base =~= join(base, path).subrange(0, base.len() as int));
    }
}

/// A separator at the end of a path, or a last component `.`, changes neither where its components
/// start nor what is left once it is trimmed.
proof fn lemma_trailing(path: Seq<u8>)
    requires
        path.len() > 0,
    ensures
        lead(path.push(47)) == lead(path),
        trimmed(path.push(47), lead(path)) == trimmed(path, lead(path)),
        starts_with_current(path.push(47)) == starts_with_current(path),
        lead(path.push(47).push(46)) == lead(path),
        trimmed(path.push(47).push(46), lead(path)) == trimmed(path, lead(path)),
        starts_with_current(path.push(47).push(46)) == starts_with_current(path),
{
    let closed = path.push(47);
    let dotted = path.push(47).push(46);
    lemma_after_last_is(closed, SEPARATOR, closed.len() as int);
    assert(closed.take(closed.len() - 1) =~= path);
    assert(closed.skip(closed.len() as int).len() == 0);
    lemma_after_last_is(dotted, SEPARATOR, closed.len() as int);
    assert(dotted.take(closed.len() - 1) =~= path);
    assert(dotted.skip(closed.len() as int) =~= seq![DOT]);
}

/// A path that ends with a component is not trimmed, and that component is its last one.
proof fn lemma_last_component(directory: Seq<u8>, name: Seq<u8>)
    requires
        directory.len() == 0 || directory.last() == 47,
        name.len() > 0,
        !name.contains(47),
        name != seq![46u8],
    ensures
        ({
            let path = directory + name;
            &&& trimmed(path, lead(path)) == path
            &&& component_start(path, lead(path)) == directory.len()
            &&& path.skip(directory.len() as int) == name
            &&& path.len() > lead(path)
        }),
{
    let path = directory + name;
    assert forall|i: int| directory.len() <= i < path.len() implies path[i] != SEPARATOR by {
        assert(path[i] == name[i - directory.len()]);
    }
    lemma_after_last_is(path, SEPARATOR, directory.len() as int);
    assert(path.skip(directory.len() as int) =~= name);
    if directory.len() == 0 {
        assert(path =~= name);
        if starts_with_current(path) {
            if path.len() == 1 {
                assert(name =~= seq![46u8]);
            } else {
                assert(path[1] != SEPARATOR);
            }
        }
    }
}

/// The file name of a path is what stands after its last separator.
pub proof fn law_file_name(directory: Seq<u8>, name: Seq<u8>)
    requires
        directory.len() == 0 || directory.last() == 47,
        name.len() > 0,
        !name.contains(47),
        name != seq![46u8],
        name != seq![46u8, 46u8],
    ensures
        file_name(directory + name) == Some(name),
{
    lemma_last_component(directory, name);
}

/// Neither a separator at the end of a path nor a last component `.` changes its file name, its
/// directory or its extension; and both are gone once the extension is changed.
pub proof fn law_trailing_ignored(path: Seq<u8>, added: Seq<u8>)
    ensures
        file_name(path.push(47)) == file_name(path),
        file_name(path.push(47).push(46)) == file_name(path),
        parent(path.push(47)) == parent(path),
        parent(path.push(47).push(46)) == parent(path),
        extension(path.push(47)) == extension(path),
        extension(path.push(47).push(46)) == extension(path),
        file_name(path) is Some ==> with_extension(path.push(47), added) == with_extension(
            path,
            added,
        ),
        file_name(path) is Some ==> with_extension(path.push(47).push(46), added)
            == with_extension(path, added),
{
    if path.len() > 0 {
        lemma_trailing(path);
    } else {
        let root = path.push(47);
        let dotted = root.push(46);
        assert(trimmed(root, 1) == root);
        lemma_after_last_is(dotted, SEPARATOR, 1);
        assert(dotted.skip(1) =~= seq![DOT]);
        assert(dotted.take(1) =~= root);
    }
}

/// A path that is empty, is `.`, or ends with `..` has no file name, and hence no extension; a new
/// extension leaves it as it is.
pub proof fn law_no_file_name(directory: Seq<u8>, path: Seq<u8>, added: Seq<u8>)
    requires
        directory.len() == 0 || directory.last() == 47,
    ensures
        file_name(Seq::empty()) is None,
        file_name(seq![46u8]) is None,
        file_name(directory + seq![46u8, 46u8]) is None,
        file_name(path) is None ==> extension(path) is None && with_extension(path, added) == path,
{
    let dots = seq![46u8, 46u8];
    assert(dots != seq![46u8]) by {
        assert(dots.len() == 2);
    }
    lemma_last_component(directory, dots);
}

/// What is left of a directory that is followed by a component.
proof fn lemma_parent_in(directory: Seq<u8>, name: Seq<u8>)
    requires
        name.len() > 0,
        !name.contains(47),
        name != seq![46u8],
    ensures
        parent(directory.push(47) + name) == Some(
            if directory.len() == 0 {
                seq![47u8]
            } else {
                trimmed(directory, lead(directory))
            },
        ),
{
    let path = directory.push(47) + name;
    lemma_last_component(directory.push(47), name);
    assert forall|i: int| directory.len() < i < path.len() implies path[i] != SEPARATOR by {
        assert(path[i] == name[i - directory.len() - 1]);
    }
    lemma_after_last_is(path, SEPARATOR, (directory.len() + 1) as int);
    if directory.len() == 0 {
        assert(path.take(1) =~= seq![47u8]);
        assert(trimmed(seq![47u8], 1) == seq![47u8]);
    } else {
        assert(path.take(directory.len() as int) =~= directory);
        assert(lead(path) == lead(directory));
    }
}

/// The directory of a path is what stands before its last component: nothing for a single
/// component, the root for one right below it, and else the path before the separator, without
/// the separators and the components `.` at its end.
pub proof fn law_parent(directory: Seq<u8>, name: Seq<u8>)
    requires
        name.len() > 0,
        !name.contains(47),
        name != seq![46u8],
    ensures
        parent(Seq::empty()) is None,
        parent(seq![47u8]) is None,
        parent(seq![46u8]) == Some(Seq::<u8>::empty()),
        parent(name) == Some(Seq::<u8>::empty()),
        parent(seq![47u8] + name) == Some(seq![47u8]),
        parent(directory.push(47).push(47) + name) == parent(directory.push(47) + name),
        parent(directory.push(47).push(46).push(47) + name) == parent(directory.push(47) + name),
        directory.len() > 0 && directory.last() != 47 && !(directory.len() > 1 && directory.last()
            == 46 && directory[directory.len() - 2] == 47) ==> parent(directory.push(47) + name)
            == Some(directory),
{
    lemma_last_component(Seq::empty(), name);
    assert(Seq::<u8>::empty() + name =~= name);
    assert(forall|i: int| 0 <= i < name.len() ==> name[i] != SEPARATOR);
    lemma_after_last_is(name, SEPARATOR, 0);
    assert(name.take(0) =~= Seq::empty());
    lemma_parent_in(Seq::empty(), name);
    assert(Seq::<u8>::empty().push(47) =~= seq![47u8]);
    lemma_parent_in(directory, name);
    lemma_parent_in(directory.push(47), name);
    lemma_parent_in(directory.push(47).push(46), name);
    if directory.len() > 0 {
        lemma_trailing(directory);
        lemma_after_last(directory, SEPARATOR);
        let from = lead(directory);
        let start = component_start(directory, from);
        let component = directory.skip(start);
        if directory.last() != 47 && !(directory.len() > 1 && directory.last() == 46
            && directory[directory.len() - 2] == 47) {
            if from < directory.len() && is_void(component) {
                if component.len() > 0 {
                    assert(component[0] == DOT);
                    assert(start == directory.len() - 1);
                    assert(directory[start] == DOT);
                }
            }
            assert(trimmed(directory, from) == directory);
        }
    } else {
        let dotted = directory.push(47).push(46);
        assert(directory.push(47) =~= seq![47u8]);
        assert(trimmed(seq![47u8], 1) == seq![47u8]);
        lemma_after_last_is(dotted, SEPARATOR, 1);
        assert(dotted.skip(1) =~= seq![DOT]);
        assert(dotted.take(1) =~= seq![47u8]);
    }
}

/// The extension is what follows the last dot of the file name, unless nothing stands before that
/// dot; a file name without such a dot has none.
pub proof fn law_extension(path: Seq<u8>, stem: Seq<u8>, last: Seq<u8>)
    requires
        !last.contains(46),
    ensures
        stem.len() > 0 && file_name(path) == Some(stem.push(46) + last) ==> extension(path) == Some(
            last,
        ),
        file_name(path) == Some(last) ==> extension(path) is None,
        file_name(path) == Some(seq![46u8] + last) ==> extension(path) is None,
        extension_text(path) == match extension(path) {
            Some(bytes) => text::utf8_text(bytes),
            None => None,
        },
{
    let name = stem.push(46) + last;
    assert forall|i: int| stem.len() < i < name.len() implies name[i] != DOT by {
        assert(name[i] == last[i - stem.len() - 1]);
    }
    lemma_after_last_is(name, DOT, (stem.len() + 1) as int);
    assert(name.skip((stem.len() + 1) as int) =~= last);
    lemma_after_last_is(last, DOT, 0);
    let hidden = seq![46u8] + last;
    assert forall|i: int| 0 < i < hidden.len() implies hidden[i] != DOT by {
        assert(hidden[i] == last[i - 1]);
    }
    lemma_after_last_is(hidden, DOT, 1);
}

/// A new extension takes the place of the one that follows the last dot of the file name; all the
/// bytes before that dot stay. A file name without an extension gets it after a dot. An empty
/// extension leaves no dot.
pub proof fn law_with_extension_bytes(
    directory: Seq<u8>,
    stem: Seq<u8>,
    last: Seq<u8>,
    added: Seq<u8>,
)
    requires
        directory.len() == 0 || directory.last() == 47,
        stem.len() > 0,
        !stem.contains(47),
        !last.contains(46),
        !last.contains(47),
        stem.push(46) + last != seq![46u8, 46u8],
    ensures
        with_extension(directory + (stem.push(46) + last), added) == directory + stem + (
        if added.len() == 0 {
            Seq::empty()
        } else {
            seq![46u8] + added
        }),
        !stem.skip(1).contains(46) && stem != seq![46u8] ==> with_extension(
            directory + stem,
            added,
        ) == directory + stem + (if added.len() == 0 {
            Seq::empty()
        } else {
            seq![46u8] + added
        }),
{
    let name = stem.push(46) + last;
    let tail: Seq<u8> = if added.len() == 0 {
        Seq::empty()
    } else {
        seq![46u8] + added
    };
    assert(!name.contains(47)) by {
        if name.contains(47) {
            let i = choose|i: int| 0 <= i < name.len() && name[i] == 47;
            if i < stem.len() {
                assert(stem[i] == 47);
            } else if i > stem.len() {
                assert(last[i - stem.len() - 1] == 47);
            }
        }
    }
    assert(name != seq![46u8]) by {
        assert(name.len() >= 2);
    }
    law_file_name(directory, name);
    lemma_last_component(directory, name);
    assert forall|i: int| stem.len() < i < name.len() implies name[i] != DOT by {
        assert(name[i] == last[i - stem.len() - 1]);
    }
    lemma_after_last_is(name, DOT, (stem.len() + 1) as int);
    assert(with_extension(directory + name, added) =~= directory + stem + tail);
    if !stem.skip(1).contains(46) && stem != seq![46u8] {
        assert(stem != seq![46u8, 46u8]) by {
            if stem == seq![46u8, 46u8] {
                assert(stem.skip(1)[0] == 46);
            }
        }
        law_file_name(directory, stem);
        lemma_last_component(directory, stem);
        lemma_after_last(stem, DOT);
        let dot = after_last(stem, DOT);
        if dot > 1 {
            assert(stem.skip(1)[dot - 2] == 46);
        }
        assert(with_extension(directory + stem, added) =~= directory + stem + tail);
    }
}

/// A relative path is put after the directory, with one separator between them and no more bytes;
/// an absolute one, or one that is taken from no directory, stays as it is.
pub proof fn law_join(base: Seq<u8>, path: Seq<u8>)
    ensures
        join(base, seq![47u8] + path) == seq![47u8] + path,
        join(Seq::empty(), path) == path,
        path.len() == 0 || path[0] != 47 ==> join(base.push(47), path) == base.push(47) + path,
        base.len() > 0 && base.last() != 47 ==> join(base, path) == join(base.push(47), path),
{
}

/// Where the last stretch of `bytes[..end]` without `byte` starts.
fn find_after_last(bytes: &[u8], end: usize, byte: u8) -> (r: usize)
    requires
        end <= bytes@.len(),
    ensures
        r == after_last(bytes@.take(end as int), byte),
        r <= end,
{
    let mut i: usize = end;
    while i > 0 && bytes[i - 1] != byte
        invariant
            i <= end <= bytes@.len(),
            after_last(bytes@.take(end as int), byte) == after_last(bytes@.take(i as int), byte),
        decreases i,
    {
        assert(bytes@.take(i as int).drop_last() =~= bytes@.take(i - 1));
        i -= 1;
    }
    i
}

/// Whether `bytes[start..end]` is empty, or `.`.
fn names_nothing(bytes: &[u8], start: usize, end: usize) -> (r: bool)
    requires
        start <= end <= bytes@.len(),
    ensures
        r == is_void(bytes@.take(end as int).skip(start as int)),
{
    let ghost component = bytes@.take(end as int).skip(start as int);
    if start == end {
        true
    } else if end - start == 1 && bytes[start] == DOT {
        assert(component =~= seq![DOT]);
        true
    } else {
        proof {
            if component == seq![DOT] {
                assert(component.len() == 1 && component[0] == DOT);
                assert(component[0] == bytes@[start as int]);
            }
        }
        false
    }
}

/// The length of `bytes[..length]` once the components at its end that name nothing are gone.
fn trim(bytes: &[u8], length: usize, from: usize) -> (r: usize)
    requires
        from <= length <= bytes@.len(),
    ensures
        from <= r <= length,
        bytes@.take(r as int) == trimmed(bytes@.take(length as int), from as int),
{
    let mut end: usize = length;
    while end > from
        invariant
            from <= end <= length <= bytes@.len(),
            trimmed(bytes@.take(length as int), from as int) == trimmed(
                bytes@.take(end as int),
                from as int,
            ),
        decreases end,
    {
        let ghost current = bytes@.take(end as int);
        let separator: usize = find_after_last(bytes, end, SEPARATOR);
        let start: usize = if separator > from {
            separator
        } else {
            from
        };
        if !names_nothing(bytes, start, end) {
            return end;
        }
        if separator > from {
            assert(current.take(separator - 1) =~= bytes@.take(separator - 1));
            end = separator - 1;
        } else {
            assert(current.take(from as int) =~= bytes@.take(from as int));
            end = from;
        }
    }
    end
}

/// A Unix path: the bytes that the system knows it by.
#[derive(Debug, PartialEq, Eq)]
pub struct FilePath {
    pub bytes: Vec<u8>,
}

impl View for FilePath {
    type V = Seq<u8>;

    open spec fn view(&self) -> Seq<u8> {
        self.bytes@
    }
}

impl DeepView for FilePath {
    type V = Seq<u8>;

    open spec fn deep_view(&self) -> Seq<u8> {
        self.bytes@
    }
}

impl Clone for FilePath {
    fn clone(&self) -> (r: Self)
        ensures
            r@ == self@,
    {
        FilePath { bytes: text::copy_bytes(self.bytes.as_slice()) }
    }
}

/// A copy of an optional path.
pub(crate) fn copy_path(path: &Option<FilePath>) -> (r: Option<FilePath>)
    ensures
        r.deep_view() == path.deep_view(),
{
    match path {
        Some(path) => Some(path.clone()),
        None => None,
    }
}

impl FilePath {
    /// The path that a text spells.
    pub fn from_text(text: &str) -> (r: Self)
        ensures
            r@ == encode_utf8(text@),
    {
        FilePath { bytes: text::copy_bytes(text.as_bytes()) }
    }

    /// How many bytes of the path come before its components.
    fn lead_length(&self) -> (r: usize)
        ensures
            r == lead(self@),
            r <= self@.len(),
    {
        if self.bytes.len() > 0 && (self.bytes[0] == SEPARATOR || (self.bytes[0] == DOT && (
        self.bytes.len() == 1 || self.bytes[1] == SEPARATOR))) {
            1
        } else {
            0
        }
    }

    /// Where the file name of the path starts and ends.
    fn name_bounds(&self) -> (r: Option<(usize, usize)>)
        ensures
            r is Some == file_name(self@) is Some,
            r matches Some((start, end)) ==> {
                &&& start < end <= self@.len()
                &&& self@.take(end as int) == trimmed(self@, lead(self@))
                &&& self@.subrange(start as int, end as int) == file_name(self@)->0
            },
    {
        let bytes = self.bytes.as_slice();
        let from: usize = self.lead_length();
        assert(self@.take(self@.len() as int) =~= self@);
        let end: usize = trim(bytes, bytes.len(), from);
        if end == from {
            return None;
        }
        let separator: usize = find_after_last(bytes, end, SEPARATOR);
        let start: usize = if separator > from {
            separator
        } else {
            from
        };
        let ghost body = self@.take(end as int);
        let ghost name = body.skip(start as int);
        proof {
            lemma_trimmed(self@, from as int);
        }
        if end - start == 2 && bytes[start] == DOT && bytes[start + 1] == DOT {
            assert(name =~= seq![DOT, DOT]);
            return None;
        }
        proof {
            if name == seq![DOT, DOT] {
                assert(name[0] == DOT && name[1] == DOT);
            }
            assert(self@.subrange(start as int, end as int) =~= name);
        }
        Some((start, end))
    }

    /// The file name of the path, as text; what is not valid UTF-8 in it is replaced.
    pub fn file_name_lossy(&self) -> (r: Option<String>)
        ensures
            r.deep_view() == match file_name(self@) {
                Some(name) => Some(text::lossy_text(name)),
                None => None,
            },
    {
        match self.file_name() {
            Some(name) => Some(text::text_from_utf8_lossy(name)),
            None => None,
        }
    }

    /// The last component of the path, if it names a file or a directory.
    pub fn file_name(&self) -> (r: Option<&[u8]>)
        ensures
            file_name(self@) == match r {
                Some(name) => Some(name@),
                None => None,
            },
    {
        match self.name_bounds() {
            Some((start, end)) => Some(vstd::slice::slice_subrange(self.bytes.as_slice(), start, end)),
            None => None,
        }
    }

    /// The path of the directory that holds what the path names.
    pub fn parent(&self) -> (r: Option<FilePath>)
        ensures
            r.deep_view() == parent(self@),
    {
        let bytes = self.bytes.as_slice();
        let from: usize = self.lead_length();
        assert(self@.take(self@.len() as int) =~= self@);
        let end: usize = trim(bytes, bytes.len(), from);
        if end == from {
            if from == 1 && bytes[0] == DOT {
                let none: Vec<u8> = Vec::new();
                assert(none@ =~= Seq::<u8>::empty());
                return Some(FilePath { bytes: none });
            }
            return None;
        }
        let separator: usize = find_after_last(bytes, end, SEPARATOR);
        let cut: usize = if separator > from {
            separator - 1
        } else {
            from
        };
        assert(bytes@.take(end as int).take(cut as int) =~= bytes@.take(cut as int));
        let length: usize = trim(bytes, cut, from);
        let kept = vstd::slice::slice_subrange(bytes, 0, length);
        assert(bytes@.subrange(0, length as int) =~= bytes@.take(length as int));
        Some(FilePath { bytes: text::copy_bytes(kept) })
    }

    /// What follows the last dot of the file name of the path.
    pub fn extension(&self) -> (r: Option<&[u8]>)
        ensures
            extension(self@) == match r {
                Some(extension) => Some(extension@),
                None => None,
            },
    {
        match self.file_name() {
            Some(name) => {
                assert(name@.take(name@.len() as int) =~= name@);
                let dot: usize = find_after_last(name, name.len(), DOT);
                if dot <= 1 {
                    None
                } else {
                    assert(name@.subrange(dot as int, name@.len() as int) =~= name@.skip(
                        dot as int,
                    ));
                    Some(vstd::slice::slice_subrange(name, dot, name.len()))
                }
            },
            None => None,
        }
    }

    /// The extension of the path, if there is one and it is text.
    pub fn extension_text(&self) -> (r: Option<String>)
        ensures
            r.deep_view() == extension_text(self@),
    {
        match self.extension() {
            Some(extension) => text::text_from_utf8(extension),
            None => None,
        }
    }

    /// The path with another extension. A separator in the extension is kept as it is.
    pub fn with_extension(&self, extension: &str) -> (r: FilePath)
        ensures
            r@ == with_extension(self@, encode_utf8(extension@)),
    {
        match self.name_bounds() {
            Some((start, end)) => {
                let bytes = self.bytes.as_slice();
                let name = vstd::slice::slice_subrange(bytes, start, end);
                assert(name@.take(name@.len() as int) =~= name@);
                let dot: usize = find_after_last(name, name.len(), DOT);
                let stem: usize = if dot <= 1 {
                    name.len()
                } else {
                    dot - 1
                };
                let kept = vstd::slice::slice_subrange(bytes, 0, start + stem);
                assert(kept@ =~= bytes@.take(end as int).take(start + stem));
                let mut r: Vec<u8> = text::copy_bytes(kept);
                let added = extension.as_bytes();
                if added.len() != 0 {
                    r.push(DOT);
                    text::append_bytes(&mut r, added);
                }
                FilePath { bytes: r }
            },
            None => self.clone(),
        }
    }

    /// A path taken from the directory that this path names.
    pub fn join(&self, path: &FilePath) -> (r: FilePath)
        ensures
            r@ == join(self@, path@),
    {
        let absolute: bool = path.bytes.len() > 0 && path.bytes[0] == SEPARATOR;
        if absolute || self.bytes.len() == 0 {
            return path.clone();
        }
        let mut r: Vec<u8> = text::copy_bytes(self.bytes.as_slice());
        if self.bytes[self.bytes.len() - 1] != SEPARATOR {
            r.push(SEPARATOR);
        }
        text::append_bytes(&mut r, path.bytes.as_slice());
        FilePath { bytes: r }
    }
}

} // verus!
