//! Unix paths as byte strings.
//!
//! A path is a sequence of components parted by slashes. Empty components and `.`
//! components stand for nothing, but for a `.` at the very front.
use vstd::prelude::*;

verus! {

broadcast use vstd::slice::group_slice_axioms;

/// The byte that parts components.
pub const SLASH: u8 = 47u8;

/// The byte of which `.` and `..` are made.
pub const DOT: u8 = 46u8;

/// Whether a path starts at the root.
pub open spec fn absolute(p: Seq<u8>) -> bool {
    p.len() > 0 && p[0] == SLASH
}

/// `dir` and `rest` as one path; an absolute `rest` stands on its own.
pub open spec fn joined(dir: Seq<u8>, rest: Seq<u8>) -> Seq<u8> {
    if absolute(rest) {
        rest
    } else if dir.len() > 0 && dir.last() != SLASH {
        dir.push(SLASH) + rest
    } else {
        dir + rest
    }
}

/// Whether the first component of a path is `.`.
pub open spec fn starts_here(p: Seq<u8>) -> bool {
    p.len() > 0 && p[0] == DOT && (p.len() == 1 || p[1] == SLASH)
}

/// Where the components after a leading `/` or `.` begin.
pub open spec fn body_start(p: Seq<u8>) -> int {
    if absolute(p) || starts_here(p) {
        1
    } else {
        0
    }
}

/// Where the last component of `p[start..end]` begins.
pub open spec fn component_start(p: Seq<u8>, start: int, end: int) -> int
    decreases end - start,
{
    if end <= start {
        start
    } else if p[end - 1] == SLASH {
        end
    } else {
        component_start(p, start, end - 1)
    }
}

/// Whether the component `p[from..end]` stands for nothing.
pub open spec fn stands_for_nothing(p: Seq<u8>, from: int, end: int) -> bool {
    from == end || (from + 1 == end && p[from] == DOT)
}

/// What is left of `p[..end]` once its last component, and the slash before it, are
/// taken off.
pub open spec fn without_last(p: Seq<u8>, start: int, end: int) -> int {
    let from = component_start(p, start, end);
    if from > start {
        from - 1
    } else {
        start
    }
}

/// The length of `p[..end]` without the components at its end that stand for nothing.
pub open spec fn trimmed_length(p: Seq<u8>, start: int, end: int) -> int
    decreases end - start,
    via trimmed_length_decreases
{
    if start < end && stands_for_nothing(p, component_start(p, start, end), end) {
        trimmed_length(p, start, without_last(p, start, end))
    } else {
        end
    }
}

#[via_fn]
proof fn trimmed_length_decreases(p: Seq<u8>, start: int, end: int) {
    if start <= end {
        lemma_component_start(p, start, end);
    }
}

/// A last component lies within its range, holds no slash and follows one.
proof fn lemma_component_start(p: Seq<u8>, start: int, end: int)
    requires
        start <= end,
    ensures
        start <= component_start(p, start, end) <= end,
        forall|k: int| component_start(p, start, end) <= k < end ==> p[k] != SLASH,
        component_start(p, start, end) > start ==> p[component_start(p, start, end) - 1] == SLASH,
    decreases end - start,
{
    if start < end && p[end - 1] != SLASH {
        lemma_component_start(p, start, end - 1);
    }
}

/// An index from which there is no slash, and before which there is one, is where
/// the last component begins.
proof fn lemma_component_start_at(p: Seq<u8>, start: int, end: int, from: int)
    requires
        start <= from <= end,
        forall|k: int| from <= k < end ==> p[k] != SLASH,
        from > start ==> p[from - 1] == SLASH,
    ensures
        component_start(p, start, end) == from,
    decreases end - start,
{
    if start < end && p[end - 1] != SLASH {
        lemma_component_start_at(p, start, end - 1, from);
    }
}

proof fn lemma_trimmed_length(p: Seq<u8>, start: int, end: int)
    requires
        start <= end,
    ensures
        start <= trimmed_length(p, start, end) <= end,
    decreases end - start,
{
    lemma_component_start(p, start, end);
    if start < end && stands_for_nothing(p, component_start(p, start, end), end) {
        lemma_trimmed_length(p, start, without_last(p, start, end));
    }
}

/// The last component that stands for something: where it begins and where it ends.
pub open spec fn last_component(p: Seq<u8>) -> Option<(int, int)> {
    let start = body_start(p);
    let end = trimmed_length(p, start, p.len() as int);
    if end > start {
        Some((component_start(p, start, end), end))
    } else {
        None
    }
}

/// The final component of a path, unless the path ends in `..`, in the root or in
/// the leading `.`.
pub open spec fn final_component(p: Seq<u8>) -> Option<Seq<u8>> {
    match last_component(p) {
        Some((from, end)) => if p.subrange(from, end) == seq![DOT, DOT] {
            None
        } else {
            Some(p.subrange(from, end))
        },
        None => None,
    }
}

/// A path without its final component; the root and the empty path have none to
/// give up.
pub open spec fn enclosing(p: Seq<u8>) -> Option<Seq<u8>> {
    let start = body_start(p);
    match last_component(p) {
        Some((from, end)) => Some(
            p.take(trimmed_length(p, start, without_last(p, start, end))),
        ),
        None => if starts_here(p) {
            Some(Seq::empty())
        } else {
            None
        },
    }
}

/// Whether a path starts at the root.
pub fn is_absolute(p: &[u8]) -> (b: bool)
    ensures
        b == absolute(p@),
{
    p.len() > 0 && p[0] == SLASH
}

/// Puts `rest` below `dir`, or gives back `rest` when it is absolute.
pub fn join(dir: &[u8], rest: &[u8]) -> (path: Vec<u8>)
    ensures
        path@ == joined(dir@, rest@),
{
    let mut path: Vec<u8> = Vec::new();
    if !is_absolute(rest) {
        path.extend_from_slice(dir);
        assert(path@ =~= dir@);
        if dir.len() > 0 && dir[dir.len() - 1] != SLASH {
            path.push(SLASH);
        }
    }
    path.extend_from_slice(rest);
    assert(path@ =~= joined(dir@, rest@));
    path
}

fn find_body_start(p: &[u8]) -> (start: usize)
    ensures
        start == body_start(p@),
        start <= p@.len(),
{
    if p.len() > 0 && (p[0] == SLASH || (p[0] == DOT && (p.len() == 1 || p[1] == SLASH))) {
        1
    } else {
        0
    }
}

fn find_component_start(p: &[u8], start: usize, end: usize) -> (from: usize)
    requires
        start <= end <= p@.len(),
    ensures
        from == component_start(p@, start as int, end as int),
        start <= from <= end,
{
    let mut from: usize = end;
    while from > start && p[from - 1] != SLASH
        invariant
            start <= from <= end <= p@.len(),
            component_start(p@, start as int, end as int) == component_start(
                p@,
                start as int,
                from as int,
            ),
        decreases from,
    {
        from = from - 1;
    }
    from
}

fn find_trimmed_length(p: &[u8], start: usize, end: usize) -> (len: usize)
    requires
        start <= end <= p@.len(),
    ensures
        len == trimmed_length(p@, start as int, end as int),
        start <= len <= end,
{
    let mut len: usize = end;
    while len > start
        invariant_except_break
            start <= len <= end <= p@.len(),
            trimmed_length(p@, start as int, end as int) == trimmed_length(
                p@,
                start as int,
                len as int,
            ),
        ensures
            start <= len <= end,
            len == trimmed_length(p@, start as int, end as int),
        decreases len,
    {
        let from: usize = find_component_start(p, start, len);
        if from == len || (from + 1 == len && p[from] == DOT) {
            len = if from > start {
                from - 1
            } else {
                start
            };
        } else {
            break;
        }
    }
    len
}

/// Returns the final component of a path, if there is one.
pub fn file_name(p: &[u8]) -> (name: Option<&[u8]>)
    ensures
        match name {
            Some(bytes) => final_component(p@) == Some(bytes@),
            None => final_component(p@) is None,
        },
{
    let start: usize = find_body_start(p);
    let end: usize = find_trimmed_length(p, start, p.len());
    if end == start {
        return None;
    }
    let from: usize = find_component_start(p, start, end);
    let name = &p[from..end];
    if name.len() == 2 && name[0] == DOT && name[1] == DOT {
        assert(name@ =~= seq![DOT, DOT]);
        None
    } else {
        Some(name)
    }
}

/// Returns a path without its final component, if there is one.
pub fn parent(p: &[u8]) -> (dir: Option<&[u8]>)
    ensures
        match dir {
            Some(bytes) => enclosing(p@) == Some(bytes@),
            None => enclosing(p@) is None,
        },
{
    let start: usize = find_body_start(p);
    let end: usize = find_trimmed_length(p, start, p.len());
    if end == start {
        if start == 1 && p[0] == DOT {
            let here = &p[0..0];
            assert(here@ =~= Seq::<u8>::empty());
            return Some(here);
        }
        return None;
    }
    let from: usize = find_component_start(p, start, end);
    let cut: usize = if from > start {
        from - 1
    } else {
        start
    };
    let len: usize = find_trimmed_length(p, start, cut);
    let dir = &p[0..len];
    assert(dir@ =~= p@.take(len as int));
    Some(dir)
}

/// Whether a byte string is the name of an entry of a directory.
pub open spec fn plain_name(name: Seq<u8>) -> bool {
    &&& name.len() > 0
    &&& forall|k: int| 0 <= k < name.len() ==> name[k] != SLASH
    &&& name != seq![DOT]
    &&& name != seq![DOT, DOT]
}

/// What is put below a directory keeps its final component.
pub proof fn law_file_name_of_join(dir: Seq<u8>, rest: Seq<u8>)
    requires
        final_component(rest) is Some,
    ensures
        final_component(joined(dir, rest)) == final_component(rest),
{
    if !absolute(rest) {
        let p = joined(dir, rest);
        let off = p.len() - rest.len();
        let start = body_start(rest);
        let end = trimmed_length(rest, start, rest.len() as int);
        lemma_trimmed_length(rest, start, rest.len() as int);
        lemma_join_suffix(dir, rest);
        lemma_trimmed_length_suffix(p, rest, rest.len() as int);
        lemma_component_start_suffix(p, rest, end);
        let from = component_start(rest, start, end);
        lemma_component_start(rest, start, end);
        assert(p.subrange(off + from, off + end) =~= rest.subrange(from, end));
    }
}

/// The name of an entry of a directory is its own final component, and what encloses it
/// is the empty path.
pub proof fn law_plain_name(name: Seq<u8>)
    requires
        plain_name(name),
    ensures
        final_component(name) == Some(name),
        enclosing(name) == Some(Seq::<u8>::empty()),
{
    let len = name.len() as int;
    assert(name[0] != SLASH);
    if name.len() == 1 {
        assert(name =~= seq![name[0]]);
    }
    lemma_component_start_at(name, 0, len, 0);
    assert(name.subrange(0, len) =~= name);
    assert(name.take(0) =~= Seq::empty());
}

/// A path with a final component lies in another, which is a part of its front.
pub proof fn law_enclosing_is_prefix(p: Seq<u8>)
    requires
        final_component(p) is Some,
    ensures
        enclosing(p) is Some,
        enclosing(p)->0.is_prefix_of(p),
        !absolute(p) ==> !absolute(enclosing(p)->0),
{
    let start = body_start(p);
    let end = trimmed_length(p, start, p.len() as int);
    lemma_trimmed_length(p, start, p.len() as int);
    lemma_component_start(p, start, end);
    lemma_trimmed_length(p, start, without_last(p, start, end));
}

/// Whether `rest` is the end of `p`, and begins a component there.
spec fn ends_with_components(p: Seq<u8>, rest: Seq<u8>) -> bool {
    let off = p.len() - rest.len();
    &&& off >= 0
    &&& forall|k: int| 0 <= k < rest.len() ==> p[off + k] == #[trigger] rest[k]
    &&& off > 0 ==> p[off - 1] == SLASH
    &&& off == 0 ==> p == rest
    &&& !absolute(rest)
}

proof fn lemma_join_suffix(dir: Seq<u8>, rest: Seq<u8>)
    requires
        !absolute(rest),
    ensures
        ends_with_components(joined(dir, rest), rest),
{
    if dir.len() == 0 {
        assert(joined(dir, rest) =~= rest);
    }
}

/// A last component that does not reach the front of `rest` begins at the same place in a
/// path that ends with `rest`.
proof fn lemma_component_start_suffix(p: Seq<u8>, rest: Seq<u8>, end: int)
    requires
        ends_with_components(p, rest),
        body_start(rest) < end <= rest.len(),
    ensures
        component_start(p, body_start(p), p.len() - rest.len() + end) == p.len() - rest.len()
            + component_start(rest, body_start(rest), end),
{
    let off = p.len() - rest.len();
    let start = body_start(rest);
    let from = component_start(rest, start, end);
    lemma_component_start(rest, start, end);
    assert forall|k: int| off + from <= k < off + end implies p[k] != SLASH by {
        assert(p[off + (k - off)] == rest[k - off]);
    }
    if from > 0 {
        assert(p[off + (from - 1)] == rest[from - 1]);
    }
    lemma_component_start_at(p, body_start(p), off + end, off + from);
}

/// Trimming a path that ends with `rest` does what trimming `rest` does, as long as
/// something of `rest` is left.
proof fn lemma_trimmed_length_suffix(p: Seq<u8>, rest: Seq<u8>, end: int)
    requires
        ends_with_components(p, rest),
        body_start(rest) <= end <= rest.len(),
        trimmed_length(rest, body_start(rest), end) > body_start(rest),
    ensures
        trimmed_length(p, body_start(p), p.len() - rest.len() + end) == p.len() - rest.len()
            + trimmed_length(rest, body_start(rest), end),
    decreases end,
{
    let off = p.len() - rest.len();
    let start = body_start(rest);
    let from = component_start(rest, start, end);
    lemma_component_start(rest, start, end);
    lemma_trimmed_length(rest, start, end);
    lemma_component_start_suffix(p, rest, end);
    if from < end {
        assert(p[off + from] == rest[from]);
    }
    if stands_for_nothing(rest, from, end) {
        lemma_trimmed_length(rest, start, without_last(rest, start, end));
        lemma_trimmed_length_suffix(p, rest, without_last(rest, start, end));
    }
}

/// A path that was put together from a directory and a name lies in that directory,
/// provided that nothing at the end of the directory stands for nothing.
pub proof fn law_parent_of_join(dir: Seq<u8>, name: Seq<u8>)
    requires
        plain_name(name),
        trimmed_length(dir, body_start(dir), dir.len() as int) == dir.len(),
    ensures
        enclosing(joined(dir, name)) == Some(dir),
{
    let p = joined(dir, name);
    let start = body_start(p);
    let from = p.len() - name.len();
    lemma_join_layout(dir, name);
    lemma_component_start_at(p, start, p.len() as int, from);
    if name.len() == 1 {
        assert(name =~= seq![name[0]]);
    }
    assert(last_component(p) == Some((from as int, p.len() as int)));
    assert(without_last(p, start, p.len() as int) == dir.len()) by {
        if dir.len() > 0 && dir.last() == SLASH && dir.len() > start {
            lemma_component_start_at(dir, start, dir.len() as int, dir.len() as int);
            lemma_trimmed_length(dir, start, dir.len() - 1);
        }
    }
    lemma_trimmed_length_prefix(p, dir, start, dir.len() as int);
    assert(p.take(dir.len() as int) =~= dir);
}

/// Where the directory and the name lie in a joined path.
proof fn lemma_join_layout(dir: Seq<u8>, name: Seq<u8>)
    requires
        plain_name(name),
    ensures
        ({
            let p = joined(dir, name);
            let from = p.len() - name.len();
            &&& from == dir.len() || from == dir.len() + 1
            &&& from == dir.len() + 1 <==> dir.len() > 0 && dir.last() != SLASH
            &&& forall|k: int| 0 <= k < dir.len() ==> p[k] == dir[k]
            &&& forall|k: int| from <= k < p.len() ==> p[k] == name[k - from]
            &&& from > 0 ==> p[from - 1] == SLASH
            &&& body_start(p) == body_start(dir)
            &&& body_start(p) <= dir.len()
        }),
{
    let p = joined(dir, name);
    assert(name[0] != SLASH);
    if dir.len() == 0 {
        assert(p =~= name);
        if name.len() == 1 {
            assert(name =~= seq![name[0]]);
        }
    } else if dir.len() == 1 {
        assert(p[0] == dir[0]);
    } else {
        assert(p[0] == dir[0]);
        assert(p[1] == dir[1]);
    }
}

/// Trimming looks at nothing past the end that it is given.
proof fn lemma_trimmed_length_prefix(p: Seq<u8>, q: Seq<u8>, start: int, end: int)
    requires
        0 <= start <= end <= p.len(),
        end <= q.len(),
        forall|k: int| 0 <= k < end ==> p[k] == q[k],
    ensures
        trimmed_length(p, start, end) == trimmed_length(q, start, end),
    decreases end - start,
{
    lemma_component_start(p, start, end);
    lemma_component_start_at(q, start, end, component_start(p, start, end));
    if start < end && stands_for_nothing(p, component_start(p, start, end), end) {
        lemma_trimmed_length_prefix(p, q, start, without_last(p, start, end));
    }
}

/// Two paths are joined with one slash between them, or none where the first is empty or ends
/// in one; an absolute path is not put below another.
pub proof fn law_join(dir: Seq<u8>, rest: Seq<u8>)
    ensures
        rest.len() > 0 && rest[0] == 47 ==> joined(dir, rest) == rest,
        !(rest.len() > 0 && rest[0] == 47) && dir.len() > 0 && dir.last() != 47 ==> joined(
            dir,
            rest,
        ) == dir + seq![47u8] + rest,
        !(rest.len() > 0 && rest[0] == 47) && (dir.len() == 0 || dir.last() == 47) ==> joined(
            dir,
            rest,
        ) == dir + rest,
        absolute(rest) <==> rest.len() > 0 && rest[0] == 47,
{
    assert(dir.push(SLASH) + rest =~= dir + seq![47u8] + rest);
}

/// Whether `p[a..b]` holds nothing but slashes and dots that stand alone between slashes.
pub open spec fn nothing_between(p: Seq<u8>, a: int, b: int) -> bool {
    forall|i: int|
        a <= i < b ==> (#[trigger] p[i] == 47 || (p[i] == 46 && i > 0 && p[i - 1] == 47 && (i + 1
            == p.len() || p[i + 1] == 47)))
}

proof fn lemma_trimmed_is_nothing(p: Seq<u8>, end: int)
    requires
        body_start(p) <= end <= p.len(),
        end == p.len() || p[end] == SLASH,
    ensures
        ({
            let start = body_start(p);
            let t = trimmed_length(p, start, end);
            &&& start <= t <= end
            &&& nothing_between(p, t, end)
            &&& t > start ==> t == p.len() || p[t] == SLASH
            &&& t > start ==> !stands_for_nothing(p, component_start(p, start, t), t)
        }),
    decreases end,
{
    let start = body_start(p);
    let from = component_start(p, start, end);
    lemma_component_start(p, start, end);
    lemma_trimmed_length(p, start, end);
    if start < end && stands_for_nothing(p, from, end) {
        let next = without_last(p, start, end);
        if from > start {
            assert(p[from - 1] == SLASH);
            lemma_trimmed_is_nothing(p, next);
        } else {
            assert(trimmed_length(p, start, start) == start);
        }
    }
}

/// The component that leads up.
pub open spec fn dot_dot() -> Seq<u8> {
    seq![46u8, 46u8]
}

/// Where the last component of a path that stands for something lies.
pub open spec fn lies_at(p: Seq<u8>, name: Seq<u8>, from: int) -> bool {
    &&& 0 <= from
    &&& from + name.len() <= p.len()
    &&& p.subrange(from, from + name.len()) == name
    &&& from == 0 || p[from - 1] == 47
    &&& from + name.len() == p.len() || p[from + name.len()] == 47
    &&& nothing_between(p, from + name.len(), p.len() as int)
}

/// Whether `dir` is the front of a path up to the component that begins at `from`, without
/// the slashes and lone dots between the two.
pub open spec fn encloses_up_to(p: Seq<u8>, dir: Seq<u8>, from: int) -> bool {
    &&& dir.len() <= from
    &&& dir == p.take(dir.len() as int)
    &&& nothing_between(p, dir.len() as int, from)
    &&& dir.len() > 1 ==> dir.last() != 47
    &&& dir.len() > 1 && dir.last() == 46 ==> dir[dir.len() - 2] != 47
    &&& from > 0 ==> dir.len() < from || dir == seq![47u8]
}

/// Where the final component of a path begins.
proof fn lemma_final_component_at(p: Seq<u8>) -> (from: int)
    requires
        final_component(p) is Some,
    ensures
        lies_at(p, final_component(p)->0, from),
        encloses_up_to(p, enclosing(p)->0, from),
        enclosing(p) is Some,
        final_component(p)->0.len() > 0,
        !final_component(p)->0.contains(47u8),
        final_component(p)->0 != seq![46u8],
        final_component(p)->0 != dot_dot(),
{
    let start = body_start(p);
    let end = trimmed_length(p, start, p.len() as int);
    lemma_trimmed_is_nothing(p, p.len() as int);
    let from = component_start(p, start, end);
    lemma_component_start(p, start, end);
    let name = p.subrange(from, end);
    assert(from == start && start == 1 ==> p[0] == SLASH) by {
        if from == 1 && start == 1 && starts_here(p) {
            assert(p[1] == SLASH);
            assert(p[from] != SLASH);
        }
    }
    assert(lies_at(p, name, from));
    assert(!name.contains(47u8)) by {
        if name.contains(47u8) {
            let k = choose|k: int| 0 <= k < name.len() && name[k] == 47;
            assert(p[from + k] == SLASH);
        }
    }
    assert(name != seq![46u8]) by {
        if name == seq![46u8] {
            assert(name[0] == p[from]);
        }
    }
    assert(name != dot_dot()) by {
        if name == dot_dot() {
            assert(name =~= seq![DOT, DOT]);
        }
    }
    let cut = without_last(p, start, end);
    let len = trimmed_length(p, start, cut);
    let dir = enclosing(p)->0;
    lemma_trimmed_length(p, start, cut);
    assert(dir == p.take(len));
    if from > start {
        lemma_trimmed_is_nothing(p, cut);
        assert(nothing_between(p, len, from));
        if len > 1 {
            assert(dir.last() == p[len - 1]);
            assert(dir[len - 2] == p[len - 2]);
            if p[len - 1] == SLASH {
                lemma_component_start_at(p, start, len, len);
            }
            if p[len - 1] == DOT && p[len - 2] == SLASH {
                lemma_component_start_at(p, start, len, len - 1);
            }
        }
    } else {
        assert(len == start);
        assert(start == 1 ==> p.take(1) =~= seq![47u8]);
    }
    assert(encloses_up_to(p, dir, from));
    from
}

/// The final component of a path is what its last slashes enclose, slashes and lone dots at
/// the end aside: a name without a slash, and neither `.` nor `..`. What encloses the path is
/// a part of its front, and between the two there are slashes and lone dots only.
pub proof fn law_final_component_and_rest(p: Seq<u8>)
    ensures
        final_component(p) matches Some(name) ==> {
            &&& name.len() > 0
            &&& !name.contains(47u8)
            &&& name != seq![46u8]
            &&& name != seq![46u8, 46u8]
            &&& enclosing(p) is Some
            &&& exists|from: int| #[trigger]
                lies_at(p, name, from) && encloses_up_to(p, enclosing(p)->0, from)
        },
        final_component(p) is None ==> {
            ||| p.len() == 0
            ||| nothing_between(p, 1, p.len() as int) && (p[0] == 47 || p[0] == 46)
            ||| exists|from: int| #[trigger] lies_at(p, dot_dot(), from)
        },
{
    let start = body_start(p);
    let end = trimmed_length(p, start, p.len() as int);
    lemma_trimmed_is_nothing(p, p.len() as int);
    if final_component(p) is Some {
        let from = lemma_final_component_at(p);
        assert(dot_dot() =~= seq![46u8, 46u8]);
        assert(lies_at(p, final_component(p)->0, from));
    } else if end > start {
        let from = component_start(p, start, end);
        lemma_component_start(p, start, end);
        assert(p.subrange(from, end) =~= dot_dot());
        assert(from == start && start == 1 ==> p[0] == SLASH) by {
            if from == 1 && start == 1 && starts_here(p) {
                assert(p[1] == SLASH);
                assert(p[from] != SLASH);
            }
        }
        assert(lies_at(p, dot_dot(), from));
    } else if p.len() > 0 {
        assert(start == 0 ==> p[0] == SLASH);
    }
}

/// A path without a final component has none to give up, unless it is `..` at its end or the
/// leading `.`: the empty path and the root lie in no other.
pub proof fn law_enclosing_of_root(p: Seq<u8>)
    ensures
        enclosing(p) is None ==> p.len() == 0 || (p[0] == 47 && nothing_between(
            p,
            1,
            p.len() as int,
        )),
        p.len() == 0 ==> enclosing(p) is None,
        p.len() > 0 && (forall|i: int| 0 <= i < p.len() ==> p[i] == 47) ==> enclosing(p) is None,
{
    let start = body_start(p);
    lemma_trimmed_is_nothing(p, p.len() as int);
    let end = trimmed_length(p, start, p.len() as int);
    if p.len() > 0 && (forall|i: int| 0 <= i < p.len() ==> p[i] == 47) && end > start {
        lemma_component_start(p, start, end);
        assert(p[end - 1] == 47);
        assert(component_start(p, start, end) == end);
    }
}

} // verus!
