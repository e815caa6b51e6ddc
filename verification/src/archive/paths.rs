//! Paths inside a container and under a destination, as forward-slash
//! strings.
use vstd::prelude::*;
use crate::archive::text::{chars_of, string_from_chars, substring};

verus! {

/// `s` without the slashes at its end.
pub open spec fn without_trailing_slashes(s: Seq<char>) -> Seq<char>
    decreases s.len(),
{
    if s.len() > 0 && s.last() == '/' {
        without_trailing_slashes(s.drop_last())
    } else {
        s
    }
}

/// `s` without the slashes at its start.
pub open spec fn without_leading_slashes(s: Seq<char>) -> Seq<char>
    decreases s.len(),
{
    if s.len() > 0 && s[0] == '/' {
        without_leading_slashes(s.drop_first())
    } else {
        s
    }
}

/// `rest` below `base`: the two with one slash between them, or the other
/// alone where one of them is empty.
pub open spec fn joined(base: Seq<char>, rest: Seq<char>) -> Seq<char> {
    if base.len() == 0 {
        rest
    } else if rest.len() == 0 {
        base
    } else if base.last() == '/' {
        base + rest
    } else {
        base + seq!['/'] + rest
    }
}

/// Whether `prefix` stands at the start of `s`.
pub open spec fn starts_with(s: Seq<char>, prefix: Seq<char>) -> bool {
    prefix.len() <= s.len() && s.take(prefix.len() as int) == prefix
}

/// Whether `name` lies below the directory `dir`: `dir`, less its trailing
/// slashes, is followed in `name` by a slash and at least one more character.
pub open spec fn is_within(dir: Seq<char>, name: Seq<char>) -> bool {
    let d = without_trailing_slashes(dir);
    &&& d.len() > 0
    &&& name.len() > d.len() + 1
    &&& starts_with(name, d)
    &&& name[d.len() as int] == '/'
}

/// A name is hidden where it begins with a dot.
pub open spec fn is_hidden_name(name: Seq<char>) -> bool {
    name.len() > 0 && name[0] == '.'
}

/// The name that a path gets inside an archive whose root is `root`: what
/// follows `root` and a slash; nothing for `root` itself; and the whole path
/// where it does not lie below `root`.
pub open spec fn relative_name(path: Seq<char>, root: Seq<char>) -> Seq<char> {
    let r = without_trailing_slashes(root);
    if without_trailing_slashes(path) == r {
        Seq::empty()
    } else if r.len() < path.len() && starts_with(path, r) && path[r.len() as int] == '/' {
        without_leading_slashes(path.skip(r.len() as int))
    } else {
        path
    }
}

/// The directory that holds `path`: what stands before its last slash, or
/// nothing where it has no slash.
pub open spec fn parent_of(path: Seq<char>) -> Seq<char> {
    let at = crate::archive::text::last_index_of(path, '/');
    if at < 0 {
        Seq::empty()
    } else {
        path.take(at)
    }
}

/// `path` without its first component: without its leading slashes where it
/// has any, else without what stands before its first slash and that slash;
/// nothing is left of a path with a single component.
pub open spec fn without_first_component(path: Seq<char>) -> Seq<char> {
    without_leading_slashes(path.skip(first_index_of(path, '/')))
}

/// The index of the first occurrence of `c` in `s`, or the length of `s`
/// where there is none.
pub open spec fn first_index_of(s: Seq<char>, c: char) -> int
    decreases s.len(),
{
    if s.len() == 0 || s[0] == c {
        0
    } else {
        1 + first_index_of(s.drop_first(), c)
    }
}

/// `first_index_of` is the one index that holds `c` with no `c` before it.
pub proof fn lemma_first_index_of(s: Seq<char>, c: char, k: int)
    requires
        0 <= k <= s.len(),
        k < s.len() ==> s[k] == c,
        forall|j: int| 0 <= j < k ==> s[j] != c,
    ensures
        first_index_of(s, c) == k,
    decreases s.len(),
{
    if s.len() > 0 && s[0] != c {
        lemma_first_index_of(s.drop_first(), c, k - 1);
    }
}

/// How many characters of `chars` are left when its trailing slashes go.
pub(crate) fn trimmed_len(chars: &Vec<char>) -> (r: usize)
    ensures
        r <= chars@.len(),
        chars@.take(r as int) == without_trailing_slashes(chars@),
{
    let mut n: usize = chars.len();
    assert(chars@.take(n as int) == chars@);
    while n > 0 && chars[n - 1] == '/'
        invariant
            n <= chars@.len(),
            without_trailing_slashes(chars@.take(n as int)) == without_trailing_slashes(chars@),
        decreases n,
    {
        assert(chars@.take(n as int).drop_last() == chars@.take(n - 1));
        n -= 1;
    }
    n
}

/// The index of the first character of `chars`, from `from` on, that is no
/// slash.
pub(crate) fn skip_slashes(chars: &Vec<char>, from: usize) -> (r: usize)
    requires
        from <= chars@.len(),
    ensures
        from <= r <= chars@.len(),
        chars@.skip(r as int) == without_leading_slashes(chars@.skip(from as int)),
{
    let mut n: usize = from;
    while n < chars.len() && chars[n] == '/'
        invariant
            from <= n <= chars@.len(),
            without_leading_slashes(chars@.skip(n as int)) == without_leading_slashes(
                chars@.skip(from as int),
            ),
        decreases chars@.len() - n,
    {
        assert(chars@.skip(n as int).drop_first() == chars@.skip(n + 1));
        n += 1;
    }
    n
}

/// Whether the first `len` characters of `prefix` stand at the start of `s`.
pub(crate) fn has_prefix(s: &Vec<char>, prefix: &Vec<char>, len: usize) -> (r: bool)
    requires
        len <= prefix@.len(),
    ensures
        r == starts_with(s@, prefix@.take(len as int)),
{
    if len > s.len() {
        return false;
    }
    let mut i: usize = 0;
    while i < len
        invariant
            i <= len <= prefix@.len(),
            len <= s@.len(),
            forall|j: int| 0 <= j < i ==> s@[j] == prefix@[j],
        decreases len - i,
    {
        if s[i] != prefix[i] {
            assert(s@.take(len as int)[i as int] != prefix@.take(len as int)[i as int]);
            return false;
        }
        i += 1;
    }
    assert(s@.take(len as int) =~= prefix@.take(len as int));
    true
}

/// Joins a path below a base.
pub fn join(base: &str, rest: &str) -> (r: String)
    ensures
        r@ == joined(base@, rest@),
{
    let b = chars_of(base);
    if b.len() == 0 {
        return rest.to_owned();
    }
    if rest.unicode_len() == 0 {
        return base.to_owned();
    }
    let mut out = base.to_owned();
    if b[b.len() - 1] != '/' {
        out.append("/");
        proof {
            reveal_strlit("/");
            assert("/"@ =~= seq!['/']);
        }
    }
    out.append(rest);
    out
}

/// Whether a name is hidden.
pub fn is_hidden(name: &str) -> (r: bool)
    ensures
        r == is_hidden_name(name@),
{
    let chars = chars_of(name);
    chars.len() > 0 && chars[0] == '.'
}

/// Whether `name` lies below the directory `dir`.
pub fn lies_within(dir: &str, name: &str) -> (r: bool)
    ensures
        r == is_within(dir@, name@),
{
    let d = chars_of(dir);
    let n = chars_of(name);
    let len = trimmed_len(&d);
    if len == 0 || n.len() <= len || n.len() - len <= 1 {
        return false;
    }
    has_prefix(&n, &d, len) && n[len] == '/'
}

/// The name of a path inside an archive rooted at `root`.
pub fn strip_root(path: &str, root: &str) -> (r: String)
    ensures
        r@ == relative_name(path@, root@),
{
    let p = chars_of(path);
    let r = chars_of(root);
    let root_len = trimmed_len(&r);
    let path_len = trimmed_len(&p);
    if path_len == root_len && has_prefix(&p, &r, root_len) {
        assert(p@.take(path_len as int).take(root_len as int) == p@.take(root_len as int));
        return String::new();
    }
    if path_len == root_len {
        assert(p@.take(path_len as int).take(root_len as int) == p@.take(root_len as int));
    }
    if root_len < p.len() && has_prefix(&p, &r, root_len) && p[root_len] == '/' {
        let from = skip_slashes(&p, root_len);
        assert(p@.skip(from as int) == p@.subrange(from as int, p@.len() as int));
        return substring(&p, from, p.len());
    }
    path.to_owned()
}

/// The directory that holds a path.
pub fn parent(path: &str) -> (r: String)
    ensures
        r@ == parent_of(path@),
{
    let p = chars_of(path);
    assert(p@.take(p@.len() as int) == p@);
    match crate::archive::text::rfind_char(&p, p.len(), '/') {
        Some(at) => {
            assert(p@.take(at as int) == p@.subrange(0, at as int));
            substring(&p, 0, at)
        },
        None => String::new(),
    }
}

/// Puts a path of a volume below a directory: the path is taken without its
/// first component, which for an absolute path is its root.
pub fn join_path_with_root(source: &str, fs_path: &str) -> (r: String)
    ensures
        r@ == joined(source@, without_first_component(fs_path@)),
{
    let p = chars_of(fs_path);
    let mut first_slash: usize = 0;
    while first_slash < p.len() && p[first_slash] != '/'
        invariant
            first_slash <= p@.len(),
            forall|j: int| 0 <= j < first_slash ==> p@[j] != '/',
        decreases p@.len() - first_slash,
    {
        first_slash += 1;
    }
    proof {
        lemma_first_index_of(p@, '/', first_slash as int);
    }
    let from = skip_slashes(&p, first_slash);
    assert(p@.skip(from as int) == p@.subrange(from as int, p@.len() as int));
    let rest = substring(&p, from, p.len());
    join(source, rest.as_str())
}

/// A name with every backslash turned into a forward slash.
pub open spec fn with_forward_slashes(name: Seq<char>) -> Seq<char> {
    name.map_values(
        |c: char|
            if c == '\\' {
                '/'
            } else {
                c
            },
    )
}

/// Turns every backslash of a name into a forward slash.
pub fn forward_slashes(name: &str) -> (r: String)
    ensures
        r@ == with_forward_slashes(name@),
{
    let chars = chars_of(name);
    let mut out: Vec<char> = Vec::new();
    let mut i: usize = 0;
    while i < chars.len()
        invariant
            i <= chars@.len(),
            out@ == with_forward_slashes(chars@).take(i as int),
        decreases chars@.len() - i,
    {
        let c = chars[i];
        out.push(if c == '\\' {
            '/'
        } else {
            c
        });
        assert(out@ =~= with_forward_slashes(chars@).take(i + 1));
        i += 1;
    }
    assert(with_forward_slashes(chars@).take(chars@.len() as int) =~= with_forward_slashes(
        chars@,
    ));
    string_from_chars(&out)
}

/// Whether a part of a path between two slashes names something: it is
/// neither empty nor a single dot.
pub open spec fn is_real_part(part: Seq<char>) -> bool {
    part.len() > 0 && part != seq!['.']
}

/// The parts of a path between its slashes that name something, in order.
pub open spec fn named_parts(path: Seq<char>) -> Seq<Seq<char>>
    decreases path.len(),
{
    if path.len() == 0 {
        Seq::empty()
    } else {
        let cut = first_index_of(path, '/');
        let rest = if 0 <= cut < path.len() {
            named_parts(path.skip(cut + 1))
        } else {
            Seq::empty()
        };
        if is_real_part(path.take(cut)) {
            seq![path.take(cut)] + rest
        } else {
            rest
        }
    }
}

/// Whether a path starts with a part that stands for the directory that it
/// is taken from: a single dot, alone or before a slash.
pub open spec fn starts_at_dot(path: Seq<char>) -> bool {
    path.len() > 0 && path[0] == '.' && (path.len() == 1 || path[1] == '/')
}

/// The components of a path: the root, written `/`, where the path starts
/// at it, or a single dot where it starts with one; and then the parts that
/// name something. A single dot counts at the start only, an empty part
/// nowhere.
pub open spec fn path_components(path: Seq<char>) -> Seq<Seq<char>> {
    if path.len() > 0 && path[0] == '/' {
        seq![seq!['/']] + named_parts(path)
    } else if starts_at_dot(path) {
        seq![seq!['.']] + named_parts(path)
    } else {
        named_parts(path)
    }
}

/// The longest sequence that two sequences both start with.
pub open spec fn common_prefix(a: Seq<Seq<char>>, b: Seq<Seq<char>>) -> Seq<Seq<char>>
    decreases a.len(),
{
    if a.len() > 0 && b.len() > 0 && a[0] == b[0] {
        seq![a[0]] + common_prefix(a.drop_first(), b.drop_first())
    } else {
        Seq::empty()
    }
}

/// The components that the first `upto` of some paths all start with; there
/// have to be paths for that.
pub open spec fn deepest_common(paths: Seq<Seq<char>>, upto: int) -> Seq<Seq<char>>
    decreases upto,
{
    if upto <= 1 {
        path_components(paths[0])
    } else {
        common_prefix(deepest_common(paths, upto - 1), path_components(paths[upto - 1]))
    }
}

/// `common_prefix` is what two sequences agree on up to the first place
/// where they differ or one of them ends.
pub proof fn lemma_common_prefix(a: Seq<Seq<char>>, b: Seq<Seq<char>>, n: int)
    requires
        0 <= n <= a.len(),
        n <= b.len(),
        forall|j: int| 0 <= j < n ==> a[j] == b[j],
        n < a.len() && n < b.len() ==> a[n] != b[n],
    ensures
        common_prefix(a, b) == a.take(n),
    decreases a.len(),
{
    if n > 0 {
        assert(a[0] == b[0]);
        let ra = a.drop_first();
        let rb = b.drop_first();
        assert forall|j: int| 0 <= j < n - 1 implies ra[j] == rb[j] by {
            assert(ra[j] == a[j + 1] && rb[j] == b[j + 1]);
        }
        lemma_common_prefix(ra, rb, n - 1);
        assert(a.take(n) =~= seq![a[0]] + ra.take(n - 1));
    } else {
        assert(a.take(0) =~= Seq::<Seq<char>>::empty());
    }
}

/// The views of a sequence of strings, in order.
pub open spec fn part_views(parts: Seq<String>) -> Seq<Seq<char>> {
    parts.map_values(|p: String| p@)
}

/// The components of a path.
pub fn components(path: &str) -> (r: Vec<String>)
    ensures
        part_views(r@) == path_components(path@),
{
    let chars = chars_of(path);
    let mut out: Vec<String> = Vec::new();
    if chars.len() > 0 && chars[0] == '/' {
        proof {
            reveal_strlit("/");
            assert("/"@ =~= seq!['/']);
        }
        out.push("/".to_owned());
        assert(part_views(out@) =~= seq![seq!['/']]);
    } else if chars.len() > 0 && chars[0] == '.' && (chars.len() == 1 || chars[1] == '/') {
        proof {
            reveal_strlit(".");
            assert("."@ =~= seq!['.']);
        }
        out.push(".".to_owned());
        assert(part_views(out@) =~= seq![seq!['.']]);
    } else {
        assert(part_views(out@) =~= Seq::<Seq<char>>::empty());
    }
    append_named_parts(path, &mut out);
    out
}

/// Appends the parts of a path that name something, in order.
pub fn append_named_parts(path: &str, out: &mut Vec<String>)
    ensures
        part_views(final(out)@) == part_views(old(out)@) + named_parts(path@),
{
    let chars = chars_of(path);
    let ghost head = part_views(out@);
    assert(chars@.skip(0) == chars@);
    let mut start: usize = 0;
    while start < chars.len()
        invariant
            start <= chars@.len(),
            part_views(out@) + named_parts(chars@.skip(start as int)) == head + named_parts(chars@),
        decreases chars@.len() - start,
    {
        let mut cut: usize = start;
        while cut < chars.len() && chars[cut] != '/'
            invariant
                start <= cut <= chars@.len(),
                forall|j: int| start <= j < cut ==> chars@[j] != '/',
            decreases chars@.len() - cut,
        {
            cut += 1;
        }
        let ghost tail = chars@.skip(start as int);
        proof {
            lemma_first_index_of(tail, '/', cut - start);
            assert(tail.take(cut - start) == chars@.subrange(start as int, cut as int));
            if cut < chars@.len() {
                assert(tail.skip(cut - start + 1) == chars@.skip(cut + 1));
            }
        }
        let ghost before = part_views(out@);
        let named = cut > start && !(cut - start == 1 && chars[start] == '.');
        proof {
            let part = chars@.subrange(start as int, cut as int);
            if cut - start == 1 {
                assert(part =~= seq![chars@[start as int]]);
                assert(seq!['.'][0] == '.');
            } else {
                assert(part.len() != seq!['.'].len());
            }
            assert(named == is_real_part(part));
        }
        if named {
            let part = substring(&chars, start, cut);
            out.push(part);
            assert(part_views(out@) =~= before.push(chars@.subrange(start as int, cut as int)));
        }
        if cut < chars.len() {
            start = cut + 1;
        } else {
            start = cut;
            assert(chars@.skip(start as int).len() == 0);
        }
        assert(part_views(out@) + named_parts(chars@.skip(start as int)) =~= before + named_parts(
            tail,
        ));
    }
    assert(part_views(out@) =~= head + named_parts(chars@));
}

/// The longest run of components that two lists both start with.
pub fn shared_components(a: &Vec<String>, b: &Vec<String>) -> (r: Vec<String>)
    ensures
        part_views(r@) == common_prefix(part_views(a@), part_views(b@)),
{
    let ghost va = part_views(a@);
    let ghost vb = part_views(b@);
    let mut out: Vec<String> = Vec::new();
    let mut i: usize = 0;
    while i < a.len() && i < b.len() && crate::archive::text::str_equal(
        a[i].as_str(),
        b[i].as_str(),
    )
        invariant
            i <= a@.len(),
            i <= b@.len(),
            va == part_views(a@),
            vb == part_views(b@),
            forall|j: int| 0 <= j < i ==> va[j] == vb[j],
            part_views(out@) == va.take(i as int),
        decreases a@.len() - i,
    {
        let ghost before = part_views(out@);
        let part = a[i].clone();
        out.push(part);
        assert(va[i as int] == a@[i as int]@);
        assert(part_views(out@) =~= before.push(part@));
        assert(part_views(out@) =~= va.take(i + 1));
        i += 1;
    }
    proof {
        if i < a@.len() && i < b@.len() {
            assert(va[i as int] == a@[i as int]@ && vb[i as int] == b@[i as int]@);
        }
        lemma_common_prefix(va, vb, i as int);
    }
    out
}

/// The components that all the paths start with: the deepest directory that
/// holds every one of them. Without paths there is none.
pub fn compute_deepest_common_directory(paths: &Vec<String>) -> (r: Option<Vec<String>>)
    ensures
        paths@.len() == 0 ==> r is None,
        paths@.len() > 0 ==> (r matches Some(common) && part_views(common@) == deepest_common(
            part_views(paths@),
            paths@.len() as int,
        )),
{
    if paths.len() == 0 {
        return None;
    }
    let ghost views = part_views(paths@);
    assert(views[0] == paths@[0]@);
    let mut common = components(paths[0].as_str());
    let mut i: usize = 1;
    while i < paths.len()
        invariant
            1 <= i <= paths@.len(),
            views == part_views(paths@),
            part_views(common@) == deepest_common(views, i as int),
        decreases paths@.len() - i,
    {
        assert(views[i as int] == paths@[i as int]@);
        let next = components(paths[i].as_str());
        common = shared_components(&common, &next);
        i += 1;
    }
    Some(common)
}

/// The part of a path that stands for the directory above.
pub open spec fn parent_part() -> Seq<char> {
    seq!['.', '.']
}

/// Whether a name stays below the directory that it is put in: it is not
/// empty, does not start at the root, holds no NUL, and none of its parts
/// stands for the directory above.
pub open spec fn is_enclosed_name(name: Seq<char>) -> bool {
    &&& name.len() > 0
    &&& name[0] != '/'
    &&& !name.contains('\0')
    &&& !named_parts(name).contains(parent_part())
}

/// Whether a name stays below the directory that it is put in.
pub fn is_enclosed(name: &str) -> (r: bool)
    ensures
        r == is_enclosed_name(name@),
{
    let chars = chars_of(name);
    if chars.len() == 0 || chars[0] == '/' {
        return false;
    }
    let mut i: usize = 0;
    while i < chars.len()
        invariant
            i <= chars@.len(),
            chars@ == name@,
            forall|j: int| 0 <= j < i ==> chars@[j] != '\0',
        decreases chars@.len() - i,
    {
        if chars[i] == '\0' {
            assert(name@[i as int] == '\0');
            return false;
        }
        i += 1;
    }
    assert(!name@.contains('\0'));
    let mut parts: Vec<String> = Vec::new();
    append_named_parts(name, &mut parts);
    let ghost views = part_views(parts@);
    assert(views =~= named_parts(name@));
    proof {
        reveal_strlit("..");
        assert(".."@ =~= parent_part());
    }
    let mut k: usize = 0;
    while k < parts.len()
        invariant
            k <= parts@.len(),
            views == part_views(parts@),
            views == named_parts(name@),
            name@.len() > 0,
            name@[0] != '/',
            !name@.contains('\0'),
            ".."@ == parent_part(),
            forall|j: int| 0 <= j < k ==> views[j] != parent_part(),
        decreases parts@.len() - k,
    {
        assert(views[k as int] == parts@[k as int]@);
        if crate::archive::text::str_equal(parts[k].as_str(), "..") {
            assert(views.contains(parent_part()));
            return false;
        }
        k += 1;
    }
    assert(!views.contains(parent_part()));
    true
}

} // verus!
