use vstd::prelude::*;

verus! {

// ---------------------------------------------------------------------------
// Components of `/`-separated paths
// ---------------------------------------------------------------------------
/// The components found so far, with the one being read added when it is a
/// real component (not empty, not `.`).
pub open spec fn flush(done: Seq<Seq<char>>, cur: Seq<char>) -> Seq<Seq<char>> {
    if cur.len() == 0 || cur == seq!['.'] {
        done
    } else {
        done.push(cur)
    }
}

/// Reading `s` from the start: the components finished so far and the one
/// being read.
pub open spec fn split_state(s: Seq<char>) -> (Seq<Seq<char>>, Seq<char>)
    decreases s.len(),
{
    if s.len() == 0 {
        (Seq::empty(), Seq::empty())
    } else {
        let prev = split_state(s.drop_last());
        if s.last() == '/' {
            (flush(prev.0, prev.1), Seq::empty())
        } else {
            (prev.0, prev.1.push(s.last()))
        }
    }
}

/// The named components of a path whose components are separated by `/`,
/// in order; empty and `.` components are left out.
pub open spec fn normal_components(s: Seq<char>) -> Seq<Seq<char>> {
    flush(split_state(s).0, split_state(s).1)
}

/// The path starts at the root: its first character is `/`.
pub open spec fn starts_at_root(s: Seq<char>) -> bool {
    s.len() > 0 && s[0] == '/'
}

/// The path starts with the current directory: it is `.` or begins with `./`.
pub open spec fn starts_at_current_dir(s: Seq<char>) -> bool {
    s.len() > 0 && s[0] == '.' && (s.len() == 1 || s[1] == '/')
}

/// The components of a path, as std's `Path::components` gives them on
/// Unix: the root, written `/`, for a path that starts with `/`; the
/// current directory, written `.`, for a path that starts with `.` and is
/// not rooted; then the named components (`..` among them), without empty
/// components and without the `.` ones that follow.
pub open spec fn path_components(s: Seq<char>) -> Seq<Seq<char>> {
    if starts_at_root(s) {
        seq![seq!['/']] + normal_components(s)
    } else if starts_at_current_dir(s) {
        seq![seq!['.']] + normal_components(s)
    } else {
        normal_components(s)
    }
}

pub open spec fn chars_of(v: Seq<Vec<char>>) -> Seq<Seq<char>> {
    v.map_values(|c: Vec<char>| c@)
}

fn is_dot(cur: &Vec<char>) -> (r: bool)
    ensures
        r == (cur@ == seq!['.']),
{
    if cur.len() == 1 && cur[0] == '.' {
        assert(cur@ =~= seq!['.']);
        true
    } else {
        false
    }
}

fn flush_exec(done: &mut Vec<Vec<char>>, cur: Vec<char>)
    ensures
        chars_of(final(done)@) == flush(chars_of(old(done)@), cur@),
{
    if cur.len() != 0 && !is_dot(&cur) {
        let ghost before = done@;
        done.push(cur);
        assert(chars_of(done@) =~= chars_of(before).push(cur@));
    }
}

/// The named components of `s`, separated by `/`, without empty and `.` ones.
fn normal_components_of(s: &str) -> (r: Vec<Vec<char>>)
    ensures
        chars_of(r@) == normal_components(s@),
{
    let n = s.unicode_len();
    let mut done: Vec<Vec<char>> = Vec::new();
    let mut cur: Vec<char> = Vec::new();
    let mut i: usize = 0;
    assert(chars_of(done@) =~= Seq::<Seq<char>>::empty());
    assert(cur@ =~= Seq::<char>::empty());
    while i < n
        invariant
            n == s@.len(),
            i <= n,
            chars_of(done@) == split_state(s@.take(i as int)).0,
            cur@ == split_state(s@.take(i as int)).1,
        decreases n - i,
    {
        let c = s.get_char(i);
        proof {
            assert(s@.take(i + 1).drop_last() =~= s@.take(i as int));
            assert(s@.take(i + 1).last() == c);
        }
        if c == '/' {
            let finished = cur;
            cur = Vec::new();
            flush_exec(&mut done, finished);
            assert(cur@ =~= Seq::<char>::empty());
        } else {
            cur.push(c);
        }
        i = i + 1;
    }
    assert(s@.take(n as int) =~= s@);
    flush_exec(&mut done, cur);
    done
}

/// The components of `s` (see `path_components`).
pub fn path_components_of(s: &str) -> (r: Vec<Vec<char>>)
    ensures
        chars_of(r@) == path_components(s@),
{
    let n = s.unicode_len();
    let mut normal = normal_components_of(s);
    let first: Option<char> = if n > 0 {
        let c0 = s.get_char(0);
        if c0 == '/' {
            Some('/')
        } else if c0 == '.' && (n == 1 || s.get_char(1) == '/') {
            Some('.')
        } else {
            None
        }
    } else {
        None
    };
    match first {
        None => normal,
        Some(c) => {
            let mut lead: Vec<char> = Vec::new();
            lead.push(c);
            let mut r: Vec<Vec<char>> = Vec::new();
            r.push(lead);
            let ghost nv = chars_of(normal@);
            r.append(&mut normal);
            proof {
                assert(chars_of(r@) =~= seq![seq![c]] + nv);
                if c == '/' {
                    assert(seq![c] =~= seq!['/']);
                } else {
                    assert(seq![c] =~= seq!['.']);
                }
            }
            r
        },
    }
}

// ---------------------------------------------------------------------------
// Comparing paths by components
// ---------------------------------------------------------------------------
/// `child`'s components are the last components of `path`.
pub open spec fn components_end_with(path: Seq<Seq<char>>, child: Seq<Seq<char>>) -> bool {
    child.len() <= path.len() && path.subrange(path.len() - child.len(), path.len() as int) == child
}

/// The path `path` ends with the path `child`, compared by whole components.
pub open spec fn path_ends_with(path: Seq<char>, child: Seq<char>) -> bool {
    components_end_with(path_components(path), path_components(child))
}

fn chars_equal(a: &Vec<char>, b: &Vec<char>) -> (r: bool)
    ensures
        r == (a@ == b@),
{
    if a.len() != b.len() {
        return false;
    }
    let mut i: usize = 0;
    while i < a.len()
        invariant
            a@.len() == b@.len(),
            i <= a@.len(),
            forall|j: int| 0 <= j < i ==> a@[j] == b@[j],
        decreases a@.len() - i,
    {
        if a[i] != b[i] {
            return false;
        }
        i = i + 1;
    }
    assert(a@ =~= b@);
    true
}

/// Whether the path `path` ends with the path `child`: the components of
/// `child` (see `path_components`) are the last components of `path`, as
/// std's `Path::ends_with` compares them.
pub fn ends_with_path(path: &str, child: &str) -> (r: bool)
    ensures
        r == path_ends_with(path@, child@),
{
    let p = path_components_of(path);
    let c = path_components_of(child);
    let ghost pv = chars_of(p@);
    let ghost cv = chars_of(c@);
    if c.len() > p.len() {
        return false;
    }
    let p_len = p.len();
    let offset = p_len - c.len();
    let mut i: usize = 0;
    while i < c.len()
        invariant
            pv == chars_of(p@),
            cv == chars_of(c@),
            pv == path_components(path@),
            cv == path_components(child@),
            pv.len() == p@.len(),
            cv.len() == c@.len(),
            c@.len() <= p@.len(),
            offset + c@.len() == p@.len(),
            p_len == p@.len(),
            offset == p@.len() - c@.len(),
            i <= c@.len(),
            forall|j: int| 0 <= j < i ==> pv[offset + j] == cv[j],
        decreases c@.len() - i,
    {
        proof {
            assert(pv[offset + i] == p@[offset + i]@);
            assert(cv[i as int] == c@[i as int]@);
        }
        if !chars_equal(&p[offset + i], &c[i]) {
            proof {
                assert(pv.subrange(offset as int, p@.len() as int)[i as int] == pv[offset + i]);
            }
            return false;
        }
        i = i + 1;
    }
    assert(pv.subrange(offset as int, p@.len() as int) =~= cv);
    true
}

// ---------------------------------------------------------------------------
// Extensions
// ---------------------------------------------------------------------------
/// The position of the last `.` of `name`, or -1 where there is none.
pub open spec fn last_dot(name: Seq<char>) -> int
    decreases name.len(),
{
    if name.len() == 0 {
        -1
    } else if name.last() == '.' {
        name.len() - 1
    } else {
        last_dot(name.drop_last())
    }
}

/// The extension of a file name: what follows its last `.`, where that dot
/// is not its first character; `..` has none.
pub open spec fn name_extension(name: Seq<char>) -> Option<Seq<char>> {
    if name == seq!['.', '.'] || last_dot(name) <= 0 {
        None
    } else {
        Some(name.subrange(last_dot(name) + 1, name.len() as int))
    }
}

/// The extension of the last component of a path.
pub open spec fn path_extension(path: Seq<char>) -> Option<Seq<char>> {
    let c = path_components(path);
    if c.len() == 0 {
        None
    } else {
        name_extension(c.last())
    }
}

pub proof fn lemma_last_dot_range(name: Seq<char>)
    ensures
        -1 <= last_dot(name) < name.len(),
    decreases name.len(),
{
    if name.len() > 0 && name.last() != '.' {
        lemma_last_dot_range(name.drop_last());
    }
}

fn last_dot_exec(name: &Vec<char>) -> (r: Option<usize>)
    ensures
        match r {
            Some(d) => last_dot(name@) == d as int,
            None => last_dot(name@) == -1,
        },
{
    let mut d: Option<usize> = None;
    let mut i: usize = 0;
    while i < name.len()
        invariant
            i <= name@.len(),
            match d {
                Some(x) => last_dot(name@.take(i as int)) == x as int,
                None => last_dot(name@.take(i as int)) == -1,
            },
        decreases name@.len() - i,
    {
        proof {
            assert(name@.take(i + 1).drop_last() =~= name@.take(i as int));
            assert(name@.take(i + 1).last() == name@[i as int]);
        }
        if name[i] == '.' {
            d = Some(i);
        }
        i = i + 1;
    }
    assert(name@.take(name@.len() as int) =~= name@);
    d
}

/// The extension of the last component of `path` (see `name_extension`).
pub fn extension_of(path: &str) -> (r: Option<Vec<char>>)
    ensures
        match r {
            Some(e) => path_extension(path@) == Some(e@),
            None => path_extension(path@) is None,
        },
{
    let components = path_components_of(path);
    if components.len() == 0 {
        return None;
    }
    let last = components.len() - 1;
    let name = &components[last];
    proof {
        assert(chars_of(components@)[last as int] == name@);
    }
    if name.len() == 2 && name[0] == '.' && name[1] == '.' {
        assert(name@ =~= seq!['.', '.']);
        return None;
    }
    assert(name@ != seq!['.', '.']) by {
        if name@ == seq!['.', '.'] {
            assert(name@.len() == 2 && name@[0] == '.' && name@[1] == '.');
        }
    }
    proof {
        lemma_last_dot_range(name@);
    }
    match last_dot_exec(name) {
        None => None,
        Some(0) => None,
        Some(d) => {
            let mut e: Vec<char> = Vec::new();
            let mut k: usize = d + 1;
            while k < name.len()
                invariant
                    d < name@.len(),
                    d + 1 <= k <= name@.len(),
                    e@ == name@.subrange(d + 1, k as int),
                decreases name@.len() - k,
            {
                e.push(name[k]);
                k = k + 1;
                assert(e@ =~= name@.subrange(d + 1, k as int));
            }
            Some(e)
        },
    }
}

/// Whether the characters of `v` are those of `text`.
pub fn chars_are(v: &Vec<char>, text: &str) -> (r: bool)
    ensures
        r == (v@ == text@),
{
    let n = text.unicode_len();
    if v.len() != n {
        return false;
    }
    let mut i: usize = 0;
    while i < n
        invariant
            n == text@.len(),
            v@.len() == n,
            i <= n,
            forall|j: int| 0 <= j < i ==> v@[j] == text@[j],
        decreases n - i,
    {
        if v[i] != text.get_char(i) {
            return false;
        }
        i = i + 1;
    }
    assert(v@ =~= text@);
    true
}

} // verus!
