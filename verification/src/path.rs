//! Unix path semantics as `std::path` applies them: components, joining,
//! component-wise equality and prefixes, and the syntactic half of the safe
//! path rule (absolute, no `..`). Whether a prefix is a symbolic link is asked
//! of the filesystem by the caller.
use vstd::prelude::*;
use vstd::string::*;
use crate::error::Error;
use crate::seqs::{views, is_first, first_index, lemma_first_index_found, lemma_first_index_none};
use crate::text::{split, split_str, same};

verus! {

/// The path starts at the root directory.
pub open spec fn has_root(s: Seq<char>) -> bool {
    s.len() > 0 && s[0] == '/'
}

/// A relative path whose first component is `.`.
pub open spec fn leading_cur(s: Seq<char>) -> bool {
    !has_root(s) && s.len() > 0 && s[0] == '.' && (s.len() == 1 || s[1] == '/')
}

/// Keeps the pieces that name something: empty pieces and `.` are dropped.
pub open spec fn named(segs: Seq<Seq<char>>) -> Seq<Seq<char>>
    decreases segs.len(),
{
    if segs.len() == 0 {
        seq![]
    } else {
        let rest = named(segs.drop_last());
        let x = segs.last();
        if x.len() == 0 || x == seq!['.'] {
            rest
        } else {
            rest.push(x)
        }
    }
}

/// The named components of a path after its root (`..` included).
pub open spec fn parts(s: Seq<char>) -> Seq<Seq<char>> {
    named(split(s, '/'))
}

/// The components of a path: a root marker `/` or a leading `.` marker,
/// then its named parts.
pub open spec fn components(s: Seq<char>) -> Seq<Seq<char>> {
    (if has_root(s) {
        seq![seq!['/']]
    } else if leading_cur(s) {
        seq![seq!['.']]
    } else {
        seq![]
    }) + parts(s)
}

/// Two paths are equal when their components are, as `Path` compares them.
pub open spec fn same_path(a: Seq<char>, b: Seq<char>) -> bool {
    components(a) == components(b)
}

/// `base` is a component-wise prefix of `a`, as `Path::starts_with` decides.
pub open spec fn starts_with(a: Seq<char>, base: Seq<char>) -> bool {
    let ca = components(a);
    let cb = components(base);
    cb.len() <= ca.len() && ca.subrange(0, cb.len() as int) == cb
}

/// `PathBuf::push`: an absolute component replaces the path; otherwise it is
/// appended after a separator unless the path is empty or already ends in one.
pub open spec fn join(base: Seq<char>, comp: Seq<char>) -> Seq<char> {
    if has_root(comp) || base.len() == 0 {
        comp
    } else if base.last() == '/' {
        base + comp
    } else {
        base + seq!['/'] + comp
    }
}

proof fn lemma_named_step(segs: Seq<Seq<char>>, i: int)
    requires
        0 <= i < segs.len(),
    ensures
        named(segs.subrange(0, i + 1)) == (if segs[i].len() == 0 || segs[i] == seq!['.'] {
            named(segs.subrange(0, i))
        } else {
            named(segs.subrange(0, i)).push(segs[i])
        }),
{
    assert(segs.subrange(0, i + 1).drop_last() =~= segs.subrange(0, i));
}

/// The named components of `p` after its root.
pub fn path_parts(p: &str) -> (r: Vec<String>)
    ensures
        views(r@) == parts(p@),
{
    let segs = split_str(p, '/');
    let ghost sv = views(segs@);
    let mut out: Vec<String> = Vec::new();
    let mut i: usize = 0;
    while i < segs.len()
        invariant
            sv == views(segs@),
            i <= segs.len(),
            views(out@) == named(sv.subrange(0, i as int)),
        decreases segs.len() - i,
    {
        proof {
            lemma_named_step(sv, i as int);
            assert(sv[i as int] == segs@[i as int]@);
        }
        let seg = segs[i].as_str();
        let n = seg.unicode_len();
        let skip = n == 0 || (n == 1 && seg.get_char(0) == '.');
        proof {
            if n == 1 && seg@[0] == '.' {
                assert(seg@ =~= seq!['.']);
            }
            if seg@ == seq!['.'] {
                assert(seg@[0] == '.');
            }
        }
        if !skip {
            let ghost before = out@;
            out.push(segs[i].clone());
            assert(views(out@) =~= views(before).push(segs@[i as int]@));
        }
        i = i + 1;
    }
    assert(sv.subrange(0, segs@.len() as int) =~= sv);
    out
}

/// Decides `has_root`.
pub fn is_absolute(p: &str) -> (r: bool)
    ensures
        r == has_root(p@),
{
    p.unicode_len() > 0 && p.get_char(0) == '/'
}

fn is_leading_cur(p: &str) -> (r: bool)
    ensures
        r == leading_cur(p@),
{
    let n = p.unicode_len();
    !is_absolute(p) && n > 0 && p.get_char(0) == '.' && (n == 1 || p.get_char(1) == '/')
}

fn same_parts(a: &Vec<String>, b: &Vec<String>) -> (r: bool)
    ensures
        r == (views(a@) == views(b@)),
{
    if a.len() != b.len() {
        assert(views(a@).len() != views(b@).len());
        return false;
    }
    let mut i: usize = 0;
    while i < a.len()
        invariant
            a.len() == b.len(),
            i <= a.len(),
            forall|j: int| 0 <= j < i ==> views(a@)[j] == views(b@)[j],
        decreases a.len() - i,
    {
        if !same(a[i].as_str(), b[i].as_str()) {
            assert(views(a@)[i as int] != views(b@)[i as int]);
            return false;
        }
        i = i + 1;
    }
    assert(views(a@) =~= views(b@));
    true
}

/// Decides `same_path`.
pub fn paths_equal(a: &str, b: &str) -> (r: bool)
    ensures
        r == same_path(a@, b@),
{
    let ra = is_absolute(a);
    let rb = is_absolute(b);
    let ca = is_leading_cur(a);
    let cb = is_leading_cur(b);
    let pa = path_parts(a);
    let pb = path_parts(b);
    let ghost ma: Seq<Seq<char>> = if ra { seq![seq!['/']] } else if ca { seq![seq!['.']] } else { seq![] };
    let ghost mb: Seq<Seq<char>> = if rb { seq![seq!['/']] } else if cb { seq![seq!['.']] } else { seq![] };
    let eq_parts = same_parts(&pa, &pb);
    let r = ra == rb && ca == cb && eq_parts;
    proof {
        assert(components(a@) == ma + parts(a@));
        assert(components(b@) == mb + parts(b@));
        if r {
            assert(components(a@) =~= components(b@));
        } else if components(a@) == components(b@) {
            if ma.len() == mb.len() {
                assert(parts(a@) =~= components(a@).subrange(ma.len() as int, components(a@).len() as int));
                assert(parts(b@) =~= components(b@).subrange(mb.len() as int, components(b@).len() as int));
                if ma.len() > 0 {
                    assert(components(a@)[0] == ma[0]);
                    assert(components(b@)[0] == mb[0]);
                    assert(seq!['/'][0] != seq!['.'][0]);
                }
            } else {
                // a marker never equals a named part
                if ma.len() > 0 {
                    assert(components(a@)[0] == components(b@)[0]);
                    assert(parts(b@)[0] == components(b@)[0]);
                    lemma_parts_unmarked(b@);
                } else {
                    assert(components(a@)[0] == components(b@)[0]);
                    assert(parts(a@)[0] == components(a@)[0]);
                    lemma_parts_unmarked(a@);
                }
            }
        }
    }
    r
}

proof fn lemma_named_unmarked(segs: Seq<Seq<char>>)
    requires
        forall|i: int| 0 <= i < segs.len() ==> !(#[trigger] segs[i]).contains('/'),
    ensures
        forall|i: int|
            0 <= i < named(segs).len() ==> #[trigger] named(segs)[i] != seq!['/'] && named(segs)[i]
                != seq!['.'],
    decreases segs.len(),
{
    if segs.len() > 0 {
        let d = segs.drop_last();
        assert forall|i: int| 0 <= i < d.len() implies !(#[trigger] d[i]).contains('/') by {
            assert(d[i] == segs[i]);
        }
        lemma_named_unmarked(d);
        let x = segs.last();
        assert(!x.contains('/'));
        if x == seq!['/'] {
            assert(x[0] == '/');
            assert(x.contains('/'));
        }
        let rest = named(d);
        let all = named(segs);
        assert forall|i: int| 0 <= i < all.len() implies #[trigger] all[i] != seq!['/'] && all[i]
            != seq!['.'] by {
            if i < rest.len() {
                assert(all[i] == rest[i]);
            } else {
                assert(all[i] == x);
            }
        }
    }
}

proof fn lemma_scan_unmarked(s: Seq<char>, n: nat)
    requires
        n <= s.len(),
    ensures
        0 <= crate::text::split_scan(s, '/', n).1 <= n,
        forall|i: int|
            0 <= i < crate::text::split_scan(s, '/', n).0.len() ==> !(#[trigger] crate::text::split_scan(
                s,
                '/',
                n,
            ).0[i]).contains('/'),
        forall|k: int|
            crate::text::split_scan(s, '/', n).1 <= k < n ==> s[k] != '/',
    decreases n,
{
    if n > 0 {
        lemma_scan_unmarked(s, (n - 1) as nat);
        let prev = crate::text::split_scan(s, '/', (n - 1) as nat);
        if s[n - 1] == '/' {
            let seg = s.subrange(prev.1, n - 1);
            if seg.contains('/') {
                let k = choose|k: int| 0 <= k < seg.len() && seg[k] == '/';
                assert(s[prev.1 + k] == '/');
            }
            let cur = crate::text::split_scan(s, '/', n).0;
            assert forall|i: int| 0 <= i < cur.len() implies !(#[trigger] cur[i]).contains('/') by {
                if i < prev.0.len() {
                    assert(cur[i] == prev.0[i]);
                } else {
                    assert(cur[i] == seg);
                }
            }
        }
    }
}

pub proof fn lemma_parts_unmarked(s: Seq<char>)
    ensures
        forall|i: int|
            0 <= i < parts(s).len() ==> #[trigger] parts(s)[i] != seq!['/'] && parts(s)[i] != seq!['.'],
{
    lemma_scan_unmarked(s, s.len());
    let r = crate::text::split_scan(s, '/', s.len());
    let last = s.subrange(r.1, s.len() as int);
    if last.contains('/') {
        let k = choose|k: int| 0 <= k < last.len() && last[k] == '/';
        assert(s[r.1 + k] == '/');
    }
    let segs = split(s, '/');
    assert forall|i: int| 0 <= i < segs.len() implies !(#[trigger] segs[i]).contains('/') by {
        if i < r.0.len() {
            assert(segs[i] == r.0[i]);
        } else {
            assert(segs[i] == last);
        }
    }
    lemma_named_unmarked(segs);
}

/// The components of `p`, markers included.
pub fn path_components(p: &str) -> (r: Vec<String>)
    ensures
        views(r@) == components(p@),
{
    let mut out: Vec<String> = Vec::new();
    if is_absolute(p) {
        proof { reveal_strlit("/"); }
        out.push(String::from_str("/"));
        assert(out@[0]@ =~= seq!['/']);
        assert(views(out@) =~= seq![seq!['/']]);
    } else if is_leading_cur(p) {
        proof { reveal_strlit("."); }
        out.push(String::from_str("."));
        assert(out@[0]@ =~= seq!['.']);
        assert(views(out@) =~= seq![seq!['.']]);
    } else {
        assert(views(out@) =~= seq![]);
    }
    let ghost marker = views(out@);
    assert(marker == (if has_root(p@) {
        seq![seq!['/']]
    } else if leading_cur(p@) {
        seq![seq!['.']]
    } else {
        seq![]
    }));
    let ps = path_parts(p);
    let mut i: usize = 0;
    while i < ps.len()
        invariant
            i <= ps.len(),
            views(out@) == marker + views(ps@).subrange(0, i as int),
        decreases ps.len() - i,
    {
        let ghost before = out@;
        out.push(ps[i].clone());
        assert(views(out@) =~= views(before).push(ps@[i as int]@));
        assert(views(out@) =~= marker + views(ps@).subrange(0, i + 1));
        i = i + 1;
    }
    assert(views(ps@).subrange(0, ps@.len() as int) =~= views(ps@));
    out
}

/// Decides `starts_with`.
pub fn path_starts_with(a: &str, base: &str) -> (r: bool)
    ensures
        r == starts_with(a@, base@),
{
    let ca = path_components(a);
    let cb = path_components(base);
    if cb.len() > ca.len() {
        assert(views(cb@).len() > views(ca@).len());
        return false;
    }
    let mut i: usize = 0;
    while i < cb.len()
        invariant
            cb.len() <= ca.len(),
            views(ca@) == components(a@),
            views(cb@) == components(base@),
            i <= cb.len(),
            forall|j: int| 0 <= j < i ==> views(ca@)[j] == views(cb@)[j],
        decreases cb.len() - i,
    {
        if !same(ca[i].as_str(), cb[i].as_str()) {
            assert(views(ca@).subrange(0, cb@.len() as int)[i as int] != views(cb@)[i as int]);
            assert(!(views(ca@).subrange(0, cb@.len() as int) =~= views(cb@)));
            return false;
        }
        i = i + 1;
    }
    assert(views(ca@).subrange(0, cb@.len() as int) =~= views(cb@));
    true
}

/// `base.join(comp)`.
pub fn join_path(base: &str, comp: &str) -> (r: String)
    ensures
        r@ == join(base@, comp@),
{
    if is_absolute(comp) || base.unicode_len() == 0 {
        comp.to_owned()
    } else if base.get_char(base.unicode_len() - 1) == '/' {
        base.to_owned().concat(comp)
    } else {
        proof { reveal_strlit("/"); }
        let r = base.to_owned().concat("/").concat(comp);
        r
    }
}

/// A link query about one path prefix.
#[derive(Clone, Debug, PartialEq, Eq)]
pub enum LinkState {
    /// Nothing exists there yet.
    Missing,
    /// It exists and is not a symbolic link.
    Plain,
    /// It is a symbolic link.
    Symlink,
    /// The query failed with this message.
    Failed(String),
}

/// The prefix of an absolute path made of the root and its first `k` parts.
pub open spec fn prefix(ps: Seq<Seq<char>>, k: nat) -> Seq<char>
    decreases k,
{
    if k == 0 {
        seq!['/']
    } else if k == 1 {
        seq!['/'] + ps[0]
    } else {
        prefix(ps, (k - 1) as nat) + seq!['/'] + ps[k - 1]
    }
}

/// Holds of a `..` part.
pub open spec fn is_parent() -> spec_fn(Seq<char>) -> bool {
    |x: Seq<char>| x == seq!['.', '.']
}

/// How many parts of `p` precede its first `..`, or all of them.
pub open spec fn clean_len(p: Seq<char>) -> nat {
    let bad = first_index(parts(p), is_parent());
    if bad == -1 { parts(p).len() } else { bad as nat }
}

/// The syntactic half of the safe path rule for a path that has a root: the
/// prefixes that must not be symbolic links, in order, and whether a `..`
/// part stops the walk after them.
pub struct SafePathPlan {
    pub path: String,
    pub prefixes: Vec<String>,
    pub escapes: bool,
}

impl SafePathPlan {
    /// The plan matches the rule for `p`.
    pub open spec fn describes(&self, p: Seq<char>) -> bool {
        &&& self.path@ == p
        &&& has_root(p)
        &&& self.prefixes@.len() == clean_len(p) + 1
        &&& forall|k: int| 0 <= k < self.prefixes@.len() ==> #[trigger] self.prefixes@[k]@ == prefix(parts(p), k as nat)
        &&& self.escapes == (first_index(parts(p), is_parent()) != -1)
    }

    /// The verdict once each prefix has been looked at (one state per
    /// prefix, in order): the first symbolic link or failed query refuses the
    /// path, then a `..` part does.
    pub fn conclude(&self, links: &Vec<LinkState>) -> (r: Result<(), Error>)
        requires
            links@.len() == self.prefixes@.len(),
        ensures
            r is Ok <==> !self.escapes && forall|k: int| 0 <= k < links@.len() ==> !(#[trigger] links@[k] is Symlink || links@[k] is Failed),
            r matches Err(e) ==> ({
                let k = first_index(links@, |l: LinkState| l is Symlink || l is Failed);
                if k == -1 {
                    e == Error::UnsafePath(self.path)
                } else if links@[k] is Symlink {
                    e == Error::SymlinkInPath(self.prefixes@[k])
                } else {
                    e == Error::Io(links@[k]->Failed_0)
                }
            }),
    {
        let ghost bad = |l: LinkState| l is Symlink || l is Failed;
        let mut k: usize = 0;
        while k < links.len()
            invariant
                links@.len() == self.prefixes@.len(),
                k <= links.len(),
                bad == (|l: LinkState| l is Symlink || l is Failed),
                forall|j: int| 0 <= j < k ==> !bad(#[trigger] links@[j]),
            decreases links.len() - k,
        {
            match &links[k] {
                LinkState::Symlink => {
                    proof {
                        assert(is_first(links@, bad, k as int));
                        lemma_first_index_found(links@, bad, k as int);
                    }
                    return Err(Error::SymlinkInPath(self.prefixes[k].clone()));
                },
                LinkState::Failed(m) => {
                    proof {
                        assert(is_first(links@, bad, k as int));
                        lemma_first_index_found(links@, bad, k as int);
                    }
                    return Err(Error::Io(m.clone()));
                },
                _ => {},
            }
            k = k + 1;
        }
        proof {
            lemma_first_index_none(links@, bad);
        }
        if self.escapes {
            Err(Error::UnsafePath(self.path.clone()))
        } else {
            Ok(())
        }
    }
}

/// The safe path rule, syntactic half: a path must be absolute, and its
/// prefixes up to the first `..` part are returned for the link check.
pub fn safe_path_plan(p: &str) -> (r: Result<SafePathPlan, Error>)
    ensures
        r is Ok <==> has_root(p@),
        r matches Ok(plan) ==> plan.describes(p@),
        r matches Err(e) ==> (e matches Error::AbsolutePathRequired(q) && q@ == p@),
{
    if !is_absolute(p) {
        return Err(Error::AbsolutePathRequired(p.to_owned()));
    }
    let ps = path_parts(p);
    let ghost pv = views(ps@);
    let mut prefixes: Vec<String> = Vec::new();
    proof { reveal_strlit("/"); }
    let mut cur = String::from_str("/");
    prefixes.push(cur.clone());
    let mut k: usize = 0;
    let mut escapes = false;
    while k < ps.len() && !escapes
        invariant
            pv == views(ps@),
            pv == parts(p@),
            k <= ps.len(),
            prefixes@.len() == k + 1,
            cur@ == prefix(pv, k as nat),
            forall|j: int| 0 <= j <= k ==> #[trigger] prefixes@[j]@ == prefix(pv, j as nat),
            forall|j: int| 0 <= j < k ==> !is_parent()(#[trigger] pv[j]),
            escapes ==> k < ps.len() && is_parent()(pv[k as int]),
        decreases ps.len() - k + (if escapes { 0int } else { 1int }),
    {
        proof { reveal_strlit("/"); }
        let part = ps[k].as_str();
        proof { assert(part@ == pv[k as int]); }
        let dotdot = part.unicode_len() == 2 && part.get_char(0) == '.' && part.get_char(1) == '.';
        proof {
            if part@.len() == 2 && part@[0] == '.' && part@[1] == '.' {
                assert(part@ =~= seq!['.', '.']);
            }
            if part@ == seq!['.', '.'] {
                assert(part@[0] == '.' && part@[1] == '.');
            }
        }
        if dotdot {
            escapes = true;
        } else {
            if k == 0 {
                cur = cur.concat(part);
            } else {
                cur = cur.concat("/").concat(part);
            }
            proof {
                assert(cur@ =~= prefix(pv, (k + 1) as nat));
            }
            prefixes.push(cur.clone());
            k = k + 1;
        }
    }
    proof {
        if escapes {
            assert(is_first(pv, is_parent(), k as int));
            lemma_first_index_found(pv, is_parent(), k as int);
        } else {
            lemma_first_index_none(pv, is_parent());
        }
    }
    Ok(SafePathPlan { path: p.to_owned(), prefixes, escapes })
}

proof fn lemma_scan_prefix(s: Seq<char>, u: Seq<char>, n: nat)
    requires
        n <= s.len(),
    ensures
        crate::text::split_scan(s + u, '/', n) == crate::text::split_scan(s, '/', n),
    decreases n,
{
    if n > 0 {
        lemma_scan_prefix(s, u, (n - 1) as nat);
        let prev = crate::text::split_scan(s, '/', (n - 1) as nat);
        assert((s + u)[n - 1] == s[n - 1]);
        lemma_scan_bounds(s, (n - 1) as nat);
        assert((s + u).subrange(prev.1, n - 1) =~= s.subrange(prev.1, n - 1));
    }
}

proof fn lemma_scan_bounds(s: Seq<char>, n: nat)
    ensures
        0 <= crate::text::split_scan(s, '/', n).1 <= n,
    decreases n,
{
    if n > 0 {
        lemma_scan_bounds(s, (n - 1) as nat);
    }
}

proof fn lemma_scan_plain(s: Seq<char>, u: Seq<char>, m: nat)
    requires
        m <= u.len(),
        !u.contains('/'),
    ensures
        crate::text::split_scan(s + u, '/', s.len() + m) == crate::text::split_scan(s, '/', s.len()),
    decreases m,
{
    if m == 0 {
        lemma_scan_prefix(s, u, s.len());
    } else {
        lemma_scan_plain(s, u, (m - 1) as nat);
        assert((s + u)[s.len() + m - 1] == u[m - 1]);
        if u[m - 1] == '/' {
            assert(u.contains('/'));
        }
    }
}

/// Splitting after a separator followed by a piece without separators adds
/// that piece.
proof fn lemma_split_append(x: Seq<char>, t: Seq<char>)
    requires
        !t.contains('/'),
    ensures
        split(x + seq!['/'] + t, '/') == split(x, '/').push(t),
{
    let s = x + seq!['/'];
    let whole = s + t;
    assert(x + seq!['/'] + t == whole);
    lemma_scan_prefix(x, seq!['/'], x.len());
    lemma_scan_bounds(x, x.len());
    let sx = crate::text::split_scan(x, '/', x.len());
    assert(s[x.len() as int] == '/');
    assert(s.subrange(sx.1, x.len() as int) =~= x.subrange(sx.1, x.len() as int));
    assert(crate::text::split_scan(s, '/', s.len()) == (sx.0.push(x.subrange(sx.1, x.len() as int)), s.len() as int));
    lemma_scan_plain(s, t, t.len());
    assert(whole.subrange(s.len() as int, whole.len() as int) =~= t);
    assert(split(x, '/') == sx.0.push(x.subrange(sx.1, x.len() as int)));
}

/// A token appended to a path with a root adds exactly one component: the
/// result stays under the base path, and no `..` is introduced.
pub proof fn lemma_join_token(base: Seq<char>, t: Seq<char>)
    requires
        has_root(base),
        crate::text::valid_token(t),
    ensures
        components(join(base, t)) == components(base).push(t),
        parts(join(base, t)) == parts(base).push(t),
{
    assert(!t.contains('/')) by {
        if t.contains('/') {
            let i = choose|i: int| 0 <= i < t.len() && t[i] == '/';
            assert(crate::text::is_token_char(t[i]));
        }
    }
    assert(t != seq!['.']) by {
        if t == seq!['.'] {
            assert(crate::text::is_alnum(t[0]));
        }
    }
    let j = join(base, t);
    if base.last() == '/' {
        let y = base.drop_last();
        assert(base =~= y + seq!['/'] + seq![]);
        assert(!seq![].contains('/'));
        lemma_split_append(y, seq![]);
        lemma_split_append(y, t);
        assert(j =~= y + seq!['/'] + t);
        let sy = split(y, '/');
        assert(named(sy.push(seq![])) == named(sy)) by {
            assert(sy.push(seq![]).drop_last() =~= sy);
        }
        assert(named(sy.push(t)) == named(sy).push(t)) by {
            assert(sy.push(t).drop_last() =~= sy);
        }
    } else {
        assert(j =~= base + seq!['/'] + t);
        lemma_split_append(base, t);
        let sb = split(base, '/');
        assert(named(sb.push(t)) == named(sb).push(t)) by {
            assert(sb.push(t).drop_last() =~= sb);
        }
    }
    assert(has_root(j)) by {
        assert(j[0] == base[0]);
    }
    assert(components(j) =~= components(base).push(t));
}

proof fn lemma_scan_after(x: Seq<char>, t: Seq<char>, m: nat)
    requires
        m <= t.len(),
    ensures
        ({
            let s = x + seq!['/'];
            let st = crate::text::split_scan(t, '/', m);
            crate::text::split_scan(s + t, '/', (s.len() + m) as nat) == (split(x, '/') + st.0, s.len() + st.1)
        }),
    decreases m,
{
    let s = x + seq!['/'];
    if m == 0 {
        lemma_scan_prefix(s, t, s.len());
        lemma_scan_prefix(x, seq!['/'], x.len());
        lemma_scan_bounds(x, x.len());
        let sx = crate::text::split_scan(x, '/', x.len());
        assert(s[x.len() as int] == '/');
        assert(s.subrange(sx.1, x.len() as int) =~= x.subrange(sx.1, x.len() as int));
        assert(crate::text::split_scan(s, '/', s.len()) == (sx.0.push(x.subrange(sx.1, x.len() as int)), s.len() as int));
        assert(split(x, '/') + seq![] =~= split(x, '/'));
    } else {
        lemma_scan_after(x, t, (m - 1) as nat);
        lemma_scan_bounds(t, (m - 1) as nat);
        assert((s + t)[s.len() + m - 1] == t[m - 1]);
        let pt = crate::text::split_scan(t, '/', (m - 1) as nat);
        if t[m - 1] == '/' {
            assert((s + t).subrange(s.len() + pt.1, s.len() + m - 1) =~= t.subrange(pt.1, m - 1));
            assert((split(x, '/') + pt.0).push(t.subrange(pt.1, m - 1)) =~= split(x, '/') + pt.0.push(
                t.subrange(pt.1, m - 1),
            ));
        }
    }
}

/// Splitting at a separator splits both sides.
proof fn lemma_split_concat(x: Seq<char>, t: Seq<char>)
    ensures
        split(x + seq!['/'] + t, '/') == split(x, '/') + split(t, '/'),
{
    let s = x + seq!['/'];
    lemma_scan_after(x, t, t.len());
    assert(x + seq!['/'] + t =~= s + t);
    lemma_scan_bounds(t, t.len());
    let st = crate::text::split_scan(t, '/', t.len());
    assert((s + t).subrange(s.len() + st.1, (s + t).len() as int) =~= t.subrange(st.1, t.len() as int));
    assert((split(x, '/') + st.0).push(t.subrange(st.1, t.len() as int)) =~= split(x, '/') + st.0.push(
        t.subrange(st.1, t.len() as int),
    ));
}

proof fn lemma_named_concat(a: Seq<Seq<char>>, b: Seq<Seq<char>>)
    ensures
        named(a + b) == named(a) + named(b),
    decreases b.len(),
{
    if b.len() == 0 {
        assert(a + b =~= a);
        assert(named(a) + named(b) =~= named(a));
    } else {
        lemma_named_concat(a, b.drop_last());
        assert((a + b).drop_last() =~= a + b.drop_last());
        let x = b.last();
        if !(x.len() == 0 || x == seq!['.']) {
            assert((named(a) + named(b.drop_last())).push(x) =~= named(a) + named(b.drop_last()).push(x));
        }
    }
}

/// Pieces that all name something are kept as they are.
proof fn lemma_named_all(segs: Seq<Seq<char>>)
    requires
        forall|i: int| 0 <= i < segs.len() ==> (#[trigger] segs[i]).len() > 0 && segs[i] != seq!['.'],
    ensures
        named(segs) == segs,
    decreases segs.len(),
{
    if segs.len() > 0 {
        lemma_named_all(segs.drop_last());
        assert(segs.drop_last().push(segs.last()) =~= segs);
    }
}

/// A token names something: it is neither empty nor `.` nor `..`.
pub proof fn lemma_token_names(t: Seq<char>)
    requires
        crate::text::valid_token(t),
    ensures
        t.len() > 0,
        t[0] != '/',
        t != seq!['.'],
        t != seq!['.', '.'],
{
    assert(crate::text::is_alnum(t[0]));
    if t == seq!['.'] || t == seq!['.', '.'] {
        assert(t[0] == '.');
    }
}

/// The parts of a `/`-separated list of tokens are those tokens, and the
/// list is a relative path.
pub proof fn lemma_token_list_parts(t: Seq<char>)
    requires
        forall|i: int| 0 <= i < split(t, '/').len() ==> crate::text::valid_token(#[trigger] split(t, '/')[i]),
    ensures
        parts(t) == split(t, '/'),
        t.len() > 0,
        t[0] != '/',
{
    let segs = split(t, '/');
    let e: Seq<char> = seq![];
    assert(crate::text::split_scan(e, '/', 0) == (Seq::<Seq<char>>::empty(), 0int));
    assert(e.subrange(0, 0) =~= e);
    assert(split(e, '/') =~= seq![e]);
    if t.len() == 0 {
        assert(t =~= e);
        lemma_token_names(segs[0]);
    } else if t[0] == '/' {
        let rest = t.drop_first();
        assert(t =~= e + seq!['/'] + rest);
        lemma_split_concat(e, rest);
        assert(segs[0] == e);
        lemma_token_names(segs[0]);
    }
    assert forall|i: int| 0 <= i < segs.len() implies (#[trigger] segs[i]).len() > 0 && segs[i] != seq!['.'] by {
        lemma_token_names(segs[i]);
    }
    lemma_named_all(segs);
}

/// Appending a relative path to a path with a root adds the relative path's
/// parts, after everything the base already had.
pub proof fn lemma_join_relative(base: Seq<char>, t: Seq<char>)
    requires
        has_root(base),
        t.len() > 0,
        t[0] != '/',
    ensures
        has_root(join(base, t)),
        parts(join(base, t)) == parts(base) + parts(t),
        components(join(base, t)) == components(base) + parts(t),
{
    let j = join(base, t);
    assert(j[0] == base[0]);
    if base.last() == '/' {
        let y = base.drop_last();
        let e: Seq<char> = seq![];
        assert(base =~= y + seq!['/'] + e);
        assert(j =~= y + seq!['/'] + t);
        lemma_split_concat(y, e);
        lemma_split_concat(y, t);
        lemma_named_concat(split(y, '/'), split(e, '/'));
        lemma_named_concat(split(y, '/'), split(t, '/'));
        assert(crate::text::split_scan(e, '/', 0) == (Seq::<Seq<char>>::empty(), 0int));
        assert(e.subrange(0, 0) =~= e);
        assert(split(e, '/') =~= seq![e]);
        assert(split(e, '/').drop_last() =~= Seq::<Seq<char>>::empty());
        assert(named(Seq::<Seq<char>>::empty()) == Seq::<Seq<char>>::empty());
        assert(named(split(e, '/')) =~= Seq::<Seq<char>>::empty());
        assert(parts(base) =~= parts(y));
    } else {
        assert(j =~= base + seq!['/'] + t);
        lemma_split_concat(base, t);
        lemma_named_concat(split(base, '/'), split(t, '/'));
    }
    assert(components(j) =~= components(base) + parts(t));
}

} // verus!
