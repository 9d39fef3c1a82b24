//! Preparing what is handed to programs on the host: search paths with the AppImage bundle
//! removed, and the URLs the client agrees to open.

use vstd::prelude::*;
use url::Url;
use crate::seqs::{lemma_select_step, select};
use crate::text::copy_text;

verus! {

/// The byte that separates entries of a search path.
pub const PATH_LIST_SEPARATOR: u8 = 58;

/// The byte that separates path components.
pub const PATH_SEPARATOR: u8 = 47;

/// The byte of the current-directory component.
pub const DOT: u8 = 46;

/// Splits bytes at every separator, as `split` on a byte slice does: `n` separators give
/// `n + 1` pieces, and no bytes give one empty piece.
pub open spec fn split_by(s: Seq<u8>, sep: u8) -> Seq<Seq<u8>>
    decreases s.len(),
{
    if s.len() == 0 {
        seq![Seq::<u8>::empty()]
    } else {
        let rest = split_by(s.drop_last(), sep);
        if s.last() == sep {
            rest.push(Seq::<u8>::empty())
        } else {
            rest.update(rest.len() - 1, rest.last().push(s.last()))
        }
    }
}

proof fn lemma_split_nonempty(s: Seq<u8>, sep: u8)
    ensures
        split_by(s, sep).len() >= 1,
    decreases s.len(),
{
    if s.len() > 0 {
        lemma_split_nonempty(s.drop_last(), sep);
    }
}

pub open spec fn views(v: Seq<Vec<u8>>) -> Seq<Seq<u8>> {
    v.map_values(|x: Vec<u8>| x@)
}

/// Splits bytes at every separator.
pub fn split_bytes(s: &Vec<u8>, sep: u8) -> (r: Vec<Vec<u8>>)
    ensures
        views(r@) == split_by(s@, sep),
{
    let mut pieces: Vec<Vec<u8>> = Vec::new();
    pieces.push(Vec::new());
    let mut i: usize = 0;
    proof {
        assert(s@.take(0) =~= Seq::<u8>::empty());
        assert(views(pieces@) =~= split_by(s@.take(0), sep));
    }
    while i < s.len()
        invariant
            i <= s.len(),
            pieces@.len() >= 1,
            views(pieces@) == split_by(s@.take(i as int), sep),
        decreases s.len() - i,
    {
        let b = s[i];
        proof {
            assert(s@.take(i + 1).drop_last() =~= s@.take(i as int));
            assert(s@.take(i + 1).last() == b);
        }
        let ghost before = views(pieces@);
        if b == sep {
            pieces.push(Vec::new());
            proof {
                assert(views(pieces@) =~= before.push(Seq::<u8>::empty()));
            }
        } else {
            let last = pieces.len() - 1;
            let mut cur = pieces.remove(last);
            cur.push(b);
            pieces.push(cur);
            proof {
                assert(views(pieces@) =~= before.update(before.len() - 1, before.last().push(b)));
            }
        }
        i += 1;
    }
    proof {
        assert(s@.take(s@.len() as int) =~= s@);
    }
    pieces
}

/// Joins pieces with a separator between each two.
pub open spec fn join_with(pieces: Seq<Seq<u8>>, sep: u8) -> Seq<u8>
    decreases pieces.len(),
{
    if pieces.len() == 0 {
        Seq::<u8>::empty()
    } else if pieces.len() == 1 {
        pieces[0]
    } else {
        join_with(pieces.drop_last(), sep).push(sep) + pieces.last()
    }
}

/// Joins pieces with a separator between each two.
pub fn join_bytes(pieces: &Vec<Vec<u8>>, sep: u8) -> (r: Vec<u8>)
    ensures
        r@ == join_with(views(pieces@), sep),
{
    let mut out: Vec<u8> = Vec::new();
    let mut i: usize = 0;
    while i < pieces.len()
        invariant
            i <= pieces.len(),
            out@ == join_with(views(pieces@).take(i as int), sep),
        decreases pieces.len() - i,
    {
        let ghost before = out@;
        proof {
            assert(views(pieces@).take(i + 1).drop_last() =~= views(pieces@).take(i as int));
            assert(views(pieces@).take(i + 1).last() == pieces@[i as int]@);
        }
        if i > 0 {
            out.push(sep);
        }
        let piece = &pieces[i];
        let mut k: usize = 0;
        let ghost start = out@;
        while k < piece.len()
            invariant
                k <= piece.len(),
                out@ == start + piece@.take(k as int),
            decreases piece.len() - k,
        {
            out.push(piece[k]);
            k += 1;
            proof {
                assert(out@ =~= start + piece@.take(k as int));
            }
        }
        proof {
            assert(piece@.take(piece@.len() as int) =~= piece@);
            if i == 0 {
                assert(before =~= Seq::<u8>::empty());
                assert(out@ =~= piece@);
            }
        }
        i += 1;
    }
    proof {
        assert(views(pieces@).take(pieces@.len() as int) =~= views(pieces@));
    }
    out
}

/// A normal path component: not empty and not the current directory.
pub open spec fn is_normal(x: Seq<u8>) -> bool {
    x.len() > 0 && x != seq![DOT]
}

/// The components of a Unix path, as `Path::components` gives them: the root (written `/`)
/// when the path is absolute, the current directory (written `.`) when a relative path starts
/// with it, then every segment that is neither empty nor `.`.
pub open spec fn components(p: Seq<u8>) -> Seq<Seq<u8>> {
    let segs = split_by(p, PATH_SEPARATOR);
    if p.len() > 0 && p[0] == PATH_SEPARATOR {
        seq![seq![PATH_SEPARATOR]] + select(segs, |x: Seq<u8>| is_normal(x))
    } else if segs[0] == seq![DOT] {
        seq![seq![DOT]] + select(segs.drop_first(), |x: Seq<u8>| is_normal(x))
    } else {
        select(segs, |x: Seq<u8>| is_normal(x))
    }
}

/// `base` is a whole-component prefix of `p`, as `Path::starts_with` decides it.
pub open spec fn path_starts_with(p: Seq<u8>, base: Seq<u8>) -> bool {
    let a = components(p);
    let b = components(base);
    b.len() <= a.len() && a.take(b.len() as int) == b
}

fn is_dot(x: &Vec<u8>) -> (r: bool)
    ensures
        r == (x@ == seq![DOT]),
{
    if x.len() == 1 && x[0] == DOT {
        proof {
            assert(x@ =~= seq![DOT]);
        }
        true
    } else {
        false
    }
}

fn copy_bytes(x: &Vec<u8>) -> (r: Vec<u8>)
    ensures
        r@ == x@,
{
    let mut out: Vec<u8> = Vec::new();
    let mut k: usize = 0;
    while k < x.len()
        invariant
            k <= x.len(),
            out@ == x@.take(k as int),
        decreases x.len() - k,
    {
        out.push(x[k]);
        k += 1;
        proof {
            assert(out@ =~= x@.take(k as int));
        }
    }
    proof {
        assert(out@ =~= x@);
    }
    out
}

/// The normal segments among `segs[from..]`, appended to `out`.
fn push_normal(segs: &Vec<Vec<u8>>, from: usize, out: &mut Vec<Vec<u8>>)
    requires
        from <= segs@.len(),
    ensures
        views(final(out)@) == views(old(out)@) + select(
            views(segs@).skip(from as int),
            |x: Seq<u8>| is_normal(x),
        ),
{
    let ghost f = |x: Seq<u8>| is_normal(x);
    let ghost tail = views(segs@).skip(from as int);
    let ghost start = views(out@);
    let mut i: usize = from;
    while i < segs.len()
        invariant
            from <= i <= segs.len(),
            tail == views(segs@).skip(from as int),
            start == views(old(out)@),
            f == (|x: Seq<u8>| is_normal(x)),
            views(out@) == start + select(tail.take(i - from), f),
        decreases segs.len() - i,
    {
        proof {
            lemma_select_step(tail, f, (i - from) as int);
            assert(tail[(i - from) as int] == segs@[i as int]@);
        }
        let seg = &segs[i];
        if seg.len() > 0 && !is_dot(seg) {
            let c = copy_bytes(seg);
            let ghost before = views(out@);
            out.push(c);
            proof {
                assert(views(out@) =~= before.push(seg@));
            }
        }
        i += 1;
    }
    proof {
        assert(tail.take(tail.len() as int) =~= tail);
        assert((segs@.len() - from) as int == tail.len());
    }
}

/// The components of a Unix path.
pub fn path_components(p: &Vec<u8>) -> (r: Vec<Vec<u8>>)
    ensures
        views(r@) == components(p@),
{
    let segs = split_bytes(p, PATH_SEPARATOR);
    proof {
        lemma_split_nonempty(p@, PATH_SEPARATOR);
    }
    let mut out: Vec<Vec<u8>> = Vec::new();
    if p.len() > 0 && p[0] == PATH_SEPARATOR {
        let mut root: Vec<u8> = Vec::new();
        root.push(PATH_SEPARATOR);
        out.push(root);
        proof {
            assert(views(out@) =~= seq![seq![PATH_SEPARATOR]]);
            assert(views(segs@).skip(0) =~= views(segs@));
        }
        push_normal(&segs, 0, &mut out);
    } else if is_dot(&segs[0]) {
        let mut dot: Vec<u8> = Vec::new();
        dot.push(DOT);
        out.push(dot);
        proof {
            assert(views(out@) =~= seq![seq![DOT]]);
            assert(views(segs@).skip(1) =~= views(segs@).drop_first());
        }
        push_normal(&segs, 1, &mut out);
    } else {
        proof {
            assert(views(out@) =~= Seq::<Seq<u8>>::empty());
            assert(views(segs@).skip(0) =~= views(segs@));
        }
        push_normal(&segs, 0, &mut out);
    }
    proof {
        assert(views(out@) =~= components(p@));
    }
    out
}

fn bytes_equal(a: &Vec<u8>, b: &Vec<u8>) -> (r: bool)
    ensures
        r == (a@ == b@),
{
    if a.len() != b.len() {
        return false;
    }
    let mut i: usize = 0;
    while i < a.len()
        invariant
            a@.len() == b@.len(),
            i <= a.len(),
            forall|k: int| 0 <= k < i ==> a@[k] == b@[k],
        decreases a.len() - i,
    {
        if a[i] != b[i] {
            return false;
        }
        i += 1;
    }
    proof {
        assert(a@ =~= b@);
    }
    true
}

/// Whether `base` is a whole-component prefix of the path `p`.
pub fn starts_with_path(p: &Vec<u8>, base: &Vec<u8>) -> (r: bool)
    ensures
        r == path_starts_with(p@, base@),
{
    let a = path_components(p);
    let b = path_components(base);
    if b.len() > a.len() {
        return false;
    }
    let mut i: usize = 0;
    while i < b.len()
        invariant
            b@.len() <= a@.len(),
            views(a@) == components(p@),
            views(b@) == components(base@),
            i <= b@.len(),
            forall|k: int| 0 <= k < i ==> views(a@)[k] == views(b@)[k],
        decreases b.len() - i,
    {
        if !bytes_equal(&a[i], &b[i]) {
            proof {
                assert(views(a@).take(b@.len() as int)[i as int] != views(b@)[i as int]);
            }
            return false;
        }
        i += 1;
    }
    proof {
        assert(views(a@).take(b@.len() as int) =~= views(b@));
    }
    true
}

/// The entries of a search path that stay: neither empty nor inside the AppDir.
pub open spec fn kept_entries(value: Seq<u8>, app_dir: Seq<u8>) -> Seq<Seq<u8>> {
    select(
        split_by(value, PATH_LIST_SEPARATOR),
        |e: Seq<u8>| e.len() > 0 && !path_starts_with(e, app_dir),
    )
}

/// Drops every AppDir entry (and every empty entry) from a colon-separated search path,
/// byte for byte; `None` when nothing is left, so the variable can be unset instead.
pub fn strip_app_dir(value: &Vec<u8>, app_dir: &Vec<u8>) -> (r: Option<Vec<u8>>)
    ensures
        kept_entries(value@, app_dir@).len() == 0 ==> r is None,
        kept_entries(value@, app_dir@).len() > 0 ==> (r matches Some(v) && v@ == join_with(
            kept_entries(value@, app_dir@),
            PATH_LIST_SEPARATOR,
        )),
{
    let entries = split_bytes(value, PATH_LIST_SEPARATOR);
    let ghost all = views(entries@);
    let ghost keep = |e: Seq<u8>| e.len() > 0 && !path_starts_with(e, app_dir@);
    let mut kept: Vec<Vec<u8>> = Vec::new();
    let mut i: usize = 0;
    while i < entries.len()
        invariant
            i <= entries.len(),
            all == views(entries@),
            all == split_by(value@, PATH_LIST_SEPARATOR),
            keep == (|e: Seq<u8>| e.len() > 0 && !path_starts_with(e, app_dir@)),
            views(kept@) == select(all.take(i as int), keep),
        decreases entries.len() - i,
    {
        proof {
            lemma_select_step(all, keep, i as int);
            assert(all[i as int] == entries@[i as int]@);
        }
        let entry = &entries[i];
        if entry.len() > 0 && !starts_with_path(entry, app_dir) {
            let ghost before = views(kept@);
            kept.push(copy_bytes(entry));
            proof {
                assert(views(kept@) =~= before.push(entry@));
            }
        }
        i += 1;
    }
    proof {
        assert(all.take(all.len() as int) =~= all);
    }
    if kept.len() == 0 {
        None
    } else {
        Some(join_bytes(&kept, PATH_LIST_SEPARATOR))
    }
}

/// Two paths are equal when their components are, as `Path` compares them.
pub open spec fn same_path(a: Seq<u8>, b: Seq<u8>) -> bool {
    components(a) == components(b)
}

/// Whether two paths are equal component by component.
pub fn paths_equal(a: &Vec<u8>, b: &Vec<u8>) -> (r: bool)
    ensures
        r == same_path(a@, b@),
{
    let x = path_components(a);
    let y = path_components(b);
    if x.len() != y.len() {
        proof {
            assert(views(x@).len() != views(y@).len());
        }
        return false;
    }
    let mut i: usize = 0;
    while i < x.len()
        invariant
            x@.len() == y@.len(),
            views(x@) == components(a@),
            views(y@) == components(b@),
            i <= x@.len(),
            forall|k: int| 0 <= k < i ==> views(x@)[k] == views(y@)[k],
        decreases x.len() - i,
    {
        if !bytes_equal(&x[i], &y[i]) {
            proof {
                assert(views(x@)[i as int] != views(y@)[i as int]);
            }
            return false;
        }
        i += 1;
    }
    proof {
        assert(views(x@) =~= views(y@));
    }
    true
}

/// What a file watcher reported.
#[derive(Debug, Clone, Copy, PartialEq, Eq, Structural)]
pub enum WatchEventKind {
    Create,
    Modify,
    Other,
}

/// A file watcher event: its kind and the paths it concerns.
#[derive(Debug)]
pub struct WatchEvent {
    pub kind: WatchEventKind,
    pub paths: Vec<Vec<u8>>,
}

pub open spec fn touches(e: WatchEvent, path: Seq<u8>) -> bool {
    (e.kind == WatchEventKind::Create || e.kind == WatchEventKind::Modify) && exists|j: int|
        0 <= j < e.paths@.len() && same_path(#[trigger] e.paths@[j]@, path)
}

fn event_touches(e: &WatchEvent, path: &Vec<u8>) -> (r: bool)
    ensures
        r == touches(*e, path@),
{
    if e.kind == WatchEventKind::Other {
        return false;
    }
    let mut j: usize = 0;
    while j < e.paths.len()
        invariant
            j <= e.paths.len(),
            e.kind != WatchEventKind::Other,
            forall|k: int| 0 <= k < j ==> !same_path(#[trigger] e.paths@[k]@, path@),
        decreases e.paths.len() - j,
    {
        if paths_equal(&e.paths[j], path) {
            return true;
        }
        j += 1;
    }
    false
}

/// Whether a batch of watcher events asks for the test profile to be reloaded: some event
/// creates or modifies the profile's path.
pub fn profile_changed(events: &Vec<WatchEvent>, profile_path: &Vec<u8>) -> (r: bool)
    ensures
        r == exists|i: int| 0 <= i < events@.len() && touches(#[trigger] events@[i], profile_path@),
{
    let mut i: usize = 0;
    while i < events.len()
        invariant
            i <= events.len(),
            forall|k: int| 0 <= k < i ==> !touches(#[trigger] events@[k], profile_path@),
        decreases events.len() - i,
    {
        if event_touches(&events[i], profile_path) {
            return true;
        }
        i += 1;
    }
    false
}

#[verifier::external_type_specification]
#[verifier::external_body]
pub struct ExUrl(Url);

/// The URL `url::Url::parse` makes of a text, if it parses as an absolute URL.
pub uninterp spec fn parsed_url(s: Seq<char>) -> Option<Url>;

/// The scheme of a URL, as `url::Url::scheme` gives it.
pub uninterp spec fn url_scheme(u: Url) -> Seq<char>;

/// The serialization of a URL, as `url::Url::as_str` gives it.
pub uninterp spec fn url_text(u: Url) -> Seq<char>;

/// Parses an absolute URL; wraps `url::Url::parse`, a function of its input alone.
#[verifier::external_body]
fn parse_url(s: &str) -> (r: Option<Url>)
    ensures
        r == parsed_url(s@),
{
    Url::parse(s).ok()
}

/// The scheme of a URL; wraps `url::Url::scheme`.
#[verifier::external_body]
fn scheme_of(u: &Url) -> (r: &str)
    ensures
        r@ == url_scheme(*u),
{
    u.scheme()
}

/// The normalized text of a URL; wraps `url::Url::as_str`.
#[verifier::external_body]
fn text_of_url(u: &Url) -> (r: &str)
    ensures
        r@ == url_text(*u),
{
    u.as_str()
}

/// Why a URL is not opened.
#[derive(Debug)]
pub enum OpenUrlError {
    /// The text is not an absolute URL.
    Unparsable,
    /// Only web and mail URLs are opened; this is the scheme that was refused.
    RefusedScheme(String),
}

pub open spec fn allowed_scheme(s: Seq<char>) -> bool {
    s == "http"@ || s == "https"@ || s == "mailto"@
}

/// Checks a URL before it is opened: only web and mail URLs are, and what is handed to the
/// opener is the parser's normalized form, never the raw text.
pub fn url_to_open(url: &str) -> (r: Result<String, OpenUrlError>)
    ensures
        match parsed_url(url@) {
            None => r matches Err(OpenUrlError::Unparsable),
            Some(u) => if allowed_scheme(url_scheme(u)) {
                r matches Ok(t) && t@ == url_text(u)
            } else {
                r matches Err(OpenUrlError::RefusedScheme(s)) && s@ == url_scheme(u)
            },
        },
{
    let u = match parse_url(url) {
        Some(u) => u,
        None => {
            return Err(OpenUrlError::Unparsable);
        },
    };
    let scheme = copy_text(scheme_of(&u));
    if scheme == copy_text("http") || scheme == copy_text("https") || scheme == copy_text(
        "mailto",
    ) {
        Ok(copy_text(text_of_url(&u)))
    } else {
        Err(OpenUrlError::RefusedScheme(scheme))
    }
}

} // verus!
