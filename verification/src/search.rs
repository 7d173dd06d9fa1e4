//! Looking for a file by name anywhere under a folder, depth first, as a
//! step function: `app/` lists each folder that the search asks for.
use vstd::prelude::*;
use vstd::string::*;

verus! {

/// An entry of a folder listing: whether it is a folder, and its name,
/// where the name is Unicode.
pub struct DirEntryInfo {
    pub is_dir: bool,
    pub name: Option<String>,
}

/// An entry as the search sees it.
pub type EntryView = (bool, Option<Seq<char>>);

/// A folder being searched: its entries and the index of the next one.
pub type FrameView = (Seq<EntryView>, int);

pub open spec fn entry_view(e: DirEntryInfo) -> EntryView {
    (
        e.is_dir,
        match e.name {
            Some(n) => Some(n@),
            None => None,
        },
    )
}

pub open spec fn entries_view(v: Seq<DirEntryInfo>) -> Seq<EntryView> {
    v.map_values(|e: DirEntryInfo| entry_view(e))
}

/// What the search asks for next, or what it found. A location is given by
/// the index of each entry on the way down from the folder searched.
#[derive(PartialEq, Eq, Debug)]
pub enum SearchAction {
    /// List the folder at this location (the empty location is the folder searched).
    List(Vec<usize>),
    /// The file is at this location.
    Found(Vec<usize>),
    /// The file is not there.
    NotFound,
}

/// The spec form of `SearchAction`.
pub enum SearchStep {
    List(Seq<usize>),
    Found(Seq<usize>),
    NotFound,
}

pub open spec fn action_view(a: SearchAction) -> SearchStep {
    match a {
        SearchAction::List(p) => SearchStep::List(p@),
        SearchAction::Found(p) => SearchStep::Found(p@),
        SearchAction::NotFound => SearchStep::NotFound,
    }
}

/// The location of the entry each folder on the stack stands at.
pub open spec fn location(frames: Seq<FrameView>) -> Seq<usize> {
    Seq::new(frames.len(), |i: int| (frames[i].1 - 1) as usize)
}

/// How much is left to look at: the entries not yet taken, and the folders.
pub open spec fn remaining(frames: Seq<FrameView>) -> nat
    decreases frames.len(),
{
    if frames.len() == 0 {
        0
    } else {
        remaining(frames.drop_last()) + (if frames.last().1 < frames.last().0.len() {
            (frames.last().0.len() - frames.last().1) as nat
        } else {
            0
        })
    }
}

/// The search from the stack `frames` until it must list a folder or is done:
/// the next entry of the innermost folder is taken; a folder is listed next;
/// a file named `target` is found; a file whose name is not Unicode ends the
/// search of the folder it is in, as does the end of its entries; the
/// search then goes on in the folder around it.
pub open spec fn advance(frames: Seq<FrameView>, target: Seq<char>) -> (Seq<FrameView>, SearchStep)
    decreases remaining(frames) + frames.len(),
{
    if frames.len() == 0 {
        (frames, SearchStep::NotFound)
    } else {
        let k = frames.len() - 1;
        let top = frames[k];
        if top.1 < 0 || top.1 >= top.0.len() {
            proof {
                assert(frames.drop_last() =~= frames.drop_last());
            }
            advance(frames.drop_last(), target)
        } else {
            let e = top.0[top.1];
            let moved = frames.update(k, (top.0, top.1 + 1));
            if e.0 {
                (moved, SearchStep::List(location(moved)))
            } else {
                match e.1 {
                    None => advance(frames.drop_last(), target),
                    Some(n) => if n == target {
                        (moved, SearchStep::Found(location(moved)))
                    } else {
                        proof {
                            assert(moved.drop_last() =~= frames.drop_last());
                        }
                        advance(moved, target)
                    },
                }
            }
        }
    }
}

/// The state of a search: done with its answer, or waiting for a listing.
pub struct SearchView {
    pub target: Seq<char>,
    pub frames: Seq<FrameView>,
    pub done: Option<SearchStep>,
}

/// What a search asks for now: its answer where it is done, else the
/// listing of the folder it stands at.
pub open spec fn pending_step(s: SearchView) -> SearchStep {
    match s.done {
        Some(a) => a,
        None => SearchStep::List(location(s.frames)),
    }
}

/// One step: the search after the listing `listed` (`None` where the folder
/// is missing or cannot be read), and what it asks for or found. A listing
/// opens the folder; a missing one ends the search of that folder. A search
/// that is done stays so.
pub open spec fn search_step(s: SearchView, listed: Option<Seq<EntryView>>) -> (
    SearchView,
    SearchStep,
) {
    match s.done {
        Some(a) => (s, a),
        None => {
            let frames = match listed {
                Some(es) => s.frames.push((es, 0)),
                None => s.frames,
            };
            let (f, a) = advance(frames, s.target);
            (
                SearchView {
                    target: s.target,
                    frames: f,
                    done: match a {
                        SearchStep::List(_) => None,
                        _ => Some(a),
                    },
                },
                a,
            )
        }
    }
}

/// A found file is a file called `target` in the innermost folder listed,
/// and the search lists only folders: the entry at the end of the location
/// it names is a folder where it lists, and a file called `target` where
/// it reports a find.
pub proof fn lemma_advance_names(frames: Seq<FrameView>, target: Seq<char>)
    ensures
        ({
            let (f, a) = advance(frames, target);
            &&& a matches SearchStep::List(p) ==> p.len() == f.len() && p.len() > 0 && 0 <= f.last().1
                - 1 < f.last().0.len() && f.last().0[f.last().1 - 1].0
            &&& a matches SearchStep::Found(p) ==> p.len() == f.len() && p.len() > 0 && 0 <= f.last().1
                - 1 < f.last().0.len() && f.last().0[f.last().1 - 1] == (false, Some(target))
        }),
    decreases remaining(frames) + frames.len(),
{
    if frames.len() > 0 {
        let k = frames.len() - 1;
        let top = frames[k];
        if top.1 < 0 || top.1 >= top.0.len() {
            lemma_advance_names(frames.drop_last(), target);
        } else {
            let e = top.0[top.1];
            let moved = frames.update(k, (top.0, top.1 + 1));
            if !e.0 {
                match e.1 {
                    None => lemma_advance_names(frames.drop_last(), target),
                    Some(n) => if n != target {
                        assert(moved.drop_last() =~= frames.drop_last());
                        lemma_advance_names(moved, target);
                    },
                }
            }
        }
    }
}

/// What the folder at each location lists (`None` where it is missing or
/// cannot be read): the tree that a search runs over.
pub type Listings = spec_fn(Seq<usize>) -> Option<Seq<EntryView>>;

/// The search from `s` after `n` more listings, each the one that `fs`
/// gives for the folder it asks for.
pub open spec fn run(s: SearchView, fs: Listings, n: nat) -> SearchView
    decreases n,
{
    if n == 0 {
        s
    } else {
        run(search_step(s, fs(location(s.frames))).0, fs, (n - 1) as nat)
    }
}

/// A search for `target` that has not listed anything yet.
pub open spec fn start_view(target: Seq<char>) -> SearchView {
    SearchView { target, frames: Seq::empty(), done: None }
}

/// The step down to index `q[m]` in the folder at `q.take(m)`: that folder
/// can be listed and has such an entry, a folder on the way down and a
/// file called `target` at the end, and no file before it in that folder
/// has a name that is not Unicode.
pub open spec fn path_step(fs: Listings, q: Seq<usize>, m: int, target: Seq<char>) -> bool {
    match fs(q.take(m)) {
        Some(es) => {
            &&& q[m] < es.len()
            &&& if m == q.len() - 1 {
                es[q[m] as int] == (false, Some(target))
            } else {
                es[q[m] as int].0
            }
            &&& forall|t: int| 0 <= t < q[m] ==> (#[trigger] es[t]).0 || es[t].1 is Some
        },
        None => false,
    }
}

/// `fs` holds a file called `target` at location `q`, and the search can
/// get there (see `path_step`).
pub open spec fn holds_target(fs: Listings, q: Seq<usize>, target: Seq<char>) -> bool {
    &&& q.len() > 0
    &&& forall|m: int| 0 <= m < q.len() ==> #[trigger] path_step(fs, q, m, target)
}

/// Each folder on the stack holds the listing of its location, and each
/// but the innermost has taken an entry.
pub open spec fn stack_listed(frames: Seq<FrameView>, fs: Listings) -> bool {
    forall|j: int|
        0 <= j < frames.len() ==> (#[trigger] frames[j]).1 >= 0 && (j < frames.len() - 1
            ==> frames[j].1 >= 1) && fs(location(frames).take(j)) == Some(frames[j].0)
}

/// Every folder on the stack has taken an entry.
pub open spec fn all_started(frames: Seq<FrameView>) -> bool {
    forall|j: int| 0 <= j < frames.len() ==> (#[trigger] frames[j]).1 >= 1
}

/// `fs` holds a file called `target` at location `p`.
pub open spec fn file_at(fs: Listings, p: Seq<usize>, target: Seq<char>) -> bool {
    &&& p.len() > 0
    &&& match fs(p.drop_last()) {
        Some(es) => p.last() < es.len() && es[p.last() as int] == (false, Some(target)),
        None => false,
    }
}

/// Every listing is short enough to be held in memory: its entries can be
/// counted in a `usize`.
pub open spec fn listings_fit(fs: Listings) -> bool {
    forall|p: Seq<usize>| (#[trigger] fs(p)) matches Some(es) ==> es.len() <= usize::MAX
}

/// `p` is `q`, a folder on the way to it, or comes before it in depth-first
/// order.
pub open spec fn comes_first(p: Seq<usize>, q: Seq<usize>) -> bool {
    ||| p.len() <= q.len() && q.take(p.len() as int) == p
    ||| exists|i: int| 0 <= i < p.len() && i < q.len() && p.take(i) == q.take(i) && p[i] < q[i]
}

/// The stack stands, in each of its first `i` folders, at the entry that
/// `q` goes through.
pub open spec fn on_path(frames: Seq<FrameView>, q: Seq<usize>, i: int) -> bool {
    forall|j: int| 0 <= j < i ==> #[trigger] q[j] == frames[j].1 - 1
}

/// `q` goes down through the stack to its `i`th folder, and the entry it
/// takes there has not been taken yet.
pub open spec fn ahead_at(frames: Seq<FrameView>, q: Seq<usize>, i: int) -> bool {
    &&& 0 <= i < frames.len()
    &&& i < q.len()
    &&& on_path(frames, q, i)
    &&& frames[i].1 <= q[i]
}

/// The location `q` is still to come: ahead in some folder on the stack,
/// or below the folder about to be listed.
pub open spec fn still_ahead(frames: Seq<FrameView>, q: Seq<usize>) -> bool {
    ||| exists|i: int| ahead_at(frames, q, i)
    ||| frames.len() < q.len() && on_path(frames, q, frames.len() as int)
}

proof fn lemma_location_on_path(frames: Seq<FrameView>, q: Seq<usize>, i: int)
    requires
        0 <= i <= frames.len(),
        i <= q.len(),
        on_path(frames, q, i),
    ensures
        location(frames).take(i) == q.take(i),
{
    assert forall|j: int| 0 <= j < i implies location(frames).take(i)[j] == q.take(i)[j] by {
        assert(q[j] == frames[j].1 - 1);
    }
    assert(location(frames).take(i) =~= q.take(i));
}

proof fn lemma_advance_keeps_target(
    frames: Seq<FrameView>,
    fs: Listings,
    q: Seq<usize>,
    target: Seq<char>,
    i: int,
)
    requires
        stack_listed(frames, fs),
        listings_fit(fs),
        holds_target(fs, q, target),
        ahead_at(frames, q, i),
    ensures
        ({
            let (f, a) = advance(frames, target);
            &&& a !is NotFound
            &&& a is List ==> stack_listed(f, fs) && all_started(f) && still_ahead(f, q)
            &&& a matches SearchStep::Found(p) ==> comes_first(p, q) && file_at(fs, p, target)
        }),
    decreases remaining(frames) + frames.len(),
{
    let k = frames.len() - 1;
    let top = frames[k];
    assert(frames[i].1 >= 0);
    lemma_location_on_path(frames, q, i);
    assert(path_step(fs, q, i, target));
    let es = frames[i].0;
    assert(fs(q.take(i)) == Some(es));
    if top.1 >= top.0.len() {
        assert(i < k);
        let d = frames.drop_last();
        assert forall|j: int| 0 <= j < d.len() implies (#[trigger] d[j]).1 >= 0 && (j < d.len() - 1
            ==> d[j].1 >= 1) && fs(location(d).take(j)) == Some(d[j].0) by {
            assert(frames[j] == d[j]);
            assert(location(d).take(j) =~= location(frames).take(j));
        }
        assert(ahead_at(d, q, i));
        lemma_advance_keeps_target(d, fs, q, target, i);
    } else {
        let e = top.0[top.1];
        let moved = frames.update(k, (top.0, top.1 + 1));
        assert forall|j: int| 0 <= j < moved.len() implies (#[trigger] moved[j]).1 >= 0 && (j
            < moved.len() - 1 ==> moved[j].1 >= 1) && fs(location(moved).take(j)) == Some(
            moved[j].0,
        ) by {
            assert(frames[j].1 >= 0);
            assert(location(moved).take(j) =~= location(frames).take(j));
        }
        assert(all_started(moved)) by {
            assert forall|j: int| 0 <= j < moved.len() implies (#[trigger] moved[j]).1 >= 1 by {
                assert(frames[j].1 >= 0);
            }
        }
        if e.0 {
            if i < k || top.1 < q[i] {
                assert(ahead_at(moved, q, i));
            } else {
                assert(i == k && top.1 == q[k]);
                assert(k < q.len() - 1);
                assert(on_path(moved, q, moved.len() as int));
            }
        } else {
            match e.1 {
                None => {
                    if i == k {
                        assert(es[top.1] == e);
                    }
                    assert(i < k);
                    let d = frames.drop_last();
                    assert forall|j: int| 0 <= j < d.len() implies (#[trigger] d[j]).1 >= 0 && (j < d.len()
                        - 1 ==> d[j].1 >= 1) && fs(location(d).take(j)) == Some(d[j].0) by {
                        assert(frames[j] == d[j]);
                        assert(location(d).take(j) =~= location(frames).take(j));
                    }
                    assert(ahead_at(d, q, i));
                    lemma_advance_keeps_target(d, fs, q, target, i);
                },
                Some(n) => {
                    if n == target {
                        let p = location(moved);
                        assert(location(moved).take(k) =~= location(frames).take(k));
                        assert(p.drop_last() =~= location(moved).take(k));
                        assert(frames[k].1 >= 0);
                        assert(fs(location(frames).take(k)) == Some(top.0));
                        assert(top.0.len() <= usize::MAX);
                        if i < k {
                            assert(frames[i].1 >= 1);
                            assert(location(moved).take(i) =~= location(frames).take(i));
                            assert(p.take(i) == q.take(i));
                            assert(p[i] < q[i]);
                        } else if top.1 < q[k] {
                            assert(location(moved).take(k) =~= location(frames).take(k));
                            lemma_location_on_path(frames, q, k);
                            assert(p.take(k) == q.take(k));
                            assert(p[k] < q[k]);
                        } else {
                            assert(on_path(moved, q, moved.len() as int));
                            lemma_location_on_path(moved, q, moved.len() as int);
                            assert(p.take(moved.len() as int) =~= p);
                        }
                        assert(comes_first(p, q));
                        assert(p.last() == top.1);
                        assert(file_at(fs, p, target));
                    } else {
                        assert(i < k || top.1 < q[i]);
                        assert(moved.drop_last() =~= frames.drop_last());
                        assert(ahead_at(moved, q, i));
                        lemma_advance_keeps_target(moved, fs, q, target, i);
                    }
                },
            }
        }
    }
}

/// What a search keeps while a file called its target lies at `q` in `fs`:
/// it is still looking and `q` is still to come, or it has found a file.
pub open spec fn keeps_target(s: SearchView, fs: Listings, q: Seq<usize>) -> bool {
    &&& holds_target(fs, q, s.target)
    &&& match s.done {
        None => stack_listed(s.frames, fs) && all_started(s.frames) && still_ahead(s.frames, q),
        Some(a) => a matches SearchStep::Found(p) && comes_first(p, q) && file_at(
            fs,
            p,
            s.target,
        ),
    }
}

proof fn lemma_step_keeps_target(s: SearchView, fs: Listings, q: Seq<usize>)
    requires
        keeps_target(s, fs, q),
        listings_fit(fs),
    ensures
        keeps_target(search_step(s, fs(location(s.frames))).0, fs, q),
{
    if s.done is None {
        let frames = s.frames;
        let d = frames.len();
        let listed = fs(location(frames));
        let next = match listed {
            Some(es) => frames.push((es, 0)),
            None => frames,
        };
        if listed is Some {
            assert forall|j: int| 0 <= j < next.len() implies (#[trigger] next[j]).1 >= 0 && (j
                < next.len() - 1 ==> next[j].1 >= 1) && fs(location(next).take(j)) == Some(
                next[j].0,
            ) by {
                if j < d {
                    assert(frames[j] == next[j]);
                    assert(location(next).take(j) =~= location(frames).take(j));
                } else {
                    assert(location(next).take(j) =~= location(frames));
                }
            }
        }
        let w = if exists|i: int| ahead_at(frames, q, i) {
            let i = choose|i: int| ahead_at(frames, q, i);
            assert(ahead_at(next, q, i));
            i
        } else {
            lemma_location_on_path(frames, q, d as int);
            assert(q.take(d as int) =~= location(frames)) by {
                assert(location(frames).take(d as int) =~= location(frames));
            }
            assert(path_step(fs, q, d as int, s.target));
            assert(ahead_at(next, q, d as int));
            d as int
        };
        lemma_advance_keeps_target(next, fs, q, s.target, w);
    }
}

/// Completeness: where the folder searched holds, at any depth, a file
/// called `target` at `q` that the search can reach (every folder on the
/// way can be listed, and no file before it in those folders has a name
/// that is not Unicode), the search never answers that the file is not
/// there, however many listings it is handed; every folder it meets is
/// listed in turn. A file it reports is one called `target`, at `q` or
/// before it in depth-first order.
pub proof fn lemma_search_finds_file(fs: Listings, target: Seq<char>, q: Seq<usize>, n: nat)
    requires
        holds_target(fs, q, target),
        listings_fit(fs),
    ensures
        pending_step(run(start_view(target), fs, n)) !is NotFound,
        pending_step(run(start_view(target), fs, n)) matches SearchStep::Found(p) ==> comes_first(
            p,
            q,
        ) && file_at(fs, p, target),
{
    lemma_run_keeps_target(start_view(target), fs, q, n);
}

proof fn lemma_run_keeps_target(s: SearchView, fs: Listings, q: Seq<usize>, n: nat)
    requires
        keeps_target(s, fs, q),
        listings_fit(fs),
    ensures
        keeps_target(run(s, fs, n), fs, q),
        run(s, fs, n).target == s.target,
        pending_step(run(s, fs, n)) !is NotFound,
    decreases n,
{
    if n > 0 {
        lemma_step_keeps_target(s, fs, q);
        lemma_run_keeps_target(search_step(s, fs(location(s.frames))).0, fs, q, (n - 1) as nat);
    }
}

/// The stack of folders as the search sees it.
pub open spec fn stack_view(frames: Seq<Vec<DirEntryInfo>>, nexts: Seq<usize>) -> Seq<FrameView> {
    Seq::new(frames.len(), |i: int| (entries_view(frames[i]@), nexts[i] as int))
}

pub open spec fn stack_wf(frames: Seq<Vec<DirEntryInfo>>, nexts: Seq<usize>, all_started: bool) -> bool {
    &&& frames.len() == nexts.len()
    &&& forall|i: int| 0 <= i < frames.len() ==> #[trigger] nexts[i] <= frames[i]@.len()
    &&& forall|i: int|
        0 <= i < frames.len() && (all_started || i < frames.len() - 1) ==> #[trigger] nexts[i] >= 1
}

fn copy_path(p: &Vec<usize>) -> (res: Vec<usize>)
    ensures
        res@ == p@,
{
    let mut out: Vec<usize> = Vec::new();
    let mut i: usize = 0;
    while i < p.len()
        invariant
            i <= p@.len(),
            out@ == p@.take(i as int),
        decreases p@.len() - i,
    {
        out.push(p[i]);
        i = i + 1;
        assert(out@ =~= p@.take(i as int));
    }
    assert(p@.take(p@.len() as int) =~= p@);
    out
}

fn copy_action(a: &SearchAction) -> (res: SearchAction)
    ensures
        action_view(res) == action_view(*a),
{
    match a {
        SearchAction::List(p) => SearchAction::List(copy_path(p)),
        SearchAction::Found(p) => SearchAction::Found(copy_path(p)),
        SearchAction::NotFound => SearchAction::NotFound,
    }
}

fn location_exec(frames: &Vec<Vec<DirEntryInfo>>, nexts: &Vec<usize>) -> (res: Vec<usize>)
    requires
        stack_wf(frames@, nexts@, true),
    ensures
        res@ == location(stack_view(frames@, nexts@)),
{
    let mut out: Vec<usize> = Vec::new();
    let mut i: usize = 0;
    while i < nexts.len()
        invariant
            i <= nexts@.len(),
            stack_wf(frames@, nexts@, true),
            out@ =~= location(stack_view(frames@, nexts@)).take(i as int),
        decreases nexts@.len() - i,
    {
        assert(nexts@[i as int] >= 1);
        out.push(nexts[i] - 1);
        i = i + 1;
        assert(out@ =~= location(stack_view(frames@, nexts@)).take(i as int));
    }
    assert(location(stack_view(frames@, nexts@)).take(nexts@.len() as int) =~= location(
        stack_view(frames@, nexts@),
    ));
    out
}

fn advance_exec(
    frames: &mut Vec<Vec<DirEntryInfo>>,
    nexts: &mut Vec<usize>,
    target: &String,
) -> (res: SearchAction)
    requires
        stack_wf(old(frames)@, old(nexts)@, false),
    ensures
        (stack_view(final(frames)@, final(nexts)@), action_view(res)) == advance(
            stack_view(old(frames)@, old(nexts)@),
            target@,
        ),
        stack_wf(final(frames)@, final(nexts)@, res is List),
{
    let ghost goal = advance(stack_view(frames@, nexts@), target@);
    loop
        invariant
            stack_wf(frames@, nexts@, false),
            advance(stack_view(frames@, nexts@), target@) == goal,
            goal == advance(stack_view(old(frames)@, old(nexts)@), target@),
        decreases remaining(stack_view(frames@, nexts@)) + frames@.len(),
    {
        let ghost view = stack_view(frames@, nexts@);
        if frames.len() == 0 {
            return SearchAction::NotFound;
        }
        let k = frames.len() - 1;
        let n = nexts[k];
        if n >= frames[k].len() {
            frames.pop();
            nexts.pop();
            assert(stack_view(frames@, nexts@) =~= view.drop_last());
            assert(remaining(view) == remaining(view.drop_last()));
        } else {
            let is_dir = frames[k][n].is_dir;
            let hit: Option<bool> = match &frames[k][n].name {
                Some(nm) => Some(*nm == *target),
                None => None,
            };
            proof {
                assert(view[k as int].0[n as int] == entry_view(frames@[k as int]@[n as int]));
            }
            nexts.set(k, n + 1);
            let ghost moved = view.update(k as int, (view[k as int].0, n + 1));
            assert(stack_view(frames@, nexts@) =~= moved);
            if is_dir {
                assert(view[k as int].0[n as int].0);
                assert(advance(view, target@) == (moved, SearchStep::List(location(moved))));
                return SearchAction::List(location_exec(frames, nexts));
            }
            match hit {
                None => {
                    frames.pop();
                    nexts.pop();
                    assert(stack_view(frames@, nexts@) =~= view.drop_last());
                    assert(remaining(view) == remaining(view.drop_last()) + (view.last().0.len()
                        - view.last().1));
                },
                Some(true) => {
                    assert(view[k as int].0[n as int] == (false, Some(target@)));
                    assert(advance(view, target@) == (moved, SearchStep::Found(location(moved))));
                    return SearchAction::Found(location_exec(frames, nexts));
                },
                Some(false) => {
                    assert(moved.drop_last() =~= view.drop_last());
                },
            }
        }
    }
}

/// A search for the file called `target` under a folder.
pub struct FileSearch {
    target: String,
    frames: Vec<Vec<DirEntryInfo>>,
    nexts: Vec<usize>,
    done: Option<SearchAction>,
}

impl View for FileSearch {
    type V = SearchView;

    closed spec fn view(&self) -> SearchView {
        SearchView {
            target: self.target@,
            frames: stack_view(self.frames@, self.nexts@),
            done: match self.done {
                Some(a) => Some(action_view(a)),
                None => None,
            },
        }
    }
}

impl FileSearch {
    #[verifier::type_invariant]
    closed spec fn well_formed(&self) -> bool {
        stack_wf(self.frames@, self.nexts@, self.done is None)
    }

    /// A new search for `target`: it starts by listing the folder searched.
    pub fn new(target: &str) -> (res: FileSearch)
        ensures
            res@.target == target@,
            res@.frames.len() == 0,
            res@.done is None,
            pending_step(res@) == SearchStep::List(Seq::empty()),
    {
        let res = FileSearch {
            target: String::from_str(target),
            frames: Vec::new(),
            nexts: Vec::new(),
            done: None,
        };
        assert(location(res@.frames) =~= Seq::<usize>::empty());
        res
    }

    /// What the search asks for now.
    pub fn pending(&self) -> (res: SearchAction)
        ensures
            action_view(res) == pending_step(self@),
    {
        proof {
            use_type_invariant(self);
        }
        match &self.done {
            Some(a) => copy_action(a),
            None => SearchAction::List(location_exec(&self.frames, &self.nexts)),
        }
    }

    /// Takes the listing of the folder asked for (`None` where it is missing
    /// or cannot be read) and returns the search after it with what it asks
    /// for next or found.
    pub fn step(self, listed: Option<Vec<DirEntryInfo>>) -> (res: (FileSearch, SearchAction))
        ensures
            (res.0@, action_view(res.1)) == search_step(
                self@,
                match listed {
                    Some(v) => Some(entries_view(v@)),
                    None => None,
                },
            ),
    {
        proof {
            use_type_invariant(&self);
        }
        let ghost old_view = self@;
        let FileSearch { target, mut frames, mut nexts, done } = self;
        match done {
            Some(a) => {
                let again = copy_action(&a);
                let res = FileSearch { target, frames, nexts, done: Some(a) };
                assert(res@ == old_view);
                (res, again)
            },
            None => {
                match listed {
                    Some(v) => {
                        let ghost before = stack_view(frames@, nexts@);
                        let ghost ev = entries_view(v@);
                        frames.push(v);
                        nexts.push(0);
                        assert(stack_view(frames@, nexts@) =~= before.push((ev, 0)));
                    },
                    None => {},
                }
                let a = advance_exec(&mut frames, &mut nexts, &target);
                let keep = match &a {
                    SearchAction::List(_) => None,
                    _ => Some(copy_action(&a)),
                };
                let res = FileSearch { target, frames, nexts, done: keep };
                (res, a)
            },
        }
    }
}

} // verus!
