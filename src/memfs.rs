//! A file tree held in memory, and the serving of one request against it.
//! It answers the file operations of an exchange the way a file system
//! without failures would, which makes it the model that the laws of the
//! router are stated over, and a stand-in for the disk in tests.
use vstd::prelude::*;
use crate::request::Request;
use crate::response::Response;
use crate::routing::{
    DATE_LIMIT, ExchangeView, FileOp, FileOpView, FileReply, FileReplyView, Removal,
    Step, StepView, exchange_for, http_date_text, next, route,
};

verus! {

/// A file tree: paths mapped to contents.
pub struct MemFiles {
    paths: Vec<String>,
    contents: Vec<Vec<u8>>,
    model: Ghost<Map<Seq<char>, Seq<u8>>>,
}

impl View for MemFiles {
    type V = Map<Seq<char>, Seq<u8>>;

    closed spec fn view(&self) -> Map<Seq<char>, Seq<u8>> {
        self.model@
    }
}

/// How a file tree answers an operation.
pub open spec fn answer(fs: Map<Seq<char>, Seq<u8>>, op: FileOpView) -> FileReplyView {
    match op {
        FileOpView::Read(p) => FileReplyView::Contents(
            if fs.contains_key(p) { Some(fs[p]) } else { None },
        ),
        FileOpView::Exists(p) => FileReplyView::Exists(fs.contains_key(p)),
        FileOpView::Write(_, _) => FileReplyView::Written(true),
        FileOpView::Remove(p) => FileReplyView::Removed(
            if fs.contains_key(p) { Removal::Done } else { Removal::Missing },
        ),
    }
}

/// The file tree after an operation.
pub open spec fn apply(fs: Map<Seq<char>, Seq<u8>>, op: FileOpView) -> Map<Seq<char>, Seq<u8>> {
    match op {
        FileOpView::Write(p, b) => fs.insert(p, b),
        FileOpView::Remove(p) => fs.remove(p),
        _ => fs,
    }
}

/// Runs an exchange against a file tree, for at most `fuel` more file
/// operations: the final step (a reply, or giving up) and the file tree
/// after it.
pub open spec fn run(
    x: ExchangeView,
    fs: Map<Seq<char>, Seq<u8>>,
    reply: Option<FileReplyView>,
    fuel: nat,
) -> (StepView, Map<Seq<char>, Seq<u8>>)
    decreases fuel,
{
    let (phase, step) = next(x, reply);
    match step {
        StepView::Perform(op) => if fuel == 0 {
            (StepView::Abort, fs)
        } else {
            run(ExchangeView { phase, ..x }, apply(fs, op), Some(answer(fs, op)), (fuel - 1) as nat)
        },
        _ => (step, fs),
    }
}

/// The most file operations that one exchange asks for.
pub open spec fn max_ops() -> nat {
    4
}

/// Serving a request against a file tree at time `now`: the final step and
/// the file tree after it.
pub open spec fn served(
    req: crate::request::RequestView,
    now: nat,
    fs: Map<Seq<char>, Seq<u8>>,
) -> (StepView, Map<Seq<char>, Seq<u8>>) {
    run(exchange_for(req, http_date_text(now)), fs, None, max_ops())
}

impl MemFiles {
    #[verifier::type_invariant]
    spec fn wf(&self) -> bool {
        &&& self.paths@.len() == self.contents@.len()
        &&& forall|i: int, j: int|
            0 <= i < j < self.paths@.len() ==> (#[trigger] self.paths@[i])@ != (#[trigger] self.paths@[j])@
        &&& forall|i: int|
            0 <= i < self.paths@.len() ==> self.model@.contains_key((#[trigger] self.paths@[i])@)
                && self.model@[self.paths@[i]@] == self.contents@[i]@
        &&& forall|k: Seq<char>|
            #[trigger] self.model@.contains_key(k) ==> exists|i: int|
                0 <= i < self.paths@.len() && (#[trigger] self.paths@[i])@ == k
    }

    /// An empty file tree.
    pub fn new() -> (r: MemFiles)
        ensures
            r@ == Map::<Seq<char>, Seq<u8>>::empty(),
    {
        MemFiles { paths: Vec::new(), contents: Vec::new(), model: Ghost(Map::empty()) }
    }

    fn position(&self, p: &String) -> (r: Option<usize>)
        ensures
            match r {
                Some(i) => i < self.paths@.len() && self.paths@[i as int]@ == p@ && self@.contains_key(p@)
                    && i < self.contents@.len() && self@[p@] == self.contents@[i as int]@,
                None => !self@.contains_key(p@),
            },
    {
        proof {
            use_type_invariant(self);
        }
        let mut i: usize = 0;
        while i < self.paths.len()
            invariant
                0 <= i <= self.paths@.len(),
                forall|j: int| 0 <= j < i ==> (#[trigger] self.paths@[j])@ != p@,
            decreases self.paths@.len() - i,
        {
            if self.paths[i] == *p {
                proof {
                    use_type_invariant(self);
                }
                assert(self.model@.contains_key(self.paths@[i as int]@));
                return Some(i);
            }
            i += 1;
        }
        proof {
            use_type_invariant(self);
        }
        None
    }

    /// The contents of a file, if it exists.
    pub fn read(&self, p: &String) -> (r: Option<Vec<u8>>)
        ensures
            match r {
                Some(b) => self@.contains_key(p@) && b@ == self@[p@],
                None => !self@.contains_key(p@),
            },
    {
        match self.position(p) {
            Some(i) => Some(self.contents[i].clone()),
            None => None,
        }
    }

    /// Whether a file exists.
    pub fn contains(&self, p: &String) -> (r: bool)
        ensures
            r == self@.contains_key(p@),
    {
        self.position(p).is_some()
    }

    /// Creates or replaces a file.
    pub fn write(&mut self, p: String, b: Vec<u8>)
        ensures
            final(self)@ == old(self)@.insert(p@, b@),
    {
        proof {
            use_type_invariant(&*self);
        }
        let found = self.position(&p);
        let mut taken = MemFiles::new();
        std::mem::swap(&mut taken, self);
        proof {
            use_type_invariant(&taken);
        }
        let MemFiles { paths, contents, model } = taken;
        let mut paths = paths;
        let mut contents = contents;
        let ghost m = model@.insert(p@, b@);
        let ghost old_paths = paths@;
        let ghost old_contents = contents@;
        let ghost pv = p@;
        let ghost bv = b@;
        match found {
            Some(i) => {
                contents.set(i, b);
                assert forall|j: int| 0 <= j < paths@.len() implies m.contains_key((#[trigger] paths@[j])@)
                    && m[paths@[j]@] == contents@[j]@ by {
                    if j != i {
                        assert(old_paths[j]@ != old_paths[i as int]@);
                    }
                }
                assert forall|k: Seq<char>| #[trigger] m.contains_key(k) implies exists|j: int|
                    0 <= j < paths@.len() && (#[trigger] paths@[j])@ == k by {
                    if k == pv {
                        assert(paths@[i as int]@ == k);
                    }
                }
            },
            None => {
                paths.push(p);
                contents.push(b);
                let ghost n = old_paths.len() as int;
                assert forall|j: int| 0 <= j < n implies (#[trigger] paths@[j])@ != pv by {
                    assert(model@.contains_key(old_paths[j]@));
                }
                assert forall|j: int| 0 <= j < paths@.len() implies m.contains_key((#[trigger] paths@[j])@)
                    && m[paths@[j]@] == contents@[j]@ by {
                    if j < n {
                        assert(paths@[j] == old_paths[j]);
                    }
                }
                assert forall|k: Seq<char>| #[trigger] m.contains_key(k) implies exists|j: int|
                    0 <= j < paths@.len() && (#[trigger] paths@[j])@ == k by {
                    if k == pv {
                        assert(paths@[n]@ == k);
                    } else {
                        let j = choose|j: int| 0 <= j < old_paths.len() && (#[trigger] old_paths[j])@ == k;
                        assert(paths@[j]@ == k);
                    }
                }
            },
        }
        let next_files = MemFiles { paths, contents, model: Ghost(m) };
        *self = next_files;
    }

    /// Removes a file; `false` when there was none.
    pub fn remove(&mut self, p: &String) -> (r: bool)
        ensures
            r == old(self)@.contains_key(p@),
            final(self)@ == old(self)@.remove(p@),
    {
        proof {
            use_type_invariant(&*self);
        }
        let found = self.position(p);
        match found {
            Some(i) => {
                let mut taken = MemFiles::new();
        std::mem::swap(&mut taken, self);
                proof {
                    use_type_invariant(&taken);
                }
                let MemFiles { paths, contents, model } = taken;
                let ghost old_paths = paths@;
                let ghost old_contents = contents@;
                let mut paths = paths;
                let mut contents = contents;
                paths.swap_remove(i);
                contents.swap_remove(i);
                let ghost m = model@.remove(p@);
                let ghost last = old_paths.len() - 1;
                assert forall|j: int| 0 <= j < paths@.len() implies (#[trigger] paths@[j]) == (if j == i {
                    old_paths[last]
                } else {
                    old_paths[j]
                }) && contents@[j] == (if j == i { old_contents[last] } else { old_contents[j] }) by {}
                assert forall|a: int, c: int|
                    0 <= a < c < paths@.len() implies (#[trigger] paths@[a])@ != (#[trigger] paths@[c])@ by {
                    let a0 = if a == i { last } else { a };
                    let c0 = if c == i { last } else { c };
                    assert(old_paths[a0]@ != old_paths[c0]@) by {
                        if a0 < c0 {
                        } else {
                            assert(a0 != c0);
                        }
                    }
                }
                assert forall|j: int| 0 <= j < paths@.len() implies m.contains_key((#[trigger] paths@[j])@)
                    && m[paths@[j]@] == contents@[j]@ by {
                    let j0 = if j == i { last } else { j };
                    assert(old_paths[j0]@ != old_paths[i as int]@);
                    assert(model@.contains_key(old_paths[j0]@));
                }
                assert forall|k: Seq<char>| #[trigger] m.contains_key(k) implies exists|j: int|
                    0 <= j < paths@.len() && (#[trigger] paths@[j])@ == k by {
                    assert(model@.contains_key(k));
                    let j = choose|j: int| 0 <= j < old_paths.len() && (#[trigger] old_paths[j])@ == k;
                    assert(j != i);
                    if j == last {
                        assert(paths@[i as int]@ == k);
                    } else {
                        assert(paths@[j]@ == k);
                    }
                }
                *self = MemFiles { paths, contents, model: Ghost(m) };
                true
            },
            None => {
                assert(self@.remove(p@) =~= self@);
                false
            },
        }
    }

    /// Performs a file operation and returns its outcome.
    pub fn perform(&mut self, op: FileOp) -> (r: FileReply)
        ensures
            r@ == answer(old(self)@, op@),
            final(self)@ == apply(old(self)@, op@),
    {
        match op {
            FileOp::Read(p) => FileReply::Contents(self.read(&p)),
            FileOp::Exists(p) => FileReply::Exists(self.contains(&p)),
            FileOp::Write(p, b) => {
                self.write(p, b);
                FileReply::Written(true)
            },
            FileOp::Remove(p) => {
                if self.remove(&p) {
                    FileReply::Removed(Removal::Done)
                } else {
                    FileReply::Removed(Removal::Missing)
                }
            },
        }
    }
}

/// Serves one request against an in-memory file tree at time `now`
/// (seconds since the Unix epoch): the response, or `None` where the
/// request is given up.
pub fn serve(req: Request, now: u64, files: &mut MemFiles) -> (r: Option<Response>)
    requires
        now < DATE_LIMIT,
    ensures
        ({
            let (step, fs) = served(req@, now as nat, old(files)@);
            &&& final(files)@ == fs
            &&& match r {
                Some(res) => step == StepView::Reply(res@),
                None => step == StepView::Abort,
            }
        }),
{
    let ghost x0 = exchange_for(req@, http_date_text(now as nat));
    let ghost fs0 = files@;
    let ghost goal = served(req@, now as nat, fs0);
    assert(goal == run(x0, fs0, None, max_ops()));
    let (mut x, first) = route(req, now);
    let mut step = first;
    let mut fuel: usize = 4;
    let ghost mut reply: Option<FileReplyView> = None;
    let ghost mut xprev: ExchangeView = x0;
    loop
        invariant
            fuel <= 4,
            goal == run(x0, fs0, None, max_ops()),
            fs0 == old(files)@,
            goal == served(req@, now as nat, old(files)@),
            ({
                let (phase, st) = next(xprev, reply);
                &&& x@ == (ExchangeView { phase, ..xprev })
                &&& st == step@
                &&& run(xprev, files@, reply, fuel as nat) == run(x0, fs0, None, max_ops())
            }),
        decreases fuel,
    {
        let ghost sv = step@;
        assert(run(xprev, files@, reply, fuel as nat) == (match sv {
            StepView::Perform(op) => if fuel == 0 {
                (StepView::Abort, files@)
            } else {
                run(x@, apply(files@, op), Some(answer(files@, op)), (fuel - 1) as nat)
            },
            _ => (sv, files@),
        }));
        match step {
            Step::Perform(op) => {
                if fuel == 0 {
                    return None;
                }
                let ghost opv = op@;
                let ghost xv = x@;
                let ghost fs_before = files@;
                let outcome = files.perform(op);
                proof {
                    reply = Some(outcome@);
                    xprev = xv;
                    assert(run(xv, files@, reply, (fuel - 1) as nat) == run(x0, fs0, None, max_ops()));
                }
                step = x.resume(outcome);
                fuel -= 1;
            },
            Step::Reply(res) => {
                assert(goal == (StepView::Reply(res@), files@));
                return Some(res);
            },
            Step::Abort => {
                return None;
            },
        }
    }
}

} // verus!
