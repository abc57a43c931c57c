//! The tracker of images that were requested and have not arrived yet.

use vstd::prelude::*;
use crate::manifest::clip_path;
use crate::manifest::image_path;
use crate::manifest::AnimationList;
use crate::state::GameState;

verus! {

/// A request for one image: the identifier under which its arrival will be
/// reported, and the path to load it from.
#[derive(Clone, Debug, PartialEq, Eq)]
pub struct ImageRequest {
    pub id: u64,
    pub path: String,
}

/// The images that are still loading.
#[derive(Clone, Debug, PartialEq, Eq)]
pub struct ImagesToLoad {
    /// Identifiers of the requests that have not been completed.
    pub images: Vec<u64>,
    /// How many requests were issued so far; the next identifier.
    pub issued: u64,
}

/// The test that keeps every identifier but `id`.
pub open spec fn other_than(id: u64) -> spec_fn(u64) -> bool {
    |x: u64| x != id
}

/// What is left of `pending` once each identifier in `done` was completed.
pub open spec fn drained(pending: Seq<u64>, done: Seq<u64>) -> Seq<u64>
    decreases done.len(),
{
    if done.len() == 0 {
        pending
    } else {
        drained(pending, done.drop_last()).filter(other_than(done.last()))
    }
}

/// An identifier is left after draining exactly if it was pending and is not
/// among the completed ones.
pub proof fn lemma_drained_contains(pending: Seq<u64>, done: Seq<u64>, id: u64)
    ensures
        drained(pending, done).contains(id) <==> pending.contains(id) && !done.contains(id),
    decreases done.len(),
{
    if done.len() > 0 {
        let rest = drained(pending, done.drop_last());
        lemma_drained_contains(pending, done.drop_last(), id);
        lemma_filter_contains_exactly(rest, done.last(), id);
        if done.contains(id) {
            let i = choose|i: int| 0 <= i < done.len() && done[i] == id;
            if i < done.len() - 1 {
                assert(done.drop_last()[i] == id);
            }
        }
        if done.drop_last().contains(id) {
            let i = choose|i: int| 0 <= i < done.drop_last().len() && done.drop_last()[i] == id;
            assert(done[i] == id);
        }
    }
}

/// Completing `gone` removes it and nothing else.
pub proof fn lemma_filter_contains_exactly(s: Seq<u64>, gone: u64, id: u64)
    ensures
        s.filter(other_than(gone)).contains(id) <==> s.contains(id) && id != gone,
{
    let kept = s.filter(other_than(gone));
    if kept.contains(id) {
        let i = choose|i: int| 0 <= i < kept.len() && kept[i] == id;
        s.lemma_filter_pred(other_than(gone), i);
        s.lemma_filter_contains_rev(other_than(gone), id);
    }
    if s.contains(id) && id != gone {
        let i = choose|i: int| 0 <= i < s.len() && s[i] == id;
        s.lemma_filter_contains(other_than(gone), i);
    }
}

/// Completions that name nothing pending change nothing.
pub proof fn lemma_drained_apart(pending: Seq<u64>, done: Seq<u64>)
    requires
        forall|i: int| 0 <= i < pending.len() ==> !done.contains(#[trigger] pending[i]),
    ensures
        drained(pending, done) == pending,
    decreases done.len(),
{
    if done.len() > 0 {
        assert forall|i: int| 0 <= i < pending.len() implies !done.drop_last().contains(
            #[trigger] pending[i],
        ) by {
            if done.drop_last().contains(pending[i]) {
                let j = choose|j: int|
                    0 <= j < done.drop_last().len() && done.drop_last()[j] == pending[i];
                assert(done[j] == pending[i]);
            }
        }
        lemma_drained_apart(pending, done.drop_last());
        lemma_filter_all(pending, done.last());
    }
}

/// Completing an identifier that is not pending changes nothing.
pub proof fn lemma_filter_all(s: Seq<u64>, gone: u64)
    requires
        !s.contains(gone),
    ensures
        s.filter(other_than(gone)) == s,
    decreases s.len(),
{
    reveal(Seq::filter);
    if s.len() > 0 {
        assert(s.last() == s[s.len() - 1]);
        assert forall|i: int| 0 <= i < s.drop_last().len() implies s.drop_last()[i] != gone by {
            assert(s[i] == s.drop_last()[i]);
        }
        lemma_filter_all(s.drop_last(), gone);
        assert(s.drop_last().push(s.last()) =~= s);
    }
}

/// A tracker becomes ready exactly once every request that was issued has
/// been completed: after the completions `done`, nothing is pending if and
/// only if each pending identifier is among them.
pub proof fn lemma_ready_exactly(tracker: ImagesToLoad, done: Seq<u64>)
    ensures
        drained(tracker.images@, done).len() == 0 <==> forall|i: int|
            0 <= i < tracker.images@.len() ==> done.contains(#[trigger] tracker.images@[i]),
{
    let pending = tracker.images@;
    let left = drained(pending, done);
    if left.len() == 0 {
        assert forall|i: int| 0 <= i < pending.len() implies done.contains(
            #[trigger] pending[i],
        ) by {
            lemma_drained_contains(pending, done, pending[i]);
            assert(pending.contains(pending[i]));
            assert(!left.contains(pending[i]));
        }
    } else {
        let id = left[0];
        assert(left.contains(id));
        lemma_drained_contains(pending, done, id);
        let i = choose|i: int| 0 <= i < pending.len() && pending[i] == id;
        assert(!done.contains(pending[i]));
    }
}

/// Completing the same identifiers once more changes nothing.
pub proof fn lemma_completing_again(pending: Seq<u64>, done: Seq<u64>)
    ensures
        drained(drained(pending, done), done) == drained(pending, done),
{
    let left = drained(pending, done);
    assert forall|i: int| 0 <= i < left.len() implies !done.contains(#[trigger] left[i]) by {
        assert(left.contains(left[i]));
        lemma_drained_contains(pending, done, left[i]);
    }
    lemma_drained_apart(left, done);
}

impl ImagesToLoad {
    /// The identifiers that are still pending, in the order of their requests.
    pub open spec fn pending(self) -> Seq<u64> {
        self.images@
    }

    /// Nothing is pending, and something was requested: a tracker that was
    /// never asked for anything is not ready.
    pub open spec fn ready(self) -> bool {
        self.images@.len() == 0 && self.issued > 0
    }

    /// Every pending identifier was issued, and none is pending twice.
    pub open spec fn wf(self) -> bool {
        &&& self.images@.no_duplicates()
        &&& forall|i: int| 0 <= i < self.images@.len() ==> self.images@[i] < self.issued
    }

    /// Whether none of `ids` is pending.
    pub open spec fn arrived(self, ids: Seq<u64>) -> bool {
        forall|i: int| 0 <= i < ids.len() ==> !self.images@.contains(#[trigger] ids[i])
    }

    pub fn new() -> (t: ImagesToLoad)
        ensures
            t.images@ == Seq::<u64>::empty(),
            t.issued == 0,
            t.wf(),
            !t.ready(),
    {
        ImagesToLoad { images: Vec::new(), issued: 0 }
    }

    /// Records a request for the image at `path` and hands out its identifier.
    pub fn request_path(&mut self, path: String) -> (r: ImageRequest)
        requires
            old(self).issued < u64::MAX,
        ensures
            r.id == old(self).issued,
            r.path == path,
            final(self).issued == old(self).issued + 1,
            final(self).images@ == old(self).images@.push(r.id),
            old(self).wf() ==> final(self).wf(),
            !final(self).ready(),
    {
        let id = self.issued;
        self.images.push(id);
        self.issued = id + 1;
        ImageRequest { id, path }
    }

    /// Records a request for the image of clip `name` of actor kind `kind`.
    pub fn request(&mut self, category: &str, kind: &str, name: &str) -> (r: ImageRequest)
        requires
            old(self).issued < u64::MAX,
        ensures
            r.id == old(self).issued,
            r.path@ == image_path(category@, kind@, name@),
            final(self).issued == old(self).issued + 1,
            final(self).images@ == old(self).images@.push(r.id),
            old(self).wf() ==> final(self).wf(),
            !final(self).ready(),
    {
        self.request_path(clip_path(category, kind, name))
    }

    /// Takes `id` off the pending identifiers. Completing an identifier that
    /// is not pending changes nothing.
    pub fn mark_complete(&mut self, id: u64)
        ensures
            final(self).images@ == old(self).images@.filter(other_than(id)),
            final(self).issued == old(self).issued,
            !old(self).images@.contains(id) ==> final(self).images@ == old(self).images@,
            !final(self).images@.contains(id),
            old(self).wf() ==> final(self).wf(),
    {
        let mut kept: Vec<u64> = Vec::new();
        let mut i: usize = 0;
        proof {
            assert(self.images@.take(0) =~= Seq::<u64>::empty());
            reveal(Seq::filter);
        }
        while i < self.images.len()
            invariant
                i <= self.images@.len(),
                kept@ == self.images@.take(i as int).filter(other_than(id)),
                !self.images@.take(i as int).contains(id) ==> kept@ == self.images@.take(i as int),
            decreases self.images@.len() - i,
        {
            let x = self.images[i];
            proof {
                let before = self.images@.take(i as int);
                assert(self.images@.take(i + 1) =~= before.push(x));
                before.lemma_filter_push(x, other_than(id));
                if !before.push(x).contains(id) {
                    assert(before.push(x)[i as int] == x);
                    assert forall|j: int| 0 <= j < before.len() implies before[j] != id by {
                        assert(before.push(x)[j] == before[j]);
                    }
                }
            }
            if x != id {
                kept.push(x);
            }
            i += 1;
        }
        proof {
            let before = self.images@;
            assert(before.take(i as int) =~= before);
            lemma_filter_contains_exactly(before, id, id);
            if self.wf() {
                assert forall|a: int, b: int| 0 <= a < b < kept@.len() implies kept@[a]
                    != kept@[b] by {
                    lemma_filter_keeps_distinct(before, id);
                }
                assert forall|a: int| 0 <= a < kept@.len() implies kept@[a] < self.issued by {
                    assert(kept@.contains(kept@[a]));
                    before.lemma_filter_contains_rev(other_than(id), kept@[a]);
                }
            }
        }
        self.images = kept;
    }

    pub fn is_ready(&self) -> (b: bool)
        ensures
            b == self.ready(),
            self.images@.len() > 0 ==> !b,
    {
        self.images.len() == 0 && self.issued > 0
    }
}

/// Taking one identifier out of distinct ones leaves distinct ones.
pub proof fn lemma_filter_keeps_distinct(s: Seq<u64>, gone: u64)
    requires
        s.no_duplicates(),
    ensures
        s.filter(other_than(gone)).no_duplicates(),
    decreases s.len(),
{
    reveal(Seq::filter);
    if s.len() > 0 {
        let rest = s.drop_last();
        lemma_filter_keeps_distinct(rest, gone);
        if s.last() != gone {
            let kept = rest.filter(other_than(gone));
            if kept.contains(s.last()) {
                rest.lemma_filter_contains_rev(other_than(gone), s.last());
                let i = choose|i: int| 0 <= i < rest.len() && rest[i] == s.last();
                assert(s[i] == s[s.len() - 1]);
            }
        }
    }
}

impl Default for ImagesToLoad {
    fn default() -> (t: ImagesToLoad)
        ensures
            t.images@ == Seq::<u64>::empty(),
            t.issued == 0,
    {
        ImagesToLoad::new()
    }
}

/// Leaves the loading phase once the requests of the manifest are issued.
pub fn stop_waiting(list: &AnimationList, state: GameState) -> (next: Option<GameState>)
    ensures
        next == if state == GameState::Loading && list.loaded() {
            Some(GameState::Waiting)
        } else {
            None
        },
{
    if matches!(state, GameState::Loading) && list.is_loaded() {
        Some(state.transition())
    } else {
        None
    }
}

/// Takes the images that arrived off the tracker, and leaves the waiting
/// phase once the tracker is ready. Before the manifest's requests are
/// issued, and in any other phase, nothing happens.
pub fn wait_for_assets_to_load(
    completed: &Vec<u64>,
    images_to_load: &mut ImagesToLoad,
    anim_list: &AnimationList,
    state: GameState,
) -> (next: Option<GameState>)
    ensures
        final(images_to_load).issued == old(images_to_load).issued,
        final(images_to_load).images@ == if state == GameState::Waiting && anim_list.loaded() {
            drained(old(images_to_load).images@, completed@)
        } else {
            old(images_to_load).images@
        },
        next == if state == GameState::Waiting && anim_list.loaded()
            && final(images_to_load).ready() {
            Some(GameState::MainMenu)
        } else {
            None
        },
        next is Some ==> state == GameState::Waiting && final(images_to_load).ready(),
        old(images_to_load).wf() ==> final(images_to_load).wf(),
{
    if matches!(state, GameState::Waiting) && anim_list.is_loaded() {
        let mut i: usize = 0;
        while i < completed.len()
            invariant
                i <= completed@.len(),
                images_to_load.issued == old(images_to_load).issued,
                images_to_load.images@ == drained(
                    old(images_to_load).images@,
                    completed@.take(i as int),
                ),
                old(images_to_load).wf() ==> images_to_load.wf(),
            decreases completed@.len() - i,
        {
            proof {
                assert(completed@.take(i + 1).drop_last() =~= completed@.take(i as int));
            }
            images_to_load.mark_complete(completed[i]);
            i += 1;
        }
        proof {
            assert(completed@.take(i as int) =~= completed@);
        }
        if images_to_load.is_ready() {
            Some(state.transition())
        } else {
            None
        }
    } else {
        None
    }
}

} // verus!
