//! The clips of each actor kind, filed under the names of their states.

use vstd::prelude::*;
use crate::animation::AnimState;
use crate::loading::ImageRequest;
use crate::loading::ImagesToLoad;
use crate::manifest::clip_count;
use crate::manifest::image_path;
use crate::manifest::lemma_clip_count_grows;
use crate::manifest::lemma_clip_count_step;
use crate::manifest::AnimationList;
use crate::manifest::AnimationListAsset;
use crate::manifest::EnemyAnimationEntry;
use crate::manifest::TilesetData;
use crate::table::NameTable;

verus! {

/// Frames in a clip. They lie side by side in one row.
pub const FRAME_COUNT: usize = 4;

/// Directory of the enemies' images.
pub const ENEMY_CATEGORY: &'static str = "sprites/enemies";

/// Directory of the player's images.
pub const PLAYER_CATEGORY: &'static str = "sprites/player";

/// A clip: the image that holds its frames and the geometry that cuts them.
#[derive(Clone, Copy, Debug, PartialEq, Eq, Structural)]
pub struct ClipHandle {
    pub image: u64,
    pub tile: TilesetData,
}

/// The clips of one actor kind.
pub struct AnimationHandles {
    handles: NameTable<ClipHandle>,
}

impl View for AnimationHandles {
    type V = Map<Seq<char>, ClipHandle>;

    closed spec fn view(&self) -> Map<Seq<char>, ClipHandle> {
        self.handles@
    }
}

/// The map that files each pair's clip under its name, a later pair taking
/// the place of an earlier one of the same name.
pub open spec fn filed(pairs: Seq<(String, ClipHandle)>) -> Map<Seq<char>, ClipHandle>
    decreases pairs.len(),
{
    if pairs.len() == 0 {
        Map::empty()
    } else {
        filed(pairs.drop_last()).insert(pairs.last().0@, pairs.last().1)
    }
}

/// `base` with one clip more for each name: the clip of the `i`-th name
/// shows the `i`-th image, cut by `tile`.
pub open spec fn clips(
    base: Map<Seq<char>, ClipHandle>,
    names: Seq<String>,
    tile: TilesetData,
    images: Seq<u64>,
) -> Map<Seq<char>, ClipHandle>
    decreases names.len(),
{
    if names.len() == 0 {
        base
    } else {
        clips(base, names.drop_last(), tile, images).insert(
            names.last()@,
            ClipHandle { image: images[names.len() - 1], tile },
        )
    }
}

/// Every name gets a clip, and a name that does not come again later gets
/// the clip of its own image.
pub proof fn lemma_clips_cover(
    base: Map<Seq<char>, ClipHandle>,
    names: Seq<String>,
    tile: TilesetData,
    images: Seq<u64>,
    i: int,
)
    requires
        0 <= i < names.len(),
    ensures
        clips(base, names, tile, images).contains_key(names[i]@),
        (forall|j: int| i < j < names.len() ==> names[j]@ != names[i]@) ==> clips(
            base,
            names,
            tile,
            images,
        )[names[i]@] == (ClipHandle { image: images[i], tile }),
    decreases names.len(),
{
    if i < names.len() - 1 {
        lemma_clips_cover(base, names.drop_last(), tile, images, i);
    }
}

/// Names that are not among the new ones keep what they had.
pub proof fn lemma_clips_keep(
    base: Map<Seq<char>, ClipHandle>,
    names: Seq<String>,
    tile: TilesetData,
    images: Seq<u64>,
    name: Seq<char>,
)
    requires
        forall|j: int| 0 <= j < names.len() ==> names[j]@ != name,
    ensures
        clips(base, names, tile, images).contains_key(name) == base.contains_key(name),
        base.contains_key(name) ==> clips(base, names, tile, images)[name] == base[name],
    decreases names.len(),
{
    if names.len() > 0 {
        assert(names.last() == names[names.len() - 1]);
        assert forall|j: int| 0 <= j < names.drop_last().len() implies names.drop_last()[j]@
            != name by {
            assert(names[j] == names.drop_last()[j]);
        }
        lemma_clips_keep(base, names.drop_last(), tile, images, name);
    }
}

impl AnimationHandles {
    /// The clip that an entity in `state` shows: the one filed under the
    /// state's name, and none for a state that plays no clip.
    pub open spec fn clip(self, state: AnimState) -> Option<ClipHandle> {
        if state.animates() {
            Some(self@[state.name()])
        } else {
            None
        }
    }

    /// Whether a clip is there for `state` whenever the state plays one.
    pub open spec fn covers(self, state: AnimState) -> bool {
        state.animates() ==> self@.contains_key(state.name())
    }

    pub fn new(handles: Vec<(String, ClipHandle)>) -> (h: AnimationHandles)
        ensures
            h@ == filed(handles@),
    {
        let mut table: NameTable<ClipHandle> = NameTable::new();
        let mut i: usize = 0;
        while i < handles.len()
            invariant
                i <= handles@.len(),
                table@ == filed(handles@.take(i as int)),
            decreases handles@.len() - i,
        {
            proof {
                assert(handles@.take(i + 1).drop_last() =~= handles@.take(i as int));
            }
            table.insert(handles[i].0.clone(), handles[i].1);
            i += 1;
        }
        proof {
            assert(handles@.take(i as int) =~= handles@);
        }
        AnimationHandles { handles: table }
    }

    /// Whether a clip is filed under the name of `state`.
    pub fn has_handle(&self, state: AnimState) -> (b: bool)
        ensures
            b == self@.contains_key(state.name()),
    {
        self.handles.get(&state.to_string()).is_some()
    }

    pub fn get_handle(&self, state: AnimState) -> (r: Option<ClipHandle>)
        requires
            self.covers(state),
        ensures
            r == self.clip(state),
    {
        if state.should_anim() {
            match self.handles.get(&state.to_string()) {
                Some(handle) => Some(*handle),
                None => None,
            }
        } else {
            None
        }
    }

    pub fn add_handle(&mut self, key: String, handle: ClipHandle)
        ensures
            final(self)@ == old(self)@.insert(key@, handle),
    {
        self.handles.insert(key, handle);
    }

    /// Files the clips of one actor kind: for each name the image that was
    /// loaded for it, cut by `tile`. The images must have arrived.
    pub fn build_for_kind(
        anim_names: &Vec<String>,
        tile: TilesetData,
        images: &Vec<u64>,
        tracker: &ImagesToLoad,
    ) -> (h: AnimationHandles)
        requires
            images@.len() == anim_names@.len(),
            tracker.arrived(images@),
        ensures
            h@ == clips(Map::empty(), anim_names@, tile, images@),
    {
        let mut h = AnimationHandles { handles: NameTable::new() };
        h.add_clips(anim_names, tile, images);
        h
    }

    /// Adds one clip for each name, as `clips` says.
    fn add_clips(&mut self, anim_names: &Vec<String>, tile: TilesetData, images: &Vec<u64>)
        requires
            images@.len() == anim_names@.len(),
        ensures
            final(self)@ == clips(old(self)@, anim_names@, tile, images@),
    {
        let mut i: usize = 0;
        while i < anim_names.len()
            invariant
                i <= anim_names@.len(),
                images@.len() == anim_names@.len(),
                self@ == clips(old(self)@, anim_names@.take(i as int), tile, images@),
            decreases anim_names@.len() - i,
        {
            proof {
                assert(anim_names@.take(i + 1).drop_last() =~= anim_names@.take(i as int));
            }
            self.add_handle(anim_names[i].clone(), ClipHandle { image: images[i], tile });
            i += 1;
        }
        proof {
            assert(anim_names@.take(i as int) =~= anim_names@);
        }
    }
}

impl Default for AnimationHandles {
    fn default() -> (h: AnimationHandles)
        ensures
            h@ == Map::<Seq<char>, ClipHandle>::empty(),
    {
        AnimationHandles { handles: NameTable::new() }
    }
}

/// The clips of every enemy kind.
pub struct EnemyAnimations {
    pub enemies: NameTable<AnimationHandles>,
}

impl View for EnemyAnimations {
    type V = Map<Seq<char>, Map<Seq<char>, ClipHandle>>;

    open spec fn view(&self) -> Map<Seq<char>, Map<Seq<char>, ClipHandle>> {
        self.enemies@.map_values(|h: AnimationHandles| h@)
    }
}

impl EnemyAnimations {
    /// The clip that an enemy of `kind` shows in `state`, if the kind is
    /// known, the state plays a clip, and the kind has that clip.
    pub fn find(&self, kind: &String, state: AnimState) -> (r: Option<ClipHandle>)
        ensures
            r == if state.animates() && self@.contains_key(kind@) && self@[kind@].contains_key(
                state.name(),
            ) {
                Some(self@[kind@][state.name()])
            } else {
                None
            },
    {
        match self.enemies.get(kind) {
            Some(handles) => {
                if handles.has_handle(state) {
                    handles.get_handle(state)
                } else {
                    None
                }
            },
            None => None,
        }
    }
}

impl Default for EnemyAnimations {
    fn default() -> (e: EnemyAnimations)
        ensures
            e@ == Map::<Seq<char>, Map<Seq<char>, ClipHandle>>::empty(),
            e.enemies@ == Map::<Seq<char>, AnimationHandles>::empty(),
            e.enemies.names() == Seq::<Seq<char>>::empty(),
    {
        let e = EnemyAnimations { enemies: NameTable::new() };
        assert(e@ =~= Map::<Seq<char>, Map<Seq<char>, ClipHandle>>::empty());
        e
    }
}

/// The player's clips, and whether they have been filed.
pub struct PlayerAnimation {
    pub loaded: bool,
    pub anims: AnimationHandles,
}

impl Default for PlayerAnimation {
    fn default() -> (p: PlayerAnimation)
        ensures
            !p.loaded,
            p.anims@ == Map::<Seq<char>, ClipHandle>::empty(),
    {
        PlayerAnimation { loaded: false, anims: AnimationHandles::default() }
    }
}

impl View for ImageRequest {
    type V = (u64, Seq<char>);

    open spec fn view(&self) -> (u64, Seq<char>) {
        (self.id, self.path@)
    }
}

/// Identifier and path of each request.
pub open spec fn request_views(requests: Seq<ImageRequest>) -> Seq<(u64, Seq<char>)> {
    requests.map_values(|r: ImageRequest| r@)
}

/// The identifier of each request.
pub open spec fn request_ids(requests: Seq<ImageRequest>) -> Seq<u64> {
    requests.map_values(|r: ImageRequest| r.id)
}

/// The requests for the clips of one kind: consecutive identifiers from
/// `first`, and the path of each clip's image.
pub open spec fn kind_requests(
    category: Seq<char>,
    kind: Seq<char>,
    names: Seq<String>,
    first: nat,
) -> Seq<(u64, Seq<char>)> {
    Seq::new(names.len(), |i: int| ((first + i) as u64, image_path(category, kind, names[i]@)))
}

/// The requests for the clips of all enemy kinds, kind after kind.
pub open spec fn enemy_requests(
    enemies: Seq<EnemyAnimationEntry>,
    first: nat,
) -> Seq<(u64, Seq<char>)>
    decreases enemies.len(),
{
    if enemies.len() == 0 {
        Seq::empty()
    } else {
        enemy_requests(enemies.drop_last(), first) + kind_requests(
            ENEMY_CATEGORY@,
            enemies.last().name@,
            enemies.last().anim_names@,
            first + clip_count(enemies.drop_last()),
        )
    }
}

/// The clips of all enemy kinds, where `images` holds the image of each
/// clip, kind after kind. A kind's own frame height replaces the tileset's.
pub open spec fn enemy_clips(
    enemies: Seq<EnemyAnimationEntry>,
    tileset: TilesetData,
    images: Seq<u64>,
) -> Map<Seq<char>, Map<Seq<char>, ClipHandle>>
    decreases enemies.len(),
{
    if enemies.len() == 0 {
        Map::empty()
    } else {
        enemy_clips(enemies.drop_last(), tileset, images).insert(
            enemies.last().name@,
            clips(
                Map::empty(),
                enemies.last().anim_names@,
                tileset.overridden(enemies.last().height),
                images.subrange(
                    clip_count(enemies.drop_last()) as int,
                    clip_count(enemies) as int,
                ),
            ),
        )
    }
}

/// Every enemy kind of the manifest gets its clips.
pub proof fn lemma_enemy_clips_cover(
    enemies: Seq<EnemyAnimationEntry>,
    tileset: TilesetData,
    images: Seq<u64>,
    i: int,
)
    requires
        0 <= i < enemies.len(),
    ensures
        enemy_clips(enemies, tileset, images).contains_key(enemies[i].name@),
    decreases enemies.len(),
{
    if i < enemies.len() - 1 {
        lemma_enemy_clips_cover(enemies.drop_last(), tileset, images, i);
    }
}

/// Requests the image of each clip of one kind.
fn request_kind(
    category: &str,
    kind: &String,
    anim_names: &Vec<String>,
    images_to_load: &mut ImagesToLoad,
    requests: &mut Vec<ImageRequest>,
)
    requires
        old(images_to_load).issued + anim_names@.len() <= u64::MAX,
    ensures
        final(images_to_load).issued == old(images_to_load).issued + anim_names@.len(),
        request_views(final(requests)@) == request_views(old(requests)@) + kind_requests(
            category@,
            kind@,
            anim_names@,
            old(images_to_load).issued as nat,
        ),
        final(images_to_load).images@ == old(images_to_load).images@ + request_ids(
            final(requests)@,
        ).skip(old(requests)@.len() as int),
        final(requests)@.len() == old(requests)@.len() + anim_names@.len(),
        old(images_to_load).wf() ==> final(images_to_load).wf(),
{
    let ghost first = images_to_load.issued as nat;
    let ghost all = kind_requests(category@, kind@, anim_names@, first);
    let mut j: usize = 0;
    proof {
        assert(request_views(requests@) + all.take(0) =~= request_views(requests@));
        assert(request_ids(requests@).skip(requests@.len() as int) =~= Seq::<u64>::empty());
        assert(images_to_load.images@ + Seq::<u64>::empty() =~= images_to_load.images@);
    }
    while j < anim_names.len()
        invariant
            j <= anim_names@.len(),
            first + anim_names@.len() <= u64::MAX,
            first == old(images_to_load).issued,
            all == kind_requests(category@, kind@, anim_names@, first),
            images_to_load.issued == first + j,
            requests@.len() == old(requests)@.len() + j,
            request_views(requests@) == request_views(old(requests)@) + all.take(j as int),
            images_to_load.images@ == old(images_to_load).images@ + request_ids(requests@).skip(
                old(requests)@.len() as int,
            ),
            old(images_to_load).wf() ==> images_to_load.wf(),
        decreases anim_names@.len() - j,
    {
        let ghost before = requests@;
        let ghost pending = images_to_load.images@;
        let r = images_to_load.request(category, kind.as_str(), anim_names[j].as_str());
        requests.push(r);
        proof {
            let n = old(requests)@.len() as int;
            assert(all.take(j + 1) =~= all.take(j as int).push(all[j as int]));
            assert(request_views(requests@) =~= request_views(before).push(r@));
            assert(request_views(requests@) =~= request_views(old(requests)@) + all.take(j + 1));
            assert(request_ids(requests@).skip(n) =~= request_ids(before).skip(n).push(r.id));
            assert(images_to_load.images@ =~= old(images_to_load).images@ + request_ids(
                requests@,
            ).skip(n));
        }
        j += 1;
    }
    proof {
        assert(all.take(j as int) =~= all);
    }
}

/// Requests the image of every clip of every enemy kind, once: a list whose
/// enemy requests were issued is left alone.
pub fn load_enemy_animations(
    list: &mut AnimationList,
    asset: &AnimationListAsset,
    images_to_load: &mut ImagesToLoad,
) -> (requests: Vec<ImageRequest>)
    requires
        !old(list).loaded_enemies ==> old(images_to_load).issued + clip_count(asset.enemies@)
            <= u64::MAX,
    ensures
        final(list).loaded_enemies,
        final(list).loaded_players == old(list).loaded_players,
        old(list).loaded_enemies ==> requests@.len() == 0 && *final(images_to_load) == *old(images_to_load),
        !old(list).loaded_enemies ==> {
            &&& request_views(requests@) == enemy_requests(
                asset.enemies@,
                old(images_to_load).issued as nat,
            )
            &&& requests@.len() == clip_count(asset.enemies@)
            &&& final(images_to_load).issued == old(images_to_load).issued + clip_count(
                asset.enemies@,
            )
            &&& final(images_to_load).images@ == old(images_to_load).images@ + request_ids(
                requests@,
            )
        },
        old(images_to_load).wf() ==> final(images_to_load).wf(),
{
    let mut requests: Vec<ImageRequest> = Vec::new();
    if list.loaded_enemies {
        return requests;
    }
    let ghost first = images_to_load.issued as nat;
    let mut i: usize = 0;
    proof {
        assert(asset.enemies@.take(0) =~= Seq::<EnemyAnimationEntry>::empty());
        assert(request_views(requests@) =~= enemy_requests(asset.enemies@.take(0), first));
        assert(images_to_load.images@ + request_ids(requests@) =~= images_to_load.images@);
    }
    while i < asset.enemies.len()
        invariant
            i <= asset.enemies@.len(),
            first == old(images_to_load).issued,
            first + clip_count(asset.enemies@) <= u64::MAX,
            images_to_load.issued == first + clip_count(asset.enemies@.take(i as int)),
            requests@.len() == clip_count(asset.enemies@.take(i as int)),
            request_views(requests@) == enemy_requests(asset.enemies@.take(i as int), first),
            images_to_load.images@ == old(images_to_load).images@ + request_ids(requests@),
            old(images_to_load).wf() ==> images_to_load.wf(),
            *list == *old(list),
        decreases asset.enemies@.len() - i,
    {
        let enemy = &asset.enemies[i];
        let ghost before = requests@;
        proof {
            lemma_clip_count_step(asset.enemies@, i as int);
            lemma_clip_count_grows(asset.enemies@, i as int + 1);
            assert(asset.enemies@.take(i + 1).drop_last() =~= asset.enemies@.take(i as int));
        }
        request_kind(ENEMY_CATEGORY, &enemy.name, &enemy.anim_names, images_to_load, &mut requests);
        proof {
            let n = before.len() as int;
            assert(request_ids(requests@) =~= request_ids(before) + request_ids(requests@).skip(
                n,
            )) by {
                assert(request_views(requests@).take(n) =~= request_views(before));
                assert forall|k: int| 0 <= k < n implies request_ids(requests@)[k] == request_ids(
                    before,
                )[k] by {
                    assert(request_views(requests@).take(n)[k] == request_views(before)[k]);
                }
            }
        }
        i += 1;
    }
    proof {
        assert(asset.enemies@.take(i as int) =~= asset.enemies@);
    }
    list.loaded_enemies = true;
    requests
}

/// Requests the image of every clip of the player, once: a list whose
/// player requests were issued is left alone.
pub fn load_player_animations(
    list: &mut AnimationList,
    asset: &AnimationListAsset,
    images_to_load: &mut ImagesToLoad,
) -> (requests: Vec<ImageRequest>)
    requires
        !old(list).loaded_players ==> old(images_to_load).issued + asset.player.anim_names@.len()
            <= u64::MAX,
    ensures
        final(list).loaded_players,
        final(list).loaded_enemies == old(list).loaded_enemies,
        old(list).loaded_players ==> requests@.len() == 0 && *final(images_to_load) == *old(images_to_load),
        !old(list).loaded_players ==> {
            &&& request_views(requests@) == kind_requests(
                PLAYER_CATEGORY@,
                asset.player.name@,
                asset.player.anim_names@,
                old(images_to_load).issued as nat,
            )
            &&& final(images_to_load).issued == old(images_to_load).issued
                + asset.player.anim_names@.len()
            &&& final(images_to_load).images@ == old(images_to_load).images@ + request_ids(
                requests@,
            )
        },
        old(images_to_load).wf() ==> final(images_to_load).wf(),
{
    let mut requests: Vec<ImageRequest> = Vec::new();
    if list.loaded_players {
        return requests;
    }
    request_kind(
        PLAYER_CATEGORY,
        &asset.player.name,
        &asset.player.anim_names,
        images_to_load,
        &mut requests,
    );
    proof {
        assert(request_views(Seq::<ImageRequest>::empty()) + request_views(requests@)
            =~= request_views(requests@));
        assert(request_ids(requests@).skip(0) =~= request_ids(requests@));
    }
    list.loaded_players = true;
    requests
}

/// The identifiers of the requests from position `start` up to `end`.
fn ids_between(requests: &Vec<ImageRequest>, start: usize, end: usize) -> (ids: Vec<u64>)
    requires
        start <= end <= requests@.len(),
    ensures
        ids@ == request_ids(requests@).subrange(start as int, end as int),
{
    let mut ids: Vec<u64> = Vec::new();
    let mut k: usize = start;
    while k < end
        invariant
            start <= k <= end <= requests@.len(),
            ids@ == request_ids(requests@).subrange(start as int, k as int),
        decreases end - k,
    {
        ids.push(requests[k].id);
        proof {
            assert(request_ids(requests@).subrange(start as int, k + 1) =~= request_ids(
                requests@,
            ).subrange(start as int, k as int).push(requests@[k as int].id));
        }
        k += 1;
    }
    ids
}

/// Files the clips of every enemy kind, in place of what was filed before.
/// `requests` are the requests that were issued for them, in their order,
/// and their images must have arrived.
pub fn build_enemy_animations(
    asset: &AnimationListAsset,
    requests: &Vec<ImageRequest>,
    tracker: &ImagesToLoad,
    enemy_anims: &mut EnemyAnimations,
)
    requires
        requests@.len() == clip_count(asset.enemies@),
        tracker.arrived(request_ids(requests@)),
    ensures
        final(enemy_anims)@ == enemy_clips(
            asset.enemies@,
            asset.tileset,
            request_ids(requests@),
        ),
{
    let ghost ids = request_ids(requests@);
    let mut table: NameTable<AnimationHandles> = NameTable::new();
    let mut i: usize = 0;
    let mut start: usize = 0;
    proof {
        assert(asset.enemies@.take(0) =~= Seq::<EnemyAnimationEntry>::empty());
        assert(table@.map_values(|h: AnimationHandles| h@) =~= enemy_clips(
            asset.enemies@.take(0),
            asset.tileset,
            ids,
        ));
    }
    while i < asset.enemies.len()
        invariant
            i <= asset.enemies@.len(),
            ids == request_ids(requests@),
            requests@.len() == clip_count(asset.enemies@),
            tracker.arrived(ids),
            start == clip_count(asset.enemies@.take(i as int)),
            table@.map_values(|h: AnimationHandles| h@) == enemy_clips(
                asset.enemies@.take(i as int),
                asset.tileset,
                ids,
            ),
        decreases asset.enemies@.len() - i,
    {
        let enemy = &asset.enemies[i];
        proof {
            lemma_clip_count_step(asset.enemies@, i as int);
            lemma_clip_count_grows(asset.enemies@, i as int + 1);
            assert(asset.enemies@.take(i + 1).drop_last() =~= asset.enemies@.take(i as int));
            assert(start + enemy.anim_names@.len() == clip_count(asset.enemies@.take(i + 1)));
            assert(start + enemy.anim_names@.len() <= requests@.len() == requests.len());
        }
        let end = start + enemy.anim_names.len();
        let images = ids_between(requests, start, end);
        proof {
            assert forall|k: int| 0 <= k < images@.len() implies !tracker.images@.contains(
                #[trigger] images@[k],
            ) by {
                assert(images@[k] == ids[start + k]);
            }
        }
        let handles = AnimationHandles::build_for_kind(
            &enemy.anim_names,
            asset.tileset.with_height(enemy.height),
            &images,
            tracker,
        );
        let ghost before = table@;
        table.insert(enemy.name.clone(), handles);
        proof {
            assert(table@.map_values(|h: AnimationHandles| h@) =~= before.map_values(
                |h: AnimationHandles| h@,
            ).insert(enemy.name@, handles@));
        }
        start = end;
        i += 1;
    }
    proof {
        assert(asset.enemies@.take(i as int) =~= asset.enemies@);
    }
    enemy_anims.enemies = table;
}

/// Files the player's clips beside what was filed before, and marks them
/// as there. `requests` are the requests that were issued for them, in
/// their order, and their images must have arrived.
pub fn build_player_animation(
    asset: &AnimationListAsset,
    requests: &Vec<ImageRequest>,
    tracker: &ImagesToLoad,
    player_anim: &mut PlayerAnimation,
)
    requires
        requests@.len() == asset.player.anim_names@.len(),
        tracker.arrived(request_ids(requests@)),
    ensures
        final(player_anim).loaded,
        final(player_anim).anims@ == clips(
            old(player_anim).anims@,
            asset.player.anim_names@,
            asset.tileset,
            request_ids(requests@),
        ),
{
    let images = ids_between(requests, 0, requests.len());
    proof {
        assert(request_ids(requests@).subrange(0, requests@.len() as int) =~= request_ids(
            requests@,
        ));
    }
    player_anim.anims.add_clips(&asset.player.anim_names, asset.tileset, &images);
    player_anim.loaded = true;
}

} // verus!
