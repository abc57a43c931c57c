//! The animation manifest: tileset geometry and the clips of each actor kind.

use vstd::prelude::*;

verus! {

/// Frame geometry shared by all clips, in pixels.
#[derive(Clone, Copy, Debug, PartialEq, Eq, Structural)]
pub struct TilesetData {
    pub width: i32,
    pub height: i32,
    pub padding_x: i32,
    pub padding_y: i32,
}

impl Default for TilesetData {
    fn default() -> (t: TilesetData)
        ensures
            t == (TilesetData { width: 0, height: 0, padding_x: 0, padding_y: 0 }),
    {
        TilesetData { width: 0, height: 0, padding_x: 0, padding_y: 0 }
    }
}

impl TilesetData {
    /// The geometry with its frame height replaced where an entry says so.
    pub open spec fn overridden(self, height: Option<i32>) -> TilesetData {
        match height {
            Some(h) => TilesetData { height: h, ..self },
            None => self,
        }
    }

    pub fn with_height(&self, height: Option<i32>) -> (t: TilesetData)
        ensures
            t == self.overridden(height),
    {
        match height {
            Some(h) => TilesetData {
                width: self.width,
                height: h,
                padding_x: self.padding_x,
                padding_y: self.padding_y,
            },
            None => *self,
        }
    }
}

/// One enemy kind: its name, the names of its clips, and its own frame
/// height where it differs from the tileset's.
#[derive(Clone, Debug, PartialEq, Eq)]
pub struct EnemyAnimationEntry {
    pub name: String,
    pub anim_names: Vec<String>,
    pub height: Option<i32>,
}

/// The player: its name and the names of its clips.
#[derive(Clone, Debug, PartialEq, Eq)]
pub struct PlayerAnimationEntry {
    pub name: String,
    pub anim_names: Vec<String>,
}

/// The whole manifest.
#[derive(Clone, Debug, PartialEq, Eq)]
pub struct AnimationListAsset {
    pub tileset: TilesetData,
    pub enemies: Vec<EnemyAnimationEntry>,
    pub player: PlayerAnimationEntry,
}

/// What is wrong with a manifest that parsed.
#[derive(Clone, Copy, Debug, PartialEq, Eq, Structural)]
pub enum ManifestError {
    /// The manifest names no image at all, so nothing could ever be ready.
    NoImages,
}

/// The number of clips that a list of enemy kinds names.
pub open spec fn clip_count(enemies: Seq<EnemyAnimationEntry>) -> nat
    decreases enemies.len(),
{
    if enemies.len() == 0 {
        0
    } else {
        clip_count(enemies.drop_last()) + enemies.last().anim_names@.len()
    }
}

/// Counting clips kind by kind: one more kind adds its clips.
pub proof fn lemma_clip_count_step(enemies: Seq<EnemyAnimationEntry>, i: int)
    requires
        0 <= i < enemies.len(),
    ensures
        clip_count(enemies.take(i + 1)) == clip_count(enemies.take(i))
            + enemies[i].anim_names@.len(),
{
    assert(enemies.take(i + 1).drop_last() =~= enemies.take(i));
}

/// A longer list of kinds names at least as many clips.
pub proof fn lemma_clip_count_grows(enemies: Seq<EnemyAnimationEntry>, i: int)
    requires
        0 <= i <= enemies.len(),
    ensures
        clip_count(enemies.take(i)) <= clip_count(enemies),
    decreases enemies.len() - i,
{
    if i < enemies.len() {
        lemma_clip_count_step(enemies, i);
        lemma_clip_count_grows(enemies, i + 1);
    } else {
        assert(enemies.take(i) =~= enemies);
    }
}

impl AnimationListAsset {
    /// The number of images that the manifest names.
    pub open spec fn image_count(self) -> nat {
        clip_count(self.enemies@) + self.player.anim_names@.len()
    }

    /// Whether the manifest names any image.
    pub fn has_images(&self) -> (b: bool)
        ensures
            b == (self.image_count() > 0),
    {
        if self.player.anim_names.len() > 0 {
            return true;
        }
        let mut i: usize = 0;
        while i < self.enemies.len()
            invariant
                i <= self.enemies@.len(),
                clip_count(self.enemies@.take(i as int)) == 0,
            decreases self.enemies@.len() - i,
        {
            proof {
                lemma_clip_count_step(self.enemies@, i as int);
                lemma_clip_count_grows(self.enemies@, i as int + 1);
            }
            if self.enemies[i].anim_names.len() > 0 {
                return true;
            }
            i += 1;
        }
        proof {
            assert(self.enemies@.take(i as int) =~= self.enemies@);
        }
        false
    }

    /// Accepts a manifest that names at least one image. One that names none
    /// is a mistake in the data: nothing would ever be loaded.
    pub fn validate(&self) -> (r: Result<(), ManifestError>)
        ensures
            r is Ok <==> self.image_count() > 0,
            r is Err ==> r == Err::<(), ManifestError>(ManifestError::NoImages),
    {
        if self.has_images() {
            Ok(())
        } else {
            Err(ManifestError::NoImages)
        }
    }
}

/// Whether the image requests of the manifest have been issued.
#[derive(Clone, Copy, Debug, PartialEq, Eq, Structural)]
pub struct AnimationList {
    pub loaded_enemies: bool,
    pub loaded_players: bool,
}

impl AnimationList {
    pub open spec fn loaded(self) -> bool {
        self.loaded_enemies && self.loaded_players
    }

    pub fn is_loaded(&self) -> (b: bool)
        ensures
            b == self.loaded(),
    {
        self.loaded_enemies && self.loaded_players
    }
}

impl Default for AnimationList {
    fn default() -> (l: AnimationList)
        ensures
            l == (AnimationList { loaded_enemies: false, loaded_players: false }),
    {
        AnimationList { loaded_enemies: false, loaded_players: false }
    }
}

/// Where the image of a clip is found: the category's directory, then the
/// kind and the clip's name joined by an underscore, as a PNG file.
pub open spec fn image_path(category: Seq<char>, kind: Seq<char>, name: Seq<char>) -> Seq<char> {
    category + "/"@ + kind + "_"@ + name + ".png"@
}

/// Builds the path of a clip's image.
pub fn clip_path(category: &str, kind: &str, name: &str) -> (path: String)
    ensures
        path@ == image_path(category@, kind@, name@),
{
    let mut path = String::from_str(category);
    path.append("/");
    path.append(kind);
    path.append("_");
    path.append(name);
    path.append(".png");
    path
}

} // verus!
