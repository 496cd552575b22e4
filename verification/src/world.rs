//! Entities: what is spawned, and how the player is found among them.

use crate::app::Player;
use crate::assets::ImageHandle;
use crate::math::Vec3;
use vstd::prelude::*;

verus! {

/// Where an entity is and how large it is drawn.
#[derive(Clone, Copy, Debug, PartialEq, Eq, Structural)]
pub struct Transform {
    pub translation: Vec3,
    pub scale: Vec3,
}

/// The components of an entity that is drawn from one image.
#[derive(Clone, Copy, Debug, PartialEq, Eq, Structural)]
pub struct SpriteBundle {
    pub transform: Transform,
    pub texture: ImageHandle,
}

/// The components that one spawn gives to one new entity.
#[derive(Clone, Copy, Debug, PartialEq, Eq, Structural)]
pub enum Bundle {
    /// A sprite tagged as the player.
    PlayerSprite(SpriteBundle, Player),
    /// A camera that looks at the plane of the sprites.
    Camera2d,
}

impl Bundle {
    /// Whether the entity carries the [`Player`] tag.
    pub open spec fn spec_is_player(&self) -> bool {
        self is PlayerSprite
    }

    /// Whether the entity carries the [`Player`] tag.
    #[verifier::when_used_as_spec(spec_is_player)]
    pub fn is_player(&self) -> (tagged: bool)
        ensures
            tagged == self.spec_is_player(),
    {
        match self {
            Bundle::PlayerSprite(_, _) => true,
            Bundle::Camera2d => false,
        }
    }
}

/// How many of the entities carry the [`Player`] tag.
pub open spec fn count_players(world: Seq<Bundle>) -> nat
    decreases world.len(),
{
    if world.len() == 0 {
        0
    } else {
        count_players(world.drop_last()) + if world.last().is_player() {
            1nat
        } else {
            0nat
        }
    }
}

/// The index of a player-tagged entity. Where exactly one entity carries the
/// tag, this is that entity (see [`lemma_player_is_unique`]).
pub open spec fn player_index(world: Seq<Bundle>) -> int {
    choose|i: int| 0 <= i < world.len() && (#[trigger] world[i]).is_player()
}

/// The sprite of the player-tagged entity.
pub open spec fn the_player(world: Seq<Bundle>) -> SpriteBundle {
    world[player_index(world)]->PlayerSprite_0
}

/// Spawning one more entity adds one to the count if it is tagged, and
/// nothing otherwise.
pub proof fn lemma_count_players_push(world: Seq<Bundle>, bundle: Bundle)
    ensures
        count_players(world.push(bundle)) == count_players(world) + if bundle.is_player() {
            1nat
        } else {
            0nat
        },
{
    assert(world.push(bundle).drop_last() =~= world);
}

/// A count of zero means that no entity is tagged.
pub proof fn lemma_no_players(world: Seq<Bundle>)
    requires
        count_players(world) == 0,
    ensures
        forall|i: int| 0 <= i < world.len() ==> !(#[trigger] world[i]).is_player(),
    decreases world.len(),
{
    if world.len() > 0 {
        lemma_no_players(world.drop_last());
        assert forall|i: int| 0 <= i < world.len() implies !(#[trigger] world[i]).is_player() by {
            if i < world.len() - 1 {
                assert(world[i] == world.drop_last()[i]);
            }
        }
    }
}

/// A count above zero means that some entity is tagged.
pub proof fn lemma_some_player(world: Seq<Bundle>)
    requires
        count_players(world) > 0,
    ensures
        0 <= player_index(world) < world.len(),
        world[player_index(world)].is_player(),
    decreases world.len(),
{
    if world.last().is_player() {
        assert(world[world.len() - 1].is_player());
    } else {
        let front = world.drop_last();
        lemma_some_player(front);
        assert(world[player_index(front)] == front[player_index(front)]);
    }
}

/// Where the count is one, the tagged entity is the only one.
pub proof fn lemma_player_is_unique(world: Seq<Bundle>, i: int, j: int)
    requires
        count_players(world) == 1,
        0 <= i < world.len(),
        0 <= j < world.len(),
        world[i].is_player(),
        world[j].is_player(),
    ensures
        i == j,
    decreases world.len(),
{
    let front = world.drop_last();
    if world.last().is_player() {
        lemma_no_players(front);
        if i < world.len() - 1 {
            assert(world[i] == front[i]);
        }
        if j < world.len() - 1 {
            assert(world[j] == front[j]);
        }
    } else {
        assert(world[i] == front[i]);
        assert(world[j] == front[j]);
        lemma_player_is_unique(front, i, j);
    }
}

/// A handle to an entity spawned through a [`Commands`]: its place among the
/// entities spawned through it, counted from zero.
#[derive(Clone, Copy, Debug, PartialEq, Eq, Structural)]
pub struct Entity {
    pub index: usize,
}

/// The entity-creation facility that a startup routine is handed. Each spawn
/// is recorded, in order; nothing is created until the routine has returned.
#[derive(Debug)]
pub struct Commands {
    queue: Vec<Bundle>,
}

impl View for Commands {
    type V = Seq<Bundle>;

    /// The bundles spawned so far, oldest first.
    closed spec fn view(&self) -> Seq<Bundle> {
        self.queue@
    }
}

impl Commands {
    /// A facility through which nothing has been spawned yet.
    pub fn new() -> (commands: Commands)
        ensures
            commands@ == Seq::<Bundle>::empty(),
    {
        Commands { queue: Vec::new() }
    }

    /// Creates one entity with the components of `bundle`, and hands back
    /// its handle.
    pub fn spawn(&mut self, bundle: Bundle) -> (entity: Entity)
        ensures
            final(self)@ == old(self)@.push(bundle),
            entity.index == old(self)@.len(),
    {
        let index = self.queue.len();
        self.queue.push(bundle);
        Entity { index }
    }

    /// The bundles spawned, oldest first.
    pub fn into_bundles(self) -> (bundles: Vec<Bundle>)
        ensures
            bundles@ == self@,
    {
        self.queue
    }
}

} // verus!
