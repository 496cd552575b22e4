//! The game as a whole: what holds of its application from the moment it is
//! made, through every registration and every update cycle.

use crate::app::{
    created_app, player_bundle, player_sprite, spawned, AppState, Plugin, Plugins, StartupSystem,
};
use crate::assets::{ImageAsset, ImageHandle};
use crate::game_parameters::GameParameters;
use crate::world::{
    count_players, lemma_count_players_push, lemma_player_is_unique, lemma_some_player,
    player_index, the_player, Bundle, Transform,
};
use vstd::prelude::*;

verus! {

/// Whether `app` is the game for these parameters at some point of its life.
///
/// The first startup routine spawns the player and every other one a camera.
/// Before the first update cycle there is no entity. After it there are the
/// entities of the routines that were registered when it ran.
pub open spec fn is_game(app: AppState, game_parameters: GameParameters) -> bool {
    &&& app.startup.len() >= 1
    &&& app.startup[0] == StartupSystem::AddPlayer(game_parameters)
    &&& forall|i: int| 1 <= i < app.startup.len() ==> app.startup[i] == StartupSystem::AddCamera
    &&& if app.started {
        exists|ran: int|
            1 <= ran <= app.startup.len() && app.world == #[trigger] spawned(
                app.startup.take(ran),
            )
    } else {
        app.world == Seq::<Bundle>::empty()
    }
}

/// What `create_app` makes is the game.
pub proof fn lemma_created_app_is_game(game_parameters: GameParameters)
    ensures
        is_game(created_app(game_parameters), game_parameters),
{
}

/// The game stays the game when a camera or plugins are registered, and when
/// it is updated.
pub proof fn lemma_game_stays_game(app: AppState, game_parameters: GameParameters, plugins: Plugins)
    requires
        is_game(app, game_parameters),
    ensures
        is_game(app.add_systems(StartupSystem::AddCamera), game_parameters),
        is_game(app.add_plugins(plugins), game_parameters),
        is_game(app.update(), game_parameters),
{
    let with_camera = app.add_systems(StartupSystem::AddCamera);
    if app.started {
        let ran = choose|ran: int|
            1 <= ran <= app.startup.len() && app.world == #[trigger] spawned(
                app.startup.take(ran),
            );
        assert(with_camera.startup.take(ran) =~= app.startup.take(ran));
    } else {
        assert(app.startup.take(app.startup.len() as int) =~= app.startup);
    }
}

/// The game has no player before its first update cycle and exactly one ever
/// after. That player has the position and the scale of the parameters, bit
/// for bit, and holds an image if and only if the parameters ask for one.
pub proof fn lemma_game_has_its_player(app: AppState, game_parameters: GameParameters)
    requires
        is_game(app, game_parameters),
    ensures
        count_players(app.world) == if app.started {
            1nat
        } else {
            0nat
        },
        app.started ==> the_player(app.world) == player_sprite(game_parameters),
{
    if app.started {
        let ran = choose|ran: int|
            1 <= ran <= app.startup.len() && app.world == #[trigger] spawned(
                app.startup.take(ran),
            );
        assert(app.world[0] == player_bundle(game_parameters));
        assert forall|i: int| 1 <= i < app.world.len() implies !(#[trigger] app.world[i]).is_player() by {
            assert(app.startup.take(ran)[i] == StartupSystem::AddCamera);
        }
        lemma_player_leads(app.world);
    }
}

/// The game of `create_app` has no player until it runs, and exactly one
/// after its first update cycle, whatever the parameters.
pub proof fn lemma_created_app_has_one_player(game_parameters: GameParameters)
    ensures
        count_players(created_app(game_parameters).world) == 0,
        count_players(created_app(game_parameters).update().world) == 1,
{
    let app = created_app(game_parameters);
    lemma_game_stays_game(app, game_parameters, Plugins::Default);
    lemma_game_has_its_player(app, game_parameters);
    lemma_game_has_its_player(app.update(), game_parameters);
}

/// After the first update cycle the player is where the parameters put it and
/// as large as they make it: both vectors arrive bit for bit.
pub proof fn lemma_player_transform_is_as_configured(game_parameters: GameParameters)
    ensures
        the_player(created_app(game_parameters).update().world).transform == (Transform {
            translation: game_parameters.initial_player_position,
            scale: game_parameters.initial_player_scale,
        }),
{
    let app = created_app(game_parameters);
    lemma_game_stays_game(app, game_parameters, Plugins::Default);
    lemma_game_has_its_player(app.update(), game_parameters);
}

/// After the first update cycle the player holds a strong handle, to the
/// bird, if the parameters ask for an image, and the placeholder if they do
/// not.
pub proof fn lemma_player_texture_is_as_configured(game_parameters: GameParameters)
    ensures
        the_player(created_app(game_parameters).update().world).texture.is_strong()
            == game_parameters.use_texture,
        !game_parameters.use_texture ==> the_player(
            created_app(game_parameters).update().world,
        ).texture == ImageHandle::Placeholder,
        game_parameters.use_texture ==> the_player(
            created_app(game_parameters).update().world,
        ).texture == ImageHandle::Strong(ImageAsset::BevyBirdDark),
{
    let app = created_app(game_parameters);
    lemma_game_stays_game(app, game_parameters, Plugins::Default);
    lemma_game_has_its_player(app.update(), game_parameters);
}

/// Making the game registers no plugin, and running it registers none
/// either. The default set may then be registered, and brings the asset
/// plugin.
pub proof fn lemma_asset_plugin_comes_with_default_set(game_parameters: GameParameters)
    ensures
        forall|plugin: Plugin| !created_app(game_parameters).is_plugin_added(plugin),
        forall|plugin: Plugin| !created_app(game_parameters).update().is_plugin_added(plugin),
        created_app(game_parameters).accepts(Plugins::Default),
        created_app(game_parameters).add_plugins(Plugins::Default).is_plugin_added(Plugin::Asset),
        created_app(game_parameters).update().accepts(Plugins::Default),
        created_app(game_parameters).update().add_plugins(Plugins::Default).is_plugin_added(
            Plugin::Asset,
        ),
{
    let made = created_app(game_parameters).add_plugins(Plugins::Default);
    assert(made.plugins[0].provides(Plugin::Asset));
    let run = created_app(game_parameters).update().add_plugins(Plugins::Default);
    assert(run.plugins[0].provides(Plugin::Asset));
}

/// Where the first entity is a player and no other is, there is one player,
/// and it is the first entity.
proof fn lemma_player_leads(world: Seq<Bundle>)
    requires
        world.len() >= 1,
        world[0].is_player(),
        forall|i: int| 1 <= i < world.len() ==> !(#[trigger] world[i]).is_player(),
    ensures
        count_players(world) == 1,
        player_index(world) == 0,
    decreases world.len(),
{
    let front = world.drop_last();
    if world.len() == 1 {
        lemma_count_players_push(front, world[0]);
        assert(front.push(world[0]) =~= world);
    } else {
        assert(front[0] == world[0]);
        assert forall|i: int| 1 <= i < front.len() implies !(#[trigger] front[i]).is_player() by {
            assert(front[i] == world[i]);
        }
        lemma_player_leads(front);
    }
    lemma_some_player(world);
    lemma_player_is_unique(world, player_index(world), 0);
}

} // verus!
