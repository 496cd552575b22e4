//! The application: what is registered in it, what one update cycle does to
//! its entities, and the routine that spawns the player.

use crate::assets::{AssetServer, ImageAsset, ImageHandle};
use crate::game_parameters::GameParameters;
use crate::math::Vec2;
use crate::world::{
    count_players, lemma_count_players_push, lemma_player_is_unique, lemma_some_player,
    player_index, the_player, Bundle, Commands, SpriteBundle, Transform,
};
use vstd::prelude::*;

verus! {

/// The tag of the entity that the person at the keyboard controls.
#[derive(Clone, Copy, Debug, PartialEq, Eq, Structural)]
pub struct Player;

/// An engine plugin that the game asks about by name.
#[derive(Clone, Copy, Debug, PartialEq, Eq, Structural)]
pub enum Plugin {
    /// Loads assets from files.
    Asset,
    /// Sets up the pools of worker threads that loading runs on.
    TaskPool,
}

/// What can be registered in one step.
#[derive(Clone, Copy, Debug, PartialEq, Eq, Structural)]
pub enum Plugins {
    /// One plugin.
    Single(Plugin),
    /// The engine's default set. It holds every [`Plugin`], and what draws
    /// the window.
    Default,
}

impl Plugins {
    /// Whether registering this registers `plugin`.
    pub open spec fn spec_provides(self, plugin: Plugin) -> bool {
        match self {
            Plugins::Single(single) => single == plugin,
            Plugins::Default => true,
        }
    }

    /// Whether registering this registers `plugin`.
    #[verifier::when_used_as_spec(spec_provides)]
    pub fn provides(self, plugin: Plugin) -> (provided: bool)
        ensures
            provided == self.spec_provides(plugin),
    {
        match self {
            Plugins::Single(Plugin::Asset) => matches!(plugin, Plugin::Asset),
            Plugins::Single(Plugin::TaskPool) => matches!(plugin, Plugin::TaskPool),
            Plugins::Default => true,
        }
    }
}

/// A routine that runs once, in the first update cycle.
#[derive(Clone, Copy, Debug, PartialEq, Eq, Structural)]
pub enum StartupSystem {
    /// [`add_player`] with these parameters.
    AddPlayer(GameParameters),
    /// [`add_camera`].
    AddCamera,
}

/// The sprite that the parameters describe: at the configured position and
/// scale, holding the bird's image if an image is asked for and the
/// placeholder if not.
pub open spec fn player_sprite(parameters: GameParameters) -> SpriteBundle {
    SpriteBundle {
        transform: Transform {
            translation: parameters.initial_player_position,
            scale: parameters.initial_player_scale,
        },
        texture: if parameters.use_texture {
            ImageHandle::Strong(ImageAsset::BevyBirdDark)
        } else {
            ImageHandle::Placeholder
        },
    }
}

/// The entity that [`add_player`] spawns: that sprite, tagged as the player.
pub open spec fn player_bundle(parameters: GameParameters) -> Bundle {
    Bundle::PlayerSprite(player_sprite(parameters), Player)
}

/// The entity that a startup routine spawns.
pub open spec fn spawn_of(system: StartupSystem) -> Bundle {
    match system {
        StartupSystem::AddPlayer(parameters) => player_bundle(parameters),
        StartupSystem::AddCamera => Bundle::Camera2d,
    }
}

/// The entities that the routines spawn when run in order.
pub open spec fn spawned(systems: Seq<StartupSystem>) -> Seq<Bundle> {
    systems.map_values(|system: StartupSystem| spawn_of(system))
}

/// Spawns the player: one entity, with the sprite that the parameters
/// describe and the [`Player`] tag. The asset server is asked for the image
/// only if the parameters ask for one.
pub fn add_player(
    commands: &mut Commands,
    asset_server: &AssetServer,
    parameters: &GameParameters,
)
    ensures
        final(commands)@ == old(commands)@.push(player_bundle(*parameters)),
{
    let texture = if parameters.use_texture {
        asset_server.load(ImageAsset::BevyBirdDark)
    } else {
        ImageHandle::Placeholder
    };
    commands.spawn(
        Bundle::PlayerSprite(
            SpriteBundle {
                transform: Transform {
                    translation: parameters.initial_player_position,
                    scale: parameters.initial_player_scale,
                },
                texture,
            },
            Player,
        ),
    );
}

/// Spawns the camera through which the sprites are seen.
pub fn add_camera(commands: &mut Commands)
    ensures
        final(commands)@ == old(commands)@.push(Bundle::Camera2d),
{
    commands.spawn(Bundle::Camera2d);
}

/// Runs one startup routine.
pub fn run_startup_system(
    system: &StartupSystem,
    commands: &mut Commands,
    asset_server: &AssetServer,
)
    ensures
        final(commands)@ == old(commands)@.push(spawn_of(*system)),
{
    match system {
        StartupSystem::AddPlayer(parameters) => add_player(commands, asset_server, parameters),
        StartupSystem::AddCamera => add_camera(commands),
    }
}

/// What an [`App`] stands for.
pub struct AppState {
    /// The plugin registrations, oldest first.
    pub plugins: Seq<Plugins>,
    /// The startup routines, in the order in which they will run.
    pub startup: Seq<StartupSystem>,
    /// Whether the first update cycle is over.
    pub started: bool,
    /// The entities, oldest first.
    pub world: Seq<Bundle>,
}

impl AppState {
    /// The application with nothing registered and no entity.
    pub open spec fn new() -> AppState {
        AppState {
            plugins: Seq::empty(),
            startup: Seq::empty(),
            started: false,
            world: Seq::empty(),
        }
    }

    /// This application with `system` registered after the other routines.
    pub open spec fn add_systems(self, system: StartupSystem) -> AppState {
        AppState { startup: self.startup.push(system), ..self }
    }

    /// Whether some registration has brought `plugin`.
    pub open spec fn is_plugin_added(self, plugin: Plugin) -> bool {
        exists|i: int| 0 <= i < self.plugins.len() && (#[trigger] self.plugins[i]).provides(plugin)
    }

    /// Whether `plugins` brings nothing that is registered already.
    pub open spec fn accepts(self, plugins: Plugins) -> bool {
        forall|plugin: Plugin| #[trigger] plugins.provides(plugin) ==> !self.is_plugin_added(plugin)
    }

    /// This application with `plugins` registered.
    pub open spec fn add_plugins(self, plugins: Plugins) -> AppState {
        AppState { plugins: self.plugins.push(plugins), ..self }
    }

    /// This application after one update cycle. The first cycle runs every
    /// startup routine, in order, and creates what they spawned; a later one
    /// changes nothing.
    pub open spec fn update(self) -> AppState {
        if self.started {
            self
        } else {
            AppState { started: true, world: self.world + spawned(self.startup), ..self }
        }
    }
}

/// The application that [`create_app`] makes: no plugin, no entity, and
/// [`add_player`] with the given parameters as its one startup routine.
pub open spec fn created_app(game_parameters: GameParameters) -> AppState {
    AppState::new().add_systems(StartupSystem::AddPlayer(game_parameters))
}

/// The application: its plugins, its startup routines and its entities.
#[derive(Debug)]
pub struct App {
    plugins: Vec<Plugins>,
    startup: Vec<StartupSystem>,
    started: bool,
    world: Vec<Bundle>,
}

impl View for App {
    type V = AppState;

    /// What is registered, whether the first update cycle is over, and the
    /// entities.
    closed spec fn view(&self) -> AppState {
        AppState {
            plugins: self.plugins@,
            startup: self.startup@,
            started: self.started,
            world: self.world@,
        }
    }
}

impl App {
    /// An application with nothing registered and no entity.
    pub fn new() -> (app: App)
        ensures
            app@ == AppState::new(),
    {
        App { plugins: Vec::new(), startup: Vec::new(), started: false, world: Vec::new() }
    }

    /// Registers a routine to run in the first update cycle, after those
    /// registered before it. One registered after that cycle never runs.
    pub fn add_systems(&mut self, system: StartupSystem)
        ensures
            final(self)@ == old(self)@.add_systems(system),
    {
        self.startup.push(system);
    }

    /// Whether `plugin` is registered, alone or as part of a set.
    pub fn is_plugin_added(&self, plugin: Plugin) -> (added: bool)
        ensures
            added == self@.is_plugin_added(plugin),
    {
        let mut i: usize = 0;
        while i < self.plugins.len()
            invariant
                i <= self.plugins.len(),
                forall|j: int| 0 <= j < i ==> !(#[trigger] self.plugins@[j]).provides(plugin),
            decreases self.plugins.len() - i,
        {
            if self.plugins[i].provides(plugin) {
                assert(self@.plugins[i as int].provides(plugin));
                return true;
            }
            i += 1;
        }
        false
    }

    /// Whether [`App::add_plugins`] may be called with `plugins`.
    pub fn accepts(&self, plugins: Plugins) -> (accepted: bool)
        ensures
            accepted == self@.accepts(plugins),
    {
        match plugins {
            Plugins::Single(plugin) => {
                let added = self.is_plugin_added(plugin);
                assert(plugins.provides(plugin));
                !added
            },
            Plugins::Default => {
                let asset = self.is_plugin_added(Plugin::Asset);
                let task_pool = self.is_plugin_added(Plugin::TaskPool);
                assert(plugins.provides(Plugin::Asset));
                assert(plugins.provides(Plugin::TaskPool));
                !asset && !task_pool
            },
        }
    }

    /// Registers a plugin or a set of plugins. The engine refuses a plugin
    /// that is registered already, so the caller rules that out.
    pub fn add_plugins(&mut self, plugins: Plugins)
        requires
            old(self)@.accepts(plugins),
        ensures
            final(self)@ == old(self)@.add_plugins(plugins),
    {
        self.plugins.push(plugins);
    }

    /// Runs one update cycle.
    pub fn update(&mut self)
        ensures
            final(self)@ == old(self)@.update(),
    {
        if self.started {
            return ;
        }
        let mut commands = Commands::new();
        let asset_server = AssetServer;
        let mut i: usize = 0;
        while i < self.startup.len()
            invariant
                *self == *old(self),
                i <= self.startup.len(),
                commands@ == spawned(self.startup@.take(i as int)),
            decreases self.startup.len() - i,
        {
            run_startup_system(&self.startup[i], &mut commands, &asset_server);
            assert(self.startup@.take(i + 1) == self.startup@.take(i as int).push(
                self.startup@[i as int],
            ));
            i += 1;
        }
        assert(self.startup@.take(i as int) == self.startup@);
        let mut bundles = commands.into_bundles();
        self.world.append(&mut bundles);
        self.started = true;
    }

    /// The plugin registrations, oldest first.
    pub fn plugins(&self) -> (plugins: &Vec<Plugins>)
        ensures
            plugins@ == self@.plugins,
    {
        &self.plugins
    }

    /// The startup routines, in the order in which they run.
    pub fn startup_systems(&self) -> (systems: &Vec<StartupSystem>)
        ensures
            systems@ == self@.startup,
    {
        &self.startup
    }

    /// Whether the first update cycle is over.
    pub fn is_started(&self) -> (started: bool)
        ensures
            started == self@.started,
    {
        self.started
    }

    /// The entities, oldest first.
    pub fn world(&self) -> (world: &Vec<Bundle>)
        ensures
            world@ == self@.world,
    {
        &self.world
    }
}

/// Makes the application of the game: [`add_player`] with the given
/// parameters is registered, and nothing has run yet.
pub fn create_app(game_parameters: GameParameters) -> (app: App)
    ensures
        app@ == created_app(game_parameters),
{
    let mut app = App::new();
    app.add_systems(StartupSystem::AddPlayer(game_parameters));
    app
}

/// How many entities carry the [`Player`] tag.
pub fn count_n_players(app: &App) -> (n: usize)
    ensures
        n == count_players(app@.world),
{
    let world = app.world();
    let mut n: usize = 0;
    let mut i: usize = 0;
    while i < world.len()
        invariant
            i <= world.len(),
            n <= i,
            n == count_players(world@.take(i as int)),
        decreases world.len() - i,
    {
        proof {
            assert(world@.take(i + 1) == world@.take(i as int).push(world@[i as int]));
            lemma_count_players_push(world@.take(i as int), world@[i as int]);
        }
        if world[i].is_player() {
            n += 1;
        }
        i += 1;
    }
    assert(world@.take(i as int) == world@);
    n
}

/// The sprite of the one entity that carries the [`Player`] tag.
fn single_player(app: &App) -> (sprite: SpriteBundle)
    requires
        count_players(app@.world) == 1,
    ensures
        sprite == the_player(app@.world),
{
    let world = app.world();
    proof {
        lemma_some_player(world@);
    }
    let mut i: usize = 0;
    loop
        invariant
            world@ == app@.world,
            count_players(world@) == 1,
            i <= player_index(world@) < world.len(),
            world@[player_index(world@)].is_player(),
        decreases world.len() - i,
    {
        match world[i] {
            Bundle::PlayerSprite(sprite, _) => {
                proof {
                    lemma_player_is_unique(world@, i as int, player_index(world@));
                }
                return sprite;
            },
            Bundle::Camera2d => {},
        }
        i += 1;
    }
}

/// Where the player is in the plane.
///
/// There must be exactly one player.
pub fn get_player_coordinat(app: &App) -> (coordinat: Vec2)
    requires
        count_players(app@.world) == 1,
    ensures
        coordinat == the_player(app@.world).transform.translation.xy(),
{
    single_player(app).transform.translation.xy()
}

/// How large the player is drawn in the plane.
///
/// There must be exactly one player.
pub fn get_player_scale(app: &App) -> (scale: Vec2)
    requires
        count_players(app@.world) == 1,
    ensures
        scale == the_player(app@.world).transform.scale.xy(),
{
    single_player(app).transform.scale.xy()
}

/// Whether the player holds an image.
///
/// There must be exactly one player.
pub fn get_player_has_texture(app: &App) -> (has_texture: bool)
    requires
        count_players(app@.world) == 1,
    ensures
        has_texture == the_player(app@.world).texture.is_strong(),
{
    single_player(app).texture.is_strong()
}

/// A new application has no player, and one update cycle gives it none.
pub proof fn lemma_new_app_has_no_player()
    ensures
        count_players(AppState::new().world) == 0,
        count_players(AppState::new().update().world) == 0,
{
    assert(AppState::new().update().world =~= Seq::<Bundle>::empty());
}

/// Registering a set registers every plugin that the set provides, and
/// unregisters nothing.
pub proof fn lemma_add_plugins_registers(app: AppState, plugins: Plugins, plugin: Plugin)
    ensures
        app.add_plugins(plugins).is_plugin_added(plugin) == (app.is_plugin_added(plugin)
            || plugins.provides(plugin)),
{
    let after = app.add_plugins(plugins);
    if app.is_plugin_added(plugin) {
        let i = choose|i: int| 0 <= i < app.plugins.len() && app.plugins[i].provides(plugin);
        assert(after.plugins[i].provides(plugin));
    }
    if plugins.provides(plugin) {
        assert(after.plugins[app.plugins.len() as int].provides(plugin));
    }
    if after.is_plugin_added(plugin) {
        let i = choose|i: int| 0 <= i < after.plugins.len() && after.plugins[i].provides(plugin);
        if i < app.plugins.len() {
            assert(app.plugins[i].provides(plugin));
        }
    }
}

/// Startup routines run once: a second update cycle changes nothing.
pub proof fn lemma_update_is_idempotent(app: AppState)
    ensures
        app.update().update() == app.update(),
{
}

/// A camera is no player: registering one changes neither how many players
/// the first update cycle leaves nor, where that is one, which sprite the
/// player has.
pub proof fn lemma_camera_is_no_player(app: AppState)
    requires
        !app.started,
    ensures
        count_players(app.add_systems(StartupSystem::AddCamera).update().world) == count_players(
            app.update().world,
        ),
        count_players(app.update().world) == 1 ==> the_player(
            app.add_systems(StartupSystem::AddCamera).update().world,
        ) == the_player(app.update().world),
{
    let without = app.update().world;
    let with = app.add_systems(StartupSystem::AddCamera).update().world;
    assert(with =~= without.push(Bundle::Camera2d));
    lemma_count_players_push(without, Bundle::Camera2d);
    if count_players(without) == 1 {
        lemma_some_player(without);
        lemma_some_player(with);
        assert(with[player_index(without)] == without[player_index(without)]);
        lemma_player_is_unique(with, player_index(with), player_index(without));
    }
}

} // verus!
