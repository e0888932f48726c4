//! The scene controller: a state machine that answers each engine event
//! with the commands the host has to carry out.

use vstd::prelude::*;
use crate::command::{
    Action, Caption, Fault, Handle, has_stage_exit, is_stage_exit, BANNER_X, BANNER_Y,
    CAMERA_OFFSET_X, CAMERA_OFFSET_Y, PLAYER_START_X, PLAYER_START_Y,
};
use crate::session::StageState;
use crate::spawner::{is_wave, spawn_wave, EnemyPlacement, RandomSource};

verus! {

/// Where the controller stands in the life of a stage.
#[derive(Clone, Copy, Debug, PartialEq, Eq, Structural)]
pub enum Phase {
    /// The intro is playing; nothing is in the arena yet.
    Loading,
    /// The player is in the arena.
    Running,
    /// The player is lost. Nothing leads out of this phase.
    GameOver,
}

/// The controller of one stage.
#[derive(Clone, Copy, Debug, PartialEq, Eq, Structural)]
pub struct GameScene {
    pub phase: Phase,
    /// The descriptor from which every enemy is made.
    pub enemy_template: Option<Handle>,
    /// The player entity, while the controller holds one.
    pub player: Option<Handle>,
    /// The label that names the stage during the intro.
    pub stage_label: Option<Handle>,
}

/// The commands that announce a stage: the stage's number on the label, if
/// there is one, and the intro animation. Without a session nothing is done.
pub open spec fn ready_actions(session: Option<StageState>, label: Option<Handle>) -> Seq<Action> {
    match session {
        None => Seq::empty(),
        Some(s) => match label {
            Some(l) => seq![
                Action::SetText { label: l, caption: Caption::Stage(s.current_stage) },
                Action::PlayIntro,
            ],
            None => seq![Action::PlayIntro],
        },
    }
}

/// The command that refreshes the kill counter, where there is a session to
/// read and a counter to write to.
pub open spec fn tick_action(session: Option<StageState>, hud: Option<Handle>) -> Option<Action> {
    match (session, hud) {
        (Some(s), Some(h)) => Some(Action::SetText { label: h, caption: Caption::Kills(s.kills) }),
        _ => None,
    }
}

/// The command that makes one enemy, where there is a template to make it
/// from.
pub open spec fn spawn_action(template: Option<Handle>, p: EnemyPlacement) -> Option<Action> {
    match template {
        Some(t) => Some(Action::SpawnEnemy { template: t, x: p.x, y: p.y }),
        None => None,
    }
}

/// The commands that make a wave: one per placement, in order, or none at
/// all without a template.
pub open spec fn spawn_actions(template: Option<Handle>, wave: Seq<EnemyPlacement>) -> Seq<Action> {
    match template {
        Some(t) => Seq::new(
            wave.len(),
            |i: int| Action::SpawnEnemy { template: t, x: wave[i].x, y: wave[i].y },
        ),
        None => Seq::empty(),
    }
}

/// The commands that bring the player in: the stage label is hidden, the
/// player is placed, gets its camera and enters the arena.
pub open spec fn arrival_actions(label: Option<Handle>, player: Handle) -> Seq<Action> {
    let entry = seq![
        Action::SetPosition { target: player, x: PLAYER_START_X, y: PLAYER_START_Y },
        Action::AttachCamera { player: player, x: CAMERA_OFFSET_X, y: CAMERA_OFFSET_Y },
        Action::AddToArena { entity: player },
    ];
    match label {
        Some(l) => seq![Action::SetVisible { label: l, visible: false }] + entry,
        None => entry,
    }
}

/// Whether a collision ends the stage: it carries the stage-exit layer and
/// the stage is running.
pub open spec fn clears_stage(phase: Phase, layers: u32) -> bool {
    is_stage_exit(layers) && phase == Phase::Running
}

/// What a collision is answered with, given the session record at hand.
/// A collision that ends the stage needs a player to stop and a stage
/// number that can still grow.
pub open spec fn collision_outcome(scene: GameScene, session: StageState, layers: u32) -> Result<
    Seq<Action>,
    Fault,
> {
    if !clears_stage(scene.phase, layers) {
        Ok(Seq::empty())
    } else {
        match scene.player {
            Some(p) => if session.current_stage < u32::MAX {
                Ok(seq![Action::FreezePlayer { player: p }, Action::ReloadScene])
            } else {
                Err(Fault::StageLimit)
            },
            None => Err(Fault::PlayerUnavailable),
        }
    }
}

/// The session record after a collision: one stage on where the collision
/// ends the stage and nothing fails, as it was otherwise.
pub open spec fn collision_session(scene: GameScene, session: StageState, layers: u32) -> StageState {
    if clears_stage(scene.phase, layers) && collision_outcome(scene, session, layers) is Ok {
        session.advanced()
    } else {
        session
    }
}

/// The commands that destroy what hangs on the player, in order.
pub open spec fn free_actions(children: Seq<Handle>) -> Seq<Action> {
    Seq::new(children.len(), |i: int| Action::QueueFree { entity: children[i] })
}

/// The commands that put up the game-over banner on a label.
pub open spec fn banner_actions(label: Option<Handle>) -> Seq<Action> {
    match label {
        Some(l) => seq![
            Action::SetText { label: l, caption: Caption::GameOver },
            Action::SetVisible { label: l, visible: true },
            Action::SetPosition { target: l, x: BANNER_X, y: BANNER_Y },
        ],
        None => Seq::empty(),
    }
}

/// The commands that answer the player's death: everything attached to the
/// player is queued for destruction; a player that stands in the arena is
/// taken out of it and the banner goes up. Without a player nothing is done.
pub open spec fn death_actions(
    player: Option<Handle>,
    children: Seq<Handle>,
    attached: bool,
    label: Option<Handle>,
) -> Seq<Action> {
    match player {
        None => Seq::empty(),
        Some(p) => if attached {
            free_actions(children) + seq![Action::RemoveFromArena { entity: p }] + banner_actions(
                label,
            )
        } else {
            free_actions(children)
        },
    }
}

impl GameScene {
    /// The phases and the player go together: a player is held exactly
    /// while the stage is running.
    pub open spec fn wf(&self) -> bool {
        self.phase == Phase::Running <==> self.player is Some
    }

    /// The controller once the stage is announced with this template.
    pub open spec fn announced(
        self,
        template: Option<Handle>,
        session: Option<StageState>,
        label: Option<Handle>,
    ) -> GameScene {
        GameScene {
            enemy_template: template,
            stage_label: if session is Some && label is Some {
                label
            } else {
                self.stage_label
            },
            ..self
        }
    }

    /// The controller once this player has entered the arena.
    pub open spec fn started(self, player: Handle) -> GameScene {
        GameScene { phase: Phase::Running, player: Some(player), ..self }
    }

    /// The controller once the player is lost.
    pub open spec fn ended(self) -> GameScene {
        GameScene { phase: Phase::GameOver, player: None, ..self }
    }

    /// A controller for a scene that has just been built.
    pub fn new() -> (scene: GameScene)
        ensures
            scene.phase == Phase::Loading,
            scene.enemy_template is None,
            scene.player is None,
            scene.stage_label is None,
            scene.wf(),
    {
        GameScene { phase: Phase::Loading, enemy_template: None, player: None, stage_label: None }
    }

    /// The scene is in place. Fails, and changes nothing, exactly when the
    /// enemy template could not be had. Otherwise keeps the template and,
    /// with a session at hand, writes the stage's number on the stage
    /// label, keeps the label, and starts the intro.
    pub fn ready(
        &mut self,
        template: Option<Handle>,
        session: Option<StageState>,
        label: Option<Handle>,
    ) -> (result: Result<Vec<Action>, Fault>)
        ensures
            template is None ==> *final(self) == *old(self) && result == Err::<Vec<Action>, Fault>(
                Fault::TemplateUnavailable,
            ),
            template is Some ==> {
                &&& *final(self) == old(self).announced(template, session, label)
                &&& result matches Ok(actions)
                &&& actions@ == ready_actions(session, label)
            },
            old(self).wf() ==> final(self).wf(),
    {
        if template.is_none() {
            return Err(Fault::TemplateUnavailable);
        }
        self.enemy_template = template;
        let mut actions: Vec<Action> = Vec::new();
        let state = match session {
            Some(state) => state,
            None => {
                assert(actions@ =~= ready_actions(session, label));
                return Ok(actions);
            },
        };
        if let Some(l) = label {
            actions.push(Action::SetText { label: l, caption: Caption::Stage(state.current_stage) });
            self.stage_label = Some(l);
        }
        actions.push(Action::PlayIntro);
        assert(actions@ =~= ready_actions(session, label));
        Ok(actions)
    }

    /// One frame has passed. Asks for the kill counter to show the current
    /// count, where there is a session to read and a counter to write to.
    pub fn process(&self, session: Option<StageState>, hud: Option<Handle>) -> (action: Option<
        Action,
    >)
        ensures
            action == tick_action(session, hud),
    {
        let state = match session {
            Some(state) => state,
            None => {
                return None;
            },
        };
        match hud {
            Some(h) => Some(Action::SetText { label: h, caption: Caption::Kills(state.kills) }),
            None => None,
        }
    }

    /// Asks for one enemy at a position. The template is taken out for the
    /// time of the request and put back; without one nothing is asked for.
    pub fn spawn_enemy(&mut self, x: u32, y: u32) -> (action: Option<Action>)
        ensures
            *final(self) == *old(self),
            action == spawn_action(old(self).enemy_template, EnemyPlacement { x: x, y: y }),
    {
        match self.enemy_template.take() {
            Some(template) => {
                let action = Action::SpawnEnemy { template: template, x: x, y: y };
                self.enemy_template = Some(template);
                Some(action)
            },
            None => None,
        }
    }

    /// Asks for every enemy of a wave that has been drawn, in order.
    pub fn request_wave(&mut self, wave: &Vec<EnemyPlacement>) -> (actions: Vec<Action>)
        ensures
            *final(self) == *old(self),
            actions@ == spawn_actions(old(self).enemy_template, wave@),
    {
        let mut actions: Vec<Action> = Vec::new();
        let mut i: usize = 0;
        while i < wave.len()
            invariant
                i <= wave.len(),
                *self == *old(self),
                self.enemy_template is Some ==> actions@.len() == i,
                self.enemy_template is None ==> actions@.len() == 0,
                forall|j: int|
                    0 <= j < actions@.len() ==> Some(#[trigger] actions@[j]) == spawn_action(
                        self.enemy_template,
                        wave@[j],
                    ),
            decreases wave.len() - i,
        {
            let p = wave[i];
            if let Some(action) = self.spawn_enemy(p.x, p.y) {
                actions.push(action);
            }
            i = i + 1;
        }
        assert(actions@ =~= spawn_actions(old(self).enemy_template, wave@));
        actions
    }

    /// Draws the wave of the session's current stage and asks for its
    /// enemies. Fails, before anything is drawn, exactly when there is no
    /// session. Otherwise the commands are those of some full wave in the
    /// field, whatever the source hands out.
    pub fn spawn_enemies<R: RandomSource>(
        &mut self,
        session: Option<StageState>,
        viewport_height: u32,
        rng: &mut R,
    ) -> (result: Result<Vec<Action>, Fault>)
        requires
            viewport_height > 0,
        ensures
            *final(self) == *old(self),
            session is None <==> result is Err,
            result matches Err(fault) ==> fault == Fault::SessionMissing && *final(rng) == *old(rng),
            result matches Ok(actions) ==> exists|wave: Seq<EnemyPlacement>|
                #[trigger] is_wave(wave, session->0.current_stage, viewport_height) && actions@
                    == spawn_actions(old(self).enemy_template, wave),
    {
        let state = match session {
            Some(state) => state,
            None => {
                return Err(Fault::SessionMissing);
            },
        };
        let wave = spawn_wave(state.current_stage, viewport_height, rng);
        let actions = self.request_wave(&wave);
        assert(is_wave(wave@, state.current_stage, viewport_height));
        Ok(actions)
    }

    /// Lets the player in and the stage run, given the commands that make
    /// the wave: the commands of the player's arrival come first, those of
    /// the wave after them.
    pub fn begin_stage(&mut self, player: Handle, spawned: Vec<Action>) -> (actions: Vec<Action>)
        ensures
            *final(self) == old(self).started(player),
            actions@ == arrival_actions(old(self).stage_label, player) + spawned@,
    {
        let mut actions: Vec<Action> = Vec::new();
        if let Some(l) = self.stage_label {
            actions.push(Action::SetVisible { label: l, visible: false });
        }
        actions.push(Action::SetPosition { target: player, x: PLAYER_START_X, y: PLAYER_START_Y });
        actions.push(
            Action::AttachCamera { player: player, x: CAMERA_OFFSET_X, y: CAMERA_OFFSET_Y },
        );
        actions.push(Action::AddToArena { entity: player });
        assert(actions@ =~= arrival_actions(old(self).stage_label, player));
        let mut spawned = spawned;
        actions.append(&mut spawned);
        self.phase = Phase::Running;
        self.player = Some(player);
        actions
    }

    /// The intro has finished. Outside `Loading` nothing happens. In
    /// `Loading` the operation fails without a player (first) or without a
    /// session, and the controller stays as it was; otherwise the player
    /// arrives, the wave of the current stage is drawn and asked for, and
    /// the stage runs.
    pub fn start_animation_done<R: RandomSource>(
        &mut self,
        session: Option<StageState>,
        viewport_height: u32,
        player: Option<Handle>,
        rng: &mut R,
    ) -> (result: Result<Vec<Action>, Fault>)
        requires
            viewport_height > 0,
        ensures
            old(self).phase != Phase::Loading ==> {
                &&& *final(self) == *old(self)
                &&& *final(rng) == *old(rng)
                &&& result matches Ok(actions)
                &&& actions@ == Seq::<Action>::empty()
            },
            old(self).phase == Phase::Loading && player is None ==> {
                &&& *final(self) == *old(self)
                &&& *final(rng) == *old(rng)
                &&& result == Err::<Vec<Action>, Fault>(Fault::PlayerUnavailable)
            },
            old(self).phase == Phase::Loading && player is Some && session is None ==> {
                &&& *final(self) == *old(self)
                &&& *final(rng) == *old(rng)
                &&& result == Err::<Vec<Action>, Fault>(Fault::SessionMissing)
            },
            old(self).phase == Phase::Loading && player is Some && session is Some ==> {
                &&& *final(self) == old(self).started(player->0)
                &&& result matches Ok(actions)
                &&& exists|wave: Seq<EnemyPlacement>|
                    #[trigger] is_wave(wave, session->0.current_stage, viewport_height) && actions@
                        == arrival_actions(old(self).stage_label, player->0) + spawn_actions(
                        old(self).enemy_template,
                        wave,
                    )
            },
            old(self).wf() ==> final(self).wf(),
    {
        if self.phase != Phase::Loading {
            return Ok(Vec::new());
        }
        let entering = match player {
            Some(entering) => entering,
            None => {
                return Err(Fault::PlayerUnavailable);
            },
        };
        match self.spawn_enemies(session, viewport_height, rng) {
            Ok(spawned) => Ok(self.begin_stage(entering, spawned)),
            Err(fault) => Err(fault),
        }
    }

    /// Something has entered a tracked area. Fails without a session.
    /// A collision that carries the stage-exit layer while the stage runs
    /// stops the player, moves the session on by one stage and asks for the
    /// scene to be built again; it fails, and leaves the session alone, if
    /// no player is held or the stage number cannot grow. Any other
    /// collision does nothing.
    pub fn area_entered(&self, session: &mut Option<StageState>, layers: u32) -> (result: Result<
        Vec<Action>,
        Fault,
    >)
        ensures
            *old(session) is None ==> *final(session) is None && result == Err::<
                Vec<Action>,
                Fault,
            >(Fault::SessionMissing),
            *old(session) matches Some(s) ==> {
                &&& *final(session) == Some(collision_session(*self, s, layers))
                &&& match collision_outcome(*self, s, layers) {
                    Ok(expected) => result matches Ok(actions) && actions@ == expected,
                    Err(fault) => result == Err::<Vec<Action>, Fault>(fault),
                }
            },
    {
        let mut state = match *session {
            Some(state) => state,
            None => {
                return Err(Fault::SessionMissing);
            },
        };
        let mut actions: Vec<Action> = Vec::new();
        if has_stage_exit(layers) {
            if self.phase == Phase::Running {
                let player = match self.player {
                    Some(player) => player,
                    None => {
                        return Err(Fault::PlayerUnavailable);
                    },
                };
                if state.current_stage == u32::MAX {
                    return Err(Fault::StageLimit);
                }
                actions.push(Action::FreezePlayer { player: player });
                state.advance_stage();
                *session = Some(state);
                actions.push(Action::ReloadScene);
                assert(actions@ =~= seq![
                    Action::FreezePlayer { player: player },
                    Action::ReloadScene,
                ]);
                return Ok(actions);
            }
        }
        assert(actions@ =~= Seq::<Action>::empty());
        Ok(actions)
    }

    /// The player has died. Whatever hangs on a held player is queued for
    /// destruction; a player that stands in the arena is taken out of it
    /// and the banner goes up on the label, if there is one. The player is
    /// let go and the game is over, whatever the phase was.
    pub fn player_died(
        &mut self,
        children: &Vec<Handle>,
        attached: bool,
        label: Option<Handle>,
    ) -> (actions: Vec<Action>)
        ensures
            *final(self) == old(self).ended(),
            final(self).phase == Phase::GameOver,
            final(self).player is None,
            final(self).wf(),
            actions@ == death_actions(old(self).player, children@, attached, label),
    {
        let mut actions: Vec<Action> = Vec::new();
        if let Some(player) = self.player.take() {
            let mut i: usize = 0;
            while i < children.len()
                invariant
                    i <= children.len(),
                    actions@.len() == i,
                    forall|j: int|
                        0 <= j < i ==> #[trigger] actions@[j] == (Action::QueueFree {
                            entity: children@[j],
                        }),
                decreases children.len() - i,
            {
                actions.push(Action::QueueFree { entity: children[i] });
                i = i + 1;
            }
            assert(actions@ =~= free_actions(children@));
            if attached {
                actions.push(Action::RemoveFromArena { entity: player });
                if let Some(l) = label {
                    actions.push(Action::SetText { label: l, caption: Caption::GameOver });
                    actions.push(Action::SetVisible { label: l, visible: true });
                    actions.push(Action::SetPosition { target: l, x: BANNER_X, y: BANNER_Y });
                }
            }
            assert(actions@ =~= death_actions(old(self).player, children@, attached, label));
        }
        self.phase = Phase::GameOver;
        actions
    }
}

/// Outside the running phase a collision changes nothing, whatever layers
/// it carries: the session record stays as it is and no command is issued.
pub proof fn lemma_collision_needs_running(scene: GameScene, session: StageState, layers: u32)
    requires
        scene.phase != Phase::Running,
    ensures
        collision_session(scene, session, layers) == session,
        collision_outcome(scene, session, layers) == Ok::<Seq<Action>, Fault>(Seq::empty()),
{
}

/// A collision without the stage-exit layer changes nothing, whatever the
/// phase: the session record stays as it is and no command is issued.
pub proof fn lemma_collision_needs_exit_layer(scene: GameScene, session: StageState, layers: u32)
    requires
        !is_stage_exit(layers),
    ensures
        collision_session(scene, session, layers) == session,
        collision_outcome(scene, session, layers) == Ok::<Seq<Action>, Fault>(Seq::empty()),
{
}

/// A collision asks for the scene to be built again at most once, and
/// exactly where it moves the session on by one stage; everywhere else the
/// session record stays as it is.
pub proof fn lemma_collision_reloads_once(scene: GameScene, session: StageState, layers: u32)
    ensures
        match collision_outcome(scene, session, layers) {
            Ok(actions) => {
                &&& forall|i: int, j: int|
                    0 <= i < actions.len() && 0 <= j < actions.len() && actions[i]
                        == Action::ReloadScene && actions[j] == Action::ReloadScene ==> i == j
                &&& actions.contains(Action::ReloadScene) ==> collision_session(
                    scene,
                    session,
                    layers,
                ).current_stage == session.current_stage + 1
                &&& !actions.contains(Action::ReloadScene) ==> collision_session(
                    scene,
                    session,
                    layers,
                ) == session
            },
            Err(_) => collision_session(scene, session, layers) == session,
        },
{
    match collision_outcome(scene, session, layers) {
        Ok(actions) => {
            if actions.len() != 0 {
                assert(actions[1] == Action::ReloadScene);
            }
        },
        Err(_) => {},
    }
}

/// Death is final: once the player has died the game is over and no player
/// is held, and a further death issues no command and changes nothing.
pub proof fn lemma_death_is_terminal(
    scene: GameScene,
    children: Seq<Handle>,
    attached: bool,
    label: Option<Handle>,
)
    ensures
        scene.ended().phase == Phase::GameOver,
        scene.ended().player is None,
        scene.ended().wf(),
        scene.ended().ended() == scene.ended(),
        death_actions(scene.ended().player, children, attached, label) == Seq::<Action>::empty(),
{
}

} // verus!
