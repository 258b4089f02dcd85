//! The scenes of the application (main menu, game, settings, saved games)
//! and the manager that switches between them.
use vstd::prelude::*;

verus! {

/// The scenes of the game.
#[derive(Debug, Clone, Copy, PartialEq, Eq, Structural)]
pub enum SceneType {
    /// Main menu scene.
    MainMenu,
    /// Active gameplay scene.
    Game,
    /// Settings menu.
    Settings,
    /// Saved games screen.
    SavedGames,
}

/// Coordinates scene transitions: the active scene, and the transition
/// requested for the next processing step, if any.
pub struct SceneManager {
    current_scene: SceneType,
    pending_transition: Option<SceneType>,
}

/// Abstract state of a scene manager: (active scene, requested transition).
pub type SceneManagerView = (SceneType, Option<SceneType>);

impl View for SceneManager {
    type V = SceneManagerView;

    closed spec fn view(&self) -> SceneManagerView {
        (self.current_scene, self.pending_transition)
    }
}

/// State after requesting a transition to `scene`: the request replaces any
/// earlier one; the active scene is unchanged.
pub open spec fn requested(v: SceneManagerView, scene: SceneType) -> SceneManagerView {
    (v.0, Some(scene))
}

/// State after processing: a requested scene becomes active and the request
/// is consumed; without a request nothing changes.
pub open spec fn processed(v: SceneManagerView) -> SceneManagerView {
    match v.1 {
        Some(s) => (s, None),
        None => v,
    }
}

impl SceneManager {
    /// A new scene manager showing the main menu, with no pending transition.
    pub fn new() -> (m: SceneManager)
        ensures
            m@ == (SceneType::MainMenu, None::<SceneType>),
    {
        SceneManager { current_scene: SceneType::MainMenu, pending_transition: None }
    }

    /// The active scene.
    pub fn current_scene(&self) -> (s: SceneType)
        ensures
            s == self@.0,
    {
        self.current_scene
    }

    /// Request a transition to `scene`, carried out by the next
    /// `process_transition`.
    pub fn transition_to(&mut self, scene: SceneType)
        ensures
            final(self)@ == requested(old(self)@, scene),
    {
        self.pending_transition = Some(scene);
    }

    /// Carry out the pending transition, if any; returns whether one was
    /// carried out.
    pub fn process_transition(&mut self) -> (changed: bool)
        ensures
            changed == old(self)@.1 is Some,
            final(self)@ == processed(old(self)@),
    {
        match self.pending_transition {
            Some(new_scene) => {
                self.current_scene = new_scene;
                self.pending_transition = None;
                true
            },
            None => false,
        }
    }
}

impl Default for SceneManager {
    fn default() -> (m: SceneManager)
        ensures
            m@ == (SceneType::MainMenu, None::<SceneType>),
    {
        SceneManager::new()
    }
}

/// Law: a requested transition, once processed, makes the requested scene
/// active and leaves nothing pending; the latest request wins.
pub proof fn law_requested_scene_becomes_active(v: SceneManagerView, first: SceneType, second: SceneType)
    ensures
        processed(requested(v, second)) == (second, None::<SceneType>),
        processed(requested(requested(v, first), second)) == (second, None::<SceneType>),
{
}

/// Law: processing with nothing pending changes nothing, so processing twice
/// is the same as processing once.
pub proof fn law_process_idempotent(v: SceneManagerView)
    ensures
        processed(processed(v)) == processed(v),
        v.1 is None ==> processed(v) == v,
{
}

} // verus!
