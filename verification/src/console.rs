//! The console: home-screen navigation and the routing of each frame
//! between the CRT shutdown, the home menu and the cartridge being played.
//!
//! The host runs the cartridges, the shutdown animation and the menu's
//! visual effects; it asks the flow what a frame must do and reports back
//! what the menu or the cartridge did.

use vstd::prelude::*;

use crate::modes::Spin;
use crate::rng::{xorshift, Rng};

verus! {

/// The seed of the home screen's generator.
pub const MENU_SEED: u32 = 0xCAFE_BABE;

/// One in this many frames, on average, starts a title glitch.
pub const GLITCH_ODDS: u32 = 150;

/// What the console shows.
#[derive(Clone, Copy, Debug, PartialEq, Eq, Structural)]
pub enum Scene {
    /// The home menu.
    Menu,
    /// The cartridge with this index.
    Playing(usize),
}

/// What a frame must do.
#[derive(Clone, Copy, Debug, PartialEq, Eq, Structural)]
pub enum ConsoleAction {
    /// The shutdown animation is running: advance it (its end ends the
    /// console).
    AdvanceShutdown,
    /// Exit was requested: start the shutdown animation.
    BeginShutdown,
    /// Update the home menu.
    UpdateMenu,
    /// The player asked for the menu: leave the cartridge.
    ReturnToMenu,
    /// Update the cartridge with this index.
    UpdateGame(usize),
}

/// The action of a frame.
pub open spec fn route_of(scene: Scene, shutdown_active: bool, exit_requested: bool, menu_requested: bool) -> ConsoleAction {
    if shutdown_active {
        ConsoleAction::AdvanceShutdown
    } else if exit_requested {
        ConsoleAction::BeginShutdown
    } else {
        match scene {
            Scene::Menu => ConsoleAction::UpdateMenu,
            Scene::Playing(i) => if menu_requested {
                ConsoleAction::ReturnToMenu
            } else {
                ConsoleAction::UpdateGame(i)
            },
        }
    }
}

/// The highlighted entry after a spin with `count > 0` games: one down or up
/// the list, stopping at its ends.
pub open spec fn nav_of(selected: usize, spin: Spin, count: usize) -> usize {
    let moved = match spin {
        Spin::Positive => if selected + 1 < count {
            (selected + 1) as usize
        } else {
            selected
        },
        Spin::Negative => if selected > 0 {
            (selected - 1) as usize
        } else {
            selected
        },
        Spin::Zero => selected,
    };
    if moved < count {
        moved
    } else {
        (count - 1) as usize
    }
}

/// The console's scene, the number of cartridges, and the home menu's
/// highlighted entry.
pub struct ConsoleFlow {
    scene: Scene,
    game_count: usize,
    selected: usize,
}

impl ConsoleFlow {
    /// A cartridge being played exists.
    #[verifier::type_invariant]
    spec fn flow_inv(self) -> bool {
        self.scene matches Scene::Playing(i) ==> i < self.game_count
    }

    /// The scene shown.
    pub closed spec fn scene_of(self) -> Scene {
        self.scene
    }

    /// The number of cartridges.
    pub closed spec fn count(self) -> usize {
        self.game_count
    }

    /// The highlighted menu entry.
    pub closed spec fn highlighted(self) -> usize {
        self.selected
    }

    /// A console of `game_count` cartridges on its home menu, first entry
    /// highlighted.
    pub fn new(game_count: usize) -> (f: Self)
        ensures
            f.scene_of() == Scene::Menu,
            f.count() == game_count,
            f.highlighted() == 0,
    {
        ConsoleFlow { scene: Scene::Menu, game_count, selected: 0 }
    }

    /// The scene shown; a played cartridge index is in range.
    pub fn scene(&self) -> (s: Scene)
        ensures
            s == self.scene_of(),
            s matches Scene::Playing(i) ==> i < self.count(),
    {
        proof {
            use_type_invariant(self);
        }
        self.scene
    }

    /// The number of cartridges.
    pub fn game_count(&self) -> (n: usize)
        ensures
            n == self.count(),
    {
        self.game_count
    }

    /// The highlighted menu entry.
    pub fn selected(&self) -> (i: usize)
        ensures
            i == self.highlighted(),
    {
        self.selected
    }

    /// What this frame must do.
    pub fn route(&self, shutdown_active: bool, exit_requested: bool, menu_requested: bool) -> (a: ConsoleAction)
        ensures
            a == route_of(self.scene_of(), shutdown_active, exit_requested, menu_requested),
            a matches ConsoleAction::UpdateGame(i) ==> i < self.count(),
    {
        proof {
            use_type_invariant(self);
        }
        if shutdown_active {
            ConsoleAction::AdvanceShutdown
        } else if exit_requested {
            ConsoleAction::BeginShutdown
        } else {
            match self.scene {
                Scene::Menu => ConsoleAction::UpdateMenu,
                Scene::Playing(i) => if menu_requested {
                    ConsoleAction::ReturnToMenu
                } else {
                    ConsoleAction::UpdateGame(i)
                },
            }
        }
    }

    /// One frame of the home menu: with at least one cartridge, moves the
    /// highlight by the spin (see [`nav_of`]) and, when the action button
    /// was pressed, starts the highlighted cartridge and returns its index.
    /// Outside the menu, or with no cartridge, nothing happens.
    pub fn menu_step(&mut self, spin: Spin, action_pressed: bool) -> (pick: Option<usize>)
        ensures
            final(self).count() == old(self).count(),
            old(self).scene_of() != Scene::Menu || old(self).count() == 0 ==> pick is None
                && final(self).scene_of() == old(self).scene_of() && final(self).highlighted()
                == old(self).highlighted(),
            old(self).scene_of() == Scene::Menu && old(self).count() > 0 ==> ({
                let sel = nav_of(old(self).highlighted(), spin, old(self).count());
                &&& final(self).highlighted() == sel
                &&& action_pressed ==> pick == Some(sel) && final(self).scene_of() == Scene::Playing(sel)
                &&& !action_pressed ==> pick is None && final(self).scene_of() == Scene::Menu
            }),
            pick matches Some(i) ==> i < old(self).count(),
    {
        if self.scene != Scene::Menu || self.game_count == 0 {
            return None;
        }
        let count = self.game_count;
        let mut sel = self.selected;
        match spin {
            Spin::Positive => {
                if sel < count - 1 {
                    sel = sel + 1;
                }
            },
            Spin::Negative => {
                if sel > 0 {
                    sel = sel - 1;
                }
            },
            Spin::Zero => {},
        }
        if sel >= count {
            sel = count - 1;
        }
        if action_pressed {
            *self = ConsoleFlow { scene: Scene::Playing(sel), game_count: count, selected: sel };
            Some(sel)
        } else {
            *self = ConsoleFlow { scene: Scene::Menu, game_count: count, selected: sel };
            None
        }
    }

    /// Back to a fresh home menu (first entry highlighted): after a
    /// cartridge finished or the player asked for the menu.
    pub fn return_to_menu(&mut self)
        ensures
            final(self).scene_of() == Scene::Menu,
            final(self).highlighted() == 0,
            final(self).count() == old(self).count(),
    {
        *self = ConsoleFlow { scene: Scene::Menu, game_count: self.game_count, selected: 0 };
    }

    /// The cartridge being played reported its update: when it is done the
    /// console returns to a fresh home menu.
    pub fn game_updated(&mut self, done: bool)
        ensures
            done ==> final(self).scene_of() == Scene::Menu && final(self).highlighted() == 0,
            !done ==> final(self).scene_of() == old(self).scene_of() && final(self).highlighted()
                == old(self).highlighted(),
            final(self).count() == old(self).count(),
    {
        if done {
            self.return_to_menu();
        }
    }
}

/// A running shutdown takes precedence over everything, then an exit
/// request; a menu request only matters while a cartridge is played.
pub proof fn law_route_priorities(scene: Scene, exit_requested: bool, menu_requested: bool)
    ensures
        route_of(scene, true, exit_requested, menu_requested) == ConsoleAction::AdvanceShutdown,
        route_of(scene, false, true, menu_requested) == ConsoleAction::BeginShutdown,
        scene == Scene::Menu ==> route_of(scene, false, false, menu_requested) == ConsoleAction::UpdateMenu,
        scene matches Scene::Playing(i) ==> route_of(scene, false, false, true) == ConsoleAction::ReturnToMenu
            && route_of(scene, false, false, false) == ConsoleAction::UpdateGame(i),
{
}

/// The highlight never leaves the list, and moves by at most one entry.
pub proof fn law_nav_stays_in_list(selected: usize, spin: Spin, count: usize)
    requires
        count > 0,
        selected < count,
    ensures
        nav_of(selected, spin, count) < count,
        spin == Spin::Positive ==> nav_of(selected, spin, count) == if selected + 1 < count {
            selected + 1
        } else {
            selected as int
        },
        spin == Spin::Negative ==> nav_of(selected, spin, count) == if selected > 0 {
            selected - 1
        } else {
            selected as int
        },
        spin == Spin::Zero ==> nav_of(selected, spin, count) == selected,
{
}

/// Does this frame start a title glitch? One raw draw, glitching when it is
/// a multiple of [`GLITCH_ODDS`].
pub fn glitch_starts(rng: &mut Rng) -> (b: bool)
    ensures
        final(rng).state() == xorshift(old(rng).state()),
        b == (xorshift(old(rng).state()) % GLITCH_ODDS == 0),
{
    rng.next() % GLITCH_ODDS == 0
}

/// What the console learns in one frame: whether the shutdown runs, the
/// exit and menu requests, the menu gesture, the action button, and whether
/// the cartridge being played reported that it is done.
#[derive(Clone, Copy, Debug, PartialEq, Eq, Structural)]
pub struct Frame {
    pub shutdown_active: bool,
    pub exit_requested: bool,
    pub menu_requested: bool,
    pub spin: Spin,
    pub action_pressed: bool,
    pub game_done: bool,
}

/// The scene and highlighted entry after one frame, as [`ConsoleFlow::route`]
/// and the call it routes to ([`ConsoleFlow::menu_step`],
/// [`ConsoleFlow::return_to_menu`] or [`ConsoleFlow::game_updated`]) leave
/// them.
pub open spec fn frame_step(state: (Scene, usize), count: usize, f: Frame) -> (Scene, usize) {
    match route_of(state.0, f.shutdown_active, f.exit_requested, f.menu_requested) {
        ConsoleAction::UpdateMenu => if count == 0 {
            state
        } else {
            let sel = nav_of(state.1, f.spin, count);
            if f.action_pressed {
                (Scene::Playing(sel), sel)
            } else {
                (Scene::Menu, sel)
            }
        },
        ConsoleAction::ReturnToMenu => (Scene::Menu, 0),
        ConsoleAction::UpdateGame(_) => if f.game_done {
            (Scene::Menu, 0)
        } else {
            state
        },
        _ => state,
    }
}

/// The scene and highlighted entry after a run of frames.
pub open spec fn frames_run(state: (Scene, usize), count: usize, frames: Seq<Frame>) -> (Scene, usize)
    decreases frames.len(),
{
    if frames.len() == 0 {
        state
    } else {
        frame_step(frames_run(state, count, frames.drop_last()), count, frames.last())
    }
}

/// A console with no cartridges never leaves its home menu, whatever the
/// frames bring: every frame routes to the menu or to the shutdown, never to
/// a cartridge.
pub proof fn law_empty_console_stays_home(selected: usize, frames: Seq<Frame>)
    ensures
        frames_run((Scene::Menu, selected), 0, frames) == (Scene::Menu, selected),
        forall|k: int| 0 <= k < frames.len() ==> {
            let f = #[trigger] frames[k];
            let a = route_of(
                frames_run((Scene::Menu, selected), 0, frames.take(k)).0,
                f.shutdown_active,
                f.exit_requested,
                f.menu_requested,
            );
            a == ConsoleAction::AdvanceShutdown || a == ConsoleAction::BeginShutdown || a
                == ConsoleAction::UpdateMenu
        },
    decreases frames.len(),
{
    if frames.len() > 0 {
        law_empty_console_stays_home(selected, frames.drop_last());
        assert forall|k: int| 0 <= k < frames.len() implies {
            let f = #[trigger] frames[k];
            let a = route_of(
                frames_run((Scene::Menu, selected), 0, frames.take(k)).0,
                f.shutdown_active,
                f.exit_requested,
                f.menu_requested,
            );
            a == ConsoleAction::AdvanceShutdown || a == ConsoleAction::BeginShutdown || a
                == ConsoleAction::UpdateMenu
        } by {
            if k < frames.len() - 1 {
                assert(frames.take(k) =~= frames.drop_last().take(k));
                law_empty_console_stays_home(selected, frames.take(k));
            } else {
                assert(frames.take(k) =~= frames.drop_last());
            }
        }
    }
}

/// The line under a cartridge's name on the home menu: its description and,
/// in parentheses, its year, each left out when empty.
pub open spec fn description_line_of(desc: Seq<char>, year: Seq<char>) -> Seq<char> {
    if year.len() == 0 {
        desc
    } else if desc.len() == 0 {
        "("@ + year + ")"@
    } else {
        desc + " ("@ + year + ")"@
    }
}

/// The line under a cartridge's name on the home menu (see
/// [`description_line_of`]).
pub fn description_line(desc: &str, year: &str) -> (line: String)
    ensures
        line@ == description_line_of(desc@, year@),
{
    let mut line = String::from_str(desc);
    if year.is_empty() {
        return line;
    }
    if desc.is_empty() {
        line.append("(");
    } else {
        line.append(" (");
    }
    line.append(year);
    line.append(")");
    proof {
        if desc@.len() == 0 {
            assert(line@ =~= "("@ + year@ + ")"@);
        } else {
            assert(line@ =~= desc@ + " ("@ + year@ + ")"@);
        }
    }
    line
}

} // verus!
