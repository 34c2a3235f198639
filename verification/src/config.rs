//! Customizable text shown on the console home screen.

use vstd::prelude::*;

verus! {

/// Text strings shown on the home screen. Game titles come from the
/// cartridges themselves.
#[derive(Clone, Debug)]
pub struct ConsoleConfig {
    /// Big banner text at the top.
    pub title: String,
    /// Smaller banner under the title.
    pub subtitle: String,
    /// Blinking call to action above the controls strip.
    pub prompt: String,
    /// First line of the controls strip near the bottom.
    pub controls_select: String,
    /// Second line of the controls strip.
    pub controls_start: String,
    /// Final hint at the very bottom.
    pub exit_hint: String,
}

impl Default for ConsoleConfig {
    /// Neutral, host-independent defaults.
    fn default() -> (c: Self)
        ensures
            c.title@ == "SHAREWARE"@,
            c.subtitle@ == "A  R  C  A  D  E"@,
            c.prompt@ == ">>> PRESS TO PLAY <<<"@,
            c.controls_select@ == "ROTATE = SELECT"@,
            c.controls_start@ == "PRESS = START"@,
            c.exit_hint@ == "ESC TO EXIT"@,
    {
        ConsoleConfig {
            title: String::from_str("SHAREWARE"),
            subtitle: String::from_str("A  R  C  A  D  E"),
            prompt: String::from_str(">>> PRESS TO PLAY <<<"),
            controls_select: String::from_str("ROTATE = SELECT"),
            controls_start: String::from_str("PRESS = START"),
            exit_hint: String::from_str("ESC TO EXIT"),
        }
    }
}

} // verus!
