//! The installer's view model: a vertical step indicator over the stages of an
//! installation, moved on by a periodic progress message.

use vstd::prelude::*;
use crate::progress_step::{Mode, ProgressStep, Rgba};

verus! {

/// What the installer reacts to.
#[derive(Clone, Copy, Debug, PartialEq, Eq, Structural)]
pub enum Message {
    /// One tick of progress: move to the next stage.
    Progress,
}

/// The installer's state.
#[derive(Clone, Debug)]
pub struct NeoraInstaller {
    pub progress_step: ProgressStep,
}

impl Default for NeoraInstaller {
    /// Five installation stages, laid out vertically with black connectors,
    /// starting at the first.
    fn default() -> (r: Self)
        ensures
            r.progress_step.steps@.len() == 5,
            r.progress_step.steps@[0]@ == "Copying Windows files"@,
            r.progress_step.steps@[1]@ == "Expanding Windows files"@,
            r.progress_step.steps@[2]@ == "Installing features"@,
            r.progress_step.steps@[3]@ == "Installing updates"@,
            r.progress_step.steps@[4]@ == "Completing installation"@,
            r.progress_step.current_step == 0,
            r.progress_step.dash_color == (Rgba { r: 0, g: 0, b: 0, a: 255 }),
            r.progress_step.mode == Mode::Vertical,
    {
        let steps: Vec<String> = vec![
            String::from_str("Copying Windows files"),
            String::from_str("Expanding Windows files"),
            String::from_str("Installing features"),
            String::from_str("Installing updates"),
            String::from_str("Completing installation"),
        ];
        NeoraInstaller {
            progress_step: ProgressStep {
                steps,
                current_step: 0,
                dash_color: Rgba { r: 0, g: 0, b: 0, a: 255 },
                mode: Mode::Vertical,
            },
        }
    }
}

impl NeoraInstaller {
    /// Applies `message`: progress advances the indicator by one stage,
    /// wrapping to the first after the last.
    pub fn update(&mut self, message: Message)
        ensures
            final(self).progress_step == old(self).progress_step.advanced(),
    {
        match message {
            Message::Progress => self.progress_step.advance(),
        }
    }
}

} // verus!
