//! The user's own settings, which hold for every project.
use crate::text::opt_text;
use vstd::prelude::*;

verus! {

/// The user's settings.
#[derive(Debug, Clone, PartialEq, Eq)]
pub struct Config {
    /// Where the user's dotfiles are to be had from.
    pub dotfiles: Option<String>,
}

/// [`Config`] as plain sequences.
pub struct ConfigView {
    pub dotfiles: Option<Seq<char>>,
}

impl View for Config {
    type V = ConfigView;

    open spec fn view(&self) -> ConfigView {
        ConfigView { dotfiles: opt_text(self.dotfiles) }
    }
}

impl Default for Config {
    /// The settings of a user who has set nothing.
    fn default() -> (config: Self)
        ensures
            config@ == (ConfigView { dotfiles: None }),
    {
        Config { dotfiles: None }
    }
}

} // verus!
