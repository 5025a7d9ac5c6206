//! What an installation configures: who the system is, how permanent
//! channels are named, the two texts it posts, and after what time a
//! channel is warned and deleted.

use vstd::prelude::*;
use crate::text::starts_with;

verus! {

/// The usual warning threshold, in whole days.
pub const WARN_AFTER_DAYS: u32 = 6;

/// The usual deletion threshold, in whole days.
pub const DELETE_AFTER_DAYS: u32 = 7;

/// The usual grace period, in whole hours. It is two hours short of a day,
/// so that a warning sent shortly before one daily run is old enough at the
/// next.
pub const GRACE_HOURS: u32 = 22;

/// After what time a channel is warned and deleted.
#[derive(Clone, Copy, Debug, PartialEq, Eq, Structural)]
pub struct Thresholds {
    /// Whole days of inactivity from which the occupants of a channel are
    /// warned.
    pub warn_after_days: u32,
    /// Whole days of inactivity from which a warned channel may be deleted.
    pub delete_after_days: u32,
    /// Whole hours a warning must have stood before its channel is deleted.
    pub grace_hours: u32,
}

/// The usual thresholds: a warning after six days, and deletion after
/// seven once the warning has stood for twenty-two hours.
pub open spec fn standard_thresholds() -> Thresholds {
    Thresholds {
        warn_after_days: WARN_AFTER_DAYS,
        delete_after_days: DELETE_AFTER_DAYS,
        grace_hours: GRACE_HOURS,
    }
}

impl Thresholds {
    /// The warning comes before the deletion.
    pub open spec fn wf(self) -> bool {
        self.warn_after_days < self.delete_after_days
    }

    /// Gives the usual thresholds.
    pub fn standard() -> (r: Thresholds)
        ensures
            r == standard_thresholds(),
            r.wf(),
    {
        Thresholds {
            warn_after_days: WARN_AFTER_DAYS,
            delete_after_days: DELETE_AFTER_DAYS,
            grace_hours: GRACE_HOURS,
        }
    }
}

/// The settings of one installation.
#[derive(Debug, PartialEq, Eq)]
pub struct Config {
    self_id: u64,
    permanent_suffix: char,
    filler_text: String,
    warning_sentinel: String,
    warning_text: String,
    page_limit: u32,
    thresholds: Thresholds,
}

/// The settings as plain values.
pub struct ConfigView {
    /// The account the system posts under.
    pub self_id: u64,
    /// The character that ends the name of a permanent channel.
    pub permanent_suffix: char,
    /// The text posted into a channel that has no message.
    pub filler_text: Seq<char>,
    /// The beginning by which a warning is recognised.
    pub warning_sentinel: Seq<char>,
    /// The text posted as a warning.
    pub warning_text: Seq<char>,
    /// How many older messages a history walk may ask for.
    pub page_limit: u32,
    /// After what time a channel is warned and deleted.
    pub thresholds: Thresholds,
}

impl ConfigView {
    /// The two texts can be told apart by the sentinel: the warning begins
    /// with it and the filler does not. And the warning comes before the
    /// deletion.
    pub open spec fn wf(self) -> bool {
        &&& self.warning_sentinel.is_prefix_of(self.warning_text)
        &&& !self.warning_sentinel.is_prefix_of(self.filler_text)
        &&& self.thresholds.wf()
    }
}

/// Why settings are refused.
#[derive(Clone, Copy, Debug, PartialEq, Eq, Structural)]
pub enum ConfigError {
    /// The warning text does not begin with the sentinel, so a warning
    /// once posted would not be recognised.
    WarningLacksSentinel,
    /// The filler text begins with the sentinel, so a filler would be
    /// taken for a warning.
    FillerHasSentinel,
    /// The warning threshold is not below the deletion threshold, so a
    /// channel would not be warned before it is due for deletion.
    WarnNotBeforeDelete,
}

impl View for Config {
    type V = ConfigView;

    closed spec fn view(&self) -> ConfigView {
        ConfigView {
            self_id: self.self_id,
            permanent_suffix: self.permanent_suffix,
            filler_text: self.filler_text@,
            warning_sentinel: self.warning_sentinel@,
            warning_text: self.warning_text@,
            page_limit: self.page_limit,
            thresholds: self.thresholds,
        }
    }
}

impl Clone for Config {
    fn clone(&self) -> (r: Self)
        ensures
            r@ == self@,
    {
        Config {
            self_id: self.self_id,
            permanent_suffix: self.permanent_suffix,
            filler_text: self.filler_text.clone(),
            warning_sentinel: self.warning_sentinel.clone(),
            warning_text: self.warning_text.clone(),
            page_limit: self.page_limit,
            thresholds: self.thresholds,
        }
    }
}

impl Config {
    /// Every `Config` is made by [`Config::new`], which admits well-formed
    /// settings only.
    pub open spec fn wf(&self) -> bool {
        self@.wf()
    }

    /// Checks the texts against the sentinel and the thresholds against
    /// each other, and keeps the settings. Where more than one thing is
    /// amiss, the warning text is named before the filler text, and the
    /// texts before the thresholds.
    pub fn new(
        self_id: u64,
        permanent_suffix: char,
        filler_text: String,
        warning_sentinel: String,
        warning_text: String,
        page_limit: u32,
        thresholds: Thresholds,
    ) -> (r: Result<Config, ConfigError>)
        ensures
            match r {
                Ok(cfg) => cfg.wf() && cfg@ == (ConfigView {
                    self_id,
                    permanent_suffix,
                    filler_text: filler_text@,
                    warning_sentinel: warning_sentinel@,
                    warning_text: warning_text@,
                    page_limit,
                    thresholds,
                }),
                Err(ConfigError::WarningLacksSentinel) => !warning_sentinel@.is_prefix_of(
                    warning_text@,
                ),
                Err(ConfigError::FillerHasSentinel) => warning_sentinel@.is_prefix_of(
                    warning_text@,
                ) && warning_sentinel@.is_prefix_of(filler_text@),
                Err(ConfigError::WarnNotBeforeDelete) => warning_sentinel@.is_prefix_of(
                    warning_text@,
                ) && !warning_sentinel@.is_prefix_of(filler_text@) && !thresholds.wf(),
            },
    {
        if !starts_with(warning_text.as_str(), warning_sentinel.as_str()) {
            return Err(ConfigError::WarningLacksSentinel);
        }
        if starts_with(filler_text.as_str(), warning_sentinel.as_str()) {
            return Err(ConfigError::FillerHasSentinel);
        }
        if thresholds.warn_after_days >= thresholds.delete_after_days {
            return Err(ConfigError::WarnNotBeforeDelete);
        }
        Ok(Config {
            self_id,
            permanent_suffix,
            filler_text,
            warning_sentinel,
            warning_text,
            page_limit,
            thresholds,
        })
    }

    /// The account the system posts under.
    pub fn self_id(&self) -> (r: u64)
        ensures
            r == self@.self_id,
    {
        self.self_id
    }

    /// The character that ends the name of a permanent channel.
    pub fn permanent_suffix(&self) -> (r: char)
        ensures
            r == self@.permanent_suffix,
    {
        self.permanent_suffix
    }

    /// The text to post into a channel that has no message.
    pub fn filler_text(&self) -> (r: &str)
        ensures
            r@ == self@.filler_text,
    {
        self.filler_text.as_str()
    }

    /// The beginning by which a warning is recognised.
    pub fn warning_sentinel(&self) -> (r: &str)
        ensures
            r@ == self@.warning_sentinel,
    {
        self.warning_sentinel.as_str()
    }

    /// The text to post as a warning.
    pub fn warning_text(&self) -> (r: &str)
        ensures
            r@ == self@.warning_text,
    {
        self.warning_text.as_str()
    }

    /// How many older messages a history walk may ask for.
    pub fn page_limit(&self) -> (r: u32)
        ensures
            r == self@.page_limit,
    {
        self.page_limit
    }

    /// After what time a channel is warned and deleted.
    pub fn thresholds(&self) -> (r: Thresholds)
        ensures
            r == self@.thresholds,
    {
        self.thresholds
    }
}

} // verus!
