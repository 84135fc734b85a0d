//! The log of what happened in the world.

use vstd::prelude::*;
use crate::text::{FormattedStringView, TextStyle};
use crate::types::{Color, FormattedString};

verus! {

/// The styles of the texts of the log.
#[derive(Debug, PartialEq, Eq, Structural, Clone, Copy)]
pub enum LogStyle {
    Default,
    Emphasis(Color),
    Attribute,
    Value,
}

impl TextStyle for LogStyle {
    open spec fn spec_plain() -> Self {
        LogStyle::Default
    }

    fn plain() -> (style: Self) {
        LogStyle::Default
    }
}

impl Default for LogStyle {
    fn default() -> (style: Self)
        ensures
            style == LogStyle::Default,
    {
        LogStyle::Default
    }
}

/// The strings that were logged, oldest first.
#[derive(Debug, PartialEq, Eq)]
pub struct Log {
    pub contents: Vec<FormattedString<LogStyle>>,
}

impl View for Log {
    type V = Seq<FormattedStringView<LogStyle>>;

    open spec fn view(&self) -> Seq<FormattedStringView<LogStyle>> {
        self.contents@.map_values(|s: FormattedString<LogStyle>| s@)
    }
}

impl Default for Log {
    fn default() -> (log: Self)
        ensures
            log@ == Seq::<FormattedStringView<LogStyle>>::empty(),
    {
        Log::new()
    }
}

impl Log {
    /// An empty log.
    pub fn new() -> (log: Self)
        ensures
            log@ == Seq::<FormattedStringView<LogStyle>>::empty(),
    {
        let log = Log { contents: Vec::new() };
        assert(log@ =~= Seq::<FormattedStringView<LogStyle>>::empty());
        log
    }

    /// Logs a string behind all that were logged before; none of them is
    /// changed, moved or dropped.
    pub fn print_formatted_string(&mut self, string: FormattedString<LogStyle>)
        ensures
            final(self)@ == old(self)@.push(string@),
    {
        self.contents.push(string);
        assert(self@ =~= old(self)@.push(string@));
    }
}

} // verus!
