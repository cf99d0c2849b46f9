//! Text-styling capabilities used by the renderer.
//!
//! A [`Formatter`] exposes one operation per style; each takes a string and
//! returns a styled copy. The renderer never decides whether color is
//! actually enabled — that is the formatter's responsibility.

use vstd::prelude::*;
use vstd::string::StringExecFns;

verus! {

/// A styling capability. Each executable operation is pinned to a matching
/// `spec_*` function, so contracts of the renderer can speak of the exact
/// styled text that an implementation produces.
pub trait Formatter {
    /// What the error-emphasis style returns.
    spec fn spec_red(&self, s: Seq<char>) -> Seq<char>;

    /// What the underline style returns.
    spec fn spec_underline(&self, s: Seq<char>) -> Seq<char>;

    /// What the heading-highlight style returns.
    spec fn spec_cyan(&self, s: Seq<char>) -> Seq<char>;

    /// What the value-highlight style returns.
    spec fn spec_yellow(&self, s: Seq<char>) -> Seq<char>;

    /// What the secondary-highlight style returns.
    spec fn spec_purple(&self, s: Seq<char>) -> Seq<char>;

    /// What the plain (default) style returns.
    spec fn spec_plain(&self, s: Seq<char>) -> Seq<char>;

    /// Emphasize as an error.
    fn red(&self, s: &str) -> (r: String)
        ensures
            r@ == self.spec_red(s@),
    ;

    /// Underline.
    fn underline(&self, s: &str) -> (r: String)
        ensures
            r@ == self.spec_underline(s@),
    ;

    /// Highlight a heading.
    fn cyan(&self, s: &str) -> (r: String)
        ensures
            r@ == self.spec_cyan(s@),
    ;

    /// Highlight a value.
    fn yellow(&self, s: &str) -> (r: String)
        ensures
            r@ == self.spec_yellow(s@),
    ;

    /// Highlight secondarily.
    fn purple(&self, s: &str) -> (r: String)
        ensures
            r@ == self.spec_purple(s@),
    ;

    /// Plain (default) text.
    fn plain(&self, s: &str) -> (r: String)
        ensures
            r@ == self.spec_plain(s@),
    ;
}

/// The identity formatter for non-capable environments: every style returns
/// its input unchanged.
pub struct PlainFormatter;

impl Formatter for PlainFormatter {
    open spec fn spec_red(&self, s: Seq<char>) -> Seq<char> {
        s
    }

    open spec fn spec_underline(&self, s: Seq<char>) -> Seq<char> {
        s
    }

    open spec fn spec_cyan(&self, s: Seq<char>) -> Seq<char> {
        s
    }

    open spec fn spec_yellow(&self, s: Seq<char>) -> Seq<char> {
        s
    }

    open spec fn spec_purple(&self, s: Seq<char>) -> Seq<char> {
        s
    }

    open spec fn spec_plain(&self, s: Seq<char>) -> Seq<char> {
        s
    }

    fn red(&self, s: &str) -> String {
        s.to_owned()
    }

    fn underline(&self, s: &str) -> String {
        s.to_owned()
    }

    fn cyan(&self, s: &str) -> String {
        s.to_owned()
    }

    fn yellow(&self, s: &str) -> String {
        s.to_owned()
    }

    fn purple(&self, s: &str) -> String {
        s.to_owned()
    }

    fn plain(&self, s: &str) -> String {
        s.to_owned()
    }
}

/// What wrapping `s` in an ANSI escape sequence yields: the opening sequence,
/// the text, then the reset sequence.
pub open spec fn spec_ansi_wrap(open_seq: Seq<char>, s: Seq<char>) -> Seq<char> {
    open_seq + s + "\u{1b}[0m"@
}

/// Wraps `s` between `open_seq` and the ANSI reset sequence.
fn ansi_wrap(open_seq: &str, s: &str) -> (r: String)
    ensures
        r@ == spec_ansi_wrap(open_seq@, s@),
{
    let mut r = open_seq.to_owned();
    r.append(s);
    r.append("\u{1b}[0m");
    r
}

/// An ANSI terminal formatter: each style wraps its input in the escape
/// sequence for one color or attribute, except `plain`, which is identity.
pub struct AnsiFormatter;

impl Formatter for AnsiFormatter {
    open spec fn spec_red(&self, s: Seq<char>) -> Seq<char> {
        spec_ansi_wrap("\u{1b}[31m"@, s)
    }

    open spec fn spec_underline(&self, s: Seq<char>) -> Seq<char> {
        spec_ansi_wrap("\u{1b}[4m"@, s)
    }

    open spec fn spec_cyan(&self, s: Seq<char>) -> Seq<char> {
        spec_ansi_wrap("\u{1b}[36m"@, s)
    }

    open spec fn spec_yellow(&self, s: Seq<char>) -> Seq<char> {
        spec_ansi_wrap("\u{1b}[33m"@, s)
    }

    open spec fn spec_purple(&self, s: Seq<char>) -> Seq<char> {
        spec_ansi_wrap("\u{1b}[35m"@, s)
    }

    open spec fn spec_plain(&self, s: Seq<char>) -> Seq<char> {
        s
    }

    fn red(&self, s: &str) -> String {
        ansi_wrap("\u{1b}[31m", s)
    }

    fn underline(&self, s: &str) -> String {
        ansi_wrap("\u{1b}[4m", s)
    }

    fn cyan(&self, s: &str) -> String {
        ansi_wrap("\u{1b}[36m", s)
    }

    fn yellow(&self, s: &str) -> String {
        ansi_wrap("\u{1b}[33m", s)
    }

    fn purple(&self, s: &str) -> String {
        ansi_wrap("\u{1b}[35m", s)
    }

    fn plain(&self, s: &str) -> String {
        s.to_owned()
    }
}

} // verus!
