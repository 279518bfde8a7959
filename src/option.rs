//! What a spinner is built from.
use vstd::prelude::*;

verus! {

/// A named animation: its glyphs and the pause between them.
#[derive(Debug, Clone)]
pub struct Spinner {
    pub interval: u32,
    pub frames: Vec<&'static str>,
}

/// The settings a spinner is built with.
#[derive(Debug, Clone)]
pub struct Options {
    /// Body text; `None` is the empty text.
    pub text: Option<String>,
    /// Milliseconds between two frames.
    pub interval: u32,
    /// The glyphs shown in turn; a spinner needs at least one.
    pub frames: Vec<&'static str>,
    /// Where the spinner is not animated, log its line once as plain text.
    pub log_without_tty: bool,
    /// Animate at all (on an interactive terminal).
    pub enable: bool,
    /// Hide the cursor while the spinner runs.
    pub hide_cursor: bool,
    /// Text before the glyph; `None` is the empty text.
    pub prefix_text: Option<String>,
    /// Text after the body; `None` is the empty text.
    pub suffix_text: Option<String>,
}

/// Milliseconds between two frames unless the options say otherwise.
pub const DEFAULT_INTERVAL: u32 = 80;

impl Default for Options {
    /// No text, a four-glyph line spinner every 80 ms, animated where the
    /// terminal allows it, with the cursor hidden.
    fn default() -> (r: Options)
        ensures
            r.text is None,
            r.prefix_text is None,
            r.suffix_text is None,
            r.interval == DEFAULT_INTERVAL,
            r.frames@.len() == 4,
            r.enable,
            r.hide_cursor,
            !r.log_without_tty,
    {
        let mut frames: Vec<&'static str> = Vec::new();
        frames.push("-");
        frames.push("\\");
        frames.push("|");
        frames.push("/");
        Options {
            text: None,
            interval: DEFAULT_INTERVAL,
            frames,
            log_without_tty: false,
            enable: true,
            hide_cursor: true,
            prefix_text: None,
            suffix_text: None,
        }
    }
}

/// The text an optional setting stands for: the empty text where it is unset.
pub open spec fn text_or_empty(t: Option<String>) -> Seq<char> {
    match t {
        Some(s) => s@,
        None => Seq::empty(),
    }
}

/// The text an optional setting stands for.
pub fn take_text(t: Option<String>) -> (r: String)
    ensures
        r@ == text_or_empty(t),
{
    match t {
        Some(s) => s,
        None => String::new(),
    }
}

} // verus!
