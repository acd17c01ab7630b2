use vstd::prelude::*;

use vstd::string::*;
use indicatif::style::TemplateError;
use indicatif::{ProgressBar, ProgressStyle};

verus! {

/// indicatif's progress bar, carried as an opaque value.
#[verifier::external_type_specification]
#[verifier::external_body]
pub struct ExProgressBar(indicatif::ProgressBar);

/// Relies on indicatif's ProgressBar::new: a bar of the given length that
/// draws to stderr; it only displays.
pub assume_specification[ indicatif::ProgressBar::new ](len: u64) -> indicatif::ProgressBar;

/// Relies on indicatif's ProgressBar::inc: advances the drawn position.
pub assume_specification[ indicatif::ProgressBar::inc ](bar: &indicatif::ProgressBar, delta: u64);

/// Relies on indicatif's ProgressBar::finish: draws the bar as finished.
pub assume_specification[ indicatif::ProgressBar::finish ](bar: &indicatif::ProgressBar);

/// indicatif's description of how a bar is drawn, carried as an opaque value.
#[verifier::external_type_specification]
#[verifier::external_body]
pub struct ExProgressStyle(indicatif::ProgressStyle);

/// indicatif's error for a template it cannot parse, carried as an opaque value.
#[verifier::external_type_specification]
#[verifier::external_body]
pub struct ExTemplateError(indicatif::style::TemplateError);

/// Relies on indicatif's ProgressStyle::default_bar: the stock bar style.
pub assume_specification[ indicatif::ProgressStyle::default_bar ]() -> indicatif::ProgressStyle;

/// Relies on indicatif's ProgressStyle::template: the style drawn with the
/// bar's fixed template, or an error where it does not parse. The template's
/// widths fit in `u16`, so parsing it does not panic.
#[verifier::external_body]
fn with_bar_template(style: ProgressStyle) -> Result<ProgressStyle, TemplateError> {
    style.template("{spinner:.green} [{elapsed_precise}] [{bar:40.cyan/blue}] {pos}/{len} ({eta}) {msg}")
}

/// Relies on indicatif's ProgressBar::set_style: how the bar is drawn from now on.
pub assume_specification[ indicatif::ProgressBar::set_style ](
    bar: &indicatif::ProgressBar,
    style: indicatif::ProgressStyle,
);

/// Relies on indicatif's ProgressStyle::progress_chars: the characters the bar
/// is drawn with; three characters, so it does not reject them.
#[verifier::external_body]
fn with_bar_chars(style: ProgressStyle) -> ProgressStyle {
    style.progress_chars("#>-")
}

/// Relies on indicatif's ProgressBar::set_message: the text drawn beside the bar.
#[verifier::external_body]
fn show_message(bar: &ProgressBar, msg: &str) {
    bar.set_message(msg.to_string());
}

/// Counts finished jobs against the batch's total and draws the count.
///
/// The count only grows, one step per finished job, and never passes the total.
pub struct ProgressTracker {
    bar: ProgressBar,
    total: u64,
    pos: u64,
    message: String,
    finished: bool,
}

impl ProgressTracker {
    pub closed spec fn total(&self) -> nat {
        self.total as nat
    }

    pub closed spec fn position(&self) -> nat {
        self.pos as nat
    }

    /// The status text shown beside the bar.
    pub closed spec fn message(&self) -> Seq<char> {
        self.message@
    }

    /// Whether the bar has been drawn as finished.
    pub closed spec fn finished(&self) -> bool {
        self.finished
    }

    pub closed spec fn wf(&self) -> bool {
        self.pos <= self.total
    }

    /// A tracker for `total` jobs, at zero, with no status text, not finished.
    pub fn new(total: u64) -> (r: ProgressTracker)
        ensures
            r.wf(),
            r.total() == total,
            r.position() == 0,
            r.message() == Seq::<char>::empty(),
            !r.finished(),
    {
        let bar = ProgressBar::new(total);
        match with_bar_template(ProgressStyle::default_bar()) {
            Ok(st) => bar.set_style(with_bar_chars(st)),
            Err(_) => {},
        }
        ProgressTracker { bar, total, pos: 0, message: String::new(), finished: false }
    }

    /// Sets the status text drawn beside the bar.
    pub fn set_message(&mut self, msg: &str)
        requires
            old(self).wf(),
        ensures
            final(self).wf(),
            final(self).message() == msg@,
            final(self).total() == old(self).total(),
            final(self).position() == old(self).position(),
            final(self).finished() == old(self).finished(),
    {
        show_message(&self.bar, msg);
        self.message = String::from_str(msg);
    }

    /// Counts `delta` more finished jobs.
    pub fn inc(&mut self, delta: u64)
        requires
            old(self).wf(),
            old(self).position() + delta <= old(self).total(),
        ensures
            final(self).wf(),
            final(self).total() == old(self).total(),
            final(self).position() == old(self).position() + delta,
            final(self).message() == old(self).message(),
            final(self).finished() == old(self).finished(),
    {
        self.pos = self.pos + delta;
        self.bar.inc(delta);
    }

    /// The number of finished jobs counted so far.
    pub fn get_position(&self) -> (r: u64)
        ensures
            r == self.position(),
    {
        self.pos
    }

    /// The number of jobs in the batch.
    pub fn get_total(&self) -> (r: u64)
        ensures
            r == self.total(),
    {
        self.total
    }

    /// The status text shown beside the bar.
    pub fn get_message(&self) -> (r: &str)
        ensures
            r@ == self.message(),
    {
        self.message.as_str()
    }

    /// Whether the bar has been drawn as finished.
    pub fn is_finished(&self) -> (r: bool)
        ensures
            r == self.finished(),
    {
        self.finished
    }

    /// Draws the bar as finished; the count and the status text stay.
    pub fn finish(&mut self)
        requires
            old(self).wf(),
        ensures
            final(self).wf(),
            final(self).finished(),
            final(self).total() == old(self).total(),
            final(self).position() == old(self).position(),
            final(self).message() == old(self).message(),
    {
        self.bar.finish();
        self.finished = true;
    }
}

} // verus!
