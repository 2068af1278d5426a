//! A message shown over the current screen for a few seconds.
use vstd::prelude::*;
use std::time::Instant;

verus! {

/// `std::time::Instant`, carried through as an opaque value.
#[verifier::external_type_specification]
#[verifier::external_body]
pub struct ExInstant(Instant);

/// Seconds a popup stays up; a long one stays twice as long.
pub const POPUP_PERIOD_SECS: u64 = 2;

/// `Instant::now()`. Nothing is stated of the instant: it is read from the
/// clock.
#[verifier::external_body]
fn now() -> Instant {
    Instant::now()
}

/// `t + Duration::from_secs(secs)`. Nothing is stated of the sum: it depends
/// on the clock's instant `t`. std panics when the sum leaves the clock's
/// range; the calls are kept to a few seconds past the current instant.
#[verifier::external_body]
fn later_by(t: Instant, secs: u64) -> Instant
    requires
        secs <= 2 * POPUP_PERIOD_SECS,
{
    t + std::time::Duration::from_secs(secs)
}

/// `a < b` on instants. Nothing is stated of the answer: instants are read
/// from the clock and opaque here.
#[verifier::external_body]
fn earlier(a: &Instant, b: &Instant) -> bool {
    *a < *b
}

/// Whether the instant `t` is before the current one.
fn has_passed(t: &Instant) -> bool {
    let n = now();
    earlier(t, &n)
}

/// A title, a line of content, and when the popup goes away.
pub struct Popup {
    title: String,
    content: String,
    long: bool,
    timeout: Instant,
}

impl Popup {
    pub closed spec fn spec_title(&self) -> Seq<char> {
        self.title@
    }

    pub closed spec fn spec_content(&self) -> Seq<char> {
        self.content@
    }

    /// Whether the popup stays up for twice the popup period.
    pub closed spec fn spec_long(&self) -> bool {
        self.long
    }

    /// An empty popup that has already timed out.
    pub fn empty() -> (p: Self)
        ensures
            p.spec_title() == Seq::<char>::empty(),
            p.spec_content() == Seq::<char>::empty(),
            !p.spec_long(),
    {
        Popup { title: String::new(), content: String::new(), long: false, timeout: now() }
    }

    /// A popup that stays up for the popup period.
    pub fn new(title: String, content: String) -> (p: Self)
        ensures
            p.spec_title() == title@,
            p.spec_content() == content@,
            !p.spec_long(),
    {
        Popup { title, content, long: false, timeout: later_by(now(), POPUP_PERIOD_SECS) }
    }

    /// A popup that stays up for twice the popup period.
    pub fn new_long(title: String, content: String) -> (p: Self)
        ensures
            p.spec_title() == title@,
            p.spec_content() == content@,
            p.spec_long(),
    {
        Popup { title, content, long: true, timeout: later_by(now(), 2 * POPUP_PERIOD_SECS) }
    }

    /// Whether the popup's time is up.
    pub fn timed_out(&self) -> bool {
        has_passed(&self.timeout)
    }

    pub fn title(&self) -> (s: &str)
        ensures
            s@ == self.spec_title(),
    {
        self.title.as_str()
    }

    pub fn content(&self) -> (s: &str)
        ensures
            s@ == self.spec_content(),
    {
        self.content.as_str()
    }
}

} // verus!
