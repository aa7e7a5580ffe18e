//! Progress reporting: a track shows one status text, and increments of a
//! counter become new texts only when the displayed value changes.
//!
//! Delivery itself happens outside: each decision here says what to send,
//! and whether it must wait for the notification still in flight.

use vstd::prelude::*;
use vstd::string::StringExecFns;

verus! {

/// The decimal digits of `n`, most significant first.
pub open spec fn decimal(n: nat) -> Seq<char>
    decreases n,
{
    if n < 10 {
        seq![digit_char(n)]
    } else {
        decimal(n / 10).push(digit_char(n % 10))
    }
}

pub open spec fn digit_char(d: nat) -> char {
    if d == 0 {
        '0'
    } else if d == 1 {
        '1'
    } else if d == 2 {
        '2'
    } else if d == 3 {
        '3'
    } else if d == 4 {
        '4'
    } else if d == 5 {
        '5'
    } else if d == 6 {
        '6'
    } else if d == 7 {
        '7'
    } else if d == 8 {
        '8'
    } else {
        '9'
    }
}

pub(crate) fn digit_str(d: u128) -> (r: &'static str)
    requires
        d < 10,
    ensures
        r@ == seq![digit_char(d as nat)],
{
    proof {
        reveal_strlit("0");
        reveal_strlit("1");
        reveal_strlit("2");
        reveal_strlit("3");
        reveal_strlit("4");
        reveal_strlit("5");
        reveal_strlit("6");
        reveal_strlit("7");
        reveal_strlit("8");
        reveal_strlit("9");
    }
    if d == 0 {
        "0"
    } else if d == 1 {
        "1"
    } else if d == 2 {
        "2"
    } else if d == 3 {
        "3"
    } else if d == 4 {
        "4"
    } else if d == 5 {
        "5"
    } else if d == 6 {
        "6"
    } else if d == 7 {
        "7"
    } else if d == 8 {
        "8"
    } else {
        "9"
    }
}

/// Appends the decimal form of `n`.
pub fn push_decimal(out: &mut String, n: u128)
    ensures
        final(out)@ == old(out)@ + decimal(n as nat),
    decreases n,
{
    if n >= 10 {
        push_decimal(out, n / 10);
    }
    out.append(digit_str(n % 10));
    assert(final(out)@ =~= old(out)@ + decimal(n as nat));
}

/// How a raw count is displayed, and which changes of it are worth a new
/// status text.
pub trait Unit {
    spec fn spec_apply(&self, x: u64) -> u64;

    spec fn spec_postfix(&self) -> Seq<char>;

    spec fn spec_significant(&self, prev: u64, next: u64) -> bool;

    /// The displayed value of a raw count.
    fn apply(&self, x: u64) -> (r: u64)
        ensures
            r == self.spec_apply(x),
    ;

    /// The unit's name with a leading space, or nothing.
    fn postfix_with_leading_space(&self) -> (r: &str)
        ensures
            r@ == self.spec_postfix(),
    ;

    /// Whether going from `prev` to `next` changes what is displayed.
    fn is_significant_change(&self, prev: u64, next: u64) -> (r: bool)
        ensures
            r == self.spec_significant(prev, next),
    ;
}

/// Plain counts: every increase is shown.
pub struct Dimensionless;

impl Unit for Dimensionless {
    open spec fn spec_apply(&self, x: u64) -> u64 {
        x
    }

    open spec fn spec_postfix(&self) -> Seq<char> {
        Seq::empty()
    }

    open spec fn spec_significant(&self, prev: u64, next: u64) -> bool {
        prev < next
    }

    fn apply(&self, x: u64) -> (r: u64) {
        x
    }

    fn postfix_with_leading_space(&self) -> (r: &str) {
        proof {
            reveal_strlit("");
        }
        ""
    }

    fn is_significant_change(&self, prev: u64, next: u64) -> (r: bool) {
        prev < next
    }
}

/// Byte counts shown in whole kibibytes: a change is shown when it crosses
/// a multiple of 1024.
pub struct KiB;

impl Unit for KiB {
    open spec fn spec_apply(&self, x: u64) -> u64 {
        x / 1024
    }

    open spec fn spec_postfix(&self) -> Seq<char> {
        seq![' ', 'K', 'i', 'B']
    }

    open spec fn spec_significant(&self, prev: u64, next: u64) -> bool {
        prev / 1024 < next / 1024
    }

    fn apply(&self, x: u64) -> (r: u64) {
        x / 1024
    }

    fn postfix_with_leading_space(&self) -> (r: &str) {
        proof {
            reveal_strlit(" KiB");
        }
        " KiB"
    }

    fn is_significant_change(&self, prev: u64, next: u64) -> (r: bool) {
        prev / 1024 < next / 1024
    }
}

/// How many of the single steps `0 -> 1 -> ... -> n` change what `u` displays.
pub open spec fn unit_step_changes<U: Unit>(u: U, n: nat) -> nat
    decreases n,
{
    if n == 0 {
        0
    } else {
        unit_step_changes(u, (n - 1) as nat) + if u.spec_significant((n - 1) as u64, n as u64) {
            1nat
        } else {
            0nat
        }
    }
}

/// Counting bytes one at a time from zero up to `n`, the kibibyte display
/// changes once per whole kibibyte reached: `n / 1024` times.
pub proof fn lemma_kib_changes_once_per_kib(n: nat)
    requires
        n <= u64::MAX,
    ensures
        unit_step_changes(KiB, n) == n / 1024,
    decreases n,
{
    if n > 0 {
        lemma_kib_changes_once_per_kib((n - 1) as nat);
        let m = (n - 1) as int;
        assert(m / 1024 <= n / 1024 <= m / 1024 + 1);
        assert((m / 1024 < n / 1024) == (n % 1024 == 0));
    }
}

/// Counting one at a time from zero up to `n`, a plain count changes at
/// every step.
pub proof fn lemma_dimensionless_changes_every_step(n: nat)
    requires
        n <= u64::MAX,
    ensures
        unit_step_changes(Dimensionless, n) == n,
    decreases n,
{
    if n > 0 {
        lemma_dimensionless_changes_every_step((n - 1) as nat);
    }
}

/// What the caller is to do with a status text.
#[derive(Debug, PartialEq, Eq)]
pub enum Notify {
    /// Nothing to send now.
    Skip,
    /// Start delivering this text now.
    Send(String),
    /// Deliver this text once the notification in flight (if any) has landed.
    SendAfterPending(String),
}

/// One progress track: its current title, whether a notification of it may
/// still be in flight, and the newest text kept back meanwhile. At most one
/// notification is in flight; a newer text replaces the one kept back
/// instead of queueing behind it, and goes out when the slot frees.
pub struct Progress {
    title: String,
    pending: bool,
    waiting: Option<String>,
}

impl Progress {
    pub closed spec fn spec_title(&self) -> Seq<char> {
        self.title@
    }

    pub closed spec fn spec_pending(&self) -> bool {
        self.pending
    }

    pub closed spec fn spec_waiting(&self) -> Option<Seq<char>> {
        match self.waiting {
            Some(t) => Some(t@),
            None => None,
        }
    }

    /// Starts a track; the first text, the title, is to be sent at once.
    pub fn new(title: &str) -> (r: (Progress, Notify))
        ensures
            r.0.spec_title() == title@,
            r.0.spec_pending(),
            r.0.spec_waiting() is None,
            r.1 matches Notify::Send(t) && t@ == title@,
    {
        let p = Progress { title: String::from_str(title), pending: true, waiting: None };
        let t = String::from_str(title);
        (p, Notify::Send(t))
    }

    /// Starts a counted stage under a new title, with nothing done yet.
    pub fn scope(&mut self, title: &str, total: u64) -> (r: ProgressScope<Dimensionless>)
        ensures
            final(self).spec_title() == title@,
            final(self).spec_pending() == old(self).spec_pending(),
            final(self).spec_waiting() == old(self).spec_waiting(),
            r.total == total,
            r.done == 0,
    {
        self.title = String::from_str(title);
        ProgressScope { total, done: 0, unit: Dimensionless }
    }

    /// Shows a new title, best effort: while a notification is in flight it
    /// is kept back, replacing any text kept back before.
    pub fn title(&mut self, title: &str, previous_landed: bool) -> (r: Notify)
        ensures
            final(self).spec_title() == title@,
            Self::update_post(*old(self), *final(self), title@, previous_landed, r),
    {
        self.title = String::from_str(title);
        let t = String::from_str(title);
        self.do_update(t, previous_landed)
    }

    /// Shows a new title that must reach the user, after the notification
    /// in flight, so that stage announcements keep their order. Any text
    /// kept back is superseded by it.
    pub fn title_imp(&mut self, title: &str) -> (r: Notify)
        ensures
            final(self).spec_title() == title@,
            final(self).spec_pending(),
            final(self).spec_waiting() is None,
            old(self).spec_pending() ==> (r matches Notify::SendAfterPending(t) && t@ == title@),
            !old(self).spec_pending() ==> (r matches Notify::Send(t) && t@ == title@),
    {
        self.title = String::from_str(title);
        let t = String::from_str(title);
        self.do_update_imp(t)
    }

    /// Hands out the text kept back once the notification in flight has
    /// landed.
    pub fn poll(&mut self, previous_landed: bool) -> (r: Notify)
        ensures
            final(self).spec_title() == old(self).spec_title(),
            Self::poll_post(*old(self), *final(self), previous_landed, r),
    {
        if self.pending && previous_landed {
            match self.waiting.take() {
                Some(t) => Notify::Send(t),
                None => {
                    self.pending = false;
                    Notify::Skip
                },
            }
        } else {
            Notify::Skip
        }
    }

    /// What a best-effort update of the text to `to` does to the track:
    /// sent when the slot is free, else kept back in place of any earlier
    /// text.
    pub open spec fn update_post(
        old: Progress,
        new: Progress,
        to: Seq<char>,
        previous_landed: bool,
        r: Notify,
    ) -> bool {
        if old.spec_pending() && !previous_landed {
            &&& r == Notify::Skip
            &&& new.spec_pending()
            &&& new.spec_waiting() == Some(to)
        } else {
            &&& r matches Notify::Send(t) && t@ == to
            &&& new.spec_pending()
            &&& new.spec_waiting() is None
        }
    }

    /// What looking at the slot does: once the notification in flight has
    /// landed, the text kept back, if any, is the next one sent.
    pub open spec fn poll_post(old: Progress, new: Progress, previous_landed: bool, r: Notify) -> bool {
        if old.spec_pending() && previous_landed {
            match old.spec_waiting() {
                Some(t) => {
                    &&& r matches Notify::Send(x) && x@ == t
                    &&& new.spec_pending()
                    &&& new.spec_waiting() is None
                },
                None => {
                    &&& r == Notify::Skip
                    &&& !new.spec_pending()
                    &&& new.spec_waiting() is None
                },
            }
        } else {
            &&& r == Notify::Skip
            &&& new.spec_pending() == old.spec_pending()
            &&& new.spec_waiting() == old.spec_waiting()
        }
    }

    fn do_update(&mut self, to: String, previous_landed: bool) -> (r: Notify)
        ensures
            final(self).spec_title() == old(self).spec_title(),
            Self::update_post(*old(self), *final(self), to@, previous_landed, r),
    {
        if self.pending && !previous_landed {
            self.waiting = Some(to);
            Notify::Skip
        } else {
            self.pending = true;
            self.waiting = None;
            Notify::Send(to)
        }
    }

    fn do_update_imp(&mut self, to: String) -> (r: Notify)
        ensures
            final(self).spec_title() == old(self).spec_title(),
            final(self).spec_pending(),
            final(self).spec_waiting() is None,
            old(self).spec_pending() ==> (r matches Notify::SendAfterPending(t) && t@ == to@),
            !old(self).spec_pending() ==> (r matches Notify::Send(t) && t@ == to@),
    {
        let r = if self.pending {
            Notify::SendAfterPending(to)
        } else {
            Notify::Send(to)
        };
        self.pending = true;
        self.waiting = None;
        r
    }
}

/// The status text of a stage: `"{title} {percent}% ({done}/{total}{unit})"`,
/// where the percentage is `done * 100 / total` over the raw counts,
/// rounded down and 0 when the total is 0, and the two numbers shown are the
/// displayed values.
pub open spec fn stage_message(
    title: Seq<char>,
    done: u64,
    total: u64,
    shown_done: u64,
    shown_total: u64,
    postfix: Seq<char>,
) -> Seq<char> {
    let percent: nat = if total == 0 {
        0
    } else {
        (done as nat * 100) / total as nat
    };
    title + seq![' '] + decimal(percent) + seq!['%', ' ', '('] + decimal(shown_done as nat) + seq![
        '/',
    ] + decimal(shown_total as nat) + postfix + seq![')']
}

/// A counted stage of a progress track.
pub struct ProgressScope<U> {
    pub total: u64,
    pub done: u64,
    pub unit: U,
}

impl<U: Unit> ProgressScope<U> {
    /// The same stage, displayed in another unit.
    pub fn with_unit<U2>(self, unit: U2) -> (r: ProgressScope<U2>)
        ensures
            r.total == self.total,
            r.done == self.done,
            r.unit == unit,
    {
        ProgressScope { total: self.total, done: self.done, unit }
    }

    /// The text that shows this stage of `p`.
    pub open spec fn spec_message(&self, p: Progress) -> Seq<char> {
        stage_message(
            p.spec_title(),
            self.done,
            self.total,
            self.unit.spec_apply(self.done),
            self.unit.spec_apply(self.total),
            self.unit.spec_postfix(),
        )
    }

    /// Counts one more unit of work.
    pub fn inc(&mut self, p: &mut Progress, previous_landed: bool) -> (r: Notify)
        requires
            old(self).done < u64::MAX,
        ensures
            final(self).done == old(self).done + 1,
            final(self).total == old(self).total,
            final(self).unit == old(self).unit,
            final(p).spec_title() == old(p).spec_title(),
            Self::inc_post(*old(self), *final(self), *old(p), *final(p), previous_landed, r),
    {
        self.inc_by(p, 1, previous_landed)
    }

    /// Counts `by` more units of work; a new text is made only when the
    /// displayed value changes, else a text kept back goes out if the slot
    /// has freed.
    pub fn inc_by(&mut self, p: &mut Progress, by: u64, previous_landed: bool) -> (r: Notify)
        requires
            old(self).done + by <= u64::MAX,
        ensures
            final(self).done == old(self).done + by,
            final(self).total == old(self).total,
            final(self).unit == old(self).unit,
            final(p).spec_title() == old(p).spec_title(),
            Self::inc_post(*old(self), *final(self), *old(p), *final(p), previous_landed, r),
    {
        let prev = self.done;
        self.done = self.done + by;
        if self.unit.is_significant_change(prev, self.done) {
            self.do_update(p, previous_landed)
        } else {
            p.poll(previous_landed)
        }
    }

    /// What an increment does: a best-effort update with the stage's new
    /// text when the displayed value changed, else a look at the slot.
    pub open spec fn inc_post(
        old: Self,
        new: Self,
        old_p: Progress,
        new_p: Progress,
        previous_landed: bool,
        r: Notify,
    ) -> bool {
        if old.unit.spec_significant(old.done, new.done) {
            Progress::update_post(old_p, new_p, new.spec_message(old_p), previous_landed, r)
        } else {
            Progress::poll_post(old_p, new_p, previous_landed, r)
        }
    }

    fn do_update(&self, p: &mut Progress, previous_landed: bool) -> (r: Notify)
        ensures
            final(p).spec_title() == old(p).spec_title(),
            Progress::update_post(
                *old(p),
                *final(p),
                self.spec_message(*old(p)),
                previous_landed,
                r,
            ),
    {
        let message = self.message(p);
        p.do_update(message, previous_landed)
    }

    /// The text that shows this stage of `p`.
    pub fn message(&self, p: &Progress) -> (r: String)
        ensures
            r@ == self.spec_message(*p),
    {
        let done = self.unit.apply(self.done);
        let total = self.unit.apply(self.total);
        let postfix = self.unit.postfix_with_leading_space();
        let percent: u128 = if self.total == 0 {
            0
        } else {
            (self.done as u128 * 100) / self.total as u128
        };
        let mut out = p.title.clone();
        proof {
            reveal_strlit(" ");
            reveal_strlit("% (");
            reveal_strlit("/");
            reveal_strlit(")");
        }
        out.append(" ");
        push_decimal(&mut out, percent);
        out.append("% (");
        push_decimal(&mut out, done as u128);
        out.append("/");
        push_decimal(&mut out, total as u128);
        out.append(postfix);
        out.append(")");
        assert(out@ =~= self.spec_message(*p));
        out
    }
}

} // verus!
