//! The queue between callers and the worker: how long it may get, and what happens when it is
//! full.

use vstd::prelude::*;

use crate::json::opt_str;
use crate::text::{decimal, law_digits_tell_the_number};

verus! {

/// How many logs may wait where the environment does not say.
pub const DEFAULT_QUEUE_CAPACITY: usize = 10_000;

/// Dropped logs are reported each time this many more were dropped.
pub const DROP_REPORT_INTERVAL: u64 = 1000;

/// The number that decimal digits stand for; nothing where there are none or where another
/// character is among them.
pub open spec fn digits_value(text: Seq<char>) -> Option<nat>
    decreases text.len(),
{
    if text.len() == 0 || !('0' <= text.last() && text.last() <= '9') {
        None
    } else {
        let digit = (text.last() as int - '0' as int) as nat;
        if text.len() == 1 {
            Some(digit)
        } else {
            match digits_value(text.drop_last()) {
                Some(n) => Some(10 * n + digit),
                None => None,
            }
        }
    }
}

/// The number that a text stands for: decimal digits, with or without a plus sign before them.
pub open spec fn number_in(text: Seq<char>) -> Option<nat> {
    if text.len() > 0 && text[0] == '+' {
        digits_value(text.drop_first())
    } else {
        digits_value(text)
    }
}

/// The number that a text stands for, nothing where it stands for none or for one that is too
/// large.
pub(crate) fn parse_usize(text: &str) -> (r: Option<usize>)
    ensures
        r == (match number_in(text@) {
            Some(n) => if n <= usize::MAX {
                Some(n as usize)
            } else {
                None
            },
            None => None,
        }),
{
    let n: usize = text.unicode_len();
    let start: usize = if n > 0 && text.get_char(0) == '+' {
        1
    } else {
        0
    };
    let ghost all = text@.skip(start as int);
    assert(start == 0 ==> all =~= text@);
    assert(start == 1 ==> all =~= text@.drop_first());
    if start == n {
        return None;
    }
    let mut value: usize = 0;
    let mut i: usize = start;
    while i < n
        invariant
            start <= i <= n == text@.len(),
            all == text@.skip(start as int),
            i == start ==> value == 0,
            i > start ==> digits_value(all.take(i - start)) == Some(value as nat),
            number_in(text@) == digits_value(all),
        decreases n - i,
    {
        let c = text.get_char(i);
        proof {
            assert(all.take(i + 1 - start).drop_last() =~= all.take(i - start));
            assert(all.take(i + 1 - start).last() == c);
            lemma_more_digits(all, i + 1 - start);
        }
        if c < '0' || c > '9' {
            return None;
        }
        let digit: usize = (c as u32 - 48) as usize;
        if value > (usize::MAX - digit) / 10 {
            return None;
        }
        value = 10 * value + digit;
        i = i + 1;
    }
    assert(all.take(n - start) =~= all);
    Some(value)
}

/// A text stands for a number only where each beginning of it does, and for no smaller one.
proof fn lemma_more_digits(text: Seq<char>, n: int)
    requires
        0 < n <= text.len(),
    ensures
        digits_value(text) is Some ==> digits_value(text.take(n)) is Some,
        digits_value(text) is Some ==> digits_value(text)->0 >= digits_value(text.take(n))->0,
    decreases text.len(),
{
    if n < text.len() {
        lemma_more_digits(text.drop_last(), n);
        assert(text.drop_last().take(n) =~= text.take(n));
    } else {
        assert(text.take(n) =~= text);
    }
}

/// The capacity that a setting asks for: a number above zero that a machine word holds, and the
/// default for anything else.
pub open spec fn capacity_in(setting: Option<Seq<char>>) -> usize {
    match setting {
        Some(text) => match number_in(text) {
            Some(n) => if 0 < n <= usize::MAX {
                n as usize
            } else {
                DEFAULT_QUEUE_CAPACITY
            },
            None => DEFAULT_QUEUE_CAPACITY,
        },
        None => DEFAULT_QUEUE_CAPACITY,
    }
}

/// How many logs may wait for the worker. A setting that is missing, zero or no number gives the
/// default.
pub fn queue_capacity(setting: Option<&str>) -> (r: usize)
    ensures
        r == capacity_in(opt_str(setting)),
        r > 0,
{
    match setting {
        Some(text) => match parse_usize(text) {
            Some(n) => if n > 0 {
                n
            } else {
                DEFAULT_QUEUE_CAPACITY
            },
            None => DEFAULT_QUEUE_CAPACITY,
        },
        None => DEFAULT_QUEUE_CAPACITY,
    }
}

/// What became of a log that was offered to the queue without waiting.
#[derive(Clone, Copy, Debug, PartialEq, Eq, Structural)]
pub enum Offer {
    /// The queue took it.
    Queued,
    /// The queue was full, and the log was dropped.
    Full,
    /// The worker is gone.
    Disconnected,
}

/// What to report after a log was offered.
#[derive(Clone, Copy, Debug, PartialEq, Eq, Structural)]
pub enum Notice {
    Nothing,
    /// So many logs were dropped since the start.
    Dropped(u64),
    /// No worker takes logs.
    NoWorker,
}

/// How many logs were dropped since the start. The count wraps around.
#[derive(Clone, Copy, Debug, PartialEq, Eq, Structural)]
pub struct Drops {
    pub count: u64,
}

impl Drops {
    pub fn new() -> (r: Self)
        ensures
            r.count == 0,
    {
        Drops { count: 0 }
    }

    /// The count after an offer, and what to report: every thousandth dropped log, and a worker
    /// that is gone.
    pub open spec fn after(self, offer: Offer) -> (Drops, Notice) {
        match offer {
            Offer::Queued => (self, Notice::Nothing),
            Offer::Full => {
                let count: u64 = if self.count == u64::MAX {
                    0
                } else {
                    (self.count + 1) as u64
                };
                (
                    Drops { count },
                    if count % DROP_REPORT_INTERVAL == 0 {
                        Notice::Dropped(count)
                    } else {
                        Notice::Nothing
                    },
                )
            },
            Offer::Disconnected => (self, Notice::NoWorker),
        }
    }

    /// Counts an offer, and says what to report.
    pub fn record(&mut self, offer: Offer) -> (r: Notice)
        ensures
            (*final(self), r) == old(self).after(offer),
    {
        match offer {
            Offer::Queued => Notice::Nothing,
            Offer::Full => {
                self.count = if self.count == u64::MAX {
                    0
                } else {
                    self.count + 1
                };
                if self.count % DROP_REPORT_INTERVAL == 0 {
                    Notice::Dropped(self.count)
                } else {
                    Notice::Nothing
                }
            },
            Offer::Disconnected => Notice::NoWorker,
        }
    }
}

/// The count after `n` logs were dropped one after the other.
pub open spec fn after_drops(drops: Drops, n: nat) -> Drops
    decreases n,
{
    if n == 0 {
        drops
    } else {
        after_drops(drops, (n - 1) as nat).after(Offer::Full).0
    }
}

/// Of the logs that are dropped from the start on, the thousandth, the two thousandth and so on
/// are reported with their number, and no others, until the count wraps around.
pub proof fn law_every_thousandth_drop_is_reported(n: nat)
    requires
        0 < n <= u64::MAX,
    ensures
        after_drops(Drops { count: 0 }, n).count == n,
        after_drops(Drops { count: 0 }, (n - 1) as nat).after(Offer::Full).1 == (if n % 1000 == 0 {
            Notice::Dropped(n as u64)
        } else {
            Notice::Nothing
        }),
    decreases n,
{
    if n > 1 {
        law_every_thousandth_drop_is_reported((n - 1) as nat);
    } else {
        assert(after_drops(Drops { count: 0 }, 0) == Drops { count: 0 });
    }
}

/// A setting that is the digits of a number, with or without a plus sign before them, asks for that
/// number, where it is above zero and a machine word holds it, and otherwise gets the default.
pub proof fn law_capacity_is_the_number_in_the_setting(n: nat)
    ensures
        digits_value(decimal(n)) == Some(n),
        capacity_in(Some(decimal(n))) == (if 0 < n <= usize::MAX {
            n as usize
        } else {
            10_000
        }),
        capacity_in(Some(seq!['+'] + decimal(n))) == capacity_in(Some(decimal(n))),
{
    lemma_digits_read_back(n);
    law_digits_tell_the_number(n);
    assert((seq!['+'] + decimal(n)).drop_first() =~= decimal(n));
}

proof fn lemma_digits_read_back(n: nat)
    ensures
        digits_value(decimal(n)) == Some(n),
    decreases n,
{
    law_digits_tell_the_number(n);
    if n >= 10 {
        lemma_digits_read_back(n / 10);
    }
}

/// A setting that is missing or empty, or that has a character other than a digit in any place but
/// the first, gets the default; so does one that starts with neither a digit nor a plus sign.
pub proof fn law_capacity_without_a_number_is_the_default(text: Seq<char>, i: int)
    requires
        0 <= i < text.len(),
        !('0' <= text[i] && text[i] <= '9'),
        i > 0 || text[i] != '+',
    ensures
        capacity_in(Some(text)) == 10_000,
        capacity_in(Some(Seq::empty())) == 10_000,
        capacity_in(None) == 10_000,
{
    if text[0] == '+' {
        lemma_other_character(text.drop_first(), i - 1);
    } else {
        lemma_other_character(text, i);
    }
}

proof fn lemma_other_character(text: Seq<char>, i: int)
    requires
        0 <= i < text.len(),
        !('0' <= text[i] && text[i] <= '9'),
    ensures
        digits_value(text) is None,
    decreases text.len(),
{
    if i < text.len() - 1 {
        lemma_other_character(text.drop_last(), i);
    }
}

/// A log that the queue took and a log that finds no worker are not counted as dropped; the first
/// is not reported, and the second is, as what it is. A dropped log is counted once, and the count
/// wraps around.
pub proof fn law_only_dropped_logs_are_counted(drops: Drops)
    ensures
        drops.after(Offer::Queued) == (drops, Notice::Nothing),
        drops.after(Offer::Disconnected) == (drops, Notice::NoWorker),
        drops.after(Offer::Full).0.count == (drops.count + 1) % 0x1_0000_0000_0000_0000,
        drops.after(Offer::Full).1 == (if drops.after(Offer::Full).0.count % 1000 == 0 {
            Notice::Dropped(drops.after(Offer::Full).0.count)
        } else {
            Notice::Nothing
        }),
{
}

} // verus!
