//! The stats ledger: a baseline snapshot, the latest snapshot a mutation
//! returned, the reward messages, and the human-readable difference.

use vstd::prelude::*;
use crate::habitica::{opt_text, UserStats};
use crate::text::{char_of_digit, decimal, digit_char, push_char, push_decimal};

verus! {

/// Differences below this many thousandths are not reported.
pub const REPORT_THRESHOLD: i64 = 10;

/// Magnitudes below one whole unit (1000 thousandths) are written with
/// two decimals, the rest are rounded to whole numbers.
pub open spec fn rounded(m: nat) -> nat {
    m / 1000 + if m % 1000 >= 500 { 1nat } else { 0nat }
}

/// A magnitude in thousandths, rounded half up to hundredths, with two decimals.
pub open spec fn two_decimals(m: nat) -> Seq<char> {
    let c = m / 10 + if m % 10 >= 5 { 1nat } else { 0nat };
    decimal(c / 100) + seq!['.', digit_char((c % 100) / 10), digit_char(c % 10)]
}

pub open spec fn magnitude_text(m: nat) -> Seq<char> {
    if m < 1000 {
        two_decimals(m)
    } else {
        decimal(rounded(m))
    }
}

/// A signed value in thousandths: below one unit with two decimals, else rounded.
pub open spec fn value_text(v: int) -> Seq<char> {
    if v < 0 {
        seq!['-'] + two_decimals((-v) as nat)
    } else {
        magnitude_text(v as nat)
    }
}

/// A whole number, with a minus sign where it is negative.
pub open spec fn int_text(v: int) -> Seq<char> {
    if v < 0 {
        seq!['-'] + decimal((-v) as nat)
    } else {
        decimal(v as nat)
    }
}

/// The line for one metric, if its change is large enough to report:
/// `Name:+diff (new)` or, with a ceiling, `Name:-diff (new/max)`.
pub open spec fn stat_line(name: Seq<char>, old: int, new: int, max: Option<int>) -> Option<
    Seq<char>,
> {
    let d = new - old;
    if -10 < d < 10 {
        None
    } else {
        Some(
            name + seq![':', if d > 0 { '+' } else { '-' }] + magnitude_text(
                if d < 0 { -d } else { d } as nat,
            ) + seq![' ', '('] + value_text(new) + match max {
                Some(m) => seq!['/'] + int_text(m),
                None => Seq::empty(),
            } + seq![')'],
        )
    }
}

pub open spec fn opt_line(l: Option<Seq<char>>) -> Seq<Seq<char>> {
    match l {
        Some(x) => seq![x],
        None => Seq::empty(),
    }
}

pub open spec fn level_lines(old: int, new: int) -> Seq<Seq<char>> {
    if new > old {
        seq!["LEVEL UP! ("@ + int_text(old) + " -> "@ + int_text(new) + ")"@]
    } else if new < old {
        seq!["LEVEL LOST! ("@ + int_text(old) + " -> "@ + int_text(new) + ")"@]
    } else {
        Seq::empty()
    }
}

pub open spec fn ceiling(m: Option<i32>) -> Option<int> {
    match m {
        Some(x) => Some(x as int),
        None => None,
    }
}

/// The report of a change of stats: level, health, mana, experience (only
/// where the level stayed), gold, then the reward messages.
pub open spec fn diff_lines(old: UserStats, new: UserStats, drops: Seq<Seq<char>>) -> Seq<
    Seq<char>,
> {
    level_lines(old.lvl as int, new.lvl as int) + opt_line(
        stat_line("HP"@, old.hp as int, new.hp as int, ceiling(new.max_hp)),
    ) + opt_line(stat_line("MP"@, old.mp as int, new.mp as int, ceiling(new.max_mp))) + (if old.lvl
        == new.lvl {
        opt_line(stat_line("Exp"@, old.exp as int, new.exp as int, None))
    } else {
        Seq::empty()
    }) + opt_line(stat_line("Gold"@, old.gp as int, new.gp as int, None)) + drops
}

/// The ledger kept over a run of remote mutations.
#[derive(Debug)]
pub struct StatsCache {
    pub old: UserStats,
    pub current: Option<UserStats>,
    pub drops: Vec<String>,
}

pub struct StatsCacheView {
    pub old: UserStats,
    pub current: Option<UserStats>,
    pub drops: Seq<Seq<char>>,
}

pub open spec fn texts(v: Seq<String>) -> Seq<Seq<char>> {
    v.map_values(|s: String| s@)
}

impl View for StatsCache {
    type V = StatsCacheView;

    open spec fn view(&self) -> StatsCacheView {
        StatsCacheView { old: self.old, current: self.current, drops: texts(self.drops@) }
    }
}

impl StatsCacheView {
    /// Without a later snapshot only the messages are reported.
    pub open spec fn diff_messages(self) -> Seq<Seq<char>> {
        match self.current {
            None => self.drops,
            Some(new) => diff_lines(self.old, new, self.drops),
        }
    }
}

fn push_text(s: &mut String, t: &str)
    ensures
        final(s)@ == old(s)@ + t@,
{
    s.append(t);
}

fn push_two_decimals(s: &mut String, m: u64)
    ensures
        final(s)@ == old(s)@ + two_decimals(m as nat),
{
    let c = m / 10 + if m % 10 >= 5 { 1u64 } else { 0u64 };
    push_decimal(s, c / 100);
    push_char(s, '.');
    push_char(s, char_of_digit(((c % 100) / 10) as u32));
    push_char(s, char_of_digit((c % 10) as u32));
    assert(s@ =~= old(s)@ + two_decimals(m as nat));
}

fn push_magnitude(s: &mut String, m: u64)
    ensures
        final(s)@ == old(s)@ + magnitude_text(m as nat),
{
    if m < 1000 {
        push_two_decimals(s, m);
    } else {
        let r = m / 1000 + if m % 1000 >= 500 { 1u64 } else { 0u64 };
        push_decimal(s, r);
    }
}

fn push_value(s: &mut String, v: i64)
    ensures
        final(s)@ == old(s)@ + value_text(v as int),
{
    if v < 0 {
        let m: u64 = (-(v as i128)) as u64;
        push_char(s, '-');
        push_two_decimals(s, m);
        assert(s@ =~= old(s)@ + value_text(v as int));
    } else {
        push_magnitude(s, v as u64);
    }
}

fn push_int(s: &mut String, v: i64)
    ensures
        final(s)@ == old(s)@ + int_text(v as int),
{
    if v < 0 {
        let m: u64 = (-(v as i128)) as u64;
        push_char(s, '-');
        push_decimal(s, m);
        assert(s@ =~= old(s)@ + int_text(v as int));
    } else {
        push_decimal(s, v as u64);
    }
}

impl StatsCache {
    pub fn new(stats: UserStats) -> (r: Self)
        ensures
            r@.old == stats,
            r@.current is None,
            r@.drops == Seq::<Seq<char>>::empty(),
    {
        let r = StatsCache { old: stats, current: None, drops: Vec::new() };
        assert(r@.drops =~= Seq::<Seq<char>>::empty());
        r
    }

    /// Records one mutation: a stats payload replaces the latest snapshot
    /// (an absent one leaves it), a message is appended.
    pub fn update(&mut self, stats: Option<UserStats>, drop_message: Option<String>)
        ensures
            final(self)@.old == old(self)@.old,
            final(self)@.current == match stats {
                Some(s) => Some(s),
                None => old(self)@.current,
            },
            final(self)@.drops == match drop_message {
                Some(m) => old(self)@.drops.push(m@),
                None => old(self)@.drops,
            },
    {
        if let Some(s) = stats {
            self.current = Some(s);
        }
        if let Some(msg) = drop_message {
            let ghost before = self.drops@;
            let ghost m = msg@;
            self.drops.push(msg);
            assert(texts(self.drops@) =~= texts(before).push(m));
        }
    }

    /// The line for one metric, or `None` where its change is under the
    /// reporting threshold.
    fn format_stat_diff(name: &str, old_val: i64, new_val: i64, max_val: Option<i32>) -> (r: Option<String>)
        ensures
            opt_text(r) == stat_line(name@, old_val as int, new_val as int, ceiling(max_val)),
    {
        let diff: i128 = new_val as i128 - old_val as i128;
        if -(REPORT_THRESHOLD as i128) < diff && diff < REPORT_THRESHOLD as i128 {
            return None;
        }
        let abs_diff: u64 = if diff < 0 { (-diff) as u64 } else { diff as u64 };
        let mut s = String::new();
        push_text(&mut s, name);
        push_char(&mut s, ':');
        push_char(&mut s, if diff > 0 { '+' } else { '-' });
        push_magnitude(&mut s, abs_diff);
        push_char(&mut s, ' ');
        push_char(&mut s, '(');
        push_value(&mut s, new_val);
        match max_val {
            Some(m) => {
                push_char(&mut s, '/');
                push_int(&mut s, m as i64);
            },
            None => {},
        }
        push_char(&mut s, ')');
        let ghost d = new_val as int - old_val as int;
        assert(s@ =~= name@ + seq![':', if d > 0 { '+' } else { '-' }] + magnitude_text(
            if d < 0 { -d } else { d } as nat,
        ) + seq![' ', '('] + value_text(new_val as int) + match ceiling(max_val) {
            Some(m) => seq!['/'] + int_text(m),
            None => Seq::empty(),
        } + seq![')']);
        Some(s)
    }
}

fn push_line(v: &mut Vec<String>, l: Option<String>)
    ensures
        texts(final(v)@) == texts(old(v)@) + opt_line(opt_text(l)),
{
    match l {
        Some(x) => {
            let ghost t = x@;
            v.push(x);
            assert(texts(v@) =~= texts(old(v)@) + opt_line(Some(t)));
        },
        None => {
            assert(texts(v@) =~= texts(old(v)@) + Seq::<Seq<char>>::empty());
        },
    }
}

fn append_texts(v: &mut Vec<String>, w: &Vec<String>)
    ensures
        texts(final(v)@) == texts(old(v)@) + texts(w@),
{
    let mut i: usize = 0;
    while i < w.len()
        invariant
            i <= w@.len(),
            texts(v@) == texts(old(v)@) + texts(w@.subrange(0, i as int)),
        decreases w@.len() - i,
    {
        let ghost before = v@;
        let x = w[i].clone();
        v.push(x);
        proof {
            assert(w@.subrange(0, i + 1) =~= w@.subrange(0, i as int).push(w@[i as int]));
            assert(texts(w@.subrange(0, i + 1)) =~= texts(w@.subrange(0, i as int)).push(
                w@[i as int]@,
            ));
            assert(texts(v@) =~= texts(before).push(x@));
        }
        i = i + 1;
    }
    assert(w@.subrange(0, w@.len() as int) =~= w@);
}

fn level_line(up: bool, old_lvl: i32, new_lvl: i32) -> (r: String)
    ensures
        up ==> r@ == "LEVEL UP! ("@ + int_text(old_lvl as int) + " -> "@ + int_text(new_lvl as int)
            + ")"@,
        !up ==> r@ == "LEVEL LOST! ("@ + int_text(old_lvl as int) + " -> "@ + int_text(
            new_lvl as int,
        ) + ")"@,
{
    let mut s = String::new();
    if up {
        push_text(&mut s, "LEVEL UP! (");
    } else {
        push_text(&mut s, "LEVEL LOST! (");
    }
    let ghost head = s@;
    push_int(&mut s, old_lvl as i64);
    push_text(&mut s, " -> ");
    push_int(&mut s, new_lvl as i64);
    push_text(&mut s, ")");
    assert(s@ =~= head + int_text(old_lvl as int) + " -> "@ + int_text(new_lvl as int) + ")"@);
    s
}

impl StatsCache {
    /// The human-readable report of the ledger, in order: level, health,
    /// mana, experience, gold, then the reward messages.
    pub fn get_diff_messages(&self) -> (r: Vec<String>)
        ensures
            texts(r@) == self@.diff_messages(),
    {
        let mut messages: Vec<String> = Vec::new();
        let new = match &self.current {
            Some(s) => *s,
            None => {
                append_texts(&mut messages, &self.drops);
                assert(texts(messages@) =~= self@.drops);
                return messages;
            },
        };
        let old = self.old;
        if new.lvl > old.lvl {
            let l = level_line(true, old.lvl, new.lvl);
            messages.push(l);
        } else if new.lvl < old.lvl {
            let l = level_line(false, old.lvl, new.lvl);
            messages.push(l);
        }
        assert(texts(messages@) =~= level_lines(old.lvl as int, new.lvl as int));
        push_line(&mut messages, Self::format_stat_diff("HP", old.hp, new.hp, new.max_hp));
        push_line(&mut messages, Self::format_stat_diff("MP", old.mp, new.mp, new.max_mp));
        let ghost before_exp = texts(messages@);
        if new.lvl == old.lvl {
            push_line(&mut messages, Self::format_stat_diff("Exp", old.exp, new.exp, None));
        } else {
            assert(texts(messages@) =~= before_exp + Seq::<Seq<char>>::empty());
        }
        push_line(&mut messages, Self::format_stat_diff("Gold", old.gp, new.gp, None));
        append_texts(&mut messages, &self.drops);
        assert(texts(messages@) =~= diff_lines(old, new, self@.drops));
        messages
    }
}

/// Whether a metric moved by less than the reporting threshold.
pub open spec fn unnoticed(old: i64, new: i64) -> bool {
    -10 < new - old < 10
}

/// When health, mana, experience and gold all moved by less than the
/// reporting threshold, the level stayed the same and no reward message was
/// recorded, the report is empty.
pub proof fn lemma_small_changes_report_nothing(c: StatsCacheView)
    requires
        c.drops.len() == 0,
        c.current matches Some(new) ==> {
            &&& unnoticed(c.old.hp, new.hp)
            &&& unnoticed(c.old.mp, new.mp)
            &&& unnoticed(c.old.exp, new.exp)
            &&& unnoticed(c.old.gp, new.gp)
            &&& c.old.lvl == new.lvl
        },
    ensures
        c.diff_messages().len() == 0,
{
}

} // verus!
