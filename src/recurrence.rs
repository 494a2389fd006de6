use vstd::prelude::*;

verus! {

/// The unit of a recurrence interval.
#[derive(Clone, Copy, Debug, PartialEq, Eq, Structural)]
pub enum Period {
    Day,
    Week,
    Month,
    Year,
}

/// How a completed task comes back: every `num` periods, counted from the
/// due date when `strict`, else from the completion date.
#[derive(Clone, Copy, Debug, PartialEq, Eq, Structural)]
pub struct Recurrence {
    pub num: u8,
    pub period: Period,
    pub strict: bool,
}

pub open spec fn period_of(c: char) -> Option<Period> {
    if c == 'd' {
        Some(Period::Day)
    } else if c == 'w' {
        Some(Period::Week)
    } else if c == 'm' {
        Some(Period::Month)
    } else if c == 'y' {
        Some(Period::Year)
    } else {
        None
    }
}

pub open spec fn period_char(p: Period) -> char {
    match p {
        Period::Day => 'd',
        Period::Week => 'w',
        Period::Month => 'm',
        Period::Year => 'y',
    }
}

pub open spec fn is_digit(c: char) -> bool {
    '0' <= c && c <= '9'
}

pub open spec fn digit_char(n: u8) -> char {
    (n + ('0' as u32)) as char
}

/// What is left of `s` once its leading `+` signs are gone.
pub open spec fn strip_plus(s: Seq<char>) -> Seq<char>
    decreases s.len(),
{
    if s.len() > 0 && s[0] == '+' {
        strip_plus(s.drop_first())
    } else {
        s
    }
}

/// The rule a text such as `+1w` or `3d` stands for: leading `+` signs mark
/// a strict rule, then one digit and one period letter.
pub open spec fn rec_of(s: Seq<char>) -> Option<Recurrence> {
    let rest = strip_plus(s);
    if rest.len() == 2 && is_digit(rest[0]) && period_of(rest[1]) is Some {
        Some(
            Recurrence {
                num: (rest[0] as u32 - '0' as u32) as u8,
                period: period_of(rest[1])->Some_0,
                strict: s.len() > 0 && s[0] == '+',
            },
        )
    } else {
        None
    }
}

/// The text of a rule.
pub open spec fn rec_text(r: Recurrence) -> Seq<char> {
    (if r.strict {
        seq!['+']
    } else {
        Seq::empty()
    }) + seq![digit_char(r.num), period_char(r.period)]
}

impl Recurrence {
    /// A rule has a one-digit count.
    pub open spec fn valid(self) -> bool {
        self.num <= 9
    }

    /// Reads a rule from its text; `None` where the text is no rule.
    pub fn parse(s: &str) -> (r: Option<Recurrence>)
        ensures
            r == rec_of(s@),
            r matches Some(x) ==> x.valid(),
    {
        let n = s.unicode_len();
        let mut i: usize = 0;
        assert(s@.subrange(0, n as int) =~= s@);
        while i < n && s.get_char(i) == '+'
            invariant
                i <= n,
                n == s@.len(),
                strip_plus(s@) == strip_plus(s@.subrange(i as int, n as int)),
                i > 0 ==> s@[0] == '+',
            decreases n - i,
        {
            assert(s@.subrange(i as int, n as int).drop_first() =~= s@.subrange(
                i as int + 1,
                n as int,
            ));
            i = i + 1;
        }
        assert(strip_plus(s@.subrange(i as int, n as int)) == s@.subrange(i as int, n as int));
        if n - i != 2 {
            return None;
        }
        let c = s.get_char(i);
        let p = s.get_char(i + 1);
        if c < '0' || c > '9' {
            return None;
        }
        let period = if p == 'd' {
            Period::Day
        } else if p == 'w' {
            Period::Week
        } else if p == 'm' {
            Period::Month
        } else if p == 'y' {
            Period::Year
        } else {
            return None;
        };
        Some(Recurrence { num: (c as u32 - '0' as u32) as u8, period, strict: i > 0 })
    }

    /// The rule's text, as `parse` reads it.
    pub fn to_text(&self) -> (r: String)
        requires
            self.valid(),
        ensures
            r@ == rec_text(*self),
    {
        let mut r = String::new();
        if self.strict {
            r.append("+");
        }
        let digits = "0123456789";
        proof {
            reveal_strlit("0123456789");
        }
        r.append(digits.substring_char(self.num as usize, self.num as usize + 1));
        let period = match self.period {
            Period::Day => "d",
            Period::Week => "w",
            Period::Month => "m",
            Period::Year => "y",
        };
        proof {
            reveal_strlit("+");
            reveal_strlit("d");
            reveal_strlit("w");
            reveal_strlit("m");
            reveal_strlit("y");
        }
        r.append(period);
        assert(r@ =~= rec_text(*self));
        r
    }
}

/// Reading a rule's text gives the rule back.
pub proof fn lemma_rec_text_round_trip(r: Recurrence)
    requires
        r.valid(),
    ensures
        rec_of(rec_text(r)) == Some(r),
{
    let s = rec_text(r);
    let tail = seq![digit_char(r.num), period_char(r.period)];
    assert(strip_plus(tail) == tail);
    if r.strict {
        assert(s.drop_first() =~= tail);
    } else {
        assert(s =~= tail);
    }
    assert(strip_plus(s) == tail);
}

} // verus!
