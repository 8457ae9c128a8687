//! Identifiers that are numbered within a process.
use crate::event::RunLocalId;
use vstd::prelude::*;
use vstd::string::StringExecFns;

verus! {

/// The decimal digit of a number below ten.
pub open spec fn digit(value: nat) -> char {
    (48 + value) as char
}

/// A number in decimal.
pub open spec fn decimal(value: nat) -> Seq<char>
    decreases value,
{
    if value < 10 {
        seq![digit(value)]
    } else {
        decimal(value / 10).push(digit(value % 10))
    }
}

fn digit_text(value: u64) -> (text: &'static str)
    requires
        value < 10,
    ensures
        text@ == seq![digit(value as nat)],
{
    proof {
        reveal_strlit("0");
        reveal_strlit("1");
        reveal_strlit("2");
        reveal_strlit("3");
        reveal_strlit("4");
        reveal_strlit("5");
        reveal_strlit("6");
        reveal_strlit("7");
        reveal_strlit("8");
        reveal_strlit("9");
    }
    match value {
        0 => "0",
        1 => "1",
        2 => "2",
        3 => "3",
        4 => "4",
        5 => "5",
        6 => "6",
        7 => "7",
        8 => "8",
        _ => "9",
    }
}

/// Writes a number in decimal.
pub fn decimal_text(value: u64) -> (text: String)
    ensures
        text@ == decimal(value as nat),
    decreases value,
{
    if value < 10 {
        digit_text(value).to_owned()
    } else {
        let text = decimal_text(value / 10).concat(digit_text(value % 10));
        assert(text@ =~= decimal(value as nat));
        text
    }
}

/// The text of a numbered identifier: a prefix, then the number in decimal.
pub open spec fn numbered(prefix: Seq<char>, value: u64) -> Seq<char> {
    prefix + decimal(value as nat)
}

/// Writes a numbered identifier.
pub fn numbered_text(prefix: &str, value: u64) -> (text: String)
    ensures
        text@ == numbered(prefix@, value),
{
    prefix.to_owned().concat(decimal_text(value).as_str())
}

/// Writes a numbered identifier.
pub fn numbered_id(prefix: &str, value: u64) -> (id: RunLocalId)
    ensures
        id@ == numbered(prefix@, value),
{
    RunLocalId { text: numbered_text(prefix, value) }
}

/// Hands out numbers, each once.
#[derive(Debug, PartialEq, Eq)]
pub struct IdCounter {
    pub next: u64,
}

impl IdCounter {
    pub fn new() -> (counter: Self)
        ensures
            counter.next == 1,
    {
        IdCounter { next: 1 }
    }

    /// The next number, or none once they are used up.
    pub fn take(&mut self) -> (value: Option<u64>)
        ensures
            if old(self).next == u64::MAX {
                value is None && final(self).next == old(self).next
            } else {
                value == Some(old(self).next) && final(self).next == old(self).next + 1
            },
    {
        if self.next == u64::MAX {
            return None;
        }
        let value: u64 = self.next;
        self.next = value + 1;
        Some(value)
    }
}

/// Different numbers have different decimals.
pub proof fn decimal_is_injective(left: nat, right: nat)
    requires
        decimal(left) == decimal(right),
    ensures
        left == right,
    decreases left,
{
    if left >= 10 {
        assert(decimal(left).len() == decimal(left / 10).len() + 1);
        decimal_is_not_empty(left / 10);
    }
    if right >= 10 {
        decimal_is_not_empty(right / 10);
    }
    if left < 10 {
        assert(decimal(left).last() == digit(left));
        assert(decimal(right).len() == 1);
        assert(decimal(right).last() == digit(right));
    } else {
        assert(right >= 10) by {
            if right < 10 {
                assert(decimal(right).len() == 1);
            }
        }
        assert(decimal(left).last() == digit(left % 10));
        assert(decimal(right).last() == digit(right % 10));
        assert(decimal(left).drop_last() =~= decimal(left / 10));
        assert(decimal(right).drop_last() =~= decimal(right / 10));
        decimal_is_injective(left / 10, right / 10);
    }
}

/// Every number has at least one digit.
pub proof fn decimal_is_not_empty(value: nat)
    ensures
        decimal(value).len() > 0,
    decreases value,
{
    if value >= 10 {
        decimal_is_not_empty(value / 10);
    }
}

/// Two identifiers with one prefix and different numbers differ.
pub proof fn numbered_ids_are_distinct(prefix: Seq<char>, left: u64, right: u64)
    requires
        left != right,
    ensures
        numbered(prefix, left) != numbered(prefix, right),
{
    if numbered(prefix, left) == numbered(prefix, right) {
        assert(numbered(prefix, left).skip(prefix.len() as int) =~= decimal(left as nat));
        assert(numbered(prefix, right).skip(prefix.len() as int) =~= decimal(right as nat));
        decimal_is_injective(left as nat, right as nat);
    }
}

/// Compares two texts.
pub fn same_text(left: &str, right: &str) -> (same: bool)
    ensures
        same == (left@ == right@),
{
    left.to_owned() == right.to_owned()
}

} // verus!
