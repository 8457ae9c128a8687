//! Named values, in the order of their names.
use crate::identifier::same_text;
use vstd::prelude::*;
use vstd::string::StrSliceExecFns;

verus! {

/// One name comes before another: by the first character that differs.
pub open spec fn name_before(name: Seq<char>, other: Seq<char>) -> bool
    decreases name.len(),
{
    if other.len() == 0 {
        false
    } else if name.len() == 0 {
        true
    } else if name[0] != other[0] {
        (name[0] as u32) < (other[0] as u32)
    } else {
        name_before(name.drop_first(), other.drop_first())
    }
}

/// The names stand in order, each once.
pub open spec fn names_in_order<V>(entries: Seq<(String, V)>) -> bool {
    forall|i: int, j: int|
        0 <= i < j < entries.len() ==> name_before(
            (#[trigger] entries[i]).0@,
            (#[trigger] entries[j]).0@,
        )
}

/// The value at `place` is the last one that was given under the name of `entry`.
pub open spec fn is_last<V>(given: Seq<(String, V)>, place: int, entry: (String, V)) -> bool {
    &&& 0 <= place < given.len()
    &&& given[place] == entry
    &&& forall|later: int| place < later < given.len() ==> (#[trigger] given[later]).0@ != entry.0@
}

/// The entry is the last one that was given under its name.
pub open spec fn stays<V>(given: Seq<(String, V)>, entry: (String, V)) -> bool {
    exists|place: int| is_last(given, place, entry)
}

/// There is an entry with this name.
pub open spec fn has_name<V>(entries: Seq<(String, V)>, name: Seq<char>) -> bool {
    exists|place: int| 0 <= place < entries.len() && (#[trigger] entries[place]).0@ == name
}

/// The entries are those that were given, in the order of their names. Of those with the same name,
/// the last one stays.
pub open spec fn collected<V>(given: Seq<(String, V)>, entries: Seq<(String, V)>) -> bool {
    &&& names_in_order(entries)
    &&& forall|i: int| 0 <= i < entries.len() ==> stays(given, #[trigger] entries[i])
    &&& forall|i: int| 0 <= i < given.len() ==> has_name(entries, (#[trigger] given[i]).0@)
}

/// Characters that differ have different numbers.
proof fn characters_apart(one: char, two: char)
    requires
        one != two,
    ensures
        one as u32 != two as u32,
{
}

/// Of two names that differ, one comes before the other.
proof fn one_comes_first(name: Seq<char>, other: Seq<char>)
    requires
        name != other,
    ensures
        name_before(name, other) || name_before(other, name),
    decreases name.len(),
{
    if name.len() == 0 {
        assert(other.len() > 0) by {
            if other.len() == 0 {
                assert(name =~= other);
            }
        }
    } else if other.len() > 0 && name[0] == other[0] {
        assert(name.drop_first() != other.drop_first()) by {
            if name.drop_first() == other.drop_first() {
                assert(name =~= seq![name[0]] + name.drop_first());
                assert(other =~= seq![other[0]] + other.drop_first());
            }
        }
        one_comes_first(name.drop_first(), other.drop_first());
    } else if other.len() > 0 {
        characters_apart(name[0], other[0]);
    }
}

/// What comes before a name comes before all behind it.
proof fn order_carries_on(first: Seq<char>, second: Seq<char>, third: Seq<char>)
    requires
        name_before(first, second),
        name_before(second, third),
    ensures
        name_before(first, third),
    decreases first.len(),
{
    if first.len() > 0 && first[0] == second[0] && second[0] == third[0] {
        order_carries_on(first.drop_first(), second.drop_first(), third.drop_first());
    }
}

/// No name comes before itself.
proof fn not_before_itself(name: Seq<char>)
    ensures
        !name_before(name, name),
    decreases name.len(),
{
    if name.len() > 0 {
        not_before_itself(name.drop_first());
    }
}

/// Behind characters that are the same, the rest decides.
proof fn skip_what_is_same(name: Seq<char>, other: Seq<char>, count: int)
    requires
        0 <= count <= name.len(),
        count <= other.len(),
        forall|i: int| 0 <= i < count ==> name[i] == other[i],
    ensures
        name_before(name, other) == name_before(name.skip(count), other.skip(count)),
    decreases count,
{
    if count == 0 {
        assert(name.skip(0) =~= name);
        assert(other.skip(0) =~= other);
    } else {
        assert(name[0] == other[0]);
        skip_what_is_same(name.drop_first(), other.drop_first(), count - 1);
        assert(name.drop_first().skip(count - 1) =~= name.skip(count));
        assert(other.drop_first().skip(count - 1) =~= other.skip(count));
    }
}

/// One name comes before another.
pub fn comes_before(name: &str, other: &str) -> (before: bool)
    ensures
        before == name_before(name@, other@),
{
    let name_len: usize = name.unicode_len();
    let other_len: usize = other.unicode_len();
    let mut place: usize = 0;
    while place < name_len && place < other_len
        invariant
            name_len == name@.len(),
            other_len == other@.len(),
            place <= name_len,
            place <= other_len,
            forall|i: int| 0 <= i < place ==> name@[i] == other@[i],
        decreases name_len - place,
    {
        let one: char = name.get_char(place);
        let two: char = other.get_char(place);
        if one != two {
            proof {
                skip_what_is_same(name@, other@, place as int);
                assert(name@.skip(place as int)[0] == one);
                assert(other@.skip(place as int)[0] == two);
            }
            return (one as u32) < (two as u32);
        }
        place = place + 1;
    }
    proof {
        skip_what_is_same(name@, other@, place as int);
    }
    place < other_len
}

/// Puts a value under its name, in order. One that was given under the same name before goes.
pub fn put_in_order<V>(
    entries: &mut Vec<(String, V)>,
    name: String,
    value: V,
    Ghost(given): Ghost<Seq<(String, V)>>,
)
    requires
        collected(given, old(entries)@),
        old(entries)@.len() < usize::MAX,
    ensures
        collected(given.push((name, value)), final(entries)@),
        final(entries)@.len() <= old(entries)@.len() + 1,
{
    let ghost before = entries@;
    let ghost entry = (name, value);
    let mut place: usize = 0;
    while place < entries.len() && comes_before(entries[place].0.as_str(), name.as_str())
        invariant
            place <= entries@.len(),
            entries@ == before,
            forall|i: int| 0 <= i < place ==> name_before((#[trigger] before[i]).0@, name@),
        decreases entries.len() - place,
    {
        place = place + 1;
    }
    let same = place < entries.len() && same_text(entries[place].0.as_str(), name.as_str());
    if same {
        entries.set(place, (name, value));
        proof {
            replaced_in_order(given, before, place as int, entry);
        }
    } else {
        proof {
            if place < before.len() {
                one_comes_first(before[place as int].0@, name@);
            }
            inserted_in_order(given, before, place as int, entry);
        }
        entries.insert(place, (name, value));
    }
}

/// A value takes the place of the one before it.
proof fn replaced_in_order<V>(
    given: Seq<(String, V)>,
    before: Seq<(String, V)>,
    place: int,
    entry: (String, V),
)
    requires
        collected(given, before),
        0 <= place < before.len(),
        before[place].0@ == entry.0@,
    ensures
        collected(given.push(entry), before.update(place, entry)),
{
    let after = before.update(place, entry);
    let more = given.push(entry);
    assert forall|i: int, j: int| 0 <= i < j < after.len() implies name_before(
        (#[trigger] after[i]).0@,
        (#[trigger] after[j]).0@,
    ) by {
        assert(after[i].0@ == before[i].0@);
        assert(after[j].0@ == before[j].0@);
    }
    assert forall|i: int| 0 <= i < after.len() implies stays(more, #[trigger] after[i]) by {
        if i == place {
            assert(is_last(more, given.len() as int, after[i]));
        } else {
            kept_last(given, before, entry, i, place);
        }
    }
    assert forall|i: int| 0 <= i < more.len() implies has_name(after, (#[trigger] more[i]).0@) by {
        if i < given.len() {
            assert(more[i] == given[i]);
            let at = choose|at: int|
                0 <= at < before.len() && (#[trigger] before[at]).0@ == given[i].0@;
            assert(after[at].0@ == given[i].0@);
        } else {
            assert(after[place].0@ == entry.0@);
        }
    }
}

/// An entry with another name is still the last one that was given under it.
proof fn kept_last<V>(
    given: Seq<(String, V)>,
    before: Seq<(String, V)>,
    entry: (String, V),
    i: int,
    place: int,
)
    requires
        collected(given, before),
        0 <= i < before.len(),
        0 <= place < before.len() ==> i != place && before[place].0@ == entry.0@,
        !(0 <= place < before.len()) ==> before[i].0@ != entry.0@,
    ensures
        stays(given.push(entry), before[i]),
{
    if 0 <= place < before.len() {
        if i < place {
            assert(name_before(before[i].0@, before[place].0@));
        } else {
            assert(name_before(before[place].0@, before[i].0@));
        }
        not_before_itself(entry.0@);
    }
    assert(stays(given, before[i]));
    let at = choose|at: int| is_last(given, at, before[i]);
    assert(is_last(given.push(entry), at, before[i]));
}

/// A value with a new name goes between those before it and those behind it.
proof fn inserted_in_order<V>(
    given: Seq<(String, V)>,
    before: Seq<(String, V)>,
    place: int,
    entry: (String, V),
)
    requires
        collected(given, before),
        0 <= place <= before.len(),
        forall|i: int| 0 <= i < place ==> name_before((#[trigger] before[i]).0@, entry.0@),
        place < before.len() ==> name_before(entry.0@, before[place].0@),
    ensures
        collected(given.push(entry), before.insert(place, entry)),
{
    let after = before.insert(place, entry);
    let more = given.push(entry);
    assert forall|i: int| place <= i < before.len() implies name_before(
        entry.0@,
        (#[trigger] before[i]).0@,
    ) by {
        if i > place {
            assert(name_before(before[place].0@, before[i].0@));
            order_carries_on(entry.0@, before[place].0@, before[i].0@);
        }
    }
    assert forall|i: int, j: int| 0 <= i < j < after.len() implies name_before(
        (#[trigger] after[i]).0@,
        (#[trigger] after[j]).0@,
    ) by {
        if j < place {
            assert(after[i] == before[i] && after[j] == before[j]);
        } else if j == place {
            assert(after[i] == before[i]);
        } else if i == place {
            assert(after[j] == before[j - 1]);
        } else if i < place {
            assert(after[i] == before[i] && after[j] == before[j - 1]);
        } else {
            assert(after[i] == before[i - 1] && after[j] == before[j - 1]);
        }
    }
    assert forall|i: int| 0 <= i < after.len() implies stays(more, #[trigger] after[i]) by {
        if i == place {
            assert(is_last(more, given.len() as int, after[i]));
        } else {
            let was = if i < place {
                i
            } else {
                i - 1
            };
            assert(after[i] == before[was]);
            assert(before[was].0@ != entry.0@) by {
                not_before_itself(entry.0@);
            }
            kept_last(given, before, entry, was, before.len() as int);
        }
    }
    assert forall|i: int| 0 <= i < more.len() implies has_name(after, (#[trigger] more[i]).0@) by {
        if i < given.len() {
            assert(more[i] == given[i]);
            let at = choose|at: int|
                0 <= at < before.len() && (#[trigger] before[at]).0@ == given[i].0@;
            if at < place {
                assert(after[at] == before[at]);
            } else {
                assert(after[at + 1] == before[at]);
            }
        } else {
            assert(after[place].0@ == entry.0@);
        }
    }
}

/// Names are in one order: no name comes before itself, of two that differ exactly one comes before
/// the other, and what comes before a name comes before all behind it.
pub proof fn names_are_in_one_order(one: Seq<char>, two: Seq<char>, three: Seq<char>)
    ensures
        !name_before(one, one),
        one != two ==> (name_before(one, two) <==> !name_before(two, one)),
        name_before(one, two) && name_before(two, three) ==> name_before(one, three),
{
    not_before_itself(one);
    if one != two {
        one_comes_first(one, two);
        if name_before(one, two) && name_before(two, one) {
            order_carries_on(one, two, one);
        }
    }
    if name_before(one, two) && name_before(two, three) {
        order_carries_on(one, two, three);
    }
}

/// What is collected holds each name once.
pub proof fn collected_names_differ<V>(given: Seq<(String, V)>, entries: Seq<(String, V)>, i: int, j: int)
    requires
        collected(given, entries),
        0 <= i < j < entries.len(),
    ensures
        entries[i].0@ != entries[j].0@,
{
    assert(name_before(entries[i].0@, entries[j].0@));
    not_before_itself(entries[i].0@);
}

} // verus!
