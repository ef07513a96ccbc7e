//! The template of the final line: text with a slot for the color.

use vstd::prelude::*;
use vstd::string::*;

verus! {

/// The substitution slot of a template: `{hex}`.
pub open spec fn slot() -> Seq<char> {
    seq!['{', 'h', 'e', 'x', '}']
}

/// Whether the slot stands in `text` at index `at`.
pub open spec fn slot_at(text: Seq<char>, at: int) -> bool {
    0 <= at && at + 5 <= text.len() && text.subrange(at, at + 5) == slot()
}

/// Whether `at` is the index of the leftmost slot in `text`.
pub open spec fn first_slot_at(text: Seq<char>, at: int) -> bool {
    slot_at(text, at) && forall|j: int| 0 <= j < at ==> !slot_at(text, j)
}

/// The index of the leftmost slot in `text`, if it has a slot.
pub open spec fn first_slot(text: Seq<char>) -> Option<int> {
    if exists|at: int| first_slot_at(text, at) {
        Some(choose|at: int| first_slot_at(text, at))
    } else {
        None
    }
}

/// Whether `text` has a slot, and only one.
pub open spec fn one_slot(text: Seq<char>) -> bool {
    exists|at: int| #[trigger] slot_at(text, at) && forall|j: int| slot_at(text, j) ==> j == at
}

/// The template with `value` in place of its leftmost slot. A template
/// without a slot stays as it is.
pub open spec fn filled(template: Seq<char>, value: Seq<char>) -> Seq<char> {
    match first_slot(template) {
        Some(at) => template.subrange(0, at) + value + template.subrange(
            at + 5,
            template.len() as int,
        ),
        None => template,
    }
}

/// A template has one leftmost slot at most: where `at` is one, it is the
/// one that `first_slot` names.
pub proof fn lemma_first_slot_is(text: Seq<char>, at: int)
    requires
        first_slot_at(text, at),
    ensures
        first_slot(text) == Some(at),
{
    let chosen = choose|i: int| first_slot_at(text, i);
    assert(first_slot_at(text, chosen));
    if chosen < at {
        assert(!slot_at(text, chosen));
    }
    if at < chosen {
        assert(!slot_at(text, at));
    }
}

/// Tells whether the slot stands in `text` at the character index `at`.
fn is_slot_at(text: &str, at: usize) -> (found: bool)
    requires
        at + 5 <= text@.len() <= usize::MAX,
    ensures
        found == slot_at(text@, at as int),
{
    let found = text.get_char(at) == '{' && text.get_char(at + 1) == 'h' && text.get_char(at + 2)
        == 'e' && text.get_char(at + 3) == 'x' && text.get_char(at + 4) == '}';
    proof {
        let part = text@.subrange(at as int, at + 5);
        assert(forall|k: int| 0 <= k < 5 ==> part[k] == text@[at + k]);
        if found {
            assert(part =~= slot());
        } else {
            assert(slot()[0] == '{' && slot()[1] == 'h' && slot()[2] == 'e' && slot()[3] == 'x'
                && slot()[4] == '}');
        }
    }
    found
}

/// Finds the leftmost slot that starts at character index `from` or later.
pub fn find_slot(template: &str, from: usize) -> (at: Option<usize>)
    ensures
        match at {
            Some(i) => from <= i && i + 5 <= usize::MAX && slot_at(template@, i as int)
                && forall|j: int| from <= j < i ==> !slot_at(template@, j),
            None => forall|j: int| from <= j ==> !slot_at(template@, j),
        },
{
    let n: usize = template.unicode_len();
    let mut i: usize = from;
    while i < n && n - i >= 5
        invariant
            n == template@.len(),
            from <= i,
            forall|j: int| from <= j < i ==> !slot_at(template@, j),
        decreases n - i,
    {
        if is_slot_at(template, i) {
            return Some(i);
        }
        i += 1;
    }
    None
}

/// Tells whether a template has exactly one slot.
pub fn has_one_slot(template: &str) -> (ok: bool)
    ensures
        ok == one_slot(template@),
{
    match find_slot(template, 0) {
        Some(at) => {
            let again = find_slot(template, at + 1);
            proof {
                if again is None {
                    assert forall|j: int| slot_at(template@, j) implies j == at as int by {
                        if j > at {
                            assert(!slot_at(template@, j));
                        }
                    }
                } else {
                    assert(slot_at(template@, again->0 as int));
                }
            }
            again.is_none()
        },
        None => false,
    }
}

/// Fills the leftmost slot of a template with a value. Without a slot the
/// template comes back as it is.
pub fn fill(template: &str, value: &str) -> (text: String)
    ensures
        text@ == filled(template@, value@),
{
    match find_slot(template, 0) {
        Some(at) => {
            proof {
                lemma_first_slot_is(template@, at as int);
            }
            let n: usize = template.unicode_len();
            let mut text = String::from_str(template.substring_char(0, at));
            text.append(value);
            text.append(template.substring_char(at + 5, n));
            text
        },
        None => {
            proof {
                assert forall|at: int| !first_slot_at(template@, at) by {
                    if slot_at(template@, at) {
                        assert(0 <= at);
                    }
                }
            }
            String::from_str(template)
        },
    }
}

} // verus!
