//! String helpers used to classify and assemble command input.

use vstd::prelude::*;
use vstd::std_specs::iter::IteratorSpec;
use vstd::string::StringExecFns;

verus! {

/// The tokens joined into one text, with `sep` between neighbours.
pub open spec fn joined(tokens: Seq<Seq<char>>, sep: Seq<char>) -> Seq<char>
    decreases tokens.len(),
{
    if tokens.len() == 0 {
        Seq::empty()
    } else if tokens.len() == 1 {
        tokens[0]
    } else {
        joined(tokens.drop_last(), sep) + sep + tokens.last()
    }
}

/// The views of a list of strings, in order.
pub open spec fn views(tokens: Seq<String>) -> Seq<Seq<char>> {
    Seq::new(tokens.len(), |i: int| tokens[i]@)
}

/// Whether `text` begins with `prefix`, character for character.
pub fn starts_with(text: &str, prefix: &str) -> (found: bool)
    ensures
        found == prefix@.is_prefix_of(text@),
{
    let mut rest = text.chars();
    let mut wanted = prefix.chars();
    let ghost mut seen: int = 0;
    loop
        invariant
            0 <= seen <= prefix@.len(),
            seen <= text@.len(),
            wanted.remaining() == prefix@.skip(seen),
            rest.remaining() == text@.skip(seen),
            text@.take(seen) == prefix@.take(seen),
        decreases prefix@.len() - seen,
    {
        match wanted.next() {
            None => {
                return true;
            },
            Some(expected) => {
                match rest.next() {
                    None => {
                        return false;
                    },
                    Some(actual) => {
                        if actual != expected {
                            return false;
                        }
                        proof {
                            seen = seen + 1;
                        }
                    },
                }
            },
        }
    }
}

/// Joins `tokens` into one text, with `sep` between neighbours.
pub fn join_with(tokens: &Vec<String>, sep: &str) -> (text: String)
    ensures
        text@ == joined(views(tokens@), sep@),
{
    let mut text = String::new();
    let mut i: usize = 0;
    while i < tokens.len()
        invariant
            i <= tokens.len(),
            text@ == joined(views(tokens@).take(i as int), sep@),
        decreases tokens.len() - i,
    {
        let ghost before = views(tokens@).take(i as int);
        let ghost after = views(tokens@).take(i + 1);
        if i > 0 {
            text.append(sep);
        }
        text.append(tokens[i].as_str());
        proof {
            assert(after.drop_last() == before);
        }
        i += 1;
    }
    proof {
        assert(views(tokens@).take(tokens.len() as int) == views(tokens@));
    }
    text
}

} // verus!
