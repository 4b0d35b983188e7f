//! Identifier transformer: the two naming-convention conversions used by
//! every downstream component. `first_char_to_upper` derives a type name
//! from a schema identifier, `snake_name` derives a module, file or field
//! name from it.

use vstd::prelude::*;

use crate::strutil::{is_ascii_upper, lower_char, push_char, upper_char, lower_char_exec,
    upper_char_exec};

verus! {

/// The type-name derivation: the first character upper-cased (ASCII),
/// every other character unchanged. Meaningful only for non-empty input.
pub open spec fn upper_first(s: Seq<char>) -> Seq<char> {
    seq![upper_char(s[0])] + s.subrange(1, s.len() as int)
}

/// One character's contribution to the snake-case form: an upper-case
/// letter is lower-cased and, except at the front, preceded by `_`;
/// every other character stands as it is.
pub open spec fn snake_piece(c: char, at_front: bool) -> Seq<char> {
    if is_ascii_upper(c) {
        if at_front {
            seq![lower_char(c)]
        } else {
            seq!['_', lower_char(c)]
        }
    } else {
        seq![c]
    }
}

/// The snake-case form of a whole identifier.
pub open spec fn snake_of(s: Seq<char>) -> Seq<char>
    decreases s.len(),
{
    if s.len() == 0 {
        Seq::empty()
    } else {
        snake_of(s.drop_last()) + snake_piece(s.last(), s.len() == 1)
    }
}

/// Capitalizes the first character of an identifier and leaves the rest
/// unchanged. Case mapping is ASCII: a first character outside `a`..`z`
/// stands as it is.
pub fn first_char_to_upper(field_name: &str) -> (r: String)
    requires
        field_name@.len() > 0,
    ensures
        r@ == upper_first(field_name@),
{
    let len = field_name.unicode_len();
    let first = field_name.get_char(0);
    let up = upper_char_exec(first);
    let mut result = String::new();
    push_char(&mut result, up);
    let rest = field_name.substring_char(1, len);
    result.append(rest);
    proof {
        assert(result@ =~= upper_first(field_name@));
    }
    result
}

proof fn lemma_snake_of_take_step(s: Seq<char>, i: int)
    requires
        0 <= i < s.len(),
    ensures
        snake_of(s.take(i + 1)) == snake_of(s.take(i)) + snake_piece(s[i], i == 0),
{
    let t = s.take(i + 1);
    assert(t.drop_last() =~= s.take(i));
    assert(t.last() == s[i]);
}

/// Converts an identifier to its snake-case form: every ASCII upper-case
/// letter is lower-cased and, except at the front, a `_` is inserted
/// before it. Consecutive upper-case letters each get their own
/// separator; letters outside ASCII are copied unchanged.
pub fn snake_name(field_name: &str) -> (r: String)
    ensures
        r@ == snake_of(field_name@),
{
    let len = field_name.unicode_len();
    let mut result = String::new();
    let mut i: usize = 0;
    proof {
        assert(field_name@.take(0) =~= Seq::<char>::empty());
    }
    while i < len
        invariant
            i <= len,
            len == field_name@.len(),
            result@ == snake_of(field_name@.take(i as int)),
        decreases len - i,
    {
        let c = field_name.get_char(i);
        if c >= 'A' && c <= 'Z' {
            if i != 0 {
                push_char(&mut result, '_');
            }
            push_char(&mut result, lower_char_exec(c));
        } else {
            push_char(&mut result, c);
        }
        proof {
            lemma_snake_of_take_step(field_name@, i as int);
            assert(result@ =~= snake_of(field_name@.take(i as int)) + snake_piece(
                field_name@[i as int],
                i == 0,
            ));
        }
        i = i + 1;
    }
    proof {
        assert(field_name@.take(len as int) =~= field_name@);
    }
    result
}

/// The type-name derivation is idempotent: capitalizing an identifier a
/// second time changes nothing, in particular on an identifier that is
/// already capitalized.
pub proof fn lemma_first_char_to_upper_idempotent(s: Seq<char>)
    requires
        s.len() > 0,
    ensures
        upper_first(upper_first(s)) == upper_first(s),
{
    assert(upper_first(s)[0] == upper_char(s[0]));
    assert(upper_char(upper_char(s[0])) == upper_char(s[0]));
    assert(upper_first(upper_first(s)) =~= upper_first(s));
}

/// The type-name derivation changes only the first character: the length
/// is kept, the first character is upper-cased, every later character is
/// unchanged.
pub proof fn lemma_first_char_to_upper_changes_only_first(s: Seq<char>)
    requires
        s.len() > 0,
    ensures
        upper_first(s).len() == s.len(),
        upper_first(s)[0] == upper_char(s[0]),
        forall|i: int| 1 <= i < s.len() ==> upper_first(s)[i] == s[i],
{
}

/// The snake-case form begins with the lower-cased first character of the
/// input: no leading separator is ever inserted.
pub proof fn lemma_snake_of_first(s: Seq<char>)
    requires
        s.len() > 0,
    ensures
        snake_of(s).len() > 0,
        snake_of(s)[0] == lower_char(s[0]),
    decreases s.len(),
{
    if s.len() == 1 {
        assert(snake_of(s) == snake_of(s.drop_last()) + snake_piece(s.last(), true));
        assert(s.drop_last().len() == 0);
        assert(snake_of(s.drop_last()) == Seq::<char>::empty());
    } else {
        lemma_snake_of_first(s.drop_last());
        assert(s.drop_last()[0] == s[0]);
    }
}

/// No leading separator: if the identifier does not itself begin with
/// `_`, its snake-case form does not either.
pub proof fn lemma_snake_of_no_leading_separator(s: Seq<char>)
    requires
        s.len() > 0,
        s[0] != '_',
    ensures
        snake_of(s).len() > 0,
        snake_of(s)[0] != '_',
{
    lemma_snake_of_first(s);
    if is_ascii_upper(s[0]) {
        assert('a' <= lower_char(s[0]) && lower_char(s[0]) <= 'z');
    }
}

} // verus!
