//! Identifier case conversion.
//!
//! A name is cut into parts at whitespace, underscores and hyphens. Camel
//! and Pascal case join the parts again, capitalised; snake and kebab case
//! work the other way and cut at the places where a capital follows a
//! character that is not one.
//!
//! Which characters are whitespace or capitals, and what the capital or
//! small form of a character is, comes from the standard library. The
//! functions whose names end in `_with` take those answers as arguments.

use vstd::prelude::*;
use crate::text::{chars_of, push_char, replaced, string_of, string_of_range};
use crate::unicode::{
    char_is_uppercase, char_is_whitespace, char_lowercase_of, char_to_lowercase,
    char_to_uppercase, char_uppercase_of, is_uppercase_char, is_whitespace_char, lowercase,
    lowered,
};

verus! {

/// Cutting in progress: the parts that are complete, the part being read,
/// and whether reading is inside a run of characters that are not
/// whitespace.
pub struct Cutting {
    pub done: Seq<Seq<char>>,
    pub current: Seq<char>,
    pub in_run: bool,
}

/// The state of cutting after all of `s` was read. `spaces` tells of each
/// character of `s` whether it is whitespace.
pub open spec fn cutting(s: Seq<char>, spaces: Seq<bool>) -> Cutting
    decreases s.len(),
{
    if s.len() == 0 {
        Cutting { done: Seq::empty(), current: Seq::empty(), in_run: false }
    } else {
        let before = cutting(s.drop_last(), spaces.drop_last());
        let c = s.last();
        if spaces.last() {
            if before.in_run {
                Cutting { done: before.done.push(before.current), current: Seq::empty(), in_run: false }
            } else {
                before
            }
        } else if c == '_' || c == '-' {
            Cutting { done: before.done.push(before.current), current: Seq::empty(), in_run: true }
        } else {
            Cutting { done: before.done, current: before.current.push(c), in_run: true }
        }
    }
}

/// The parts of `s`: every run of characters that are not whitespace, cut
/// at each underscore and each hyphen. A part is empty where two of those
/// stand together or one stands at an end of its run.
pub open spec fn parts_with(s: Seq<char>, spaces: Seq<bool>) -> Seq<Seq<char>> {
    let end = cutting(s, spaces);
    if end.in_run {
        end.done.push(end.current)
    } else {
        end.done
    }
}

/// Of each character of `s`, whether it is whitespace.
pub open spec fn whitespace_flags(s: Seq<char>) -> Seq<bool> {
    Seq::new(s.len(), |i: int| is_whitespace_char(s[i]))
}

/// Of each character of `s`, whether it is a capital.
pub open spec fn uppercase_flags(s: Seq<char>) -> Seq<bool> {
    Seq::new(s.len(), |i: int| is_uppercase_char(s[i]))
}

/// Of each character of `s`, the first character of its small form.
pub open spec fn small_forms(s: Seq<char>) -> Seq<char> {
    Seq::new(s.len(), |i: int| char_lowercase_of(s[i])[0])
}

/// The parts of `s`.
pub open spec fn parts_of(s: Seq<char>) -> Seq<Seq<char>> {
    parts_with(s, whitespace_flags(s))
}

/// A part with its first character as a capital and the rest small. The
/// empty part stays empty.
pub open spec fn capitalized(part: Seq<char>) -> Seq<char> {
    if part.len() == 0 {
        part
    } else {
        char_uppercase_of(part[0]) + lowered(part.drop_first())
    }
}

/// The parts, each capitalised, end to end.
pub open spec fn capitalized_all(parts: Seq<Seq<char>>) -> Seq<char>
    decreases parts.len(),
{
    if parts.len() == 0 {
        Seq::empty()
    } else {
        capitalized_all(parts.drop_last()) + capitalized(parts.last())
    }
}

/// Camel case: the first part small, every later part capitalised.
pub open spec fn camel_case_of(s: Seq<char>) -> Seq<char> {
    let parts = parts_of(s);
    if parts.len() == 0 {
        Seq::empty()
    } else {
        lowered(parts[0]) + capitalized_all(parts.skip(1))
    }
}

/// Pascal case: every part capitalised.
pub open spec fn pascal_case_of(s: Seq<char>) -> Seq<char> {
    capitalized_all(parts_of(s))
}

/// Snake case from the answers about each character: a capital becomes
/// small, with an underscore before it unless it is the first character or
/// follows a capital; a space or a hyphen becomes an underscore; any other
/// character stays.
pub open spec fn snake_case_with(s: Seq<char>, capitals: Seq<bool>, small: Seq<char>) -> Seq<
    char,
>
    decreases s.len(),
{
    if s.len() == 0 {
        Seq::empty()
    } else {
        let n = s.len() - 1;
        let before = snake_case_with(s.drop_last(), capitals.drop_last(), small.drop_last());
        if capitals[n] {
            if n > 0 && !capitals[n - 1] {
                before.push('_').push(small[n])
            } else {
                before.push(small[n])
            }
        } else if s[n] == ' ' || s[n] == '-' {
            before.push('_')
        } else {
            before.push(s[n])
        }
    }
}

/// Snake case.
pub open spec fn snake_case_of(s: Seq<char>) -> Seq<char> {
    snake_case_with(s, uppercase_flags(s), small_forms(s))
}

/// Kebab case: snake case with a hyphen for every underscore.
pub open spec fn kebab_case_of(s: Seq<char>) -> Seq<char> {
    replaced(snake_case_of(s), '_', "-"@)
}

/// Cuts `chars` into its parts. `spaces` tells of each character whether it
/// is whitespace.
pub fn split_parts(chars: &Vec<char>, spaces: &Vec<bool>) -> (parts: Vec<String>)
    requires
        chars@.len() == spaces@.len(),
    ensures
        crate::text::texts(parts@) == parts_with(chars@, spaces@),
{
    let mut done: Vec<String> = Vec::new();
    let mut current = String::new();
    let mut in_run = false;
    let mut i: usize = 0;
    assert(chars@.take(0) =~= Seq::empty());
    assert(crate::text::texts(done@) =~= Seq::empty());
    while i < chars.len()
        invariant
            i <= chars@.len(),
            chars@.len() == spaces@.len(),
            cutting(chars@.take(i as int), spaces@.take(i as int)) == (Cutting {
                done: crate::text::texts(done@),
                current: current@,
                in_run,
            }),
        decreases chars@.len() - i,
    {
        let c = chars[i];
        let ghost done_before = crate::text::texts(done@);
        let ghost current_before = current@;
        proof {
            assert(chars@.take(i + 1).drop_last() =~= chars@.take(i as int));
            assert(spaces@.take(i + 1).drop_last() =~= spaces@.take(i as int));
        }
        if spaces[i] {
            if in_run {
                done.push(current);
                current = String::new();
                in_run = false;
                assert(crate::text::texts(done@) =~= done_before.push(current_before));
            }
        } else if c == '_' || c == '-' {
            done.push(current);
            current = String::new();
            in_run = true;
            assert(crate::text::texts(done@) =~= done_before.push(current_before));
        } else {
            push_char(&mut current, c);
            in_run = true;
        }
        i += 1;
    }
    assert(chars@.take(chars@.len() as int) =~= chars@);
    assert(spaces@.take(spaces@.len() as int) =~= spaces@);
    if in_run {
        let ghost done_before = crate::text::texts(done@);
        done.push(current);
        assert(crate::text::texts(done@) =~= done_before.push(current@));
    }
    done
}

/// Of each character, whether it is whitespace.
pub fn whitespace_marks(chars: &Vec<char>) -> (marks: Vec<bool>)
    ensures
        marks@ == whitespace_flags(chars@),
{
    let mut marks: Vec<bool> = Vec::new();
    let mut i: usize = 0;
    while i < chars.len()
        invariant
            i <= chars@.len(),
            marks@.len() == i,
            forall|k: int| 0 <= k < i ==> marks@[k] == is_whitespace_char(chars@[k]),
        decreases chars@.len() - i,
    {
        marks.push(char_is_whitespace(chars[i]));
        i += 1;
    }
    assert(marks@ =~= whitespace_flags(chars@));
    marks
}

/// Of each character, whether it is a capital.
pub fn uppercase_marks(chars: &Vec<char>) -> (marks: Vec<bool>)
    ensures
        marks@ == uppercase_flags(chars@),
{
    let mut marks: Vec<bool> = Vec::new();
    let mut i: usize = 0;
    while i < chars.len()
        invariant
            i <= chars@.len(),
            marks@.len() == i,
            forall|k: int| 0 <= k < i ==> marks@[k] == is_uppercase_char(chars@[k]),
        decreases chars@.len() - i,
    {
        marks.push(char_is_uppercase(chars[i]));
        i += 1;
    }
    assert(marks@ =~= uppercase_flags(chars@));
    marks
}

/// Of each character, the first character of its small form.
pub fn small_letters(chars: &Vec<char>) -> (small: Vec<char>)
    ensures
        small@ == small_forms(chars@),
{
    let mut small: Vec<char> = Vec::new();
    let mut i: usize = 0;
    while i < chars.len()
        invariant
            i <= chars@.len(),
            small@.len() == i,
            forall|k: int| 0 <= k < i ==> small@[k] == char_lowercase_of(chars@[k])[0],
        decreases chars@.len() - i,
    {
        let forms = char_to_lowercase(chars[i]);
        small.push(forms[0]);
        i += 1;
    }
    assert(small@ =~= small_forms(chars@));
    small
}

/// The text with its first character as a capital and the rest small.
pub fn capitalize_first(s: &str) -> (r: String)
    ensures
        r@ == capitalized(s@),
{
    let chars = chars_of(s);
    if chars.len() == 0 {
        return String::new();
    }
    let first = char_to_uppercase(chars[0]);
    let rest = string_of_range(&chars, 1, chars.len());
    let mut r = string_of(&first);
    let small = lowercase(rest.as_str());
    r.append(small.as_str());
    assert(s@.drop_first() =~= s@.subrange(1, s@.len() as int));
    r
}

/// Snake case from the answers about each character: `capitals` tells
/// whether it is a capital, `small` gives its small form.
pub fn snake_case_from(chars: &Vec<char>, capitals: &Vec<bool>, small: &Vec<char>) -> (r:
    String)
    requires
        chars@.len() == capitals@.len(),
        chars@.len() == small@.len(),
    ensures
        r@ == snake_case_with(chars@, capitals@, small@),
{
    let mut r = String::new();
    let mut i: usize = 0;
    assert(chars@.take(0) =~= Seq::empty());
    while i < chars.len()
        invariant
            i <= chars@.len(),
            chars@.len() == capitals@.len(),
            chars@.len() == small@.len(),
            r@ == snake_case_with(
                chars@.take(i as int),
                capitals@.take(i as int),
                small@.take(i as int),
            ),
        decreases chars@.len() - i,
    {
        proof {
            assert(chars@.take(i + 1).drop_last() =~= chars@.take(i as int));
            assert(capitals@.take(i + 1).drop_last() =~= capitals@.take(i as int));
            assert(small@.take(i + 1).drop_last() =~= small@.take(i as int));
        }
        let c = chars[i];
        if capitals[i] {
            if i > 0 && !capitals[i - 1] {
                push_char(&mut r, '_');
            }
            push_char(&mut r, small[i]);
        } else if c == ' ' || c == '-' {
            push_char(&mut r, '_');
        } else {
            push_char(&mut r, c);
        }
        i += 1;
    }
    assert(chars@.take(chars@.len() as int) =~= chars@);
    assert(capitals@.take(capitals@.len() as int) =~= capitals@);
    assert(small@.take(small@.len() as int) =~= small@);
    r
}

/// The parts of a name.
pub fn parts(s: &str) -> (r: Vec<String>)
    ensures
        crate::text::texts(r@) == parts_of(s@),
{
    let chars = chars_of(s);
    let spaces = whitespace_marks(&chars);
    split_parts(&chars, &spaces)
}

/// The parts from `from` on, each capitalised, end to end.
pub fn capitalize_all(parts: &Vec<String>, from: usize) -> (r: String)
    requires
        from <= parts@.len(),
    ensures
        r@ == capitalized_all(crate::text::texts(parts@).skip(from as int)),
{
    let ghost all = crate::text::texts(parts@).skip(from as int);
    let mut r = String::new();
    let mut i: usize = from;
    assert(all.take(0) =~= Seq::empty());
    while i < parts.len()
        invariant
            from <= i <= parts@.len(),
            all == crate::text::texts(parts@).skip(from as int),
            r@ == capitalized_all(all.take(i - from)),
        decreases parts@.len() - i,
    {
        let piece = capitalize_first(parts[i].as_str());
        r.append(piece.as_str());
        proof {
            assert(all.take(i + 1 - from).drop_last() =~= all.take(i - from));
            assert(all.take(i + 1 - from).last() == parts@[i as int]@);
        }
        i += 1;
    }
    assert(all.take(parts@.len() - from) =~= all);
    r
}

/// Cutting at one separator in progress: the pieces that are complete and
/// the piece being read.
pub struct Pieces {
    pub done: Seq<Seq<char>>,
    pub current: Seq<char>,
}

/// The state of cutting `s` at every `separator` after all of `s` was
/// read.
pub open spec fn cutting_at(s: Seq<char>, separator: char) -> Pieces
    decreases s.len(),
{
    if s.len() == 0 {
        Pieces { done: Seq::empty(), current: Seq::empty() }
    } else {
        let before = cutting_at(s.drop_last(), separator);
        if s.last() == separator {
            Pieces { done: before.done.push(before.current), current: Seq::empty() }
        } else {
            Pieces { done: before.done, current: before.current.push(s.last()) }
        }
    }
}

/// The pieces of `s` between its separators: one more than it has
/// separators, empty ones included.
pub open spec fn pieces_of(s: Seq<char>, separator: char) -> Seq<Seq<char>> {
    let end = cutting_at(s, separator);
    end.done.push(end.current)
}

/// The pieces between underscores, each capitalised, end to end.
pub open spec fn underscore_pascal_of(s: Seq<char>) -> Seq<char> {
    capitalized_all(pieces_of(s, '_'))
}

/// The first piece between underscores made small, the others
/// capitalised, end to end.
pub open spec fn underscore_camel_of(s: Seq<char>) -> Seq<char> {
    let all = pieces_of(s, '_');
    lowered(all[0]) + capitalized_all(all.skip(1))
}

/// Cuts `s` at every `separator`.
pub fn split_on(s: &str, separator: char) -> (r: Vec<String>)
    ensures
        crate::text::texts(r@) == pieces_of(s@, separator),
        r@.len() >= 1,
{
    let chars = chars_of(s);
    let mut done: Vec<String> = Vec::new();
    let mut current = String::new();
    let mut i: usize = 0;
    assert(chars@.take(0) =~= Seq::empty());
    assert(crate::text::texts(done@) =~= Seq::empty());
    while i < chars.len()
        invariant
            i <= chars@.len(),
            cutting_at(chars@.take(i as int), separator) == (Pieces {
                done: crate::text::texts(done@),
                current: current@,
            }),
        decreases chars@.len() - i,
    {
        let ghost done_before = crate::text::texts(done@);
        let ghost current_before = current@;
        proof {
            assert(chars@.take(i + 1).drop_last() =~= chars@.take(i as int));
        }
        if chars[i] == separator {
            done.push(current);
            current = String::new();
            assert(crate::text::texts(done@) =~= done_before.push(current_before));
        } else {
            push_char(&mut current, chars[i]);
        }
        i += 1;
    }
    assert(chars@.take(chars@.len() as int) =~= chars@);
    let ghost done_before = crate::text::texts(done@);
    done.push(current);
    assert(crate::text::texts(done@) =~= done_before.push(current@));
    done
}

/// The pieces of `name` between underscores, each capitalised.
pub fn underscore_pascal(name: &str) -> (r: String)
    ensures
        r@ == underscore_pascal_of(name@),
{
    let all = split_on(name, '_');
    let r = capitalize_all(&all, 0);
    assert(crate::text::texts(all@).skip(0) =~= crate::text::texts(all@));
    r
}

/// The first piece of `name` between underscores made small, the others
/// capitalised.
pub fn underscore_camel(name: &str) -> (r: String)
    ensures
        r@ == underscore_camel_of(name@),
{
    let all = split_on(name, '_');
    let mut r = lowercase(all[0].as_str());
    let rest = capitalize_all(&all, 1);
    r.append(rest.as_str());
    r
}

} // verus!
