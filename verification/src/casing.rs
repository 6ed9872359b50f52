//! Letter case, and the names of the items that are generated for a method.
//!
//! Which characters are upper case, and what their lower and upper case
//! forms are, is Unicode's business and is left to the standard library.
//! Its answers are named here and nothing more is said of them; the rules
//! that use the answers are stated over plain values.

use vstd::prelude::*;
use vstd::string::StringExecFns;

verus! {

/// Whether the standard library counts `c` as an upper case character.
pub uninterp spec fn is_uppercase(c: char) -> bool;

/// The characters that the standard library maps `c` to in lower case.
pub uninterp spec fn lowercase_of(c: char) -> Seq<char>;

/// The upper case form that the standard library gives to the text `s`.
pub uninterp spec fn uppercase_of(s: Seq<char>) -> Seq<char>;

/// `char::is_uppercase` tells whether the character has Unicode's
/// `Uppercase` property. The answer depends on the character alone.
pub assume_specification[ char::is_uppercase ](c: char) -> (b: bool)
    ensures
        b == is_uppercase(c),
;

/// `str::to_uppercase` returns the upper case equivalent of the text as a
/// new string. The result depends on the text alone.
pub assume_specification[ str::to_uppercase ](s: &str) -> (upper: String)
    ensures
        upper@ == uppercase_of(s@),
;

/// `char::to_lowercase` yields the lower case mapping of the character as
/// one or more characters; they are collected in order.
#[verifier::external_body]
fn lowercase_mapping(c: char) -> (mapping: Vec<char>)
    ensures
        mapping@ == lowercase_of(c),
        mapping@.len() >= 1,
{
    c.to_lowercase().collect()
}

/// `str::ends_with`, asked of a single character: whether the text is not
/// empty and that character is its last.
#[verifier::external_body]
fn ends_with_char(s: &str, c: char) -> (b: bool)
    ensures
        b == (s@.len() > 0 && s@.last() == c),
{
    s.ends_with(c)
}

/// What one character adds to a snake case name that so far reads `acc`.
///
/// An upper case character is replaced by `lowered`, and an underscore is
/// put before it unless it starts the name or follows an underscore. Any
/// other character is kept.
pub open spec fn snake_step(acc: Seq<char>, c: char, upper: bool, lowered: char) -> Seq<char> {
    if upper {
        if acc.len() > 0 && acc.last() != '_' {
            acc.push('_').push(lowered)
        } else {
            acc.push(lowered)
        }
    } else {
        acc.push(c)
    }
}

/// The snake case form of `s`: `snake_step` applied to its characters from
/// left to right, where an upper case character is lowered to the first
/// character of its lower case mapping.
pub open spec fn snake_case(s: Seq<char>) -> Seq<char>
    decreases s.len(),
{
    if s.len() == 0 {
        Seq::<char>::empty()
    } else {
        snake_step(
            snake_case(s.drop_last()),
            s.last(),
            is_uppercase(s.last()),
            lowercase_of(s.last())[0],
        )
    }
}

/// Appends to `out` what the character `c` adds to a snake case name, given
/// whether `c` is upper case and the character that it is lowered to.
pub fn push_snake(out: &mut String, c: char, upper: bool, lowered: char)
    ensures
        final(out)@ == snake_step(old(out)@, c, upper, lowered),
{
    if upper {
        if !out.as_str().is_empty() && !ends_with_char(out.as_str(), '_') {
            out.push('_');
        }
        out.push(lowered);
    } else {
        out.push(c);
    }
}

/// Turns a name written in camel case into snake case.
pub fn to_snake_case(s: &str) -> (result: String)
    ensures
        result@ == snake_case(s@),
{
    let mut result = String::new();
    for c in it: s.chars()
        invariant
            it.seq() == s@,
            result@ == snake_case(s@.take(it.index() as int)),
    {
        assert(s@.take(it.index() + 1).drop_last() == s@.take(it.index() as int));
        if c.is_uppercase() {
            let mapping = lowercase_mapping(c);
            push_snake(&mut result, c, true, mapping[0]);
        } else {
            push_snake(&mut result, c, false, c);
        }
    }
    assert(s@.take(s@.len() as int) == s@);
    result
}

/// A snake case name is at least as long as the name it was made from, and
/// at most twice as long.
pub proof fn lemma_snake_case_len(s: Seq<char>)
    ensures
        s.len() <= snake_case(s).len() <= 2 * s.len(),
    decreases s.len(),
{
    if s.len() > 0 {
        lemma_snake_case_len(s.drop_last());
    }
}

/// `s` with every hyphen replaced by an underscore.
pub open spec fn hyphens_to_underscores(s: Seq<char>) -> Seq<char> {
    s.map_values(
        |c: char|
            if c == '-' {
                '_'
            } else {
                c
            },
    )
}

/// Replaces every hyphen in `s` by an underscore.
pub fn replace_hyphens(s: &str) -> (result: String)
    ensures
        result@ == hyphens_to_underscores(s@),
{
    let mut result = String::new();
    for c in it: s.chars()
        invariant
            it.seq() == s@,
            result@ == hyphens_to_underscores(s@.take(it.index() as int)),
    {
        if c == '-' {
            result.push('_');
        } else {
            result.push(c);
        }
        assert(result@ =~= hyphens_to_underscores(s@.take(it.index() + 1)));
    }
    assert(s@.take(s@.len() as int) == s@);
    result
}

// The fixed pieces of the generated names.

pub const CONST_PREFIX: &'static str = "__DYNAMIC_METHOD_";

pub const WRAPPER_PREFIX: &'static str = "__wrapper_";

pub const UNDERSCORE: &'static str = "_";

pub const IN: &'static str = "_in_";

/// The name of the constant that registers the method `method` of the type
/// `owner`.
pub open spec fn const_name(owner: Seq<char>, method: Seq<char>) -> Seq<char> {
    uppercase_of(hyphens_to_underscores(CONST_PREFIX@ + owner + UNDERSCORE@ + method))
}

/// The name of the function that wraps the method `method` of the type
/// `owner`.
pub open spec fn wrapper_name(owner: Seq<char>, method: Seq<char>) -> Seq<char> {
    WRAPPER_PREFIX@ + snake_case(owner) + UNDERSCORE@ + snake_case(method)
}

/// The name of the local variable that holds the argument `param` inside
/// the wrapper of the method `method`.
pub open spec fn temp_var_name(param: Seq<char>, method: Seq<char>) -> Seq<char> {
    param + IN@ + method
}

/// Builds the name of the constant that registers a method.
pub fn registration_const_name(owner: &str, method: &str) -> (name: String)
    ensures
        name@ == const_name(owner@, method@),
{
    let mut raw = String::from_str(CONST_PREFIX);
    raw.append(owner);
    raw.append(UNDERSCORE);
    raw.append(method);
    let replaced = replace_hyphens(raw.as_str());
    replaced.as_str().to_uppercase()
}

/// Builds the name of the function that wraps a method.
pub fn wrapper_fn_name(owner: &str, method: &str) -> (name: String)
    ensures
        name@ == wrapper_name(owner@, method@),
{
    let snake_type = to_snake_case(owner);
    let snake_method = to_snake_case(method);
    let mut name = String::from_str(WRAPPER_PREFIX);
    name.append(snake_type.as_str());
    name.append(UNDERSCORE);
    name.append(snake_method.as_str());
    name
}

/// Builds the name of the local variable that holds an argument.
pub fn temp_var(param: &str, method: &str) -> (name: String)
    ensures
        name@ == temp_var_name(param@, method@),
{
    let mut name = String::from_str(param);
    name.append(IN);
    name.append(method);
    name
}

} // verus!
