//! How identifiers are derived from titles and names.

use vstd::prelude::*;

verus! {

/// A character of a title as it appears in an identifier: a space becomes an
/// underscore, every other character stays.
pub open spec fn slug_char(c: char) -> char {
    if c == ' ' {
        '_'
    } else {
        c
    }
}

/// A title as it appears in an identifier.
pub open spec fn slug(s: Seq<char>) -> Seq<char> {
    Seq::new(s.len(), |i: int| slug_char(s[i]))
}

/// The identifier of the thread that `creator` opens under `title`.
pub open spec fn thread_id_of(title: Seq<char>, creator: Seq<char>) -> Seq<char> {
    slug(title).push('_') + creator
}

/// The identifier of the space called `name`; it does not depend on who
/// created the space.
pub open spec fn space_id_of(name: Seq<char>) -> Seq<char> {
    slug(name)
}

/// Appends one character to a string.
///
/// Calls `String::push`, which is documented to append the given `char` to
/// the end of the string; nothing else of the string changes.
#[verifier::external_body]
fn push_char(s: &mut String, c: char)
    ensures
        final(s)@ == old(s)@.push(c),
{
    s.push(c)
}

/// The slug of a title.
pub fn slugify(title: &String) -> (r: String)
    ensures
        r@ == slug(title@),
{
    let mut r = String::new();
    let n: usize = title.as_str().unicode_len();
    let mut i: usize = 0;
    while i < n
        invariant
            n == title@.len(),
            i <= n,
            r@ == slug(title@).subrange(0, i as int),
        decreases n - i,
    {
        let c = title.as_str().get_char(i);
        if c == ' ' {
            push_char(&mut r, '_');
        } else {
            push_char(&mut r, c);
        }
        assert(r@ =~= slug(title@).subrange(0, i + 1));
        i = i + 1;
    }
    assert(r@ =~= slug(title@));
    r
}

/// Derives a thread's identifier from its title and its creator's account.
pub fn convert_title_to_id(title: &String, account_id: String) -> (r: String)
    ensures
        r@ == thread_id_of(title@, account_id@),
{
    let mut r = slugify(title);
    push_char(&mut r, '_');
    r.append(account_id.as_str());
    r
}

/// Derives a space's identifier from its name alone.
pub fn convert_title_to_id_no_account(title: &String) -> (r: String)
    ensures
        r@ == space_id_of(title@),
{
    slugify(title)
}

} // verus!
