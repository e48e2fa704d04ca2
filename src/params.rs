//! Which text input of the side panel sets the mass of the black hole.
//!
//! Every input carries a name; the one whose name contains the mass tag is the
//! mass input. Names are matched on their UTF-8 bytes, as `str::contains`
//! matches them. When several inputs carry the tag, the last one wins: the
//! parameter stage writes the mass once per tagged input, in order.
use vstd::prelude::*;
use vstd::utf8::encode_utf8;

verus! {

/// The tag that marks the mass input: the bytes of "SpacetimeParamsM".
pub open spec fn mass_tag() -> Seq<u8> {
    seq!['S', 'p', 'a', 'c', 'e', 't', 'i', 'm', 'e', 'P', 'a', 'r', 'a', 'm', 's', 'M'].map_values(
        |c: char| c as u8,
    )
}

/// `needle` stands in `hay` from position `i` on.
pub open spec fn occurs_at(hay: Seq<u8>, needle: Seq<u8>, i: int) -> bool {
    &&& 0 <= i
    &&& i + needle.len() <= hay.len()
    &&& hay.subrange(i, i + needle.len()) == needle
}

/// `needle` stands somewhere in `hay`.
pub open spec fn contains_bytes(hay: Seq<u8>, needle: Seq<u8>) -> bool {
    exists|i: int| occurs_at(hay, needle, i)
}

/// A name marks the mass input when its UTF-8 bytes contain the tag.
pub open spec fn is_mass_name(name: Seq<char>) -> bool {
    contains_bytes(encode_utf8(name), mass_tag())
}

/// The index of the last name among `names` that marks the mass input.
pub open spec fn last_mass_field(names: Seq<String>) -> Option<int>
    decreases names.len(),
{
    if names.len() == 0 {
        None
    } else if is_mass_name(names.last()@) {
        Some(names.len() - 1)
    } else {
        last_mass_field(names.drop_last())
    }
}

fn mass_tag_bytes() -> (r: Vec<u8>)
    ensures
        r@ == mass_tag(),
{
    // the ASCII codes of "SpacetimeParamsM"
    let r: Vec<u8> = vec![83, 112, 97, 99, 101, 116, 105, 109, 101, 80, 97, 114, 97, 109, 115, 77];
    assert(r@ =~= mass_tag());
    r
}

fn occurs_here(hay: &[u8], needle: &Vec<u8>, i: usize) -> (r: bool)
    requires
        i + needle@.len() <= hay@.len(),
    ensures
        r == occurs_at(hay@, needle@, i as int),
{
    let hay_len = hay.len();
    let mut j: usize = 0;
    while j < needle.len()
        invariant
            hay_len == hay@.len(),
            0 <= j <= needle@.len(),
            i + needle@.len() <= hay@.len(),
            forall|k: int| 0 <= k < j ==> hay@[i + k] == needle@[k],
        decreases needle@.len() - j,
    {
        if hay[i + j] != needle[j] {
            assert(hay@.subrange(i as int, i + needle@.len())[j as int] != needle@[j as int]);
            return false;
        }
        j += 1;
    }
    assert(hay@.subrange(i as int, i + needle@.len()) =~= needle@);
    true
}

/// Whether an input with this name sets the mass.
pub fn is_mass_field(name: &str) -> (r: bool)
    ensures
        r == is_mass_name(name@),
{
    let hay = name.as_bytes();
    let tag = mass_tag_bytes();
    if hay.len() < tag.len() {
        return false;
    }
    let mut i: usize = 0;
    while i <= hay.len() - tag.len()
        invariant
            hay@ == encode_utf8(name@),
            tag@ == mass_tag(),
            tag@.len() <= hay@.len(),
            0 <= i <= hay@.len() - tag@.len() + 1,
            forall|k: int| 0 <= k < i ==> !occurs_at(hay@, tag@, k),
        decreases hay@.len() - tag@.len() + 1 - i,
    {
        if occurs_here(hay, &tag, i) {
            return true;
        }
        i += 1;
    }
    false
}

/// The input that sets the mass this frame: the last one whose name carries
/// the tag, or none.
pub fn mass_field(names: &Vec<String>) -> (r: Option<usize>)
    ensures
        match r {
            Some(k) => last_mass_field(names@) == Some(k as int),
            None => last_mass_field(names@) is None,
        },
{
    let mut found: Option<usize> = None;
    let mut k: usize = 0;
    while k < names.len()
        invariant
            0 <= k <= names@.len(),
            match found {
                Some(f) => last_mass_field(names@.take(k as int)) == Some(f as int),
                None => last_mass_field(names@.take(k as int)) is None,
            },
        decreases names@.len() - k,
    {
        proof {
            assert(names@.take(k + 1).drop_last() =~= names@.take(k as int));
        }
        if is_mass_field(names[k].as_str()) {
            found = Some(k);
        }
        k += 1;
    }
    proof {
        assert(names@.take(names@.len() as int) =~= names@);
    }
    found
}

} // verus!
