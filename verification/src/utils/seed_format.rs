//! The normalized form of a market name. Two names that differ only in the
//! case of their ASCII letters or in ASCII white space are the same name.

use vstd::prelude::*;
use vstd::string::StringSliceAdditionalSpecFns;
use vstd::utf8::encode_utf8;

verus! {

/// Space, tab, line feed, vertical tab, form feed or carriage return.
pub open spec fn is_whitespace(b: u8) -> bool {
    b == 32 || 9 <= b <= 13
}

/// An ASCII capital letter becomes its small letter; no other byte changes.
pub open spec fn lowercase(b: u8) -> u8 {
    if 65 <= b <= 90 {
        (b + 32) as u8
    } else {
        b
    }
}

/// The bytes of a name without its white space, in lower case.
pub open spec fn seed_format(name: Seq<u8>) -> Seq<u8> {
    name.filter(|b: u8| !is_whitespace(b)).map_values(|b: u8| lowercase(b))
}

/// The normalized form of a name: its UTF-8 bytes without white space, in
/// lower case.
pub open spec fn normalized(name: Seq<char>) -> Seq<u8> {
    seed_format(encode_utf8(name))
}

/// Taking one more byte of the name into account.
pub proof fn lemma_seed_format_push(name: Seq<u8>, b: u8)
    ensures
        seed_format(name.push(b)) == (if is_whitespace(b) {
            seed_format(name)
        } else {
            seed_format(name).push(lowercase(b))
        }),
{
    let keep = |b: u8| !is_whitespace(b);
    let fold = |b: u8| lowercase(b);
    assert(name.push(b).drop_last() =~= name);
    assert(name.push(b).filter(keep) == if keep(b) {
        name.filter(keep).push(b)
    } else {
        name.filter(keep)
    }) by {
        reveal(Seq::filter);
    }
    if !is_whitespace(b) {
        assert(name.filter(keep).push(b).map_values(fold) =~= name.filter(keep).map_values(
            fold,
        ).push(fold(b)));
    }
}

/// Normalizes a name: drops its white space and puts it in lower case.
pub fn to_seed_format(name: &str) -> (seed: Vec<u8>)
    ensures
        seed@ == normalized(name@),
{
    let bytes = name.as_bytes();
    let mut seed: Vec<u8> = Vec::new();
    let mut i: usize = 0;
    proof {
        assert(seed_format(Seq::<u8>::empty()) =~= Seq::<u8>::empty()) by {
            reveal(Seq::filter);
        }
    }
    while i < bytes.len()
        invariant
            i <= bytes.len(),
            bytes@ == name.spec_bytes(),
            seed@ == seed_format(bytes@.take(i as int)),
        decreases bytes.len() - i,
    {
        let b = bytes[i];
        proof {
            assert(bytes@.take(i + 1) =~= bytes@.take(i as int).push(b));
            lemma_seed_format_push(bytes@.take(i as int), b);
        }
        if !(b == 32 || (9 <= b && b <= 13)) {
            if 65 <= b && b <= 90 {
                seed.push(b + 32);
            } else {
                seed.push(b);
            }
        }
        i = i + 1;
    }
    assert(bytes@.take(i as int) =~= bytes@);
    seed
}

} // verus!
