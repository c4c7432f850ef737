//! Locating the Teaclave SGX SDK sources among the packages that
//! `cargo metadata` reports.
use vstd::prelude::*;
use crate::text::{chars_of, find, find_from, find_in, lemma_find_from_some, lemma_rfind_char_some,
    match_at, rfind_char_before, rfind_char_in, string_of_range};

verus! {

/// The directory name under which cargo checks out the Teaclave SGX SDK.
pub const TEACLAVE_CHECKOUT_NAME: &'static str = "incubator-teaclave-sgx-sdk-9a654826af166474/";

/// The Teaclave SGX SDK directory in the output of `cargo metadata`: the
/// quoted path that holds the first occurrence of the checkout's name,
/// from just after its opening quote up to the `/` that ends the component
/// after that name. `None` when the name does not occur, no quote comes
/// before it, or no `/` comes after it.
pub open spec fn spec_teaclave_sdk_path(output: Seq<char>) -> Option<Seq<char>> {
    let name = TEACLAVE_CHECKOUT_NAME@;
    match find(output, name) {
        None => None,
        Some(idx) => match rfind_char_before(output, '"', idx) {
            None => None,
            Some(quote) => match find_from(output, seq!['/'], idx + name.len()) {
                None => None,
                Some(end) => Some(output.subrange(quote + 1, end)),
            },
        },
    }
}

/// The Teaclave SGX SDK directory in the output of `cargo metadata`.
pub fn teaclave_sdk_path(output: &str) -> (r: Option<String>)
    ensures
        match spec_teaclave_sdk_path(output@) {
            None => r is None,
            Some(p) => r matches Some(s) && s@ == p,
        },
{
    let out = chars_of(output);
    let name = chars_of(TEACLAVE_CHECKOUT_NAME);
    let idx = match find_in(&out, &name) {
        None => return None,
        Some(i) => i,
    };
    proof {
        lemma_find_from_some(out@, name@, 0);
    }
    let quote = match rfind_char_in(&out, '"', idx) {
        None => return None,
        Some(q) => q,
    };
    proof {
        lemma_rfind_char_some(out@, '"', idx as int);
    }
    assert(idx + name@.len() <= out@.len());
    let from: usize = idx + name.len();
    let slash: Vec<char> = vec!['/'];
    let mut j: usize = from;
    while j < out.len()
        invariant
            from <= j <= out@.len(),
            out@ == output@,
            name@ == TEACLAVE_CHECKOUT_NAME@,
            find(out@, name@) == Some(idx as int),
            rfind_char_before(out@, '"', idx as int) == Some(quote as int),
            quote < idx,
            from == idx + name@.len(),
            slash@ == seq!['/'],
            find_from(out@, seq!['/'], from as int) == find_from(out@, seq!['/'], j as int),
        decreases out@.len() - j,
    {
        if out[j] == '/' {
            assert(out@.subrange(j as int, j + 1) =~= seq!['/']);
            assert(match_at(out@, seq!['/'], j as int));
            return Some(string_of_range(&out, quote + 1, j));
        }
        assert(!match_at(out@, seq!['/'], j as int)) by {
            if match_at(out@, seq!['/'], j as int) {
                assert(out@.subrange(j as int, j + 1)[0] == out@[j as int]);
            }
        }
        j += 1;
    }
    None
}

} // verus!
