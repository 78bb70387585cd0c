//! The byte strings of the fixed lexical rules: each keyword phrase and
//! symbol of the language, as a mathematical sequence and as a matcher at a
//! position of a text buffer.

use vstd::prelude::*;

use crate::lexer_rules::has_prefix;
use crate::lexer_rules::is_prefix_at;

verus! {

/// The bytes of `"if"`.
pub open spec fn lit_if_lc() -> Seq<u8> {
    seq![105u8, 102u8]
}

/// Whether `"if"` occurs in `text` starting exactly at `i`.
pub fn at_if_lc(text: &Vec<u8>, i: usize) -> (r: bool)
    requires
        i <= text@.len(),
    ensures
        r == is_prefix_at(text@, i as int, lit_if_lc()),
{
    let lit: [u8; 2] = [105, 102];
    let r = has_prefix(text, i, lit.as_slice());
    proof {
        assert(lit@ =~= lit_if_lc());
    }
    r
}

/// The bytes of `"If"`.
pub open spec fn lit_if_cap() -> Seq<u8> {
    seq![73u8, 102u8]
}

/// Whether `"If"` occurs in `text` starting exactly at `i`.
pub fn at_if_cap(text: &Vec<u8>, i: usize) -> (r: bool)
    requires
        i <= text@.len(),
    ensures
        r == is_prefix_at(text@, i as int, lit_if_cap()),
{
    let lit: [u8; 2] = [73, 102];
    let r = has_prefix(text, i, lit.as_slice());
    proof {
        assert(lit@ =~= lit_if_cap());
    }
    r
}

/// The bytes of `"; therefore"`.
pub open spec fn lit_therefore_lc() -> Seq<u8> {
    seq![59u8, 32u8, 116u8, 104u8, 101u8, 114u8, 101u8, 102u8, 111u8, 114u8, 101u8]
}

/// Whether `"; therefore"` occurs in `text` starting exactly at `i`.
pub fn at_therefore_lc(text: &Vec<u8>, i: usize) -> (r: bool)
    requires
        i <= text@.len(),
    ensures
        r == is_prefix_at(text@, i as int, lit_therefore_lc()),
{
    let lit: [u8; 11] = [59, 32, 116, 104, 101, 114, 101, 102, 111, 114, 101];
    let r = has_prefix(text, i, lit.as_slice());
    proof {
        assert(lit@ =~= lit_therefore_lc());
    }
    r
}

/// The bytes of `"; Therefore"`.
pub open spec fn lit_therefore_cap() -> Seq<u8> {
    seq![59u8, 32u8, 84u8, 104u8, 101u8, 114u8, 101u8, 102u8, 111u8, 114u8, 101u8]
}

/// Whether `"; Therefore"` occurs in `text` starting exactly at `i`.
pub fn at_therefore_cap(text: &Vec<u8>, i: usize) -> (r: bool)
    requires
        i <= text@.len(),
    ensures
        r == is_prefix_at(text@, i as int, lit_therefore_cap()),
{
    let lit: [u8; 11] = [59, 32, 84, 104, 101, 114, 101, 102, 111, 114, 101];
    let r = has_prefix(text, i, lit.as_slice());
    proof {
        assert(lit@ =~= lit_therefore_cap());
    }
    r
}

/// The bytes of `"is equal to"`.
pub open spec fn lit_eq_to() -> Seq<u8> {
    seq![105u8, 115u8, 32u8, 101u8, 113u8, 117u8, 97u8, 108u8, 32u8, 116u8, 111u8]
}

/// Whether `"is equal to"` occurs in `text` starting exactly at `i`.
pub fn at_eq_to(text: &Vec<u8>, i: usize) -> (r: bool)
    requires
        i <= text@.len(),
    ensures
        r == is_prefix_at(text@, i as int, lit_eq_to()),
{
    let lit: [u8; 11] = [105, 115, 32, 101, 113, 117, 97, 108, 32, 116, 111];
    let r = has_prefix(text, i, lit.as_slice());
    proof {
        assert(lit@ =~= lit_eq_to());
    }
    r
}

/// The bytes of `"is not equal to"`.
pub open spec fn lit_neq_to() -> Seq<u8> {
    seq![105u8, 115u8, 32u8, 110u8, 111u8, 116u8, 32u8, 101u8, 113u8, 117u8, 97u8, 108u8, 32u8, 116u8, 111u8]
}

/// Whether `"is not equal to"` occurs in `text` starting exactly at `i`.
pub fn at_neq_to(text: &Vec<u8>, i: usize) -> (r: bool)
    requires
        i <= text@.len(),
    ensures
        r == is_prefix_at(text@, i as int, lit_neq_to()),
{
    let lit: [u8; 15] = [105, 115, 32, 110, 111, 116, 32, 101, 113, 117, 97, 108, 32, 116, 111];
    let r = has_prefix(text, i, lit.as_slice());
    proof {
        assert(lit@ =~= lit_neq_to());
    }
    r
}

/// The bytes of `"isn't equal to"`.
pub open spec fn lit_neq_to_apos() -> Seq<u8> {
    seq![105u8, 115u8, 110u8, 39u8, 116u8, 32u8, 101u8, 113u8, 117u8, 97u8, 108u8, 32u8, 116u8, 111u8]
}

/// Whether `"isn't equal to"` occurs in `text` starting exactly at `i`.
pub fn at_neq_to_apos(text: &Vec<u8>, i: usize) -> (r: bool)
    requires
        i <= text@.len(),
    ensures
        r == is_prefix_at(text@, i as int, lit_neq_to_apos()),
{
    let lit: [u8; 14] = [105, 115, 110, 39, 116, 32, 101, 113, 117, 97, 108, 32, 116, 111];
    let r = has_prefix(text, i, lit.as_slice());
    proof {
        assert(lit@ =~= lit_neq_to_apos());
    }
    r
}

/// The bytes of `"or"`.
pub open spec fn lit_or_kw() -> Seq<u8> {
    seq![111u8, 114u8]
}

/// Whether `"or"` occurs in `text` starting exactly at `i`.
pub fn at_or_kw(text: &Vec<u8>, i: usize) -> (r: bool)
    requires
        i <= text@.len(),
    ensures
        r == is_prefix_at(text@, i as int, lit_or_kw()),
{
    let lit: [u8; 2] = [111, 114];
    let r = has_prefix(text, i, lit.as_slice());
    proof {
        assert(lit@ =~= lit_or_kw());
    }
    r
}

/// The bytes of `"is not"`.
pub open spec fn lit_not_kw() -> Seq<u8> {
    seq![105u8, 115u8, 32u8, 110u8, 111u8, 116u8]
}

/// Whether `"is not"` occurs in `text` starting exactly at `i`.
pub fn at_not_kw(text: &Vec<u8>, i: usize) -> (r: bool)
    requires
        i <= text@.len(),
    ensures
        r == is_prefix_at(text@, i as int, lit_not_kw()),
{
    let lit: [u8; 6] = [105, 115, 32, 110, 111, 116];
    let r = has_prefix(text, i, lit.as_slice());
    proof {
        assert(lit@ =~= lit_not_kw());
    }
    r
}

/// The bytes of `"isn't"`.
pub open spec fn lit_not_apos() -> Seq<u8> {
    seq![105u8, 115u8, 110u8, 39u8, 116u8]
}

/// Whether `"isn't"` occurs in `text` starting exactly at `i`.
pub fn at_not_apos(text: &Vec<u8>, i: usize) -> (r: bool)
    requires
        i <= text@.len(),
    ensures
        r == is_prefix_at(text@, i as int, lit_not_apos()),
{
    let lit: [u8; 5] = [105, 115, 110, 39, 116];
    let r = has_prefix(text, i, lit.as_slice());
    proof {
        assert(lit@ =~= lit_not_apos());
    }
    r
}

/// The bytes of `"and"`.
pub open spec fn lit_and_kw() -> Seq<u8> {
    seq![97u8, 110u8, 100u8]
}

/// Whether `"and"` occurs in `text` starting exactly at `i`.
pub fn at_and_kw(text: &Vec<u8>, i: usize) -> (r: bool)
    requires
        i <= text@.len(),
    ensures
        r == is_prefix_at(text@, i as int, lit_and_kw()),
{
    let lit: [u8; 3] = [97, 110, 100];
    let r = has_prefix(text, i, lit.as_slice());
    proof {
        assert(lit@ =~= lit_and_kw());
    }
    r
}

/// The bytes of `"is less than or equal to"`.
pub open spec fn lit_less_eq() -> Seq<u8> {
    seq![105u8, 115u8, 32u8, 108u8, 101u8, 115u8, 115u8, 32u8, 116u8, 104u8, 97u8, 110u8, 32u8, 111u8, 114u8, 32u8, 101u8, 113u8, 117u8, 97u8, 108u8, 32u8, 116u8, 111u8]
}

/// Whether `"is less than or equal to"` occurs in `text` starting exactly at `i`.
pub fn at_less_eq(text: &Vec<u8>, i: usize) -> (r: bool)
    requires
        i <= text@.len(),
    ensures
        r == is_prefix_at(text@, i as int, lit_less_eq()),
{
    let lit: [u8; 24] = [105, 115, 32, 108, 101, 115, 115, 32, 116, 104, 97, 110, 32, 111, 114, 32, 101, 113, 117, 97, 108, 32, 116, 111];
    let r = has_prefix(text, i, lit.as_slice());
    proof {
        assert(lit@ =~= lit_less_eq());
    }
    r
}

/// The bytes of `"is less than"`.
pub open spec fn lit_less() -> Seq<u8> {
    seq![105u8, 115u8, 32u8, 108u8, 101u8, 115u8, 115u8, 32u8, 116u8, 104u8, 97u8, 110u8]
}

/// Whether `"is less than"` occurs in `text` starting exactly at `i`.
pub fn at_less(text: &Vec<u8>, i: usize) -> (r: bool)
    requires
        i <= text@.len(),
    ensures
        r == is_prefix_at(text@, i as int, lit_less()),
{
    let lit: [u8; 12] = [105, 115, 32, 108, 101, 115, 115, 32, 116, 104, 97, 110];
    let r = has_prefix(text, i, lit.as_slice());
    proof {
        assert(lit@ =~= lit_less());
    }
    r
}

/// The bytes of `"is greater than or equal to"`.
pub open spec fn lit_greater_eq() -> Seq<u8> {
    seq![105u8, 115u8, 32u8, 103u8, 114u8, 101u8, 97u8, 116u8, 101u8, 114u8, 32u8, 116u8, 104u8, 97u8, 110u8, 32u8, 111u8, 114u8, 32u8, 101u8, 113u8, 117u8, 97u8, 108u8, 32u8, 116u8, 111u8]
}

/// Whether `"is greater than or equal to"` occurs in `text` starting exactly at `i`.
pub fn at_greater_eq(text: &Vec<u8>, i: usize) -> (r: bool)
    requires
        i <= text@.len(),
    ensures
        r == is_prefix_at(text@, i as int, lit_greater_eq()),
{
    let lit: [u8; 27] = [105, 115, 32, 103, 114, 101, 97, 116, 101, 114, 32, 116, 104, 97, 110, 32, 111, 114, 32, 101, 113, 117, 97, 108, 32, 116, 111];
    let r = has_prefix(text, i, lit.as_slice());
    proof {
        assert(lit@ =~= lit_greater_eq());
    }
    r
}

/// The bytes of `"is greater than"`.
pub open spec fn lit_greater() -> Seq<u8> {
    seq![105u8, 115u8, 32u8, 103u8, 114u8, 101u8, 97u8, 116u8, 101u8, 114u8, 32u8, 116u8, 104u8, 97u8, 110u8]
}

/// Whether `"is greater than"` occurs in `text` starting exactly at `i`.
pub fn at_greater(text: &Vec<u8>, i: usize) -> (r: bool)
    requires
        i <= text@.len(),
    ensures
        r == is_prefix_at(text@, i as int, lit_greater()),
{
    let lit: [u8; 15] = [105, 115, 32, 103, 114, 101, 97, 116, 101, 114, 32, 116, 104, 97, 110];
    let r = has_prefix(text, i, lit.as_slice());
    proof {
        assert(lit@ =~= lit_greater());
    }
    r
}

/// The bytes of `"false"`.
pub open spec fn lit_false_kw() -> Seq<u8> {
    seq![102u8, 97u8, 108u8, 115u8, 101u8]
}

/// Whether `"false"` occurs in `text` starting exactly at `i`.
pub fn at_false_kw(text: &Vec<u8>, i: usize) -> (r: bool)
    requires
        i <= text@.len(),
    ensures
        r == is_prefix_at(text@, i as int, lit_false_kw()),
{
    let lit: [u8; 5] = [102, 97, 108, 115, 101];
    let r = has_prefix(text, i, lit.as_slice());
    proof {
        assert(lit@ =~= lit_false_kw());
    }
    r
}

/// The bytes of `"true"`.
pub open spec fn lit_true_kw() -> Seq<u8> {
    seq![116u8, 114u8, 117u8, 101u8]
}

/// Whether `"true"` occurs in `text` starting exactly at `i`.
pub fn at_true_kw(text: &Vec<u8>, i: usize) -> (r: bool)
    requires
        i <= text@.len(),
    ensures
        r == is_prefix_at(text@, i as int, lit_true_kw()),
{
    let lit: [u8; 4] = [116, 114, 117, 101];
    let r = has_prefix(text, i, lit.as_slice());
    proof {
        assert(lit@ =~= lit_true_kw());
    }
    r
}

/// The bytes of `"none"`.
pub open spec fn lit_none_kw() -> Seq<u8> {
    seq![110u8, 111u8, 110u8, 101u8]
}

/// Whether `"none"` occurs in `text` starting exactly at `i`.
pub fn at_none_kw(text: &Vec<u8>, i: usize) -> (r: bool)
    requires
        i <= text@.len(),
    ensures
        r == is_prefix_at(text@, i as int, lit_none_kw()),
{
    let lit: [u8; 4] = [110, 111, 110, 101];
    let r = has_prefix(text, i, lit.as_slice());
    proof {
        assert(lit@ =~= lit_none_kw());
    }
    r
}

/// The bytes of `"You"`.
pub open spec fn lit_you_kw() -> Seq<u8> {
    seq![89u8, 111u8, 117u8]
}

/// Whether `"You"` occurs in `text` starting exactly at `i`.
pub fn at_you_kw(text: &Vec<u8>, i: usize) -> (r: bool)
    requires
        i <= text@.len(),
    ensures
        r == is_prefix_at(text@, i as int, lit_you_kw()),
{
    let lit: [u8; 3] = [89, 111, 117];
    let r = has_prefix(text, i, lit.as_slice());
    proof {
        assert(lit@ =~= lit_you_kw());
    }
    r
}

/// The bytes of `"it is "`.
pub open spec fn lit_assign_it() -> Seq<u8> {
    seq![105u8, 116u8, 32u8, 105u8, 115u8, 32u8]
}

/// Whether `"it is "` occurs in `text` starting exactly at `i`.
pub fn at_assign_it(text: &Vec<u8>, i: usize) -> (r: bool)
    requires
        i <= text@.len(),
    ensures
        r == is_prefix_at(text@, i as int, lit_assign_it()),
{
    let lit: [u8; 6] = [105, 116, 32, 105, 115, 32];
    let r = has_prefix(text, i, lit.as_slice());
    proof {
        assert(lit@ =~= lit_assign_it());
    }
    r
}

/// The bytes of `"he is "`.
pub open spec fn lit_assign_he() -> Seq<u8> {
    seq![104u8, 101u8, 32u8, 105u8, 115u8, 32u8]
}

/// Whether `"he is "` occurs in `text` starting exactly at `i`.
pub fn at_assign_he(text: &Vec<u8>, i: usize) -> (r: bool)
    requires
        i <= text@.len(),
    ensures
        r == is_prefix_at(text@, i as int, lit_assign_he()),
{
    let lit: [u8; 6] = [104, 101, 32, 105, 115, 32];
    let r = has_prefix(text, i, lit.as_slice());
    proof {
        assert(lit@ =~= lit_assign_he());
    }
    r
}

/// The bytes of `"she is "`.
pub open spec fn lit_assign_she() -> Seq<u8> {
    seq![115u8, 104u8, 101u8, 32u8, 105u8, 115u8, 32u8]
}

/// Whether `"she is "` occurs in `text` starting exactly at `i`.
pub fn at_assign_she(text: &Vec<u8>, i: usize) -> (r: bool)
    requires
        i <= text@.len(),
    ensures
        r == is_prefix_at(text@, i as int, lit_assign_she()),
{
    let lit: [u8; 7] = [115, 104, 101, 32, 105, 115, 32];
    let r = has_prefix(text, i, lit.as_slice());
    proof {
        assert(lit@ =~= lit_assign_she());
    }
    r
}

/// The bytes of `" they are"`.
pub open spec fn lit_assign_they() -> Seq<u8> {
    seq![32u8, 116u8, 104u8, 101u8, 121u8, 32u8, 97u8, 114u8, 101u8]
}

/// Whether `" they are"` occurs in `text` starting exactly at `i`.
pub fn at_assign_they(text: &Vec<u8>, i: usize) -> (r: bool)
    requires
        i <= text@.len(),
    ensures
        r == is_prefix_at(text@, i as int, lit_assign_they()),
{
    let lit: [u8; 9] = [32, 116, 104, 101, 121, 32, 97, 114, 101];
    let r = has_prefix(text, i, lit.as_slice());
    proof {
        assert(lit@ =~= lit_assign_they());
    }
    r
}

/// The bytes of `"there is a"`.
pub open spec fn lit_declaration_lc() -> Seq<u8> {
    seq![116u8, 104u8, 101u8, 114u8, 101u8, 32u8, 105u8, 115u8, 32u8, 97u8]
}

/// Whether `"there is a"` occurs in `text` starting exactly at `i`.
pub fn at_declaration_lc(text: &Vec<u8>, i: usize) -> (r: bool)
    requires
        i <= text@.len(),
    ensures
        r == is_prefix_at(text@, i as int, lit_declaration_lc()),
{
    let lit: [u8; 10] = [116, 104, 101, 114, 101, 32, 105, 115, 32, 97];
    let r = has_prefix(text, i, lit.as_slice());
    proof {
        assert(lit@ =~= lit_declaration_lc());
    }
    r
}

/// The bytes of `"There is a"`.
pub open spec fn lit_declaration_cap() -> Seq<u8> {
    seq![84u8, 104u8, 101u8, 114u8, 101u8, 32u8, 105u8, 115u8, 32u8, 97u8]
}

/// Whether `"There is a"` occurs in `text` starting exactly at `i`.
pub fn at_declaration_cap(text: &Vec<u8>, i: usize) -> (r: bool)
    requires
        i <= text@.len(),
    ensures
        r == is_prefix_at(text@, i as int, lit_declaration_cap()),
{
    let lit: [u8; 10] = [84, 104, 101, 114, 101, 32, 105, 115, 32, 97];
    let r = has_prefix(text, i, lit.as_slice());
    proof {
        assert(lit@ =~= lit_declaration_cap());
    }
    r
}

/// The bytes of `"called"`.
pub open spec fn lit_called() -> Seq<u8> {
    seq![99u8, 97u8, 108u8, 108u8, 101u8, 100u8]
}

/// Whether `"called"` occurs in `text` starting exactly at `i`.
pub fn at_called(text: &Vec<u8>, i: usize) -> (r: bool)
    requires
        i <= text@.len(),
    ensures
        r == is_prefix_at(text@, i as int, lit_called()),
{
    let lit: [u8; 6] = [99, 97, 108, 108, 101, 100];
    let r = has_prefix(text, i, lit.as_slice());
    proof {
        assert(lit@ =~= lit_called());
    }
    r
}

/// The bytes of `"named"`.
pub open spec fn lit_named() -> Seq<u8> {
    seq![110u8, 97u8, 109u8, 101u8, 100u8]
}

/// Whether `"named"` occurs in `text` starting exactly at `i`.
pub fn at_named(text: &Vec<u8>, i: usize) -> (r: bool)
    requires
        i <= text@.len(),
    ensures
        r == is_prefix_at(text@, i as int, lit_named()),
{
    let lit: [u8; 5] = [110, 97, 109, 101, 100];
    let r = has_prefix(text, i, lit.as_slice());
    proof {
        assert(lit@ =~= lit_named());
    }
    r
}

/// The bytes of `"labelled"`.
pub open spec fn lit_labelled() -> Seq<u8> {
    seq![108u8, 97u8, 98u8, 101u8, 108u8, 108u8, 101u8, 100u8]
}

/// Whether `"labelled"` occurs in `text` starting exactly at `i`.
pub fn at_labelled(text: &Vec<u8>, i: usize) -> (r: bool)
    requires
        i <= text@.len(),
    ensures
        r == is_prefix_at(text@, i as int, lit_labelled()),
{
    let lit: [u8; 8] = [108, 97, 98, 101, 108, 108, 101, 100];
    let r = has_prefix(text, i, lit.as_slice());
    proof {
        assert(lit@ =~= lit_labelled());
    }
    r
}

/// The bytes of `"?!"`.
pub open spec fn lit_qbang() -> Seq<u8> {
    seq![63u8, 33u8]
}

/// Whether `"?!"` occurs in `text` starting exactly at `i`.
pub fn at_qbang(text: &Vec<u8>, i: usize) -> (r: bool)
    requires
        i <= text@.len(),
    ensures
        r == is_prefix_at(text@, i as int, lit_qbang()),
{
    let lit: [u8; 2] = [63, 33];
    let r = has_prefix(text, i, lit.as_slice());
    proof {
        assert(lit@ =~= lit_qbang());
    }
    r
}

/// The bytes of `"!?"`.
pub open spec fn lit_bangq() -> Seq<u8> {
    seq![33u8, 63u8]
}

/// Whether `"!?"` occurs in `text` starting exactly at `i`.
pub fn at_bangq(text: &Vec<u8>, i: usize) -> (r: bool)
    requires
        i <= text@.len(),
    ensures
        r == is_prefix_at(text@, i as int, lit_bangq()),
{
    let lit: [u8; 2] = [33, 63];
    let r = has_prefix(text, i, lit.as_slice());
    proof {
        assert(lit@ =~= lit_bangq());
    }
    r
}

/// The bytes of `","`.
pub open spec fn lit_comma() -> Seq<u8> {
    seq![44u8]
}

/// Whether `","` occurs in `text` starting exactly at `i`.
pub fn at_comma(text: &Vec<u8>, i: usize) -> (r: bool)
    requires
        i <= text@.len(),
    ensures
        r == is_prefix_at(text@, i as int, lit_comma()),
{
    let lit: [u8; 1] = [44];
    let r = has_prefix(text, i, lit.as_slice());
    proof {
        assert(lit@ =~= lit_comma());
    }
    r
}

/// The bytes of `"."`.
pub open spec fn lit_dot() -> Seq<u8> {
    seq![46u8]
}

/// Whether `"."` occurs in `text` starting exactly at `i`.
pub fn at_dot(text: &Vec<u8>, i: usize) -> (r: bool)
    requires
        i <= text@.len(),
    ensures
        r == is_prefix_at(text@, i as int, lit_dot()),
{
    let lit: [u8; 1] = [46];
    let r = has_prefix(text, i, lit.as_slice());
    proof {
        assert(lit@ =~= lit_dot());
    }
    r
}

/// The bytes of `"!"`.
pub open spec fn lit_bang() -> Seq<u8> {
    seq![33u8]
}

/// Whether `"!"` occurs in `text` starting exactly at `i`.
pub fn at_bang(text: &Vec<u8>, i: usize) -> (r: bool)
    requires
        i <= text@.len(),
    ensures
        r == is_prefix_at(text@, i as int, lit_bang()),
{
    let lit: [u8; 1] = [33];
    let r = has_prefix(text, i, lit.as_slice());
    proof {
        assert(lit@ =~= lit_bang());
    }
    r
}

/// The bytes of `"?"`.
pub open spec fn lit_question() -> Seq<u8> {
    seq![63u8]
}

/// Whether `"?"` occurs in `text` starting exactly at `i`.
pub fn at_question(text: &Vec<u8>, i: usize) -> (r: bool)
    requires
        i <= text@.len(),
    ensures
        r == is_prefix_at(text@, i as int, lit_question()),
{
    let lit: [u8; 1] = [63];
    let r = has_prefix(text, i, lit.as_slice());
    proof {
        assert(lit@ =~= lit_question());
    }
    r
}

/// The bytes of `";"`.
pub open spec fn lit_semicolon() -> Seq<u8> {
    seq![59u8]
}

/// Whether `";"` occurs in `text` starting exactly at `i`.
pub fn at_semicolon(text: &Vec<u8>, i: usize) -> (r: bool)
    requires
        i <= text@.len(),
    ensures
        r == is_prefix_at(text@, i as int, lit_semicolon()),
{
    let lit: [u8; 1] = [59];
    let r = has_prefix(text, i, lit.as_slice());
    proof {
        assert(lit@ =~= lit_semicolon());
    }
    r
}

/// The bytes of `":"`.
pub open spec fn lit_colon() -> Seq<u8> {
    seq![58u8]
}

/// Whether `":"` occurs in `text` starting exactly at `i`.
pub fn at_colon(text: &Vec<u8>, i: usize) -> (r: bool)
    requires
        i <= text@.len(),
    ensures
        r == is_prefix_at(text@, i as int, lit_colon()),
{
    let lit: [u8; 1] = [58];
    let r = has_prefix(text, i, lit.as_slice());
    proof {
        assert(lit@ =~= lit_colon());
    }
    r
}

/// The bytes of `"("`.
pub open spec fn lit_lparen() -> Seq<u8> {
    seq![40u8]
}

/// Whether `"("` occurs in `text` starting exactly at `i`.
pub fn at_lparen(text: &Vec<u8>, i: usize) -> (r: bool)
    requires
        i <= text@.len(),
    ensures
        r == is_prefix_at(text@, i as int, lit_lparen()),
{
    let lit: [u8; 1] = [40];
    let r = has_prefix(text, i, lit.as_slice());
    proof {
        assert(lit@ =~= lit_lparen());
    }
    r
}

/// The bytes of `")"`.
pub open spec fn lit_rparen() -> Seq<u8> {
    seq![41u8]
}

/// Whether `")"` occurs in `text` starting exactly at `i`.
pub fn at_rparen(text: &Vec<u8>, i: usize) -> (r: bool)
    requires
        i <= text@.len(),
    ensures
        r == is_prefix_at(text@, i as int, lit_rparen()),
{
    let lit: [u8; 1] = [41];
    let r = has_prefix(text, i, lit.as_slice());
    proof {
        assert(lit@ =~= lit_rparen());
    }
    r
}

/// The bytes of `"+"`.
pub open spec fn lit_plus() -> Seq<u8> {
    seq![43u8]
}

/// Whether `"+"` occurs in `text` starting exactly at `i`.
pub fn at_plus(text: &Vec<u8>, i: usize) -> (r: bool)
    requires
        i <= text@.len(),
    ensures
        r == is_prefix_at(text@, i as int, lit_plus()),
{
    let lit: [u8; 1] = [43];
    let r = has_prefix(text, i, lit.as_slice());
    proof {
        assert(lit@ =~= lit_plus());
    }
    r
}

/// The bytes of `"-"`.
pub open spec fn lit_minus() -> Seq<u8> {
    seq![45u8]
}

/// Whether `"-"` occurs in `text` starting exactly at `i`.
pub fn at_minus(text: &Vec<u8>, i: usize) -> (r: bool)
    requires
        i <= text@.len(),
    ensures
        r == is_prefix_at(text@, i as int, lit_minus()),
{
    let lit: [u8; 1] = [45];
    let r = has_prefix(text, i, lit.as_slice());
    proof {
        assert(lit@ =~= lit_minus());
    }
    r
}

/// The bytes of `"*"`.
pub open spec fn lit_star() -> Seq<u8> {
    seq![42u8]
}

/// Whether `"*"` occurs in `text` starting exactly at `i`.
pub fn at_star(text: &Vec<u8>, i: usize) -> (r: bool)
    requires
        i <= text@.len(),
    ensures
        r == is_prefix_at(text@, i as int, lit_star()),
{
    let lit: [u8; 1] = [42];
    let r = has_prefix(text, i, lit.as_slice());
    proof {
        assert(lit@ =~= lit_star());
    }
    r
}

/// The bytes of `"/"`.
pub open spec fn lit_slash() -> Seq<u8> {
    seq![47u8]
}

/// Whether `"/"` occurs in `text` starting exactly at `i`.
pub fn at_slash(text: &Vec<u8>, i: usize) -> (r: bool)
    requires
        i <= text@.len(),
    ensures
        r == is_prefix_at(text@, i as int, lit_slash()),
{
    let lit: [u8; 1] = [47];
    let r = has_prefix(text, i, lit.as_slice());
    proof {
        assert(lit@ =~= lit_slash());
    }
    r
}

/// The bytes of `"..."`.
pub open spec fn lit_ellipsis() -> Seq<u8> {
    seq![46u8, 46u8, 46u8]
}

/// Whether `"..."` occurs in `text` starting exactly at `i`.
pub fn at_ellipsis(text: &Vec<u8>, i: usize) -> (r: bool)
    requires
        i <= text@.len(),
    ensures
        r == is_prefix_at(text@, i as int, lit_ellipsis()),
{
    let lit: [u8; 3] = [46, 46, 46];
    let r = has_prefix(text, i, lit.as_slice());
    proof {
        assert(lit@ =~= lit_ellipsis());
    }
    r
}

/// The bytes of `"%"`.
pub open spec fn lit_percent() -> Seq<u8> {
    seq![37u8]
}

/// The three UTF-8 bytes of the interrobang character.
pub open spec fn lit_interrobang() -> Seq<u8> {
    seq![226u8, 128u8, 189u8]
}

/// Whether the interrobang character occurs in `text` starting exactly at
/// `i`.
pub fn at_interrobang(text: &Vec<u8>, i: usize) -> (r: bool)
    requires
        i <= text@.len(),
    ensures
        r == is_prefix_at(text@, i as int, lit_interrobang()),
{
    let lit: [u8; 3] = [226, 128, 189];
    let r = has_prefix(text, i, lit.as_slice());
    proof {
        assert(lit@ =~= lit_interrobang());
    }
    r
}

} // verus!
