//! Verified JSON output: string literals, arrays and objects are built
//! by concatenation with exact specifications. This library renders the
//! request bodies it sends; nothing here is trusted.

use vstd::prelude::*;
use crate::text::{json_escaped, append_json_escaped, push_char, seq_views, join_with,
    join_strings};

verus! {

/// A JSON string literal: the escaped text between double quotes.
pub open spec fn json_str_lit(s: Seq<char>) -> Seq<char> {
    seq!['"'] + json_escaped(s) + seq!['"']
}

/// One object member: the quoted key, a colon, and an already rendered
/// value.
pub open spec fn json_member(k: Seq<char>, v: Seq<char>) -> Seq<char> {
    json_str_lit(k) + seq![':'] + v
}

/// An object from already rendered members.
pub open spec fn json_obj(entries: Seq<Seq<char>>) -> Seq<char> {
    seq!['{'] + join_with(entries, ","@) + seq!['}']
}

/// An array from already rendered elements.
pub open spec fn json_arr(entries: Seq<Seq<char>>) -> Seq<char> {
    seq!['['] + join_with(entries, ","@) + seq![']']
}

/// An array of string literals.
pub open spec fn json_str_array(items: Seq<Seq<char>>) -> Seq<char> {
    json_arr(Seq::new(items.len(), |i: int| json_str_lit(items[i])))
}

/// An object whose members are all string-valued.
pub open spec fn json_str_obj(pairs: Seq<(Seq<char>, Seq<char>)>) -> Seq<char> {
    json_obj(Seq::new(pairs.len(), |i: int| json_member(pairs[i].0, json_str_lit(pairs[i].1))))
}

/// Appends a JSON string literal.
pub fn append_json_str_lit(acc: &mut String, s: &str)
    ensures
        final(acc)@ == old(acc)@ + json_str_lit(s@),
{
    push_char(acc, '"');
    append_json_escaped(acc, s);
    push_char(acc, '"');
}

/// Renders a JSON string literal.
pub fn json_str_lit_of(s: &str) -> (r: String)
    ensures
        r@ == json_str_lit(s@),
{
    let mut acc = String::new();
    append_json_str_lit(&mut acc, s);
    acc
}

/// Renders an object from already rendered members.
pub fn json_object_of(entries: &Vec<String>) -> (r: String)
    ensures
        r@ == json_obj(seq_views(entries@)),
{
    let mut acc = String::new();
    push_char(&mut acc, '{');
    let joined = join_strings(entries, ",");
    proof {
        reveal_strlit(",");
        assert(","@ =~= seq![',']);
    }
    acc.append(joined.as_str());
    push_char(&mut acc, '}');
    acc
}

/// Renders an array of string literals.
pub fn json_str_array_of(items: &Vec<String>) -> (r: String)
    ensures
        r@ == json_str_array(seq_views(items@)),
{
    let ghost lits = Seq::new(items@.len(), |i: int| json_str_lit(items@[i]@));
    let mut acc = String::new();
    push_char(&mut acc, '[');
    let mut i: usize = 0;
    while i < items.len()
        invariant
            0 <= i <= items@.len(),
            lits == Seq::new(items@.len(), |j: int| json_str_lit(items@[j]@)),
            acc@ == seq!['['] + join_with(lits.take(i as int), ","@),
        decreases items@.len() - i,
    {
        if i > 0 {
            acc.append(",");
            proof {
                reveal_strlit(",");
                assert(","@ =~= seq![',']);
            }
        }
        append_json_str_lit(&mut acc, items[i].as_str());
        proof {
            assert(lits.take(i as int + 1).drop_last() =~= lits.take(i as int));
            assert(lits.take(i as int + 1).last() == json_str_lit(items@[i as int]@));
        }
        i = i + 1;
    }
    push_char(&mut acc, ']');
    proof {
        assert(lits.take(items@.len() as int) =~= lits);
        assert(Seq::new(seq_views(items@).len(), |i: int| json_str_lit(seq_views(items@)[i]))
            =~= lits);
    }
    acc
}

/// Renders an object whose members are all string-valued.
pub fn json_str_obj_of(pairs: &Vec<(String, String)>) -> (r: String)
    ensures
        r@ == json_str_obj(crate::http::pair_views(pairs@)),
{
    let ghost members = Seq::new(
        pairs@.len(),
        |i: int| json_member(pairs@[i].0@, json_str_lit(pairs@[i].1@)),
    );
    let mut acc = String::new();
    push_char(&mut acc, '{');
    let mut i: usize = 0;
    while i < pairs.len()
        invariant
            0 <= i <= pairs@.len(),
            members == Seq::new(
                pairs@.len(),
                |j: int| json_member(pairs@[j].0@, json_str_lit(pairs@[j].1@)),
            ),
            acc@ == seq!['{'] + join_with(members.take(i as int), ","@),
        decreases pairs@.len() - i,
    {
        if i > 0 {
            acc.append(",");
            proof {
                reveal_strlit(",");
                assert(","@ =~= seq![',']);
            }
        }
        append_json_str_lit(&mut acc, pairs[i].0.as_str());
        push_char(&mut acc, ':');
        append_json_str_lit(&mut acc, pairs[i].1.as_str());
        proof {
            assert(members.take(i as int + 1).drop_last() =~= members.take(i as int));
            assert(members.take(i as int + 1).last() == json_member(
                pairs@[i as int].0@,
                json_str_lit(pairs@[i as int].1@),
            ));
        }
        i = i + 1;
    }
    push_char(&mut acc, '}');
    proof {
        assert(members.take(pairs@.len() as int) =~= members);
        let pv = crate::http::pair_views(pairs@);
        assert(Seq::new(pv.len(), |i: int| json_member(pv[i].0, json_str_lit(pv[i].1)))
            =~= members);
    }
    acc
}

pub fn push_member_str(entries: &mut Vec<String>, key: &str, value: &str)
    ensures
        seq_views(final(entries)@) =~= seq_views(old(entries)@) + seq![json_member(
            key@,
            json_str_lit(value@),
        )],
{
    let mut m = json_str_lit_of(key);
    push_char(&mut m, ':');
    let lit = json_str_lit_of(value);
    m.append(lit.as_str());
    let ghost prev = entries@;
    entries.push(m);
    proof {
        assert(seq_views(entries@) =~= seq_views(prev) + seq![json_member(
            key@,
            json_str_lit(value@),
        )]);
    }
}

pub fn push_member_rendered(entries: &mut Vec<String>, key: &str, value: String)
    ensures
        seq_views(final(entries)@) =~= seq_views(old(entries)@) + seq![json_member(key@, value@)],
{
    let mut m = json_str_lit_of(key);
    push_char(&mut m, ':');
    m.append(value.as_str());
    let ghost prev = entries@;
    entries.push(m);
    proof {
        assert(seq_views(entries@) =~= seq_views(prev) + seq![json_member(key@, value@)]);
    }
}

} // verus!
