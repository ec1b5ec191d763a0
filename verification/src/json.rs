//! Compact JSON text of a JSON value: no whitespace, object entries in the
//! order held, strings escaped as `serde_json` escapes them (`\"`, `\\`, the
//! short escapes `\b \t \n \f \r`, and `\u00xx` with lowercase hex digits for
//! the other control characters; everything else verbatim).

use vstd::prelude::*;

use crate::text::{digit_char, key_less, key_less_exec, lemma_key_less_trans, lemma_key_order, push_char};
use crate::value::{JsonValue, JsonView, json_view, object_view};

verus! {

/// The lowercase hexadecimal digit of `d` (below 16).
pub open spec fn hex_digit(d: nat) -> char {
    if d < 10 {
        digit_char(d)
    } else if d == 10 {
        'a'
    } else if d == 11 {
        'b'
    } else if d == 12 {
        'c'
    } else if d == 13 {
        'd'
    } else if d == 14 {
        'e'
    } else {
        'f'
    }
}

/// How one character is written inside a JSON string.
pub open spec fn escape_char(c: char) -> Seq<char> {
    if c == '"' {
        seq!['\\', '"']
    } else if c == '\\' {
        seq!['\\', '\\']
    } else if c == '\u{8}' {
        seq!['\\', 'b']
    } else if c == '\t' {
        seq!['\\', 't']
    } else if c == '\n' {
        seq!['\\', 'n']
    } else if c == '\u{c}' {
        seq!['\\', 'f']
    } else if c == '\r' {
        seq!['\\', 'r']
    } else if (c as u32) < 0x20 {
        seq!['\\', 'u', '0', '0', hex_digit((c as u32 / 16) as nat), hex_digit((c as u32 % 16) as nat)]
    } else {
        seq![c]
    }
}

/// The escaped characters of `s`.
pub open spec fn escaped(s: Seq<char>) -> Seq<char>
    decreases s.len(),
{
    if s.len() == 0 {
        Seq::empty()
    } else {
        escaped(s.drop_last()) + escape_char(s.last())
    }
}

/// A JSON string literal of `s`.
pub open spec fn json_string(s: Seq<char>) -> Seq<char> {
    seq!['"'] + escaped(s) + seq!['"']
}

/// The compact JSON text of `v`.
pub open spec fn json_text(v: JsonView) -> Seq<char>
    decreases v, 0int,
{
    match v {
        JsonView::Null => "null"@,
        JsonView::Bool(b) => if b {
            "true"@
        } else {
            "false"@
        },
        JsonView::Number(n) => n,
        JsonView::Text(t) => json_string(t),
        JsonView::Array(items) => "["@ + items_text(items, items.len() as int) + "]"@,
        JsonView::Object(entries) => "{"@ + entries_text(entries, entries.len() as int) + "}"@,
    }
}

/// The texts of the first `n` items, comma-separated.
pub open spec fn items_text(items: Seq<JsonView>, n: int) -> Seq<char>
    decreases items, n,
{
    if n <= 0 || n > items.len() {
        Seq::empty()
    } else if n == 1 {
        json_text(items[0])
    } else {
        items_text(items, n - 1) + ","@ + json_text(items[n - 1])
    }
}

/// The texts of the first `n` entries (`"key":value`), comma-separated.
pub open spec fn entries_text(entries: Seq<(Seq<char>, JsonView)>, n: int) -> Seq<char>
    decreases entries, n,
{
    if n <= 0 || n > entries.len() {
        Seq::empty()
    } else if n == 1 {
        proof {
            assert(decreases_to!(entries => entries[0]));
        }
        json_string(entries[0].0) + ":"@ + json_text(entries[0].1)
    } else {
        proof {
            assert(decreases_to!(entries => entries[n - 1]));
        }
        entries_text(entries, n - 1) + ","@ + json_string(entries[n - 1].0) + ":"@ + json_text(
            entries[n - 1].1,
        )
    }
}

/// The compact JSON text of an object with the given entries.
pub open spec fn object_text(entries: Seq<(Seq<char>, JsonView)>) -> Seq<char> {
    json_text(JsonView::Object(entries))
}

fn hex_digit_exec(d: u32) -> (c: char)
    requires
        d < 16,
    ensures
        c == hex_digit(d as nat),
{
    match d {
        0 => '0',
        1 => '1',
        2 => '2',
        3 => '3',
        4 => '4',
        5 => '5',
        6 => '6',
        7 => '7',
        8 => '8',
        9 => '9',
        10 => 'a',
        11 => 'b',
        12 => 'c',
        13 => 'd',
        14 => 'e',
        _ => 'f',
    }
}

fn push_escaped_char(out: &mut String, c: char)
    ensures
        final(out)@ == old(out)@ + escape_char(c),
{
    let ghost start = out@;
    if c == '"' {
        out.append("\\\"");
    } else if c == '\\' {
        out.append("\\\\");
    } else if c == '\u{8}' {
        out.append("\\b");
    } else if c == '\t' {
        out.append("\\t");
    } else if c == '\n' {
        out.append("\\n");
    } else if c == '\u{c}' {
        out.append("\\f");
    } else if c == '\r' {
        out.append("\\r");
    } else if (c as u32) < 0x20 {
        let code = c as u32;
        out.append("\\u00");
        push_char(out, hex_digit_exec(code / 16));
        push_char(out, hex_digit_exec(code % 16));
    } else {
        push_char(out, c);
    }
    proof {
        reveal_strlit("\\\"");
        reveal_strlit("\\\\");
        reveal_strlit("\\b");
        reveal_strlit("\\t");
        reveal_strlit("\\n");
        reveal_strlit("\\f");
        reveal_strlit("\\r");
        reveal_strlit("\\u00");
    }
    assert(out@ =~= start + escape_char(c));
}

/// Appends the JSON string literal of `s`.
pub fn write_string(out: &mut String, s: &str)
    ensures
        final(out)@ == old(out)@ + json_string(s@),
{
    let ghost start = out@;
    push_char(out, '"');
    for c in it: s.chars()
        invariant
            it.seq() == s@,
            out@ == start + seq!['"'] + escaped(it.seq().take(it.index() as int)),
    {
        let ghost i = it.index();
        assert(s@.take(i + 1).drop_last() =~= s@.take(i as int));
        push_escaped_char(out, c);
        assert(out@ =~= start + seq!['"'] + escaped(s@.take(i + 1)));
    }
    assert(s@.take(s@.len() as int) =~= s@);
    push_char(out, '"');
    assert(out@ =~= start + json_string(s@));
}

/// Appends the compact JSON text of `v`.
pub fn write_json(out: &mut String, v: &JsonValue)
    ensures
        final(out)@ == old(out)@ + json_text(json_view(*v)),
    decreases v,
{
    let ghost start = out@;
    match v {
        JsonValue::Null => {
            out.append("null");
        },
        JsonValue::Bool(b) => {
            if *b {
                out.append("true");
            } else {
                out.append("false");
            }
        },
        JsonValue::Number(n) => {
            out.append(n.as_str());
        },
        JsonValue::Text(t) => {
            write_string(out, t.as_str());
        },
        JsonValue::Array(items) => {
            let ghost jv = json_view(*v);
            let ghost vs = jv->Array_0;
            assert(vs.len() == items@.len());
            out.append("[");
            let mut i: usize = 0;
            while i < items.len()
                invariant
                    *v == JsonValue::Array(*items),
                    jv == json_view(*v),
                    vs == jv->Array_0,
                    vs.len() == items@.len(),
                    i <= items@.len(),
                    out@ == start + "["@ + items_text(vs, i as int),
                decreases items.len() - i,
            {
                assert(vs[i as int] == json_view(items@[i as int]));
                if i > 0 {
                    out.append(",");
                }
                assert(decreases_to!(*v => items@[i as int])) by {
                    assert(decreases_to!(*v => (*v)->Array_0));
                    assert(decreases_to!((*v)->Array_0 => (*v)->Array_0@));
                    assert(decreases_to!((*v)->Array_0@ => (*v)->Array_0@[i as int]));
                };
                write_json(out, &items[i]);
                i += 1;
            }
            out.append("]");
        },
        JsonValue::Object(entries) => {
            assert(decreases_to!(*v => (*v)->Object_0));
            write_object_entries(out, entries);
            let ghost ws = json_view(*v)->Object_0;
            assert(ws =~= object_view(entries@));
            assert(json_view(*v) == JsonView::Object(ws));
        },
    }
}

/// Appends the compact JSON text of an object with the given entries.
pub fn write_object_entries(out: &mut String, entries: &Vec<(String, JsonValue)>)
    ensures
        final(out)@ == old(out)@ + object_text(object_view(entries@)),
    decreases entries,
{
    let ghost start = out@;
    let ghost ov = object_view(entries@);
    out.append("{");
    let mut i: usize = 0;
    while i < entries.len()
        invariant
            i <= entries@.len(),
            ov == object_view(entries@),
            out@ == start + "{"@ + entries_text(ov, i as int),
        decreases entries.len() - i,
    {
        if i > 0 {
            out.append(",");
        }
        write_string(out, entries[i].0.as_str());
        out.append(":");
        assert(decreases_to!(*entries => entries@[i as int].1)) by {
            assert(decreases_to!(*entries => entries@));
            assert(decreases_to!(entries@ => entries@[i as int]));
            assert(decreases_to!(entries@[i as int] => entries@[i as int].1));
        };
        write_json(out, &entries[i].1);
        i += 1;
    }
    out.append("}");
}

/// Whether the keys of `entries` ascend strictly.
pub open spec fn keys_ascending(entries: Seq<(Seq<char>, JsonView)>) -> bool {
    forall|i: int, j: int|
        0 <= i < j < entries.len() ==> key_less(#[trigger] entries[i].0, #[trigger] entries[j].0)
}

/// The value of the first entry named `key`.
pub open spec fn object_get(entries: Seq<(Seq<char>, JsonView)>, key: Seq<char>) -> Option<JsonView>
    decreases entries.len(),
{
    if entries.len() == 0 {
        None
    } else if entries[0].0 == key {
        Some(entries[0].1)
    } else {
        object_get(entries.drop_first(), key)
    }
}

/// Stores `value` under `key` in an object kept in key order: an entry with
/// that key is replaced in place, otherwise a new entry goes before the
/// first greater key.
pub open spec fn object_insert(
    entries: Seq<(Seq<char>, JsonView)>,
    key: Seq<char>,
    value: JsonView,
) -> Seq<(Seq<char>, JsonView)>
    decreases entries.len(),
{
    if entries.len() == 0 {
        seq![(key, value)]
    } else if entries[0].0 == key {
        seq![(key, value)] + entries.drop_first()
    } else if key_less(key, entries[0].0) {
        seq![(key, value)] + entries
    } else {
        seq![entries[0]] + object_insert(entries.drop_first(), key, value)
    }
}

/// Inserting past a prefix of smaller keys keeps that prefix.
proof fn lemma_insert_after(
    entries: Seq<(Seq<char>, JsonView)>,
    key: Seq<char>,
    value: JsonView,
    i: int,
)
    requires
        0 <= i <= entries.len(),
        forall|j: int| 0 <= j < i ==> key_less(#[trigger] entries[j].0, key),
    ensures
        object_insert(entries, key, value) == entries.take(i) + object_insert(
            entries.skip(i),
            key,
            value,
        ),
    decreases i,
{
    if i > 0 {
        lemma_key_order(entries[0].0, key);
        assert(entries[0].0 != key);
        assert(!key_less(key, entries[0].0));
        let rest = entries.drop_first();
        assert forall|j: int| 0 <= j < i - 1 implies key_less(#[trigger] rest[j].0, key) by {
            assert(rest[j] == entries[j + 1]);
        }
        lemma_insert_after(rest, key, value, i - 1);
        assert(rest.skip(i - 1) =~= entries.skip(i));
        assert(entries.take(i) =~= seq![entries[0]] + rest.take(i - 1));
    } else {
        assert(entries.skip(0) =~= entries);
        assert(entries.take(0) =~= Seq::<(Seq<char>, JsonView)>::empty());
    }
}

/// Stores `value` under `key` (see `object_insert`).
pub fn insert_entry(entries: &mut Vec<(String, JsonValue)>, key: String, value: JsonValue)
    ensures
        object_view(final(entries)@) == object_insert(
            object_view(old(entries)@),
            key@,
            json_view(value),
        ),
{
    let ghost before = object_view(entries@);
    let mut i: usize = 0;
    while i < entries.len() && key_less_exec(entries[i].0.as_str(), key.as_str())
        invariant
            i <= entries@.len(),
            before == object_view(entries@),
            forall|j: int| 0 <= j < i ==> key_less(#[trigger] before[j].0, key@),
        decreases entries.len() - i,
    {
        i += 1;
    }
    proof {
        lemma_insert_after(before, key@, json_view(value), i as int);
    }
    let ghost rest = before.skip(i as int);
    if i < entries.len() && crate::text::str_eq(entries[i].0.as_str(), key.as_str()) {
        assert(rest[0] == before[i as int]);
        entries.set(i, (key, value));
        assert(object_view(entries@) =~= before.take(i as int) + (seq![(key@, json_view(value))]
            + rest.drop_first()));
    } else {
        proof {
            if i < entries.len() {
                assert(rest[0] == before[i as int]);
                lemma_key_order(before[i as int].0, key@);
            }
        }
        entries.insert(i, (key, value));
        assert(object_view(entries@) =~= before.take(i as int) + object_insert(
            rest,
            key@,
            json_view(value),
        ));
    }
}

/// After storing `value` under `key`, `key` reads `value` and every other
/// key reads what it did; an object in key order stays in key order.
pub proof fn law_object_insert(
    entries: Seq<(Seq<char>, JsonView)>,
    key: Seq<char>,
    value: JsonView,
    other: Seq<char>,
)
    ensures
        object_get(object_insert(entries, key, value), other) == if other == key {
            Some(value)
        } else {
            object_get(entries, other)
        },
        keys_ascending(entries) ==> keys_ascending(object_insert(entries, key, value)),
    decreases entries.len(),
{
    let e2 = object_insert(entries, key, value);
    if entries.len() > 0 {
        let rest = entries.drop_first();
        law_object_insert(rest, key, value, other);
        lemma_key_order(key, entries[0].0);
        if entries[0].0 == key {
            assert(e2.drop_first() =~= rest);
            assert(e2[0] == (key, value));
            if keys_ascending(entries) {
                assert forall|i: int, j: int| 0 <= i < j < e2.len() implies key_less(
                    #[trigger] e2[i].0,
                    #[trigger] e2[j].0,
                ) by {
                    assert(e2[i].0 == entries[i].0);
                    assert(e2[j].0 == entries[j].0);
                }
            }
        } else if key_less(key, entries[0].0) {
            assert(e2.drop_first() =~= entries);
            assert(e2[0] == (key, value));
            if keys_ascending(entries) {
                assert forall|i: int, j: int| 0 <= i < j < e2.len() implies key_less(
                    #[trigger] e2[i].0,
                    #[trigger] e2[j].0,
                ) by {
                    if i == 0 && j > 1 {
                        lemma_key_less_trans(key, entries[0].0, entries[j - 1].0);
                    }
                }
            }
        } else {
            let r2 = object_insert(rest, key, value);
            assert(e2.drop_first() =~= r2);
            assert(e2[0] == entries[0]);
            if keys_ascending(entries) {
                assert(keys_ascending(rest)) by {
                    assert forall|i: int, j: int| 0 <= i < j < rest.len() implies key_less(
                        #[trigger] rest[i].0,
                        #[trigger] rest[j].0,
                    ) by {
                        assert(rest[i] == entries[i + 1] && rest[j] == entries[j + 1]);
                    }
                }
                lemma_insert_keys_from(rest, key, value);
                assert forall|i: int, j: int| 0 <= i < j < e2.len() implies key_less(
                    #[trigger] e2[i].0,
                    #[trigger] e2[j].0,
                ) by {
                    if i == 0 {
                        let k2 = r2[j - 1].0;
                        if k2 != key {
                            let t = choose|t: int| 0 <= t < rest.len() && rest[t].0 == k2;
                            assert(rest[t] == entries[t + 1]);
                        }
                    }
                }
            }
        }
    } else {
        assert(e2.drop_first() =~= Seq::<(Seq<char>, JsonView)>::empty());
        assert(e2[0] == (key, value));
        assert(object_get(e2.drop_first(), other) is None);
    }
}

/// Every key after an insert is the inserted key or an earlier key.
proof fn lemma_insert_keys_from(entries: Seq<(Seq<char>, JsonView)>, key: Seq<char>, value: JsonView)
    ensures
        forall|j: int|
            0 <= j < object_insert(entries, key, value).len() ==> (#[trigger] object_insert(
                entries,
                key,
                value,
            )[j]).0 == key || exists|t: int| 0 <= t < entries.len() && entries[t].0 == object_insert(
                entries,
                key,
                value,
            )[j].0,
    decreases entries.len(),
{
    let e2 = object_insert(entries, key, value);
    if entries.len() > 0 {
        let rest = entries.drop_first();
        lemma_insert_keys_from(rest, key, value);
        assert forall|j: int| 0 <= j < e2.len() implies (#[trigger] e2[j]).0 == key || exists|t: int|
            0 <= t < entries.len() && entries[t].0 == e2[j].0 by {
            if entries[0].0 == key {
                if j > 0 {
                    assert(entries[j].0 == e2[j].0);
                }
            } else if key_less(key, entries[0].0) {
                if j > 0 {
                    assert(entries[j - 1].0 == e2[j].0);
                }
            } else {
                if j == 0 {
                    assert(entries[0].0 == e2[0].0);
                } else {
                    let r2 = object_insert(rest, key, value);
                    assert(e2[j] == r2[j - 1]);
                    if r2[j - 1].0 != key {
                        let t = choose|t: int| 0 <= t < rest.len() && rest[t].0 == r2[j - 1].0;
                        assert(entries[t + 1].0 == e2[j].0);
                    }
                }
            }
        }
    }
}

} // verus!
