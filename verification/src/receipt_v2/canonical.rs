use vstd::prelude::*;
use vstd::string::StringSliceAdditionalSpecFns;
use crate::codec::json_quote;
use crate::receipt_v2::json::JsonValue;

verus! {

/// Whether `a` sorts before `b` byte by byte, a proper prefix first.
pub open spec fn bytes_lt(a: Seq<u8>, b: Seq<u8>) -> bool
    decreases a.len(),
{
    if a.len() == 0 {
        b.len() > 0
    } else if b.len() == 0 {
        false
    } else if a[0] < b[0] {
        true
    } else if a[0] > b[0] {
        false
    } else {
        bytes_lt(a.drop_first(), b.drop_first())
    }
}

/// Inserts an entry into entries sorted by key, before the first entry whose
/// key sorts after it.
pub open spec fn insert_by_key(e: (Seq<u8>, Seq<u8>), sorted: Seq<(Seq<u8>, Seq<u8>)>) -> Seq<(Seq<u8>, Seq<u8>)>
    decreases sorted.len(),
{
    if sorted.len() == 0 {
        seq![e]
    } else if bytes_lt(e.0, sorted[0].0) {
        seq![e] + sorted
    } else {
        seq![sorted[0]] + insert_by_key(e, sorted.drop_first())
    }
}

/// Entries sorted by key, entries with equal keys kept in their order.
pub open spec fn sort_by_key(es: Seq<(Seq<u8>, Seq<u8>)>) -> Seq<(Seq<u8>, Seq<u8>)>
    decreases es.len(),
{
    if es.len() == 0 {
        Seq::empty()
    } else {
        insert_by_key(es.last(), sort_by_key(es.drop_last()))
    }
}

/// Byte strings joined with commas.
pub open spec fn join_commas(parts: Seq<Seq<u8>>) -> Seq<u8>
    decreases parts.len(),
{
    if parts.len() == 0 {
        Seq::empty()
    } else if parts.len() == 1 {
        parts[0]
    } else {
        join_commas(parts.drop_last()) + seq![44u8] + parts.last()
    }
}

/// The UTF-8 bytes of text.
pub open spec fn utf8(s: Seq<char>) -> Seq<u8> {
    vstd::utf8::encode_utf8(s)
}

/// The canonical form of a JSON value: literals and numbers as `serde_json`
/// prints them, strings quoted, arrays in order, and objects with their members
/// sorted by key, all without spaces.
pub open spec fn canonical(v: JsonValue) -> Seq<u8>
    decreases v,
{
    match v {
        JsonValue::Null => utf8("null"@),
        JsonValue::Bool(b) => if b { utf8("true"@) } else { utf8("false"@) },
        JsonValue::Number(n) => utf8(n@),
        JsonValue::String(s) => utf8(json_quote(s@)),
        JsonValue::Array(items) => seq![91u8] + join_commas(canonical_items(items@)) + seq![93u8],
        JsonValue::Object(members) => seq![123u8] + join_commas(
            sort_by_key(canonical_members(members@)).map_values(|e: (Seq<u8>, Seq<u8>)| e.1),
        ) + seq![125u8],
    }
}

/// The canonical forms of array items, in order.
pub open spec fn canonical_items(items: Seq<JsonValue>) -> Seq<Seq<u8>>
    decreases items,
{
    if items.len() == 0 {
        Seq::empty()
    } else {
        let n = items.len() as int;
        canonical_items(items.subrange(0, n - 1)).push(canonical(items[n - 1]))
    }
}

/// Each member of an object as its key's bytes and its canonical text: the
/// quoted key, a colon, and the canonical value.
pub open spec fn canonical_members(members: Seq<(String, JsonValue)>) -> Seq<(Seq<u8>, Seq<u8>)>
    decreases members,
{
    if members.len() == 0 {
        Seq::empty()
    } else {
        let n = members.len() as int;
        canonical_members(members.subrange(0, n - 1)).push((
            utf8(members[n - 1].0@),
            utf8(json_quote(members[n - 1].0@)) + seq![58u8] + canonical(members[n - 1].1),
        ))
    }
}

/// The views of a list of byte-string pairs.
pub open spec fn pairs_view(v: Seq<(Vec<u8>, Vec<u8>)>) -> Seq<(Seq<u8>, Seq<u8>)> {
    v.map_values(|p: (Vec<u8>, Vec<u8>)| (p.0@, p.1@))
}

pub(crate) fn bytes_less(a: &[u8], b: &[u8]) -> (r: bool)
    ensures
        r == bytes_lt(a@, b@),
{
    let mut i: usize = 0;
    assert(a@.subrange(0, a@.len() as int) =~= a@);
    assert(b@.subrange(0, b@.len() as int) =~= b@);
    while i < a.len() && i < b.len()
        invariant
            i <= a@.len(),
            i <= b@.len(),
            bytes_lt(a@, b@) == bytes_lt(a@.subrange(i as int, a@.len() as int), b@.subrange(i as int, b@.len() as int)),
        decreases a@.len() - i,
    {
        let ghost sa = a@.subrange(i as int, a@.len() as int);
        let ghost sb = b@.subrange(i as int, b@.len() as int);
        if a[i] < b[i] {
            assert(sa[0] == a@[i as int] && sb[0] == b@[i as int]);
            return true;
        }
        if a[i] > b[i] {
            assert(sa[0] == a@[i as int] && sb[0] == b@[i as int]);
            return false;
        }
        assert(sa.drop_first() =~= a@.subrange(i + 1, a@.len() as int));
        assert(sb.drop_first() =~= b@.subrange(i + 1, b@.len() as int));
        i = i + 1;
    }
    let ghost sa = a@.subrange(i as int, a@.len() as int);
    let ghost sb = b@.subrange(i as int, b@.len() as int);
    assert(sa.len() == 0 || sb.len() == 0);
    i == a.len() && i < b.len()
}

proof fn lemma_insert_at_first_greater(e: (Seq<u8>, Seq<u8>), s: Seq<(Seq<u8>, Seq<u8>)>, k: int)
    requires
        0 <= k <= s.len(),
        forall|j: int| 0 <= j < k ==> !bytes_lt(e.0, #[trigger] s[j].0),
        k < s.len() ==> bytes_lt(e.0, s[k].0),
    ensures
        insert_by_key(e, s) == s.subrange(0, k) + seq![e] + s.subrange(k, s.len() as int),
    decreases s.len(),
{
    if s.len() == 0 {
        assert(seq![e] =~= s.subrange(0, k) + seq![e] + s.subrange(k, s.len() as int));
    } else if k == 0 {
        assert(seq![e] + s =~= s.subrange(0, k) + seq![e] + s.subrange(k, s.len() as int));
    } else {
        let t = s.drop_first();
        assert forall|j: int| 0 <= j < k - 1 implies !bytes_lt(e.0, #[trigger] t[j].0) by {
            assert(t[j] == s[j + 1]);
        }
        if k < s.len() {
            assert(t[k - 1] == s[k]);
        }
        lemma_insert_at_first_greater(e, t, k - 1);
        assert(seq![s[0]] + (t.subrange(0, k - 1) + seq![e] + t.subrange(k - 1, t.len() as int))
            =~= s.subrange(0, k) + seq![e] + s.subrange(k, s.len() as int));
    }
}

fn insert_sorted(sorted: &mut Vec<(Vec<u8>, Vec<u8>)>, e: (Vec<u8>, Vec<u8>))
    ensures
        pairs_view(final(sorted)@) == insert_by_key((e.0@, e.1@), pairs_view(old(sorted)@)),
{
    let ghost ev = (e.0@, e.1@);
    let mut k: usize = 0;
    while k < sorted.len()
        invariant_except_break
            k <= sorted@.len(),
            ev == (e.0@, e.1@),
            forall|j: int| 0 <= j < k ==> !bytes_lt(ev.0, #[trigger] pairs_view(sorted@)[j].0),
        ensures
            k <= sorted@.len(),
            forall|j: int| 0 <= j < k ==> !bytes_lt(ev.0, #[trigger] pairs_view(sorted@)[j].0),
            k < sorted@.len() ==> bytes_lt(ev.0, pairs_view(sorted@)[k as int].0),
        decreases sorted@.len() - k,
    {
        let less = bytes_less(e.0.as_slice(), sorted[k].0.as_slice());
        assert(pairs_view(sorted@)[k as int].0 == sorted@[k as int].0@);
        if less {
            break;
        }
        k = k + 1;
    }
    let ghost before = pairs_view(sorted@);
    proof {
        lemma_insert_at_first_greater(ev, before, k as int);
    }
    sorted.insert(k, e);
    assert(pairs_view(sorted@) =~= before.subrange(0, k as int) + seq![ev] + before.subrange(k as int, before.len() as int));
}

fn join_with_commas(parts: &Vec<Vec<u8>>, out: &mut Vec<u8>)
    ensures
        final(out)@ == old(out)@ + join_commas(parts@.map_values(|p: Vec<u8>| p@)),
{
    let ghost start = out@;
    let ghost views = parts@.map_values(|p: Vec<u8>| p@);
    let mut i: usize = 0;
    assert(views.subrange(0, 0) =~= Seq::<Seq<u8>>::empty());
    assert(start + Seq::<u8>::empty() =~= start);
    while i < parts.len()
        invariant
            i <= parts@.len(),
            views == parts@.map_values(|p: Vec<u8>| p@),
            out@ == start + join_commas(views.subrange(0, i as int)),
        decreases parts@.len() - i,
    {
        let ghost next = views.subrange(0, i + 1);
        assert(next.drop_last() =~= views.subrange(0, i as int));
        assert(next.last() == parts@[i as int]@);
        if i > 0 {
            out.push(44u8);
        }
        crate::bytes::push_slice(out, parts[i].as_slice());
        proof {
            if i == 0 {
                assert(next.len() == 1);
                assert(out@ =~= start + join_commas(next));
            } else {
                assert(out@ =~= start + join_commas(next));
            }
        }
        i = i + 1;
    }
    assert(views.subrange(0, parts@.len() as int) =~= views);
}

fn utf8_bytes(s: &str) -> (r: Vec<u8>)
    ensures
        r@ == utf8(s@),
{
    crate::bytes::to_vec(s.as_bytes())
}

/// The canonical form of a JSON value.
#[verifier::loop_isolation(false)]
pub fn canonicalize_legacy(value: &JsonValue) -> (r: Vec<u8>)
    ensures
        r@ == canonical(*value),
    decreases *value,
{
    match value {
        JsonValue::Null => utf8_bytes("null"),
        JsonValue::Bool(b) => if *b { utf8_bytes("true") } else { utf8_bytes("false") },
        JsonValue::Number(n) => utf8_bytes(n.as_str()),
        JsonValue::String(text) => {
            let quoted = crate::codec::json_string(text.as_str());
            utf8_bytes(quoted.as_str())
        },
        JsonValue::Array(items) => {
            let mut parts: Vec<Vec<u8>> = Vec::new();
            let mut i: usize = 0;
            assert(items@.subrange(0, 0) =~= Seq::<JsonValue>::empty());
            while i < items.len()
                invariant
                    i <= items@.len(),
                    parts@.map_values(|p: Vec<u8>| p@) == canonical_items(items@.subrange(0, i as int)),
                decreases items@.len() - i,
            {
                let item = &items[i];
                proof {
                    assert(value->Array_0 == *items);
                    assert(decreases_to!(*value => value->Array_0));
                    assert(decreases_to!(value->Array_0 => value->Array_0@));
                    assert(decreases_to!(items@ => items@[i as int]));
                }
                let c = canonicalize_legacy(item);
                proof {
                    let next = items@.subrange(0, i + 1);
                    assert(next.subrange(0, i as int) =~= items@.subrange(0, i as int));
                    assert(next[i as int] == items@[i as int]);
                }
                parts.push(c);
                assert(parts@.map_values(|p: Vec<u8>| p@) =~= canonical_items(items@.subrange(0, i + 1)));
                i = i + 1;
            }
            assert(items@.subrange(0, items@.len() as int) =~= items@);
            let mut out: Vec<u8> = Vec::new();
            out.push(91u8);
            join_with_commas(&parts, &mut out);
            out.push(93u8);
            assert(out@ =~= seq![91u8] + join_commas(canonical_items(items@)) + seq![93u8]);
            out
        },
        JsonValue::Object(members) => {
            let mut sorted: Vec<(Vec<u8>, Vec<u8>)> = Vec::new();
            let mut i: usize = 0;
            assert(members@.subrange(0, 0) =~= Seq::<(String, JsonValue)>::empty());
            assert(pairs_view(sorted@) =~= sort_by_key(canonical_members(members@.subrange(0, 0))));
            while i < members.len()
                invariant
                    i <= members@.len(),
                    pairs_view(sorted@) == sort_by_key(canonical_members(members@.subrange(0, i as int))),
                decreases members@.len() - i,
            {
                let key: &str = members[i].0.as_str();
                let key_bytes = utf8_bytes(key);
                let quoted = crate::codec::json_string(key);
                let mut entry = utf8_bytes(quoted.as_str());
                entry.push(58u8);
                let member_value = &members[i].1;
                proof {
                    assert(value->Object_0 == *members);
                    assert(decreases_to!(*value => value->Object_0));
                    assert(decreases_to!(value->Object_0 => value->Object_0@));
                    assert(decreases_to!(members@ => members@[i as int]));
                    assert(decreases_to!(members@[i as int] => members@[i as int].1));
                }
                let c = canonicalize_legacy(member_value);
                crate::bytes::push_slice(&mut entry, c.as_slice());
                proof {
                    let next = members@.subrange(0, i + 1);
                    assert(next.subrange(0, i as int) =~= members@.subrange(0, i as int));
                    assert(next[i as int] == members@[i as int]);
                    let cm = canonical_members(next);
                    assert(cm.drop_last() =~= canonical_members(members@.subrange(0, i as int)));
                    assert(key_bytes@ == utf8(members@[i as int].0@));
                    assert(entry@ =~= utf8(json_quote(members@[i as int].0@)) + seq![58u8] + canonical(members@[i as int].1));
                    assert(cm.last() == (key_bytes@, entry@));
                }
                insert_sorted(&mut sorted, (key_bytes, entry));
                i = i + 1;
            }
            assert(members@.subrange(0, members@.len() as int) =~= members@);
            let mut texts: Vec<Vec<u8>> = Vec::new();
            let mut k: usize = 0;
            while k < sorted.len()
                invariant
                    k <= sorted@.len(),
                    texts@.len() == k,
                    forall|j: int| 0 <= j < k ==> #[trigger] texts@[j]@ == sorted@[j].1@,
                decreases sorted@.len() - k,
            {
                let t = crate::bytes::to_vec(sorted[k].1.as_slice());
                texts.push(t);
                k = k + 1;
            }
            assert(texts@.map_values(|p: Vec<u8>| p@) =~= pairs_view(sorted@).map_values(|e: (Seq<u8>, Seq<u8>)| e.1));
            let mut out: Vec<u8> = Vec::new();
            out.push(123u8);
            join_with_commas(&texts, &mut out);
            out.push(125u8);
            assert(out@ =~= seq![123u8] + join_commas(
                sort_by_key(canonical_members(members@)).map_values(|e: (Seq<u8>, Seq<u8>)| e.1),
            ) + seq![125u8]);
            out
        },
    }
}

/// The members of an object without those under `skip`.
pub open spec fn members_without(ms: Seq<(String, JsonValue)>, skip: Seq<char>) -> Seq<(String, JsonValue)>
    decreases ms.len(),
{
    if ms.len() == 0 {
        Seq::empty()
    } else {
        let prev = members_without(ms.drop_last(), skip);
        if ms.last().0@ == skip { prev } else { prev.push(ms.last()) }
    }
}

/// The canonical form of an object with the given members.
pub open spec fn canonical_object(ms: Seq<(String, JsonValue)>) -> Seq<u8> {
    seq![123u8] + join_commas(sort_by_key(canonical_members(ms)).map_values(|e: (Seq<u8>, Seq<u8>)| e.1)) + seq![125u8]
}

/// The canonical form of a value; where it is an object, without its members
/// under `skip`.
pub open spec fn canonical_without(v: JsonValue, skip: Seq<char>) -> Seq<u8> {
    match v {
        JsonValue::Object(ms) => canonical_object(members_without(ms@, skip)),
        _ => canonical(v),
    }
}

/// The canonical form of a value; where it is an object, its members under
/// `skip` are left out.
pub fn canonicalize_without(value: &JsonValue, skip: &str) -> (r: Vec<u8>)
    ensures
        r@ == canonical_without(*value, skip@),
{
    let members = match value {
        JsonValue::Object(members) => members,
        _ => return canonicalize_legacy(value),
    };
    let mut sorted: Vec<(Vec<u8>, Vec<u8>)> = Vec::new();
    let mut i: usize = 0;
    assert(members@.subrange(0, 0) =~= Seq::<(String, JsonValue)>::empty());
    assert(pairs_view(sorted@) =~= sort_by_key(canonical_members(members_without(members@.subrange(0, 0), skip@))));
    while i < members.len()
        invariant
            i <= members@.len(),
            pairs_view(sorted@) == sort_by_key(canonical_members(members_without(members@.subrange(0, i as int), skip@))),
        decreases members@.len() - i,
    {
        let key: &str = members[i].0.as_str();
        let ghost prev = members_without(members@.subrange(0, i as int), skip@);
        proof {
            let next = members@.subrange(0, i + 1);
            assert(next.drop_last() =~= members@.subrange(0, i as int));
            assert(next.last() == members@[i as int]);
        }
        if !crate::bytes::str_eq(key, skip) {
            let key_bytes = utf8_bytes(key);
            let quoted = crate::codec::json_string(key);
            let mut entry = utf8_bytes(quoted.as_str());
            entry.push(58u8);
            let c = canonicalize_legacy(&members[i].1);
            crate::bytes::push_slice(&mut entry, c.as_slice());
            proof {
                let grown = prev.push(members@[i as int]);
                let cm = canonical_members(grown);
                assert(grown.subrange(0, grown.len() - 1) =~= prev);
                assert(cm.drop_last() =~= canonical_members(prev));
                assert(entry@ =~= utf8(json_quote(members@[i as int].0@)) + seq![58u8] + canonical(members@[i as int].1));
                assert(cm.last() == (key_bytes@, entry@));
            }
            insert_sorted(&mut sorted, (key_bytes, entry));
        }
        i = i + 1;
    }
    assert(members@.subrange(0, members@.len() as int) =~= members@);
    let mut texts: Vec<Vec<u8>> = Vec::new();
    let mut k: usize = 0;
    while k < sorted.len()
        invariant
            k <= sorted@.len(),
            texts@.len() == k,
            forall|j: int| 0 <= j < k ==> #[trigger] texts@[j]@ == sorted@[j].1@,
        decreases sorted@.len() - k,
    {
        let t = crate::bytes::to_vec(sorted[k].1.as_slice());
        texts.push(t);
        k = k + 1;
    }
    assert(texts@.map_values(|p: Vec<u8>| p@) =~= pairs_view(sorted@).map_values(|e: (Seq<u8>, Seq<u8>)| e.1));
    let mut out: Vec<u8> = Vec::new();
    out.push(123u8);
    join_with_commas(&texts, &mut out);
    out.push(125u8);
    assert(out@ =~= canonical_object(members_without(members@, skip@)));
    out
}

} // verus!
